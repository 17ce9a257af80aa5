use minicon::ns::{classify_namespaces, create_bits, kind_clone_bits, CreateSet};
use minicon::oci::{Namespace, NamespaceType};
use minicon::ErrorKind;

fn ns(typ: NamespaceType, path: &str) -> Namespace {
    Namespace { typ, path: path.to_string() }
}

#[test]
fn empty_request_list_creates_nothing() {
    let plan = classify_namespaces(&Vec::new()).unwrap();
    assert_eq!(plan.creates, CreateSet::empty());
    assert!(!plan.userns);
    assert!(plan.joins.is_empty());
}

#[test]
fn empty_paths_accumulate_create_flags() {
    let plan = classify_namespaces(&vec![
        ns(NamespaceType::uts, ""),
        ns(NamespaceType::mount, ""),
    ])
    .unwrap();
    assert!(plan.creates.uts);
    assert!(plan.creates.mount);
    assert!(!plan.creates.pid);
    assert!(!plan.creates.network);
    assert!(!plan.creates.ipc);
    assert!(!plan.creates.cgroup);
    assert!(!plan.userns);
    assert!(plan.joins.is_empty());
}

#[test]
fn user_namespace_is_kept_apart() {
    let plan = classify_namespaces(&vec![
        ns(NamespaceType::user, ""),
        ns(NamespaceType::pid, ""),
    ])
    .unwrap();
    assert!(plan.userns);
    assert!(plan.creates.pid);
    // `user` never joins the combined create set.
    assert_eq!(create_bits(&plan.creates) & libc::CLONE_NEWUSER, 0);
}

#[test]
fn nonempty_paths_queue_deferred_joins_in_order() {
    let plan = classify_namespaces(&vec![
        ns(NamespaceType::network, "/proc/1/ns/net"),
        ns(NamespaceType::uts, ""),
        ns(NamespaceType::pid, "/proc/1/ns/pid"),
    ])
    .unwrap();
    // Every non-empty-path request is deferred, the pid kind included.
    assert_eq!(plan.joins.len(), 2);
    assert_eq!(plan.joins[0].typ, NamespaceType::network);
    assert_eq!(plan.joins[0].path, "/proc/1/ns/net");
    assert_eq!(plan.joins[1].typ, NamespaceType::pid);
    assert_eq!(plan.joins[1].path, "/proc/1/ns/pid");
    assert!(plan.creates.uts);
    assert!(!plan.creates.network);
    assert!(!plan.creates.pid);
}

#[test]
fn duplicate_kind_is_rejected() {
    let r = classify_namespaces(&vec![
        ns(NamespaceType::uts, ""),
        ns(NamespaceType::uts, "/proc/1/ns/uts"),
    ]);
    assert_eq!(r.unwrap_err().kind(), ErrorKind::Invalid);
}

#[test]
fn kind_bits_match_the_kernel_constants() {
    assert_eq!(kind_clone_bits(NamespaceType::pid), libc::CLONE_NEWPID);
    assert_eq!(kind_clone_bits(NamespaceType::network), libc::CLONE_NEWNET);
    assert_eq!(kind_clone_bits(NamespaceType::mount), libc::CLONE_NEWNS);
    assert_eq!(kind_clone_bits(NamespaceType::ipc), libc::CLONE_NEWIPC);
    assert_eq!(kind_clone_bits(NamespaceType::uts), libc::CLONE_NEWUTS);
    assert_eq!(kind_clone_bits(NamespaceType::user), libc::CLONE_NEWUSER);
    assert_eq!(kind_clone_bits(NamespaceType::cgroup), libc::CLONE_NEWCGROUP);
}

#[test]
fn create_bits_combine_exactly_the_requested_kinds() {
    let mut c = CreateSet::empty();
    assert_eq!(create_bits(&c), 0);
    c.uts = true;
    c.mount = true;
    assert_eq!(create_bits(&c), libc::CLONE_NEWUTS | libc::CLONE_NEWNS);
}
