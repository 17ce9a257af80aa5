use std::collections::HashMap;
use minicon::container::{
    build_create_plan, child_actions, container_dir, instance_dir, proc_map_path, ChildAction,
    Container,
};
use minicon::idmap::format_id_mappings;
use minicon::oci::{
    ConsoleSize, Linux, Mapping, Namespace, NamespaceType, Process, Root, Spec, User,
};
use minicon::ErrorKind;

fn base_process(args: Vec<&str>) -> Process {
    Process {
        terminal: false,
        console_size: ConsoleSize { height: 0, width: 0 },
        cwd: "/".to_string(),
        env: vec!["PATH=/bin".to_string()],
        args: args.into_iter().map(|s| s.to_string()).collect(),
        rlimits: Vec::new(),
        apparmor_profile: String::new(),
        capabilities: Vec::new(),
        no_new_privileges: false,
        oom_score_adj: None,
        selinux_label: String::new(),
        user: User { uid: 0, gid: 0, additional_gids: Vec::new(), username: String::new() },
    }
}

fn base_linux(namespaces: Vec<Namespace>, uid: Vec<Mapping>, gid: Vec<Mapping>) -> Linux {
    Linux {
        namespaces,
        uid_mappings: uid,
        gid_mappings: gid,
        devices: Vec::new(),
        cgroup_path: String::new(),
        resources: None,
    }
}

fn base_spec(hostname: &str, rootfs: &str, linux: Option<Linux>, args: Vec<&str>) -> Spec {
    Spec {
        oci_version: "1.0.0".to_string(),
        root: Root { path: rootfs.to_string(), readonly: false },
        mounts: Vec::new(),
        process: base_process(args),
        hostname: hostname.to_string(),
        linux,
        hooks: None,
        annotations: HashMap::new(),
    }
}

fn ns(typ: NamespaceType, path: &str) -> Namespace {
    Namespace { typ, path: path.to_string() }
}

#[test]
fn container_handle_starts_without_pid() {
    let c = Container::new();
    assert_eq!(c.pid, 0);
}

#[test]
fn instance_paths_join_root_and_id() {
    assert_eq!(container_dir("/run/minicon", "abc"), "/run/minicon/abc");
    assert_eq!(instance_dir("/run/minicon", "abc"), "/run/minicon/abc");
}

#[test]
fn mapping_file_paths_name_the_child() {
    assert_eq!(proc_map_path(1234, false), "/proc/1234/uid_map");
    assert_eq!(proc_map_path(1234, true), "/proc/1234/gid_map");
}

#[test]
fn plan_for_uts_and_mount_namespaces() {
    // New UTS and mount namespaces, a rootfs to pivot into, a payload.
    let spec = base_spec(
        "box",
        "/tmp/rootfs",
        Some(base_linux(
            vec![ns(NamespaceType::uts, ""), ns(NamespaceType::mount, "")],
            Vec::new(),
            Vec::new(),
        )),
        vec!["/bin/true"],
    );
    let plan = build_create_plan(&spec).unwrap();
    assert!(plan.ns.creates.uts);
    assert!(plan.ns.creates.mount);
    assert!(!plan.ns.userns);
    assert!(!plan.pidns);
    assert!(plan.ns.joins.is_empty());
    assert_eq!(plan.hostname.as_deref(), Some("box"));
    assert_eq!(plan.rootfs.as_deref(), Some("/tmp/rootfs"));
    assert_eq!(plan.create_flag_bits, libc::CLONE_NEWUTS | libc::CLONE_NEWNS);
    assert_eq!(plan.args, vec!["/bin/true".to_string()]);
    assert_eq!(plan.cwd, "/");
}

#[test]
fn plan_for_user_namespace_with_one_uid_mapping() {
    let spec = base_spec(
        "",
        "/tmp/rootfs",
        Some(base_linux(
            vec![ns(NamespaceType::user, "")],
            vec![Mapping { container_id: 0, host_id: 1000, size: 1 }],
            Vec::new(),
        )),
        vec!["/bin/true"],
    );
    let plan = build_create_plan(&spec).unwrap();
    assert!(plan.ns.userns);
    assert_eq!(plan.create_flag_bits, 0);
    assert_eq!(plan.uid_mappings.len(), 1);
    // The exact bytes the parent writes into /proc/<pid>/uid_map.
    assert_eq!(format_id_mappings(&plan.uid_mappings), b"0 1000 1\n".to_vec());
    assert_eq!(format_id_mappings(&plan.gid_mappings), Vec::<u8>::new());
}

#[test]
fn plan_for_empty_namespace_list() {
    let spec = base_spec(
        "",
        "/tmp/rootfs",
        Some(base_linux(Vec::new(), Vec::new(), Vec::new())),
        vec!["/bin/true"],
    );
    let plan = build_create_plan(&spec).unwrap();
    assert_eq!(plan.create_flag_bits, 0);
    assert!(!plan.ns.userns);
    assert!(!plan.pidns);
    assert!(plan.ns.joins.is_empty());
    assert_eq!(plan.hostname, None);
    assert_eq!(plan.rootfs, None);
}

#[test]
fn plan_without_linux_section_requests_no_namespaces() {
    let spec = base_spec("", "/tmp/rootfs", None, vec!["/bin/true"]);
    let plan = build_create_plan(&spec).unwrap();
    assert_eq!(plan.create_flag_bits, 0);
    assert!(!plan.ns.userns);
    assert!(plan.ns.joins.is_empty());
    assert!(plan.uid_mappings.is_empty());
}

#[test]
fn plan_rejects_duplicate_namespace_kinds() {
    let spec = base_spec(
        "",
        "/",
        Some(base_linux(
            vec![ns(NamespaceType::pid, ""), ns(NamespaceType::pid, "/proc/1/ns/pid")],
            Vec::new(),
            Vec::new(),
        )),
        vec!["/bin/true"],
    );
    assert_eq!(build_create_plan(&spec).unwrap_err().kind(), ErrorKind::Invalid);
}

#[test]
fn plan_rejects_empty_command() {
    let spec = base_spec("", "/", None, Vec::new());
    assert_eq!(build_create_plan(&spec).unwrap_err().kind(), ErrorKind::Invalid);
}

#[test]
fn plan_records_pid_namespace_for_second_fork() {
    let spec = base_spec(
        "",
        "/",
        Some(base_linux(vec![ns(NamespaceType::pid, "")], Vec::new(), Vec::new())),
        vec!["/bin/true"],
    );
    let plan = build_create_plan(&spec).unwrap();
    assert!(plan.pidns);
    assert_eq!(plan.create_flag_bits, libc::CLONE_NEWPID);
}

#[test]
fn child_actions_follow_the_protocol_order() {
    let mut spec = base_spec(
        "",
        "/tmp/rootfs",
        Some(base_linux(
            vec![ns(NamespaceType::user, "")],
            vec![Mapping { container_id: 0, host_id: 1000, size: 1 }],
            Vec::new(),
        )),
        vec!["/bin/true"],
    );
    spec.process.oom_score_adj = Some(-1);
    let plan = build_create_plan(&spec).unwrap();
    let actions = child_actions(&plan);
    // The user namespace is unshared first of all: the privilege-dependent
    // adjustments run inside it, and readiness is signalled only afterwards.
    assert_eq!(
        actions,
        vec![
            ChildAction::UnshareUserNamespace,
            ChildAction::AdjustOomScore(-1),
            ChildAction::ApplyResourceLimits,
            ChildAction::NotifyReady,
            ChildAction::AwaitRelease,
            ChildAction::JoinNamespaces,
            ChildAction::UnshareCreateSet,
            ChildAction::ConfigureAndAwaitStart,
            ChildAction::ExecPayload,
        ],
    );
}

#[test]
fn child_actions_include_the_conditional_steps() {
    let mut spec = base_spec(
        "",
        "/",
        Some(base_linux(vec![ns(NamespaceType::pid, "")], Vec::new(), Vec::new())),
        vec!["/bin/true"],
    );
    spec.process.oom_score_adj = Some(-500);
    let plan = build_create_plan(&spec).unwrap();
    let actions = child_actions(&plan);
    assert_eq!(actions[0], ChildAction::AdjustOomScore(-500));
    // The second fork comes only with a new PID namespace, after the
    // combined unshare.
    let unshare_at = actions.iter().position(|a| *a == ChildAction::UnshareCreateSet).unwrap();
    let pid_one_at = actions.iter().position(|a| *a == ChildAction::BecomePidOne).unwrap();
    assert!(unshare_at < pid_one_at);
    assert_eq!(*actions.last().unwrap(), ChildAction::ExecPayload);
}
