use std::time::{SystemTime, UNIX_EPOCH};
use minicon::container::{create_instance_dir, open_join_handles, start_instance, state_instance};
use minicon::oci::{Namespace, NamespaceType};
use minicon::mount::do_pivot_root;
use minicon::pipe::Pipe;
use minicon::socket::send_start_trigger;
use minicon::{Error, ErrorKind};

fn unique_id(tag: &str) -> String {
    let nanos = SystemTime::now().duration_since(UNIX_EPOCH).unwrap().as_nanos();
    format!("minicon-test-{}-{}", tag, nanos)
}

#[test]
fn error_carries_kind_and_errno() {
    let e = Error::new(ErrorKind::Io);
    assert_eq!(e.kind(), ErrorKind::Io);
    assert_eq!(e.os_errno(), 0);
    let e = Error::with_errno(ErrorKind::Nix, 17);
    assert_eq!(e.kind(), ErrorKind::Nix);
    assert_eq!(e.os_errno(), 17);
    assert_eq!(e.operation(), "");
}

#[test]
fn errors_name_the_failed_operation() {
    let r = send_start_trigger("/tmp/minicon-no-listener");
    let e = r.unwrap_err();
    assert_eq!(e.kind(), ErrorKind::Nix);
    assert_eq!(e.operation(), "connect");
    assert!(e.os_errno() != 0);
}

#[test]
fn barrier_wait_returns_on_end_of_file() {
    // In a single process the only write end is the barrier's own, which
    // `wait` closes first — so the read observes end of file at once.
    let p = Pipe::new().unwrap();
    assert!(p.wait().is_ok());
}

#[test]
fn barrier_notify_closes_both_ends() {
    let p = Pipe::new().unwrap();
    assert!(p.notify().is_ok());
}

#[test]
fn instance_dir_can_be_created_once_only() {
    let id = unique_id("gate");
    let first = create_instance_dir("/tmp", &id);
    assert_eq!(first.unwrap(), format!("/tmp/{}", id));
    // The existence of the directory is the "already exists" check: a second
    // create with the same id fails before anything else would happen.
    let second = create_instance_dir("/tmp", &id);
    assert_eq!(second.unwrap_err().kind(), ErrorKind::Nix);
}

#[test]
fn start_of_unknown_instance_fails() {
    let id = unique_id("absent");
    let r = start_instance(&id, "/tmp");
    assert_eq!(r.unwrap_err().kind(), ErrorKind::Nix);
}

#[test]
fn start_without_listener_fails_at_the_socket() {
    let id = unique_id("nosock");
    create_instance_dir("/tmp", &id).unwrap();
    // The directory exists but no container process listens on its control
    // socket: the connect must fail.
    let r = start_instance(&id, "/tmp");
    assert_eq!(r.unwrap_err().kind(), ErrorKind::Nix);
}

#[test]
fn state_reports_existence_by_directory() {
    let id = unique_id("state");
    assert!(state_instance(&id, "/tmp").is_err());
    create_instance_dir("/tmp", &id).unwrap();
    assert!(state_instance(&id, "/tmp").is_ok());
}

#[test]
fn trigger_to_missing_socket_fails() {
    let r = send_start_trigger("/tmp/minicon-no-such-socket");
    assert_eq!(r.unwrap_err().kind(), ErrorKind::Nix);
}

#[test]
fn pivot_to_missing_directory_fails() {
    let r = do_pivot_root("/nonexistent-minicon-rootfs");
    assert_eq!(r.unwrap_err().kind(), ErrorKind::Nix);
}

#[test]
fn join_handles_are_opened_before_the_fork() {
    let joins = vec![Namespace {
        typ: NamespaceType::uts,
        path: "/proc/self/ns/uts".to_string(),
    }];
    let handles = open_join_handles(&joins).unwrap();
    assert_eq!(handles.len(), 1);
    assert!(handles[0].0 >= 0);
    assert_eq!(handles[0].1, libc::CLONE_NEWUTS);
    let _ = nix::unistd::close(handles[0].0);
}

#[test]
fn join_handles_fail_on_a_missing_namespace_file() {
    let joins = vec![Namespace {
        typ: NamespaceType::network,
        path: "/nonexistent-minicon-ns".to_string(),
    }];
    let e = open_join_handles(&joins).unwrap_err();
    assert_eq!(e.kind(), ErrorKind::Nix);
    assert_eq!(e.operation(), "open");
}
