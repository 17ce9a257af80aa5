//! The namespace orchestrator: turns a runtime specification into a create
//! plan — the classified namespace requests plus everything the forked child
//! and its parent need — and provides the verified steps that the process
//! driver executes around the two forks.
//!
//! Ordering contract (who runs what, in which order):
//! 1. the parent builds the plan and forks;
//! 2. the child unshares the user namespace first if one was requested
//!    (before any privilege-dependent setup — creating it grants the full
//!    capability set inside it), then adjusts itself (oom score, resource
//!    limits), notifies readiness, and blocks;
//! 3. the parent writes the ID mappings (only then may the child gain its
//!    in-namespace privileges), records cgroup mounts, notifies, and exits;
//! 4. the child joins the queued namespaces through handles opened before
//!    the fork, unshares the combined create set in one call, forks once
//!    more if a new PID namespace was created,
//!    sets the hostname, pivots the root, starts a session, and blocks on
//!    the start trigger before handing off to the payload.

use vstd::prelude::*;
use vstd::string::StringExecFns;
use crate::cgroup;
use crate::error::{Error, ErrorKind};
use crate::idmap::{dec_digits, dec_string, i64_dec_bytes, write_id_mappings};
use crate::bytes::ascii_chars;
use crate::mount::do_pivot_root;
use crate::ns::{
    classify_namespaces, create_bits, create_set_matches, has_duplicate_kind, join_requests,
    kind_bits, kind_clone_bits, requests_create, spec_create_bits, CreateSet, NsPlan,
};
use crate::oci::{Mapping, Namespace, NamespaceType, Spec};
use crate::pipe::Pipe;
use crate::socket::{await_start_trigger, send_start_trigger};
use crate::sys::{sys_chdir, sys_close, sys_mkdir, sys_open, sys_setns, sys_sethostname,
    sys_setsid, sys_unshare, sys_write, OPEN_WRONLY};

verus! {

/// The path of the control socket, inside the instance directory.
pub const TRIGGER_SOCKET: &'static str = "endpoint";

/// A handle on one container instance, as the command dispatch sees it.
#[derive(Debug)]
pub struct Container {
    pub pid: i32,
}

impl Container {
    /// A fresh handle, before any process exists.
    pub fn new() -> (c: Container)
        ensures
            c.pid == 0,
    {
        Container { pid: 0 }
    }
}

/// The operations of the command boundary, dispatched once per invocation.
/// The driver around the library implements them; the verified pieces they
/// are built from live below.
pub trait Operation {
    fn create(&mut self, container_id: &str, bundle: &str, root: &str) -> Result<(), Error>;

    fn start(&mut self, container_id: &str, root: &str) -> Result<(), Error>;

    fn state(&mut self, container_id: &str, root: &str) -> Result<(), Error>;

    fn kill(&mut self, container_id: &str, root: &str, signal: &str) -> Result<(), Error>;

    fn delete(&mut self, container_id: &str, root: &str) -> Result<(), Error>;
}

/// `<root>/<id>`.
pub open spec fn dir_path(root: Seq<char>, id: Seq<char>) -> Seq<char> {
    root + "/"@ + id
}

/// The directory of one container instance under the runtime's state root.
pub fn container_dir(root: &str, id: &str) -> (d: String)
    ensures
        d@ == dir_path(root@, id@),
{
    let mut s = String::from_str(root);
    s.append("/");
    s.append(id);
    s
}

/// The instance directory of `id` under `state_dir` — the same path rule as
/// `container_dir`, named from the caller's side.
pub fn instance_dir(state_dir: &str, id: &str) -> (d: String)
    ensures
        d@ == dir_path(state_dir@, id@),
{
    container_dir(state_dir, id)
}

/// The namespace requests of a specification; none when the Linux section is
/// absent.
pub open spec fn spec_namespaces(s: Spec) -> Seq<Namespace> {
    if s.linux is Some {
        s.linux->Some_0.namespaces@
    } else {
        Seq::<Namespace>::empty()
    }
}

/// The UID mapping ranges of a specification.
pub open spec fn spec_uid_mappings(s: Spec) -> Seq<Mapping> {
    if s.linux is Some {
        s.linux->Some_0.uid_mappings@
    } else {
        Seq::<Mapping>::empty()
    }
}

/// The GID mapping ranges of a specification.
pub open spec fn spec_gid_mappings(s: Spec) -> Seq<Mapping> {
    if s.linux is Some {
        s.linux->Some_0.gid_mappings@
    } else {
        Seq::<Mapping>::empty()
    }
}

/// Everything one create operation decides up front: the classified
/// namespace requests, the values carried to the child and parent sides, and
/// the payload handoff.
#[derive(Debug)]
pub struct CreatePlan {
    /// The classified namespace requests.
    pub ns: NsPlan,
    /// The combined clone-flag bits for the single unshare call.
    pub create_flag_bits: i32,
    /// Whether a new PID namespace is among the created kinds, forcing the
    /// second fork.
    pub pidns: bool,
    /// The hostname to set — present exactly when a new UTS namespace is
    /// created.
    pub hostname: Option<String>,
    /// The root path to pivot into — present exactly when a new mount
    /// namespace is created.
    pub rootfs: Option<String>,
    /// UID mapping ranges for a new user namespace, in specification order.
    pub uid_mappings: Vec<Mapping>,
    /// GID mapping ranges, in specification order.
    pub gid_mappings: Vec<Mapping>,
    /// The child's oom-score adjustment, where the specification gives one.
    pub oom_score_adj: Option<i64>,
    /// The payload's working directory.
    pub cwd: String,
    /// The payload command; its first entry is both program and argv[0].
    pub args: Vec<String>,
    /// The payload environment, `KEY=VALUE` entries.
    pub env: Vec<String>,
}

fn clone_strings(v: &Vec<String>) -> (r: Vec<String>)
    ensures
        r@ == v@,
{
    let mut r: Vec<String> = Vec::new();
    let mut i: usize = 0;
    while i < v.len()
        invariant
            0 <= i <= v@.len(),
            r@ == v@.take(i as int),
        decreases v@.len() - i,
    {
        r.push(v[i].clone());
        proof {
            assert(r@ =~= v@.take(i as int + 1));
        }
        i += 1;
    }
    proof {
        assert(v@.take(v@.len() as int) =~= v@);
    }
    r
}

fn clone_mappings(v: &Vec<Mapping>) -> (r: Vec<Mapping>)
    ensures
        r@ == v@,
{
    let mut r: Vec<Mapping> = Vec::new();
    let mut i: usize = 0;
    while i < v.len()
        invariant
            0 <= i <= v@.len(),
            r@ == v@.take(i as int),
        decreases v@.len() - i,
    {
        r.push(v[i]);
        proof {
            assert(r@ =~= v@.take(i as int + 1));
        }
        i += 1;
    }
    proof {
        assert(v@.take(v@.len() as int) =~= v@);
    }
    r
}

/// Builds the create plan for one specification: classifies the namespace
/// list (rejecting duplicate kinds), derives the combined clone flags,
/// records hostname and rootfs exactly for the kinds created new, and copies
/// the mapping ranges and the payload command.  A specification whose
/// command is empty is rejected — there would be nothing to exec.
pub fn build_create_plan(spec: &Spec) -> (r: Result<CreatePlan, Error>)
    ensures
        r is Ok <==> !has_duplicate_kind(spec_namespaces(*spec)) && spec.process.args@.len() > 0,
        r matches Err(e) ==> e.kind == ErrorKind::Invalid,
        r matches Ok(plan) ==> {
            &&& create_set_matches(spec_namespaces(*spec), plan.ns.creates)
            &&& plan.ns.userns == requests_create(spec_namespaces(*spec), NamespaceType::user)
            &&& plan.ns.joins@ == join_requests(spec_namespaces(*spec))
            &&& plan.create_flag_bits == spec_create_bits(plan.ns.creates)
            &&& plan.pidns == plan.ns.creates.pid
            &&& plan.hostname == (if plan.ns.creates.uts {
                Some(spec.hostname)
            } else {
                None::<String>
            })
            &&& plan.rootfs == (if plan.ns.creates.mount {
                Some(spec.root.path)
            } else {
                None::<String>
            })
            &&& plan.uid_mappings@ == spec_uid_mappings(*spec)
            &&& plan.gid_mappings@ == spec_gid_mappings(*spec)
            &&& plan.oom_score_adj == spec.process.oom_score_adj
            &&& plan.cwd == spec.process.cwd
            &&& plan.args@ == spec.process.args@
            &&& plan.env@ == spec.process.env@
        },
{
    if spec.process.args.len() == 0 {
        return Err(Error::new(ErrorKind::Invalid));
    }

    let empty_nss: Vec<Namespace> = Vec::new();
    let classified = match &spec.linux {
        Some(linux) => classify_namespaces(&linux.namespaces),
        None => {
            proof {
                assert(empty_nss@ =~= spec_namespaces(*spec));
            }
            classify_namespaces(&empty_nss)
        },
    };
    let ns = match classified {
        Ok(ns) => ns,
        Err(e) => { return Err(e); },
    };

    let flag_bits = create_bits(&ns.creates);
    let pidns = ns.creates.pid;
    let hostname = if ns.creates.uts {
        Some(spec.hostname.clone())
    } else {
        None
    };
    let rootfs = if ns.creates.mount {
        Some(spec.root.path.clone())
    } else {
        None
    };
    let (uid_mappings, gid_mappings) = match &spec.linux {
        Some(linux) => (clone_mappings(&linux.uid_mappings), clone_mappings(&linux.gid_mappings)),
        None => (Vec::new(), Vec::new()),
    };
    Ok(
        CreatePlan {
            ns,
            create_flag_bits: flag_bits,
            pidns,
            hostname,
            rootfs,
            uid_mappings,
            gid_mappings,
            oom_score_adj: spec.process.oom_score_adj,
            cwd: spec.process.cwd.clone(),
            args: clone_strings(&spec.process.args),
            env: clone_strings(&spec.process.env),
        },
    )
}

/// One pending operation of the forked child, to be performed strictly in
/// sequence order.  The sequence is built before the fork and consumed after
/// it; the driver executes each action in turn.
#[derive(Clone, Copy, Debug, PartialEq, Eq, Structural)]
pub enum ChildAction {
    /// Write the oom-score adjustment into the child's own proc file.
    AdjustOomScore(i64),
    /// Apply the specification's resource limits.
    ApplyResourceLimits,
    /// Unshare the new user namespace — first of all, ahead of every
    /// privilege-dependent step and of everything the parent's mapping
    /// write must govern.
    UnshareUserNamespace,
    /// Signal readiness on the barrier towards the parent.
    NotifyReady,
    /// Block until the parent has written the ID mappings and notified.
    AwaitRelease,
    /// Join the queued existing namespaces through the handles opened
    /// before the fork, in specification order.
    JoinNamespaces,
    /// Unshare the combined create set in one syscall.
    UnshareCreateSet,
    /// Fork once more and let the intermediate process exit, so the child
    /// becomes PID 1 of the new PID namespace.
    BecomePidOne,
    /// Hostname, pivot, session, and the blocking start handshake.
    ConfigureAndAwaitStart,
    /// Replace the process image with the payload.
    ExecPayload,
}

/// The child's whole sequence for a given plan, in the order the protocol
/// demands.
pub open spec fn child_action_seq(plan: CreatePlan) -> Seq<ChildAction> {
    (if plan.ns.userns {
        seq![ChildAction::UnshareUserNamespace]
    } else {
        Seq::<ChildAction>::empty()
    }) + (match plan.oom_score_adj {
        Some(adj) => seq![ChildAction::AdjustOomScore(adj)],
        None => Seq::<ChildAction>::empty(),
    }) + seq![ChildAction::ApplyResourceLimits] + seq![
        ChildAction::NotifyReady,
        ChildAction::AwaitRelease,
        ChildAction::JoinNamespaces,
        ChildAction::UnshareCreateSet,
    ] + (if plan.pidns {
        seq![ChildAction::BecomePidOne]
    } else {
        Seq::<ChildAction>::empty()
    }) + seq![ChildAction::ConfigureAndAwaitStart, ChildAction::ExecPayload]
}

/// Builds the child's ordered action list for this plan.
pub fn child_actions(plan: &CreatePlan) -> (v: Vec<ChildAction>)
    ensures
        v@ == child_action_seq(*plan),
{
    let mut v: Vec<ChildAction> = Vec::new();
    if plan.ns.userns {
        v.push(ChildAction::UnshareUserNamespace);
    }
    match plan.oom_score_adj {
        Some(adj) => { v.push(ChildAction::AdjustOomScore(adj)); },
        None => (),
    }
    v.push(ChildAction::ApplyResourceLimits);
    v.push(ChildAction::NotifyReady);
    v.push(ChildAction::AwaitRelease);
    v.push(ChildAction::JoinNamespaces);
    v.push(ChildAction::UnshareCreateSet);
    if plan.pidns {
        v.push(ChildAction::BecomePidOne);
    }
    v.push(ChildAction::ConfigureAndAwaitStart);
    v.push(ChildAction::ExecPayload);
    proof {
        assert(v@ =~= child_action_seq(*plan));
    }
    v
}

/// Whether every occurrence of `a` in `s` stands before every occurrence of
/// `b`.
pub open spec fn comes_before(s: Seq<ChildAction>, a: ChildAction, b: ChildAction) -> bool {
    forall|i: int, j: int|
        0 <= i < s.len() && 0 <= j < s.len() && s[i] == a && s[j] == b ==> i < j
}

/// The ordering contract of the fork protocol, proved of every plan's child
/// sequence: the process adjusts itself before unsharing the user
/// namespace; the user namespace is unshared before readiness is signalled,
/// so the parent's mapping write governs it; the release is awaited before
/// any namespace is joined; every join precedes the combined unshare,
/// because joining and creating the same kind are mutually exclusive; the
/// PID-namespace fork follows the combined unshare; configuration and the
/// start handshake come next; the payload handoff is always last.
pub proof fn lemma_child_sequence_order(plan: CreatePlan)
    ensures
        ({
            let s = child_action_seq(plan);
            &&& s.contains(ChildAction::NotifyReady)
            &&& s.contains(ChildAction::AwaitRelease)
            &&& s.contains(ChildAction::JoinNamespaces)
            &&& s.contains(ChildAction::UnshareCreateSet)
            &&& s.contains(ChildAction::ConfigureAndAwaitStart)
            &&& s.contains(ChildAction::UnshareUserNamespace) <==> plan.ns.userns
            &&& s.contains(ChildAction::BecomePidOne) <==> plan.pidns
            &&& s.last() == ChildAction::ExecPayload
            &&& comes_before(s, ChildAction::UnshareUserNamespace, ChildAction::ApplyResourceLimits)
            &&& plan.oom_score_adj matches Some(adj) ==> comes_before(
                s,
                ChildAction::UnshareUserNamespace,
                ChildAction::AdjustOomScore(adj),
            )
            &&& comes_before(s, ChildAction::ApplyResourceLimits, ChildAction::NotifyReady)
            &&& comes_before(s, ChildAction::UnshareUserNamespace, ChildAction::NotifyReady)
            &&& comes_before(s, ChildAction::NotifyReady, ChildAction::AwaitRelease)
            &&& comes_before(s, ChildAction::AwaitRelease, ChildAction::JoinNamespaces)
            &&& comes_before(s, ChildAction::JoinNamespaces, ChildAction::UnshareCreateSet)
            &&& comes_before(s, ChildAction::UnshareCreateSet, ChildAction::BecomePidOne)
            &&& comes_before(s, ChildAction::UnshareCreateSet, ChildAction::ConfigureAndAwaitStart)
            &&& comes_before(s, ChildAction::ConfigureAndAwaitStart, ChildAction::ExecPayload)
        }),
{
    let s = child_action_seq(plan);
    if plan.oom_score_adj is Some {
        if plan.ns.userns {
            if plan.pidns {
                assert(s =~= seq![
                    ChildAction::UnshareUserNamespace,
                    ChildAction::AdjustOomScore(plan.oom_score_adj->Some_0),
                    ChildAction::ApplyResourceLimits,
                    ChildAction::NotifyReady,
                    ChildAction::AwaitRelease,
                    ChildAction::JoinNamespaces,
                    ChildAction::UnshareCreateSet,
                    ChildAction::BecomePidOne,
                    ChildAction::ConfigureAndAwaitStart,
                    ChildAction::ExecPayload,
                ]);
            } else {
                assert(s =~= seq![
                    ChildAction::UnshareUserNamespace,
                    ChildAction::AdjustOomScore(plan.oom_score_adj->Some_0),
                    ChildAction::ApplyResourceLimits,
                    ChildAction::NotifyReady,
                    ChildAction::AwaitRelease,
                    ChildAction::JoinNamespaces,
                    ChildAction::UnshareCreateSet,
                    ChildAction::ConfigureAndAwaitStart,
                    ChildAction::ExecPayload,
                ]);
            }
        } else {
            if plan.pidns {
                assert(s =~= seq![
                    ChildAction::AdjustOomScore(plan.oom_score_adj->Some_0),
                    ChildAction::ApplyResourceLimits,
                    ChildAction::NotifyReady,
                    ChildAction::AwaitRelease,
                    ChildAction::JoinNamespaces,
                    ChildAction::UnshareCreateSet,
                    ChildAction::BecomePidOne,
                    ChildAction::ConfigureAndAwaitStart,
                    ChildAction::ExecPayload,
                ]);
            } else {
                assert(s =~= seq![
                    ChildAction::AdjustOomScore(plan.oom_score_adj->Some_0),
                    ChildAction::ApplyResourceLimits,
                    ChildAction::NotifyReady,
                    ChildAction::AwaitRelease,
                    ChildAction::JoinNamespaces,
                    ChildAction::UnshareCreateSet,
                    ChildAction::ConfigureAndAwaitStart,
                    ChildAction::ExecPayload,
                ]);
            }
        }
    } else {
        if plan.ns.userns {
            if plan.pidns {
                assert(s =~= seq![
                    ChildAction::UnshareUserNamespace,
                    ChildAction::ApplyResourceLimits,
                    ChildAction::NotifyReady,
                    ChildAction::AwaitRelease,
                    ChildAction::JoinNamespaces,
                    ChildAction::UnshareCreateSet,
                    ChildAction::BecomePidOne,
                    ChildAction::ConfigureAndAwaitStart,
                    ChildAction::ExecPayload,
                ]);
            } else {
                assert(s =~= seq![
                    ChildAction::UnshareUserNamespace,
                    ChildAction::ApplyResourceLimits,
                    ChildAction::NotifyReady,
                    ChildAction::AwaitRelease,
                    ChildAction::JoinNamespaces,
                    ChildAction::UnshareCreateSet,
                    ChildAction::ConfigureAndAwaitStart,
                    ChildAction::ExecPayload,
                ]);
            }
        } else {
            if plan.pidns {
                assert(s =~= seq![
                    ChildAction::ApplyResourceLimits,
                    ChildAction::NotifyReady,
                    ChildAction::AwaitRelease,
                    ChildAction::JoinNamespaces,
                    ChildAction::UnshareCreateSet,
                    ChildAction::BecomePidOne,
                    ChildAction::ConfigureAndAwaitStart,
                    ChildAction::ExecPayload,
                ]);
            } else {
                assert(s =~= seq![
                    ChildAction::ApplyResourceLimits,
                    ChildAction::NotifyReady,
                    ChildAction::AwaitRelease,
                    ChildAction::JoinNamespaces,
                    ChildAction::UnshareCreateSet,
                    ChildAction::ConfigureAndAwaitStart,
                    ChildAction::ExecPayload,
                ]);
            }
        }
    }
}

/// Writes the child's oom-score adjustment into its own proc file; a write
/// that accepts fewer bytes than the value's spelling is a failure.
pub fn child_write_oom(adj: i64) -> (r: Result<(), Error>)
    ensures
        r matches Err(e) ==> e.kind == ErrorKind::Nix,
{
    let data = i64_dec_bytes(adj);
    let fd = match sys_open("/proc/self/oom_score_adj", OPEN_WRONLY) {
        Ok(fd) => fd,
        Err(e) => { return Err(e); },
    };
    match sys_write(fd, data.as_slice()) {
        Ok(n) => {
            if n < data.len() {
                let _ = sys_close(fd);
                return Err(Error::in_op(ErrorKind::Nix, 0, "write"));
            }
        },
        Err(e) => {
            let _ = sys_close(fd);
            return Err(e);
        },
    }
    sys_close(fd)
}

/// Unshares a new user namespace for the calling process — run in the child
/// before anything privilege-dependent, and before the parent writes the ID
/// mappings.
pub fn unshare_user_namespace() -> (r: Result<(), Error>)
    ensures
        r matches Err(e) ==> e.kind == ErrorKind::Nix,
{
    sys_unshare(crate::ns::CLONE_NEWUSER_BITS)
}

/// Opens a handle to every queued namespace file, in specification order —
/// before the fork, while the process still has the caller's credentials.
/// Each handle is paired with the clone-flag bit of its request's kind, for
/// the deferred join in the child.  On a failure every handle opened so far
/// is released.
pub fn open_join_handles(joins: &Vec<Namespace>) -> (r: Result<Vec<(i32, i32)>, Error>)
    ensures
        r matches Ok(hs) ==> {
            &&& hs@.len() == joins@.len()
            &&& forall|i: int| 0 <= i < hs@.len() ==> hs@[i].1 == kind_bits(joins@[i].typ)
        },
        r matches Err(e) ==> e.kind == ErrorKind::Nix,
{
    let mut handles: Vec<(i32, i32)> = Vec::new();
    let mut i: usize = 0;
    while i < joins.len()
        invariant
            0 <= i <= joins@.len(),
            handles@.len() == i,
            forall|k: int| 0 <= k < i ==> handles@[k].1 == kind_bits(joins@[k].typ),
        decreases joins@.len() - i,
    {
        match sys_open(joins[i].path.as_str(), 0) {
            Ok(fd) => {
                handles.push((fd, kind_clone_bits(joins[i].typ)));
            },
            Err(e) => {
                let mut j: usize = 0;
                while j < handles.len()
                    invariant
                        0 <= j <= handles@.len(),
                    decreases handles@.len() - j,
                {
                    let _ = sys_close(handles[j].0);
                    j += 1;
                }
                return Err(e);
            },
        }
        i += 1;
    }
    Ok(handles)
}

/// Joins every queued namespace through its pre-opened handle, in order,
/// closing each descriptor after use.  Runs in the child, strictly before
/// the combined unshare: joining an existing namespace and creating a new
/// one of the same kind are mutually exclusive for that slot.
pub fn child_apply_joins(handles: &Vec<(i32, i32)>) -> (r: Result<(), Error>)
    ensures
        r matches Err(e) ==> e.kind == ErrorKind::Nix,
{
    let mut i: usize = 0;
    while i < handles.len()
        invariant
            0 <= i <= handles@.len(),
        decreases handles@.len() - i,
    {
        match sys_setns(handles[i].0, handles[i].1) {
            Ok(()) => (),
            Err(e) => {
                let _ = sys_close(handles[i].0);
                return Err(e);
            },
        }
        match sys_close(handles[i].0) {
            Ok(()) => (),
            Err(e) => { return Err(e); },
        }
        i += 1;
    }
    Ok(())
}

/// Unshares the combined create set in a single syscall — one call, so that
/// the created namespaces (notably mount) become visible to the process
/// atomically.
pub fn child_unshare_creates(creates: &CreateSet) -> (r: Result<(), Error>)
    ensures
        r matches Err(e) ==> e.kind == ErrorKind::Nix,
{
    sys_unshare(create_bits(creates))
}

/// The child's final setup: hostname for a new UTS namespace, pivot into the
/// canonicalized root for a new mount namespace, a fresh session, then the
/// blocking start handshake, and the payload's working directory.
/// `rootfs` is the canonicalized form of the plan's root path; the caller
/// resolves it and must pass it exactly when the plan asks for a pivot.
pub fn child_configure(plan: &CreatePlan, rootfs: Option<&str>) -> (r: Result<(), Error>)
    requires
        rootfs is Some <==> plan.rootfs is Some,
    ensures
        r matches Err(e) ==> e.kind == ErrorKind::Nix,
{
    match &plan.hostname {
        Some(h) => {
            match sys_sethostname(h.as_str()) {
                Ok(()) => (),
                Err(e) => { return Err(e); },
            }
        },
        None => (),
    }
    match rootfs {
        Some(path) => {
            match do_pivot_root(path) {
                Ok(()) => (),
                Err(e) => { return Err(e); },
            }
        },
        None => (),
    }
    match sys_setsid() {
        Ok(_) => (),
        Err(e) => { return Err(e); },
    }
    match await_start_trigger(TRIGGER_SOCKET) {
        Ok(()) => (),
        Err(e) => { return Err(e); },
    }
    sys_chdir(plan.cwd.as_str())
}

/// The mapping file of a child process: `/proc/<pid>/uid_map` or
/// `/proc/<pid>/gid_map`.
pub fn proc_map_path(pid: u32, gid: bool) -> (s: String)
    ensures
        s@ == "/proc/"@ + ascii_chars(dec_digits(pid as nat)) + (if gid {
            "/gid_map"@
        } else {
            "/uid_map"@
        }),
{
    let mut s = String::from_str("/proc/");
    let num = dec_string(pid as u64);
    s.append(num.as_str());
    if gid {
        s.append("/gid_map");
    } else {
        s.append("/uid_map");
    }
    s
}

/// The parent's side of the fork: wait for the child's readiness, write the
/// UID and GID maps if a new user namespace was requested, record the cgroup
/// mounts of the now-running container, and only then release the child.
/// The discovered mounts — the discovery pipeline applied to whatever the
/// proc files held — are handed back to the caller, which exits afterwards;
/// the child continues on its own.
pub fn parent_after_fork(child_pid: i32, plan: &CreatePlan, child_ready: Pipe, parent_done: Pipe)
    -> (r: Result<cgroup::CgroupMountMap, Error>)
    requires
        child_pid >= 0,
    ensures
        r matches Ok(m) ==> exists|cg: Seq<u8>, mi: Seq<u8>| m.view_pairs() == cgroup::discovered(
            cg,
            mi,
        ),
        r matches Err(e) ==> e.kind == ErrorKind::Nix || e.kind == ErrorKind::Io,
{
    match child_ready.wait() {
        Ok(()) => (),
        Err(e) => { return Err(e); },
    }
    if plan.ns.userns {
        let uid_path = proc_map_path(child_pid as u32, false);
        match write_id_mappings(uid_path.as_str(), &plan.uid_mappings) {
            Ok(()) => (),
            Err(e) => { return Err(e); },
        }
        let gid_path = proc_map_path(child_pid as u32, true);
        match write_id_mappings(gid_path.as_str(), &plan.gid_mappings) {
            Ok(()) => (),
            Err(e) => { return Err(e); },
        }
    }
    let mounts = cgroup::init();
    match parent_done.notify() {
        Ok(()) => Ok(mounts),
        Err(e) => Err(e),
    }
}

/// Creates the instance directory for `id`, failing if it already exists —
/// directory existence is the sole "container already exists" check, made
/// before any fork.
pub fn create_instance_dir(state_dir: &str, id: &str) -> (r: Result<String, Error>)
    ensures
        r matches Ok(d) ==> d@ == dir_path(state_dir@, id@),
        r matches Err(e) ==> e.kind == ErrorKind::Nix,
{
    let dir = instance_dir(state_dir, id);
    match sys_mkdir(dir.as_str()) {
        Ok(()) => Ok(dir),
        Err(e) => Err(e),
    }
}

/// The start operation: step into the instance directory and send the
/// trigger byte over its control socket.
pub fn start_instance(container_id: &str, root: &str) -> (r: Result<(), Error>)
    ensures
        r matches Err(e) ==> e.kind == ErrorKind::Nix,
{
    let dir = container_dir(root, container_id);
    match sys_chdir(dir.as_str()) {
        Ok(()) => (),
        Err(e) => { return Err(e); },
    }
    send_start_trigger(TRIGGER_SOCKET)
}

/// The state operation: the only state the runtime keeps is the instance
/// directory itself, so stepping into it is the whole existence check.
pub fn state_instance(container_id: &str, root: &str) -> (r: Result<(), Error>)
    ensures
        r matches Err(e) ==> e.kind == ErrorKind::Nix,
{
    let dir = container_dir(root, container_id);
    sys_chdir(dir.as_str())
}

} // verus!
