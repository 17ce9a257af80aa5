//! Namespace classification: the pass over the requested namespace list that
//! decides which kinds are created new, which existing namespaces are joined,
//! and whether a user namespace must be unshared separately.
//!
//! The rule, applied to the requests in specification order:
//! - a request with an empty `path` and a kind other than `user` joins the
//!   combined "create" set, unshared in one syscall;
//! - a request for `user` with an empty `path` is recorded apart, because the
//!   user namespace is unshared earlier, before ID mappings are written;
//! - every request with a non-empty `path` is queued, in order, for a
//!   deferred join in the forked child — no kind is joined in the parent;
//! - a namespace kind that appears twice is rejected outright.

use vstd::prelude::*;
use crate::error::{Error, ErrorKind};
use crate::oci::{Namespace, NamespaceType};

verus! {

pub const CLONE_NEWNS_BITS: i32 = 0x0002_0000;
pub const CLONE_NEWCGROUP_BITS: i32 = 0x0200_0000;
pub const CLONE_NEWUTS_BITS: i32 = 0x0400_0000;
pub const CLONE_NEWIPC_BITS: i32 = 0x0800_0000;
pub const CLONE_NEWUSER_BITS: i32 = 0x1000_0000;
pub const CLONE_NEWPID_BITS: i32 = 0x2000_0000;
pub const CLONE_NEWNET_BITS: i32 = 0x4000_0000;

/// The clone-flag bit of one namespace kind.
pub open spec fn kind_bits(k: NamespaceType) -> i32 {
    match k {
        NamespaceType::pid => CLONE_NEWPID_BITS,
        NamespaceType::network => CLONE_NEWNET_BITS,
        NamespaceType::mount => CLONE_NEWNS_BITS,
        NamespaceType::ipc => CLONE_NEWIPC_BITS,
        NamespaceType::uts => CLONE_NEWUTS_BITS,
        NamespaceType::user => CLONE_NEWUSER_BITS,
        NamespaceType::cgroup => CLONE_NEWCGROUP_BITS,
    }
}

/// The clone-flag bit of one namespace kind, for the deferred joins.
pub fn kind_clone_bits(k: NamespaceType) -> (b: i32)
    ensures
        b == kind_bits(k),
{
    match k {
        NamespaceType::pid => CLONE_NEWPID_BITS,
        NamespaceType::network => CLONE_NEWNET_BITS,
        NamespaceType::mount => CLONE_NEWNS_BITS,
        NamespaceType::ipc => CLONE_NEWIPC_BITS,
        NamespaceType::uts => CLONE_NEWUTS_BITS,
        NamespaceType::user => CLONE_NEWUSER_BITS,
        NamespaceType::cgroup => CLONE_NEWCGROUP_BITS,
    }
}

/// The namespace kinds to be created by the combined unshare call.
/// `user` is deliberately absent: a new user namespace is unshared apart,
/// before the ID mappings are written and before any other kind.
#[derive(Clone, Copy, Debug, PartialEq, Eq, Structural)]
pub struct CreateSet {
    pub pid: bool,
    pub network: bool,
    pub mount: bool,
    pub ipc: bool,
    pub uts: bool,
    pub cgroup: bool,
}

impl CreateSet {
    /// The set with no kind requested.
    pub fn empty() -> (c: CreateSet)
        ensures
            c == (CreateSet {
                pid: false,
                network: false,
                mount: false,
                ipc: false,
                uts: false,
                cgroup: false,
            }),
    {
        CreateSet { pid: false, network: false, mount: false, ipc: false, uts: false, cgroup: false }
    }
}

/// The combined clone-flag set for the single unshare call.
pub open spec fn spec_create_bits(c: CreateSet) -> i32 {
    (if c.pid { CLONE_NEWPID_BITS } else { 0 }) | (if c.network { CLONE_NEWNET_BITS } else { 0 })
        | (if c.mount { CLONE_NEWNS_BITS } else { 0 }) | (if c.ipc { CLONE_NEWIPC_BITS } else { 0 })
        | (if c.uts { CLONE_NEWUTS_BITS } else { 0 }) | (if c.cgroup { CLONE_NEWCGROUP_BITS } else { 0 })
}

/// Builds the combined clone-flag set for the single unshare call.
pub fn create_bits(c: &CreateSet) -> (b: i32)
    ensures
        b == spec_create_bits(*c),
{
    (if c.pid { CLONE_NEWPID_BITS } else { 0 }) | (if c.network { CLONE_NEWNET_BITS } else { 0 })
        | (if c.mount { CLONE_NEWNS_BITS } else { 0 }) | (if c.ipc { CLONE_NEWIPC_BITS } else { 0 })
        | (if c.uts { CLONE_NEWUTS_BITS } else { 0 }) | (if c.cgroup { CLONE_NEWCGROUP_BITS } else { 0 })
}

/// Whether the list asks to create a new namespace of kind `k`
/// (an entry of that kind with an empty path).
pub open spec fn requests_create(nss: Seq<Namespace>, k: NamespaceType) -> bool {
    exists|i: int| 0 <= i < nss.len() && nss[i].typ == k && nss[i].path@.len() == 0
}

/// Whether some namespace kind appears twice in the list.
pub open spec fn has_duplicate_kind(nss: Seq<Namespace>) -> bool {
    exists|i: int, j: int| 0 <= i < j < nss.len() && nss[i].typ == nss[j].typ
}

/// The requests that join an existing namespace, in specification order.
pub open spec fn join_requests(nss: Seq<Namespace>) -> Seq<Namespace> {
    nss.filter(|ns: Namespace| ns.path@.len() > 0)
}

/// `c` holds exactly the kinds (apart from `user`) that the list asks to
/// create new.
pub open spec fn create_set_matches(nss: Seq<Namespace>, c: CreateSet) -> bool {
    &&& c.pid == requests_create(nss, NamespaceType::pid)
    &&& c.network == requests_create(nss, NamespaceType::network)
    &&& c.mount == requests_create(nss, NamespaceType::mount)
    &&& c.ipc == requests_create(nss, NamespaceType::ipc)
    &&& c.uts == requests_create(nss, NamespaceType::uts)
    &&& c.cgroup == requests_create(nss, NamespaceType::cgroup)
}

/// The classified namespace requests of one create operation.
#[derive(Debug)]
pub struct NsPlan {
    /// Kinds created new by the combined unshare call.
    pub creates: CreateSet,
    /// Whether a new user namespace is unshared apart, first.
    pub userns: bool,
    /// Namespaces joined in the child, in specification order, each before
    /// the combined unshare call.
    pub joins: Vec<Namespace>,
}

/// Classifies the requested namespaces into "create new" and "join existing".
///
/// A list in which some kind appears twice is rejected: the two requests
/// would contend for the same namespace slot, and silently picking one would
/// hide a caller error.
pub fn classify_namespaces(nss: &Vec<Namespace>) -> (r: Result<NsPlan, Error>)
    ensures
        r is Ok <==> !has_duplicate_kind(nss@),
        r matches Ok(plan) ==> {
            &&& create_set_matches(nss@, plan.creates)
            &&& plan.userns == requests_create(nss@, NamespaceType::user)
            &&& plan.joins@ == join_requests(nss@)
        },
        r matches Err(e) ==> e.kind == ErrorKind::Invalid,
{
    let mut creates = CreateSet::empty();
    let mut userns = false;
    let mut joins: Vec<Namespace> = Vec::new();
    let mut i: usize = 0;

    proof {
        reveal(Seq::filter);
        assert(nss@.take(0int) =~= Seq::<Namespace>::empty());
        assert(join_requests(nss@.take(0int)) =~= Seq::<Namespace>::empty());
    }

    while i < nss.len()
        invariant
            0 <= i <= nss@.len(),
            !has_duplicate_kind(nss@.take(i as int)),
            create_set_matches(nss@.take(i as int), creates),
            userns == requests_create(nss@.take(i as int), NamespaceType::user),
            joins@ == join_requests(nss@.take(i as int)),
        decreases nss@.len() - i,
    {
        let ns = &nss[i];

        // Reject a kind that already occurred.
        let mut j: usize = 0;
        while j < i
            invariant
                0 <= j <= i < nss@.len(),
                *ns == nss@[i as int],
                forall|a: int| 0 <= a < j ==> nss@[a].typ != nss@[i as int].typ,
            decreases i - j,
        {
            if nss[j].typ == ns.typ {
                proof {
                    assert(0 <= j < i < nss@.len() && nss@[j as int].typ == nss@[i as int].typ);
                    assert(has_duplicate_kind(nss@));
                }
                return Err(Error::new(ErrorKind::Invalid));
            }
            j += 1;
        }

        let empty_path = ns.path.as_str().is_empty();
        if empty_path {
            match ns.typ {
                NamespaceType::user => { userns = true; },
                NamespaceType::pid => { creates.pid = true; },
                NamespaceType::network => { creates.network = true; },
                NamespaceType::mount => { creates.mount = true; },
                NamespaceType::ipc => { creates.ipc = true; },
                NamespaceType::uts => { creates.uts = true; },
                NamespaceType::cgroup => { creates.cgroup = true; },
            }
        } else {
            let copied = Namespace { typ: ns.typ, path: ns.path.clone() };
            proof {
                assert(copied == nss@[i as int]);
            }
            joins.push(copied);
        }

        proof {
            let pre = nss@.take(i as int);
            let post = nss@.take(i as int + 1);
            let cur = nss@[i as int];
            reveal(Seq::filter);
            assert(post.drop_last() =~= pre);
            assert(post.last() == cur);
            // A join list grows exactly by the current entry when its path is
            // non-empty.
            assert(join_requests(post) == if cur.path@.len() > 0 {
                join_requests(pre).push(cur)
            } else {
                join_requests(pre)
            });
            // A kind asked for in the prefix is still asked for.
            assert forall|k: NamespaceType| requests_create(pre, k) implies requests_create(
                post,
                k,
            ) by {
                let w = choose|w: int|
                    0 <= w < pre.len() && pre[w].typ == k && pre[w].path@.len() == 0;
                assert(post[w].typ == k && post[w].path@.len() == 0);
            }
            // A kind newly asked for comes from the current entry.
            assert forall|k: NamespaceType|
                !requests_create(pre, k) && requests_create(post, k) implies cur.typ == k
                && cur.path@.len() == 0 by {
                let w = choose|w: int|
                    0 <= w < post.len() && post[w].typ == k && post[w].path@.len() == 0;
                if w < i {
                    assert(pre[w].typ == k && pre[w].path@.len() == 0);
                }
            }
            // No duplicate arises: the inner loop compared the current kind
            // against every earlier entry.
            assert forall|a: int, b: int| 0 <= a < b < post.len() implies post[a].typ
                != post[b].typ by {
                if b < i {
                    assert(pre[a].typ != pre[b].typ);
                } else {
                    assert(nss@[a].typ != nss@[i as int].typ);
                }
            }
        }

        i += 1;
    }

    proof {
        assert(nss@.take(nss@.len() as int) =~= nss@);
    }

    Ok(NsPlan { creates, userns, joins })
}

} // verus!

