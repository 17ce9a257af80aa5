//! Cgroup discovery: builds the mapping from cgroup subsystem name to its
//! mount path out of the process's own `/proc/self/cgroup` and
//! `/proc/self/mountinfo`.
//!
//! Both passes are tolerant: a missing or unreadable file yields an empty
//! map, and a line whose fields do not have the expected shape is skipped
//! without halting discovery of the others.
//!
//! Pass 1 (`/proc/self/cgroup`): each line splits on `:` into exactly three
//! fields `(hierarchy-id, subsystem-names, path)`; the middle field of every
//! well-shaped line is recorded as a subsystem name of interest.
//!
//! Pass 2 (`/proc/self/mountinfo`): each line must hold a `" - "` separator;
//! before it stand exactly seven space-separated fields, after it exactly
//! three (filesystem type, mount source, super-options).  Lines whose
//! filesystem type is not exactly `cgroup` or `cgroup2` are skipped.  The
//! comma-separated super-options are scanned from the end; the first token
//! (scanning backward) that matches a recorded subsystem name maps that name
//! to the mount point, the fifth pre-separator field.

use vstd::prelude::*;
use crate::bytes::{
    all_ascii, ascii_chars, bytes_eq, is_all_ascii, split_bytes, split_on, str_eq, sub_bytes,
};
use crate::sys::{ascii_to_string, sys_close, sys_open, sys_read};

verus! {

/// The subsystem names recorded by pass 1: the middle field of every line
/// with exactly three colon-separated fields.
pub open spec fn known_names(lines: Seq<Seq<u8>>) -> Seq<Seq<u8>>
    decreases lines.len(),
{
    if lines.len() == 0 {
        Seq::<Seq<u8>>::empty()
    } else {
        let rest = known_names(lines.drop_last());
        let f = split_on(lines.last(), 58);
        if f.len() == 3 {
            rest.push(f[1])
        } else {
            rest
        }
    }
}

/// Whether `" - "` stands at position `i` of `s`.
pub open spec fn sep_match(s: Seq<u8>, i: int) -> bool {
    &&& 0 <= i
    &&& i + 3 <= s.len()
    &&& s[i] == 32
    &&& s[i + 1] == 45
    &&& s[i + 2] == 32
}

/// The first position at or after `i` where `" - "` stands in `s`.
pub open spec fn find_sep_from(s: Seq<u8>, i: int) -> Option<int>
    decreases s.len() - i,
{
    if i < 0 || i + 3 > s.len() {
        None
    } else if sep_match(s, i) {
        Some(i)
    } else {
        find_sep_from(s, i + 1)
    }
}

/// The last token of `toks` that is a recorded subsystem name — the first
/// match when scanning backward.
pub open spec fn last_match(toks: Seq<Seq<u8>>, known: Seq<Seq<u8>>) -> Option<Seq<u8>>
    decreases toks.len(),
{
    if toks.len() == 0 {
        None
    } else if known.contains(toks.last()) {
        Some(toks.last())
    } else {
        last_match(toks.drop_last(), known)
    }
}

/// The bytes of `"cgroup"`.
pub open spec fn cgroup_fs_bytes() -> Seq<u8> {
    seq![99u8, 103u8, 114u8, 111u8, 117u8, 112u8]
}

/// Whether the field names a cgroup filesystem: exactly `cgroup` or
/// `cgroup2`.
pub open spec fn cgroup_fs_name(f: Seq<u8>) -> bool {
    f == cgroup_fs_bytes() || f == cgroup_fs_bytes().push(50)
}

/// What one mountinfo line contributes: the matched subsystem name and the
/// mount point, or nothing for a line that does not fit the shape.
pub open spec fn mount_entry(line: Seq<u8>, known: Seq<Seq<u8>>) -> Option<(Seq<u8>, Seq<u8>)> {
    match find_sep_from(line, 0) {
        None => None,
        Some(sep) => {
            let pre = split_on(line.take(sep), 32);
            let post = split_on(line.skip(sep + 3), 32);
            if pre.len() == 7 && post.len() == 3 && cgroup_fs_name(post[0]) {
                match last_match(split_on(post[2], 44), known) {
                    Some(name) => Some((name, pre[4])),
                    None => None,
                }
            } else {
                None
            }
        },
    }
}

/// The entries contributed by all mountinfo lines, in line order.
pub open spec fn mount_entries(lines: Seq<Seq<u8>>, known: Seq<Seq<u8>>) -> Seq<
    (Seq<u8>, Seq<u8>),
>
    decreases lines.len(),
{
    if lines.len() == 0 {
        Seq::<(Seq<u8>, Seq<u8>)>::empty()
    } else {
        let rest = mount_entries(lines.drop_last(), known);
        match mount_entry(lines.last(), known) {
            Some(p) => rest.push(p),
            None => rest,
        }
    }
}

/// Byte pairs read as character pairs; a pair holding a byte outside ASCII
/// is dropped as malformed.
pub open spec fn ascii_pairs(ps: Seq<(Seq<u8>, Seq<u8>)>) -> Seq<(Seq<char>, Seq<char>)>
    decreases ps.len(),
{
    if ps.len() == 0 {
        Seq::<(Seq<char>, Seq<char>)>::empty()
    } else {
        let rest = ascii_pairs(ps.drop_last());
        if all_ascii(ps.last().0) && all_ascii(ps.last().1) {
            rest.push((ascii_chars(ps.last().0), ascii_chars(ps.last().1)))
        } else {
            rest
        }
    }
}

/// The bytes of an optional file content; absence reads as no bytes.
pub open spec fn opt_bytes(c: Option<Vec<u8>>) -> Seq<u8> {
    match c {
        Some(b) => b@,
        None => Seq::<u8>::empty(),
    }
}

/// The whole discovery pipeline on given file contents: subsystem names
/// from the cgroup file, entries from the mountinfo file, read as text.
pub open spec fn discovered(cg: Seq<u8>, mi: Seq<u8>) -> Seq<(Seq<char>, Seq<char>)> {
    ascii_pairs(mount_entries(split_on(mi, 10), known_names(split_on(cg, 10))))
}

/// The mapping from cgroup subsystem name to its mount path, in discovery
/// order.  A name found on several mount lines appears once per line; the
/// later entry is the one a last-wins lookup would take.
#[derive(Debug)]
pub struct CgroupMountMap {
    pub entries: Vec<(String, String)>,
}

/// The path recorded for a subsystem name — the last entry with that name,
/// as repeated map inserts would leave it.
pub open spec fn spec_lookup(ps: Seq<(Seq<char>, Seq<char>)>, name: Seq<char>) -> Option<
    Seq<char>,
>
    decreases ps.len(),
{
    if ps.len() == 0 {
        None
    } else if ps.last().0 == name {
        Some(ps.last().1)
    } else {
        spec_lookup(ps.drop_last(), name)
    }
}

impl CgroupMountMap {
    /// The entries as character-sequence pairs.
    pub open spec fn view_pairs(&self) -> Seq<(Seq<char>, Seq<char>)> {
        Seq::new(self.entries@.len(), |i: int| (self.entries@[i].0@, self.entries@[i].1@))
    }

    /// How many subsystem entries were discovered.
    pub fn len(&self) -> (n: usize)
        ensures
            n == self.entries@.len(),
    {
        self.entries.len()
    }

    /// The mount path of the given subsystem, the last discovered entry
    /// winning.
    pub fn get(&self, name: &str) -> (r: Option<&String>)
        ensures
            r matches Some(p) ==> spec_lookup(self.view_pairs(), name@) == Some(p@),
            r is None ==> spec_lookup(self.view_pairs(), name@) is None,
    {
        let ghost vp = self.view_pairs();
        let mut k: usize = self.entries.len();
        proof {
            assert(vp.take(vp.len() as int) =~= vp);
        }
        while k > 0
            invariant
                0 <= k <= self.entries@.len(),
                vp == self.view_pairs(),
                vp.len() == self.entries@.len(),
                spec_lookup(vp, name@) == spec_lookup(vp.take(k as int), name@),
            decreases k,
        {
            proof {
                assert(vp.take(k as int).last() == vp[k as int - 1]);
                assert(vp.take(k as int).drop_last() =~= vp.take(k as int - 1));
            }
            if str_eq(self.entries[k - 1].0.as_str(), name) {
                proof {
                    assert(spec_lookup(vp.take(k as int), name@) == Some(vp[k as int - 1].1));
                }
                return Some(&self.entries[k - 1].1);
            }
            k -= 1;
        }
        proof {
            assert(vp.take(0int) =~= Seq::<(Seq<char>, Seq<char>)>::empty());
        }
        None
    }
}

/// Finds the `" - "` separator of a mountinfo line.
fn find_sep(v: &Vec<u8>) -> (r: Option<usize>)
    ensures
        r matches Some(i) ==> find_sep_from(v@, 0) == Some(i as int) && i + 3 <= v@.len(),
        r is None ==> find_sep_from(v@, 0) is None,
{
    if v.len() < 3 {
        return None;
    }
    let last_start = v.len() - 3;
    let mut i: usize = 0;
    while i <= last_start
        invariant
            0 <= i <= last_start + 1,
            last_start == v@.len() - 3,
            v@.len() <= usize::MAX,
            find_sep_from(v@, 0) == find_sep_from(v@, i as int),
        decreases last_start + 1 - i,
    {
        if v[i] == 32 && v[i + 1] == 45 && v[i + 2] == 32 {
            proof {
                assert(sep_match(v@, i as int));
                assert(find_sep_from(v@, i as int) == Some(i as int));
            }
            return Some(i);
        }
        proof {
            assert(!sep_match(v@, i as int));
            assert(find_sep_from(v@, i as int) == find_sep_from(v@, i as int + 1));
        }
        i += 1;
    }
    proof {
        assert(find_sep_from(v@, i as int) is None);
    }
    None
}

/// Whether the field names a cgroup filesystem.
fn is_cgroup_fs(f: &Vec<u8>) -> (r: bool)
    ensures
        r == cgroup_fs_name(f@),
{
    if f.len() == 6 {
        let r = f[0] == 99 && f[1] == 103 && f[2] == 114 && f[3] == 111 && f[4] == 117 && f[5]
            == 112;
        proof {
            if r {
                assert(f@ =~= cgroup_fs_bytes());
            }
            assert(f@.len() != cgroup_fs_bytes().push(50).len());
        }
        r
    } else if f.len() == 7 {
        let r = f[0] == 99 && f[1] == 103 && f[2] == 114 && f[3] == 111 && f[4] == 117 && f[5]
            == 112 && f[6] == 50;
        proof {
            if r {
                assert(f@ =~= cgroup_fs_bytes().push(50));
            }
            assert(f@.len() != cgroup_fs_bytes().len());
        }
        r
    } else {
        proof {
            assert(f@.len() != cgroup_fs_bytes().len());
            assert(f@.len() != cgroup_fs_bytes().push(50).len());
        }
        false
    }
}

/// Whether `tok` is one of the recorded subsystem names.
fn contains_name(known: &Vec<Vec<u8>>, tok: &Vec<u8>) -> (r: bool)
    ensures
        r == known.deep_view().contains(tok@),
{
    let mut i: usize = 0;
    while i < known.len()
        invariant
            0 <= i <= known@.len(),
            forall|k: int| 0 <= k < i ==> known.deep_view()[k] != tok@,
        decreases known@.len() - i,
    {
        proof {
            assert(known.deep_view()[i as int] =~= known@[i as int]@);
        }
        if bytes_eq(known[i].as_slice(), tok.as_slice()) {
            proof {
                assert(known.deep_view()[i as int] == tok@);
            }
            return true;
        }
        i += 1;
    }
    proof {
        assert(forall|k: int|
            0 <= k < known.deep_view().len() ==> known.deep_view()[k] != tok@);
    }
    false
}

/// Pass 1: the subsystem names of interest, from the cgroup file's content.
pub fn parse_known_names(content: &Vec<u8>) -> (r: Vec<Vec<u8>>)
    ensures
        r.deep_view() == known_names(split_on(content@, 10)),
{
    let lines = split_bytes(content, 10);
    let mut known: Vec<Vec<u8>> = Vec::new();
    let mut i: usize = 0;

    proof {
        assert(lines.deep_view().take(0int) =~= Seq::<Seq<u8>>::empty());
        assert(known.deep_view() =~~= known_names(lines.deep_view().take(0int)));
    }

    while i < lines.len()
        invariant
            0 <= i <= lines@.len(),
            lines@.len() == lines.deep_view().len(),
            known.deep_view() == known_names(lines.deep_view().take(i as int)),
        decreases lines@.len() - i,
    {
        let mut f = split_bytes(&lines[i], 58);
        proof {
            assert(lines.deep_view().take(i as int + 1).drop_last() =~= lines.deep_view().take(
                i as int,
            ));
            assert(lines.deep_view().take(i as int + 1).last() == lines.deep_view()[i as int]);
            assert(lines.deep_view()[i as int] == lines@[i as int]@);
        }
        if f.len() == 3 {
            let name = f.remove(1);
            known.push(name);
            proof {
                assert(known.deep_view() =~~= known_names(lines.deep_view().take(i as int + 1)));
            }
        } else {
            proof {
                assert(known.deep_view() =~~= known_names(lines.deep_view().take(i as int + 1)));
            }
        }
        i += 1;
    }

    proof {
        assert(lines.deep_view().take(lines.deep_view().len() as int) =~= lines.deep_view());
    }
    known
}

/// The entries of a byte-pair vector as sequence pairs.
pub open spec fn pairs_view(v: Seq<(Vec<u8>, Vec<u8>)>) -> Seq<(Seq<u8>, Seq<u8>)> {
    Seq::new(v.len(), |i: int| (v[i].0@, v[i].1@))
}

/// Pass 2: the (subsystem, mount point) entries of the mountinfo content,
/// given the recorded subsystem names.
pub fn parse_mount_entries(content: &Vec<u8>, known: &Vec<Vec<u8>>) -> (r: Vec<(Vec<u8>, Vec<u8>)>)
    ensures
        pairs_view(r@) == mount_entries(split_on(content@, 10), known.deep_view()),
{
    let lines = split_bytes(content, 10);
    let mut out: Vec<(Vec<u8>, Vec<u8>)> = Vec::new();
    let mut i: usize = 0;
    let ghost kd = known.deep_view();

    proof {
        assert(lines.deep_view().take(0int) =~= Seq::<Seq<u8>>::empty());
        assert(pairs_view(out@) =~~= mount_entries(lines.deep_view().take(0int), kd));
    }

    while i < lines.len()
        invariant
            0 <= i <= lines@.len(),
            lines@.len() == lines.deep_view().len(),
            kd == known.deep_view(),
            pairs_view(out@) == mount_entries(lines.deep_view().take(i as int), kd),
        decreases lines@.len() - i,
    {
        proof {
            assert(lines.deep_view().take(i as int + 1).drop_last() =~= lines.deep_view().take(
                i as int,
            ));
            assert(lines.deep_view().take(i as int + 1).last() == lines.deep_view()[i as int]);
            assert(lines.deep_view()[i as int] == lines@[i as int]@);
        }
        let line = &lines[i];
        let ghost line_seq = line@;
        match find_sep(line) {
            None => {
                proof {
                    assert(mount_entry(line_seq, kd) is None);
                    assert(pairs_view(out@) =~~= mount_entries(
                        lines.deep_view().take(i as int + 1),
                        kd,
                    ));
                }
            },
            Some(sep) => {
                let line_len = line.len();
                let pre_part = sub_bytes(line, 0, sep);
                let post_part = sub_bytes(line, sep + 3, line_len);
                proof {
                    assert(pre_part@ =~= line_seq.take(sep as int));
                    assert(post_part@ =~= line_seq.skip(sep as int + 3));
                }
                let mut pre = split_bytes(&pre_part, 32);
                let post = split_bytes(&post_part, 32);
                let ghost pre_spec = split_on(line_seq.take(sep as int), 32);
                let ghost post_spec = split_on(line_seq.skip(sep as int + 3), 32);
                proof {
                    assert(pre.deep_view() == pre_spec);
                    assert(post.deep_view() == post_spec);
                }
                let shape_ok = pre.len() == 7 && post.len() == 3;
                let mut done = false;
                if shape_ok {
                    proof {
                        assert(post@[0int].deep_view() =~= post@[0int]@);
                        assert(post_spec[0] == post@[0int].deep_view());
                    }
                    if is_cgroup_fs(&post[0]) {
                        proof {
                            assert(post@[2int].deep_view() =~= post@[2int]@);
                            assert(post_spec[2] == post@[2int].deep_view());
                        }
                        let toks = split_bytes(&post[2], 44);
                        let ghost toks_seq = split_on(post_spec[2], 44);
                        proof {
                            assert(toks.deep_view() == split_on(post@[2int]@, 44));
                            assert(toks.deep_view() == toks_seq);
                        }
                        let mut k: usize = toks.len();
                        let mut found: Option<usize> = None;
                        proof {
                            assert(toks_seq.take(toks_seq.len() as int) =~= toks_seq);
                        }
                        while k > 0 && found.is_none()
                            invariant
                                0 <= k <= toks_seq.len(),
                                toks.deep_view() == toks_seq,
                                toks@.len() == toks_seq.len(),
                                kd == known.deep_view(),
                                found is None ==> last_match(toks_seq, kd) == last_match(
                                    toks_seq.take(k as int),
                                    kd,
                                ),
                                found matches Some(idx) ==> 0 <= idx < toks_seq.len()
                                    && last_match(toks_seq, kd) == Some(toks_seq[idx as int]),
                            decreases k,
                        {
                            proof {
                                assert(toks_seq.take(k as int).last() == toks_seq[k as int - 1]);
                                assert(toks_seq.take(k as int).drop_last() =~= toks_seq.take(
                                    k as int - 1,
                                ));
                                assert(toks@[k as int - 1].deep_view() =~= toks@[k as int - 1]@);
                                assert(toks_seq[k as int - 1] == toks@[k as int - 1].deep_view());
                            }
                            if contains_name(known, &toks[k - 1]) {
                                proof {
                                    assert(kd.contains(toks_seq[k as int - 1]));
                                    assert(last_match(toks_seq.take(k as int), kd) == Some(
                                        toks_seq[k as int - 1],
                                    ));
                                }
                                found = Some(k - 1);
                            } else {
                                proof {
                                    assert(!kd.contains(toks_seq[k as int - 1]));
                                    assert(last_match(toks_seq.take(k as int), kd) == last_match(
                                        toks_seq.take(k as int - 1),
                                        kd,
                                    ));
                                }
                            }
                            k -= 1;
                        }
                        match found {
                            Some(idx) => {
                                let name = sub_bytes(&toks[idx], 0, toks[idx].len());
                                let point = pre.remove(4);
                                proof {
                                    assert(name@ =~= toks@[idx as int]@);
                                    assert(toks@[idx as int].deep_view() =~= toks@[idx as int]@);
                                    assert(name@ == toks_seq[idx as int]);
                                    assert(pre_spec[4] == point.deep_view());
                                    assert(point.deep_view() =~= point@);
                                    assert(mount_entry(line_seq, kd) == Some(
                                        (toks_seq[idx as int], pre_spec[4]),
                                    ));
                                }
                                out.push((name, point));
                                done = true;
                                proof {
                                    assert(pairs_view(out@) =~~= mount_entries(
                                        lines.deep_view().take(i as int + 1),
                                        kd,
                                    ));
                                }
                            },
                            None => {
                                proof {
                                    assert(k == 0);
                                    assert(toks_seq.take(0int) =~= Seq::<Seq<u8>>::empty());
                                    assert(last_match(Seq::<Seq<u8>>::empty(), kd) is None);
                                    assert(mount_entry(line_seq, kd) is None);
                                }
                            },
                        }
                    } else {
                        proof {
                            assert(mount_entry(line_seq, kd) is None);
                        }
                    }
                } else {
                    proof {
                        assert(mount_entry(line_seq, kd) is None);
                    }
                }
                if !done {
                    proof {
                        assert(mount_entry(line_seq, kd) is None);
                        assert(pairs_view(out@) =~~= mount_entries(
                            lines.deep_view().take(i as int + 1),
                            kd,
                        ));
                    }
                }
            },
        }
        i += 1;
    }

    proof {
        assert(lines.deep_view().take(lines.deep_view().len() as int) =~= lines.deep_view());
    }
    out
}

/// Builds the map from given file contents.  Either file absent or empty
/// yields an empty map, never an error.
pub fn discover_from(cg: &Option<Vec<u8>>, mi: &Option<Vec<u8>>) -> (m: CgroupMountMap)
    ensures
        m.view_pairs() == discovered(opt_bytes(*cg), opt_bytes(*mi)),
        (cg is None || opt_bytes(*cg).len() == 0 || mi is None || opt_bytes(*mi).len() == 0)
            ==> m.entries@.len() == 0,
{
    let empty_content: Vec<u8> = Vec::new();
    let cgb = match cg {
        Some(b) => b,
        None => &empty_content,
    };
    let mib = match mi {
        Some(b) => b,
        None => &empty_content,
    };
    let known = parse_known_names(cgb);
    let pairs = parse_mount_entries(mib, &known);

    let mut entries: Vec<(String, String)> = Vec::new();
    let mut i: usize = 0;
    let ghost pv = pairs_view(pairs@);

    proof {
        assert(pv.take(0int) =~= Seq::<(Seq<u8>, Seq<u8>)>::empty());
        assert(Seq::new(entries@.len(), |j: int| (entries@[j].0@, entries@[j].1@)) =~~= ascii_pairs(
            pv.take(0int),
        ));
    }

    while i < pairs.len()
        invariant
            0 <= i <= pairs@.len(),
            pairs@.len() == pv.len(),
            pv == pairs_view(pairs@),
            Seq::new(entries@.len(), |j: int| (entries@[j].0@, entries@[j].1@)) == ascii_pairs(
                pv.take(i as int),
            ),
        decreases pairs@.len() - i,
    {
        proof {
            assert(pv.take(i as int + 1).drop_last() =~= pv.take(i as int));
            assert(pv.take(i as int + 1).last() == pv[i as int]);
        }
        let name_ok = is_all_ascii(pairs[i].0.as_slice());
        let point_ok = is_all_ascii(pairs[i].1.as_slice());
        if name_ok && point_ok {
            let name = ascii_to_string(pairs[i].0.as_slice());
            let point = ascii_to_string(pairs[i].1.as_slice());
            entries.push((name, point));
            proof {
                assert(Seq::new(entries@.len(), |j: int| (entries@[j].0@, entries@[j].1@))
                    =~~= ascii_pairs(pv.take(i as int + 1)));
            }
        } else {
            proof {
                assert(Seq::new(entries@.len(), |j: int| (entries@[j].0@, entries@[j].1@))
                    =~~= ascii_pairs(pv.take(i as int + 1)));
            }
        }
        i += 1;
    }

    proof {
        assert(pv.take(pv.len() as int) =~= pv);
        lemma_discovery_empty(opt_bytes(*cg), opt_bytes(*mi));
    }
    CgroupMountMap { entries }
}

/// No token matches against an empty name list.
proof fn lemma_last_match_empty(toks: Seq<Seq<u8>>)
    ensures
        last_match(toks, Seq::<Seq<u8>>::empty()) is None,
    decreases toks.len(),
{
    if toks.len() > 0 {
        lemma_last_match_empty(toks.drop_last());
    }
}

/// With no recorded names, no mountinfo line contributes an entry.
proof fn lemma_entries_empty_known(lines: Seq<Seq<u8>>)
    ensures
        mount_entries(lines, Seq::<Seq<u8>>::empty()) =~= Seq::<(Seq<u8>, Seq<u8>)>::empty(),
    decreases lines.len(),
{
    if lines.len() > 0 {
        lemma_entries_empty_known(lines.drop_last());
        let line = lines.last();
        match find_sep_from(line, 0) {
            None => {},
            Some(sep) => {
                let post = split_on(line.skip(sep + 3), 32);
                if post.len() == 3 {
                    lemma_last_match_empty(split_on(post[2], 44));
                }
            },
        }
    }
}

/// Either file absent or empty makes the discovered map empty.
proof fn lemma_discovery_empty(cg: Seq<u8>, mi: Seq<u8>)
    ensures
        cg.len() == 0 ==> discovered(cg, mi).len() == 0,
        mi.len() == 0 ==> discovered(cg, mi).len() == 0,
{
    if cg.len() == 0 {
        assert(cg =~= Seq::<u8>::empty());
        assert(split_on(cg, 10) == seq![Seq::<u8>::empty()]);
        let lines = seq![Seq::<u8>::empty()];
        assert(lines.len() == 1);
        assert(lines.last() == Seq::<u8>::empty());
        assert(lines.drop_last() =~= Seq::<Seq<u8>>::empty());
        assert(known_names(Seq::<Seq<u8>>::empty()) == Seq::<Seq<u8>>::empty());
        assert(split_on(lines.last(), 58) == seq![Seq::<u8>::empty()]);
        assert(split_on(lines.last(), 58).len() == 1);
        assert(known_names(lines) =~~= Seq::<Seq<u8>>::empty());
        lemma_entries_empty_known(split_on(mi, 10));
        assert(mount_entries(split_on(mi, 10), known_names(lines)) =~= Seq::<
            (Seq<u8>, Seq<u8>),
        >::empty());
        assert(ascii_pairs(Seq::<(Seq<u8>, Seq<u8>)>::empty()).len() == 0);
    }
    if mi.len() == 0 {
        assert(mi =~= Seq::<u8>::empty());
        assert(split_on(mi, 10) == seq![Seq::<u8>::empty()]);
        let lines = seq![Seq::<u8>::empty()];
        let kn = known_names(split_on(cg, 10));
        assert(lines.len() == 1);
        assert(lines.last() == Seq::<u8>::empty());
        assert(lines.drop_last() =~= Seq::<Seq<u8>>::empty());
        assert(mount_entries(Seq::<Seq<u8>>::empty(), kn) == Seq::<(Seq<u8>, Seq<u8>)>::empty());
        assert(find_sep_from(lines.last(), 0) is None);
        assert(mount_entry(lines.last(), kn) is None);
        assert(mount_entries(lines, kn).len() == 0);
        assert(ascii_pairs(mount_entries(lines, kn)).len() == 0);
    }
}

/// Reads a whole file through the kernel wrappers; `None` when it cannot be
/// opened, the bytes read so far when a read fails midway — discovery is
/// tolerant of both.
fn read_file_bytes(path: &str) -> (r: Option<Vec<u8>>) {
    let fd = match sys_open(path, 0) {
        Ok(fd) => fd,
        Err(_) => { return None; },
    };
    let mut content: Vec<u8> = Vec::new();
    let mut buf: Vec<u8> = Vec::new();
    let mut j: usize = 0;
    while j < 4096
        invariant
            buf@.len() == j,
            j <= 4096,
        decreases 4096 - j,
    {
        buf.push(0);
        j += 1;
    }
    let mut fuel: u64 = 0xffff_ffff_ffff_ffff;
    while fuel > 0
        invariant
            buf@.len() == 4096,
        decreases fuel,
    {
        match sys_read(fd, &mut buf) {
            Ok(n) => {
                if n == 0 {
                    break;
                }
                let mut t: usize = 0;
                while t < n
                    invariant
                        t <= n <= buf@.len(),
                    decreases n - t,
                {
                    content.push(buf[t]);
                    t += 1;
                }
            },
            Err(_) => {
                break;
            },
        }
        fuel -= 1;
    }
    let _ = sys_close(fd);
    Some(content)
}

/// Discovers the cgroup mounts of the calling process, reading
/// `/proc/self/cgroup` and `/proc/self/mountinfo`.  Whatever those files
/// hold, the result is the pure discovery pipeline applied to it — witnessed
/// by the bytes actually read; absence of either yields an empty map.
pub fn init() -> (m: CgroupMountMap)
    ensures
        exists|cg: Seq<u8>, mi: Seq<u8>| m.view_pairs() == discovered(cg, mi),
{
    let cg = read_file_bytes("/proc/self/cgroup");
    let mi = read_file_bytes("/proc/self/mountinfo");
    let m = discover_from(&cg, &mi);
    proof {
        assert(m.view_pairs() == discovered(opt_bytes(cg), opt_bytes(mi)));
    }
    m
}

} // verus!
