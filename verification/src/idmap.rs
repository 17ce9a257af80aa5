//! The ID-mapping writer: formats user-namespace UID/GID mapping ranges as
//! the kernel's text format — one line `"<container_id> <host_id> <size>\n"`
//! per range, in input order — and writes them, in a single write call, into
//! a target process's mapping file.
//!
//! An empty mapping list produces no write at all: the kernel accepts only
//! one write per mapping file and process, so writing an empty buffer would
//! burn that single chance.

use vstd::prelude::*;
use crate::bytes::{all_ascii, ascii_chars, split_on, lemma_split_whole, lemma_split_concat};
use crate::error::{Error, ErrorKind};
use crate::oci::Mapping;
use crate::sys::{ascii_to_string, sys_close, sys_open, sys_write, OPEN_WRONLY};

verus! {

/// Whether the byte spells a decimal digit.
pub open spec fn is_digit(b: u8) -> bool {
    48 <= b <= 57
}

/// Whether every byte of `s` spells a decimal digit.
pub open spec fn all_digits(s: Seq<u8>) -> bool {
    forall|i: int| 0 <= i < s.len() ==> is_digit(s[i])
}

/// The decimal spelling of `n`, most significant digit first, no sign and no
/// leading zero (a single `0` for zero).
pub open spec fn dec_digits(n: nat) -> Seq<u8>
    decreases n,
{
    if n < 10 {
        seq![(n + 48) as u8]
    } else {
        dec_digits(n / 10).push(((n % 10) + 48) as u8)
    }
}

/// The number spelled by a digit string, read in decimal.
pub open spec fn dec_val(s: Seq<u8>) -> int
    decreases s.len(),
{
    if s.len() == 0 {
        0
    } else {
        dec_val(s.drop_last()) * 10 + s.last() - 48
    }
}

/// The decimal spelling of `n` is nonempty, all digits, and reads back as `n`.
pub proof fn lemma_dec_digits(n: nat)
    ensures
        dec_digits(n).len() >= 1,
        all_digits(dec_digits(n)),
        dec_val(dec_digits(n)) == n,
    decreases n,
{
    if n < 10 {
        let s = dec_digits(n);
        assert(s.drop_last() =~= Seq::<u8>::empty());
        assert(dec_val(Seq::<u8>::empty()) == 0);
        assert(s.last() == (n + 48) as u8);
        assert((n + 48) as u8 == n + 48);
        assert(dec_val(s) == dec_val(s.drop_last()) * 10 + s.last() - 48);
    } else {
        lemma_dec_digits(n / 10);
        vstd::arithmetic::div_mod::lemma_fundamental_div_mod(n as int, 10);
        let d = dec_digits(n / 10);
        let s = dec_digits(n);
        assert(s == d.push(((n % 10) + 48) as u8));
        assert(s.drop_last() =~= d);
        assert(dec_val(s) == dec_val(d) * 10 + (n % 10));
        assert forall|i: int| 0 <= i < s.len() implies is_digit(s[i]) by {
            if i < d.len() {
                assert(is_digit(d[i]));
            }
        }
    }
}

/// Writes the digits of `n` in decimal.
pub fn dec_bytes(n: u64) -> (v: Vec<u8>)
    ensures
        v@ == dec_digits(n as nat),
    decreases n,
{
    if n < 10 {
        let mut v: Vec<u8> = Vec::new();
        v.push((n as u8) + 48);
        proof {
            assert(v@ =~= dec_digits(n as nat));
        }
        v
    } else {
        let mut v = dec_bytes(n / 10);
        v.push(((n % 10) as u8) + 48);
        proof {
            assert(v@ =~= dec_digits(n as nat));
        }
        v
    }
}

/// The decimal spelling of a signed value: a minus sign before the digits of
/// its magnitude.
pub open spec fn int_digits(i: int) -> Seq<u8> {
    if i < 0 {
        seq![45u8] + dec_digits((-i) as nat)
    } else {
        dec_digits(i as nat)
    }
}

/// Writes a signed value in decimal.
pub fn i64_dec_bytes(n: i64) -> (v: Vec<u8>)
    ensures
        v@ == int_digits(n as int),
{
    if n >= 0 {
        dec_bytes(n as u64)
    } else {
        let mag: u64 = ((-(n + 1)) as u64) + 1;
        proof {
            assert(mag == -(n as int));
        }
        let mut v: Vec<u8> = Vec::new();
        v.push(45);
        let mut d = dec_bytes(mag);
        v.append(&mut d);
        proof {
            assert(v@ =~= int_digits(n as int));
        }
        v
    }
}

/// The decimal spelling of `n` as a string.
pub fn dec_string(n: u64) -> (s: String)
    ensures
        s@ == ascii_chars(dec_digits(n as nat)),
{
    let v = dec_bytes(n);
    proof {
        lemma_dec_digits(n as nat);
        assert(all_ascii(v@));
    }
    ascii_to_string(v.as_slice())
}

/// One mapping line without its newline:
/// `"<container_id> <host_id> <size>"`.
pub open spec fn mapping_line_body(m: Mapping) -> Seq<u8> {
    dec_digits(m.container_id as nat) + seq![32u8] + dec_digits(m.host_id as nat) + seq![32u8]
        + dec_digits(m.size as nat)
}

/// One full mapping line, newline-terminated.
pub open spec fn mapping_line(m: Mapping) -> Seq<u8> {
    mapping_line_body(m) + seq![10u8]
}

/// The whole text written for a mapping list: its lines in input order.
pub open spec fn mappings_text(ms: Seq<Mapping>) -> Seq<u8>
    decreases ms.len(),
{
    if ms.len() == 0 {
        Seq::<u8>::empty()
    } else {
        mapping_line(ms[0]) + mappings_text(ms.drop_first())
    }
}

/// The text of a list grows at its end, line by line.
pub proof fn lemma_mappings_text_push(ms: Seq<Mapping>, m: Mapping)
    ensures
        mappings_text(ms.push(m)) == mappings_text(ms) + mapping_line(m),
    decreases ms.len(),
{
    if ms.len() == 0 {
        assert(ms.push(m).drop_first() =~= Seq::<Mapping>::empty());
        assert(mappings_text(Seq::<Mapping>::empty()) == Seq::<u8>::empty());
        assert(ms.push(m)[0] == m);
        assert(mappings_text(ms.push(m)) == mapping_line(m) + mappings_text(
            ms.push(m).drop_first(),
        ));
        assert(mappings_text(ms.push(m)) =~= mappings_text(ms) + mapping_line(m));
    } else {
        lemma_mappings_text_push(ms.drop_first(), m);
        assert(ms.push(m).drop_first() =~= ms.drop_first().push(m));
        assert(ms.push(m)[0] == ms[0]);
        assert(mappings_text(ms.push(m)) =~= mappings_text(ms) + mapping_line(m));
    }
}

/// Formats a mapping list as the kernel's mapping-file text: one line per
/// range, in input order; no bytes at all for an empty list.
pub fn format_id_mappings(mappings: &Vec<Mapping>) -> (v: Vec<u8>)
    ensures
        v@ == mappings_text(mappings@),
{
    let mut out: Vec<u8> = Vec::new();
    let mut i: usize = 0;

    proof {
        assert(mappings@.take(0int) =~= Seq::<Mapping>::empty());
    }

    while i < mappings.len()
        invariant
            0 <= i <= mappings@.len(),
            out@ == mappings_text(mappings@.take(i as int)),
        decreases mappings@.len() - i,
    {
        let m = mappings[i];
        let ghost before = out@;
        let mut a = dec_bytes(m.container_id as u64);
        out.append(&mut a);
        out.push(32);
        let mut b = dec_bytes(m.host_id as u64);
        out.append(&mut b);
        out.push(32);
        let mut c = dec_bytes(m.size as u64);
        out.append(&mut c);
        out.push(10);
        proof {
            lemma_mappings_text_push(mappings@.take(i as int), mappings@[i as int]);
            assert(mappings@.take(i as int).push(mappings@[i as int]) =~= mappings@.take(
                i as int + 1,
            ));
            assert(out@ =~= before + mapping_line(mappings@[i as int]));
        }
        i += 1;
    }

    proof {
        assert(mappings@.take(mappings@.len() as int) =~= mappings@);
    }
    out
}

/// Reads a digit string back as a 32-bit value; `None` where the field is
/// empty, holds a non-digit, or overflows.
pub open spec fn parse_dec_u32(s: Seq<u8>) -> Option<u32> {
    if s.len() >= 1 && all_digits(s) && 0 <= dec_val(s) <= u32::MAX {
        Some(dec_val(s) as u32)
    } else {
        None
    }
}

/// Reads one mapping line body (no newline) back as its three fields.
pub open spec fn parse_mapping_line(s: Seq<u8>) -> Option<Mapping> {
    let f = split_on(s, 32);
    if f.len() == 3 && parse_dec_u32(f[0]) is Some && parse_dec_u32(f[1]) is Some
        && parse_dec_u32(f[2]) is Some {
        Some(
            Mapping {
                container_id: parse_dec_u32(f[0])->Some_0,
                host_id: parse_dec_u32(f[1])->Some_0,
                size: parse_dec_u32(f[2])->Some_0,
            },
        )
    } else {
        None
    }
}

/// A formatted line body holds no newline and parses back to its mapping.
pub proof fn lemma_line_body_round_trip(m: Mapping)
    ensures
        forall|i: int| 0 <= i < mapping_line_body(m).len() ==> mapping_line_body(m)[i] != 10,
        parse_mapping_line(mapping_line_body(m)) == Some(m),
{
    let d1 = dec_digits(m.container_id as nat);
    let d2 = dec_digits(m.host_id as nat);
    let d3 = dec_digits(m.size as nat);
    lemma_dec_digits(m.container_id as nat);
    lemma_dec_digits(m.host_id as nat);
    lemma_dec_digits(m.size as nat);
    let body = mapping_line_body(m);
    assert(body =~= d1 + seq![32u8] + (d2 + seq![32u8] + d3));
    lemma_split_concat(d1, d2 + seq![32u8] + d3, 32);
    lemma_split_concat(d2, d3, 32);
    lemma_split_whole(d3, 32);
    assert(split_on(body, 32) =~~= seq![d1, d2, d3]);
    assert(parse_dec_u32(d1) == Some(m.container_id));
    assert(parse_dec_u32(d2) == Some(m.host_id));
    assert(parse_dec_u32(d3) == Some(m.size));
}

/// Splitting the formatted text on newlines yields one body per mapping, in
/// order, and one trailing empty piece after the final newline.
pub proof fn lemma_text_split(ms: Seq<Mapping>)
    ensures
        split_on(mappings_text(ms), 10) == Seq::new(ms.len(), |i: int| mapping_line_body(ms[i]))
            .push(Seq::<u8>::empty()),
    decreases ms.len(),
{
    if ms.len() == 0 {
        assert(split_on(mappings_text(ms), 10) =~~= Seq::new(
            ms.len(),
            |i: int| mapping_line_body(ms[i]),
        ).push(Seq::<u8>::empty()));
    } else {
        lemma_text_split(ms.drop_first());
        lemma_line_body_round_trip(ms[0]);
        let body0 = mapping_line_body(ms[0]);
        let rest = mappings_text(ms.drop_first());
        assert(mappings_text(ms) =~= body0 + seq![10u8] + rest);
        lemma_split_concat(body0, rest, 10);
        assert(split_on(mappings_text(ms), 10) =~~= Seq::new(
            ms.len(),
            |i: int| mapping_line_body(ms[i]),
        ).push(Seq::<u8>::empty()));
    }
}

/// Reads a whole mapping-file text back as its mapping list: the text must
/// be newline-terminated (or empty) and every line must parse.
pub open spec fn parse_mappings_text(t: Seq<u8>) -> Option<Seq<Mapping>> {
    let parts = split_on(t, 10);
    if parts.last() == Seq::<u8>::empty() && (forall|i: int|
        0 <= i < parts.len() - 1 ==> parse_mapping_line(parts[i]) is Some) {
        Some(Seq::new((parts.len() - 1) as nat, |i: int| parse_mapping_line(parts[i])->Some_0))
    } else {
        None
    }
}

/// The formatted text of any mapping list, split by line, round-trips to
/// exactly the `(container_id, host_id, size)` ranges it was built from, in
/// input order.
pub proof fn lemma_id_mappings_round_trip(ms: Seq<Mapping>)
    ensures
        parse_mappings_text(mappings_text(ms)) == Some(ms),
{
    lemma_text_split(ms);
    let parts = split_on(mappings_text(ms), 10);
    assert(parts.last() == Seq::<u8>::empty());
    assert(parts.len() == ms.len() + 1);
    assert forall|i: int| 0 <= i < parts.len() - 1 implies parse_mapping_line(parts[i]) == Some(
        ms[i],
    ) by {
        lemma_line_body_round_trip(ms[i]);
        assert(parts[i] == mapping_line_body(ms[i]));
    }
    assert(Seq::new((parts.len() - 1) as nat, |i: int| parse_mapping_line(parts[i])->Some_0)
        =~= ms);
}

/// An empty mapping list formats to no bytes at all, so writing it is a
/// no-op: no file is opened and no write is issued.
pub proof fn lemma_empty_mappings_no_text(ms: Seq<Mapping>)
    ensures
        ms.len() == 0 ==> mappings_text(ms).len() == 0,
        ms.len() > 0 ==> mappings_text(ms).len() > 0,
{
    if ms.len() > 0 {
        lemma_dec_digits(ms[0].container_id as nat);
    }
}

/// Writes the mapping list into the mapping file at `path`: formats the
/// lines, opens write-only, writes the whole buffer in one call, closes.
/// A write that accepts fewer bytes than the buffer holds is a failure —
/// the kernel permits only one write per mapping file, so a partial one
/// cannot be completed.  For an empty list nothing is opened or written.
pub fn write_id_mappings(path: &str, mappings: &Vec<Mapping>) -> (r: Result<(), Error>)
    ensures
        mappings@.len() == 0 ==> r is Ok,
        r matches Err(e) ==> e.kind == ErrorKind::Nix,
{
    let data = format_id_mappings(mappings);
    if data.len() == 0 {
        return Ok(());
    }
    let fd = match sys_open(path, OPEN_WRONLY) {
        Ok(fd) => fd,
        Err(e) => { return Err(e); },
    };
    match sys_write(fd, data.as_slice()) {
        Ok(n) => {
            if n < data.len() {
                let _ = sys_close(fd);
                return Err(Error::in_op(ErrorKind::Nix, 0, "write"));
            }
        },
        Err(e) => { return Err(e); },
    }
    match sys_close(fd) {
        Ok(()) => Ok(()),
        Err(e) => Err(e),
    }
}

} // verus!
