//! Byte-sequence helpers shared by the ID-mapping writer and the cgroup
//! discovery parser: separator splitting and its algebra.

use vstd::prelude::*;

verus! {

/// Splits `s` on the separator byte.  The result always holds one more field
/// than there are separators; fields may be empty.
pub open spec fn split_on(s: Seq<u8>, sep: u8) -> Seq<Seq<u8>>
    decreases s.len(),
{
    if s.len() == 0 {
        seq![Seq::<u8>::empty()]
    } else if s[0] == sep {
        seq![Seq::<u8>::empty()] + split_on(s.drop_first(), sep)
    } else {
        let rest = split_on(s.drop_first(), sep);
        seq![seq![s[0]] + rest[0]] + rest.drop_first()
    }
}

/// Splitting never yields an empty field list.
pub proof fn lemma_split_len(s: Seq<u8>, sep: u8)
    ensures
        split_on(s, sep).len() >= 1,
    decreases s.len(),
{
    if s.len() > 0 {
        lemma_split_len(s.drop_first(), sep);
    }
}

/// Appending one byte extends the last field, or opens a new empty one.
pub proof fn lemma_split_push(s: Seq<u8>, sep: u8, b: u8)
    ensures
        split_on(s, sep).len() >= 1,
        b == sep ==> split_on(s.push(b), sep) == split_on(s, sep).push(Seq::<u8>::empty()),
        b != sep ==> split_on(s.push(b), sep) == split_on(s, sep).update(
            split_on(s, sep).len() - 1,
            split_on(s, sep).last().push(b),
        ),
    decreases s.len(),
{
    lemma_split_len(s, sep);
    let sp = s.push(b);
    if s.len() == 0 {
        assert(sp[0] == b);
        assert(sp.drop_first() =~= Seq::<u8>::empty());
        assert(split_on(Seq::<u8>::empty(), sep) == seq![Seq::<u8>::empty()]);
        if b == sep {
            assert(split_on(sp, sep) =~~= split_on(s, sep).push(Seq::<u8>::empty()));
        } else {
            assert(seq![b] + split_on(Seq::<u8>::empty(), sep)[0] =~= seq![b]);
            assert(split_on(s, sep).last().push(b) =~= seq![b]);
            assert(split_on(sp, sep) =~~= split_on(s, sep).update(
                0,
                split_on(s, sep).last().push(b),
            ));
        }
    } else {
        let t = s.drop_first();
        lemma_split_push(t, sep, b);
        lemma_split_len(t, sep);
        lemma_split_len(t.push(b), sep);
        assert(sp.drop_first() =~= t.push(b));
        assert(sp[0] == s[0]);
        let rest = split_on(t, sep);
        let restb = split_on(t.push(b), sep);
        if s[0] == sep {
            assert(split_on(s, sep) == seq![Seq::<u8>::empty()] + rest);
            assert(split_on(sp, sep) == seq![Seq::<u8>::empty()] + restb);
            assert(split_on(s, sep).last() == rest.last());
            if b == sep {
                assert(split_on(sp, sep) =~~= split_on(s, sep).push(Seq::<u8>::empty()));
            } else {
                assert(split_on(sp, sep) =~~= split_on(s, sep).update(
                    split_on(s, sep).len() - 1,
                    split_on(s, sep).last().push(b),
                ));
            }
        } else {
            assert(split_on(s, sep) == seq![seq![s[0]] + rest[0]] + rest.drop_first());
            assert(split_on(sp, sep) == seq![seq![s[0]] + restb[0]] + restb.drop_first());
            if b == sep {
                assert(restb[0] == rest[0]);
                assert(split_on(sp, sep) =~~= split_on(s, sep).push(Seq::<u8>::empty()));
            } else {
                if rest.len() == 1 {
                    assert(restb[0] == rest[0].push(b));
                    assert(seq![s[0]] + rest[0].push(b) =~= (seq![s[0]] + rest[0]).push(b));
                    assert(split_on(s, sep).last() == seq![s[0]] + rest[0]);
                    assert(split_on(sp, sep) =~~= split_on(s, sep).update(
                        split_on(s, sep).len() - 1,
                        split_on(s, sep).last().push(b),
                    ));
                } else {
                    assert(restb[0] == rest[0]);
                    assert(split_on(s, sep).last() == rest.last());
                    assert(split_on(sp, sep) =~~= split_on(s, sep).update(
                        split_on(s, sep).len() - 1,
                        split_on(s, sep).last().push(b),
                    ));
                }
            }
        }
    }
}

/// A sequence without the separator splits to the single field it is.
pub proof fn lemma_split_whole(s: Seq<u8>, sep: u8)
    requires
        forall|i: int| 0 <= i < s.len() ==> s[i] != sep,
    ensures
        split_on(s, sep) == seq![s],
    decreases s.len(),
{
    if s.len() == 0 {
        assert(split_on(s, sep) =~~= seq![s]);
    } else {
        lemma_split_whole(s.drop_first(), sep);
        assert(split_on(s, sep) =~~= seq![s]);
    }
}

/// Splitting `a + [sep] + b` yields `a` as the first field and then the
/// fields of `b`, provided `a` itself is separator-free.
pub proof fn lemma_split_concat(a: Seq<u8>, b: Seq<u8>, sep: u8)
    requires
        forall|i: int| 0 <= i < a.len() ==> a[i] != sep,
    ensures
        split_on(a + seq![sep] + b, sep) == seq![a] + split_on(b, sep),
    decreases a.len(),
{
    if a.len() == 0 {
        assert((a + seq![sep] + b).drop_first() =~= b);
        assert(split_on(a + seq![sep] + b, sep) =~~= seq![a] + split_on(b, sep));
    } else {
        lemma_split_concat(a.drop_first(), b, sep);
        lemma_split_len(b, sep);
        assert((a + seq![sep] + b).drop_first() =~= a.drop_first() + seq![sep] + b);
        assert((a + seq![sep] + b)[0] == a[0]);
        assert(split_on(a + seq![sep] + b, sep) =~~= seq![a] + split_on(b, sep));
    }
}

/// Whether every byte of `s` is a (7-bit) ASCII code.
pub open spec fn all_ascii(s: Seq<u8>) -> bool {
    forall|i: int| 0 <= i < s.len() ==> s[i] < 128
}

/// The characters spelled by a sequence of ASCII bytes.
pub open spec fn ascii_chars(s: Seq<u8>) -> Seq<char> {
    Seq::new(s.len(), |i: int| s[i] as char)
}

/// Splits a byte vector on the separator byte.
pub fn split_bytes(s: &Vec<u8>, sep: u8) -> (r: Vec<Vec<u8>>)
    ensures
        r.deep_view() == split_on(s@, sep),
{
    let mut fields: Vec<Vec<u8>> = Vec::new();
    let mut cur: Vec<u8> = Vec::new();
    let mut i: usize = 0;

    proof {
        assert(s@.take(0int) =~= Seq::<u8>::empty());
        assert(split_on(s@.take(0int), sep) == seq![Seq::<u8>::empty()]);
        assert(fields.deep_view() + seq![cur@] =~~= split_on(s@.take(0int), sep));
    }

    while i < s.len()
        invariant
            0 <= i <= s@.len(),
            fields.deep_view() + seq![cur@] == split_on(s@.take(i as int), sep),
        decreases s@.len() - i,
    {
        let b = s[i];
        proof {
            assert(s@.take(i as int).push(b) =~= s@.take(i as int + 1));
            lemma_split_push(s@.take(i as int), sep, b);
        }
        if b == sep {
            fields.push(cur);
            cur = Vec::new();
            proof {
                assert(fields.deep_view() + seq![cur@] =~~= split_on(s@.take(i as int + 1), sep));
            }
        } else {
            cur.push(b);
            proof {
                let prev = split_on(s@.take(i as int), sep);
                assert(fields.deep_view() + seq![cur@] =~~= prev.update(
                    prev.len() - 1,
                    prev.last().push(b),
                ));
            }
        }
        i += 1;
    }

    proof {
        assert(s@.take(s@.len() as int) =~= s@);
    }
    fields.push(cur);
    proof {
        assert(fields.deep_view() =~~= split_on(s@, sep));
    }
    fields
}

/// Whether two byte slices hold the same bytes.
pub fn bytes_eq(a: &[u8], b: &[u8]) -> (r: bool)
    ensures
        r == (a@ == b@),
{
    if a.len() != b.len() {
        proof {
            assert(a@.len() != b@.len());
        }
        return false;
    }
    let mut i: usize = 0;
    while i < a.len()
        invariant
            0 <= i <= a@.len(),
            a@.len() == b@.len(),
            forall|k: int| 0 <= k < i ==> a@[k] == b@[k],
        decreases a@.len() - i,
    {
        if a[i] != b[i] {
            return false;
        }
        i += 1;
    }
    proof {
        assert(a@ =~= b@);
    }
    true
}

/// Copies the bytes of `v` between `from` (inclusive) and `to` (exclusive).
pub fn sub_bytes(v: &Vec<u8>, from: usize, to: usize) -> (r: Vec<u8>)
    requires
        from <= to <= v@.len(),
    ensures
        r@ == v@.subrange(from as int, to as int),
{
    let mut r: Vec<u8> = Vec::new();
    let mut j: usize = from;
    while j < to
        invariant
            from <= j <= to <= v@.len(),
            r@ == v@.subrange(from as int, j as int),
        decreases to - j,
    {
        r.push(v[j]);
        proof {
            assert(r@ =~= v@.subrange(from as int, j as int + 1));
        }
        j += 1;
    }
    r
}

/// Whether two string slices spell the same characters.  Equal UTF-8 bytes
/// decode to equal character sequences, and encoding is a function of the
/// characters, so byte equality decides view equality.
pub fn str_eq(a: &str, b: &str) -> (r: bool)
    ensures
        r == (a@ == b@),
{
    let r = bytes_eq(a.as_bytes(), b.as_bytes());
    proof {
        if r {
            vstd::utf8::encode_utf8_decode_utf8(a@);
            vstd::utf8::encode_utf8_decode_utf8(b@);
        }
    }
    r
}

/// Whether every byte of the slice is ASCII.
pub fn is_all_ascii(s: &[u8]) -> (r: bool)
    ensures
        r == all_ascii(s@),
{
    let mut i: usize = 0;
    while i < s.len()
        invariant
            0 <= i <= s@.len(),
            forall|k: int| 0 <= k < i ==> s@[k] < 128,
        decreases s@.len() - i,
    {
        if s[i] >= 128 {
            return false;
        }
        i += 1;
    }
    true
}

} // verus!
