//! Byte-level text utilities: decimal numbers and separator splitting.
//!
//! The runtime reads and writes small textual formats — `/etc/subuid` lines,
//! `/proc/<pid>/uid_map` contents, path names — all of which it treats as
//! byte strings. This module gives those formats their mathematical meaning
//! (`dec_val`, `dec_seq`, `split_bytes`) and verified executable
//! counterparts.

use vstd::prelude::*;

verus! {

/// An ASCII decimal digit.
pub open spec fn is_digit(b: u8) -> bool {
    48 <= b <= 57
}

/// Numeric value of an ASCII digit.
pub open spec fn digit_val(b: u8) -> nat
    recommends
        is_digit(b),
{
    (b - 48) as nat
}

/// A non-empty, all-digit byte string.
pub open spec fn is_dec_string(s: Seq<u8>) -> bool {
    s.len() > 0 && forall|i: int| 0 <= i < s.len() ==> is_digit(#[trigger] s[i])
}

/// Value of a digit string read as a decimal number.
pub open spec fn dec_val(s: Seq<u8>) -> nat
    decreases s.len(),
{
    if s.len() == 0 {
        0
    } else {
        dec_val(s.drop_last()) * 10 + digit_val(s.last())
    }
}

/// Canonical decimal digits of a number, most significant first
/// (`0` is written `"0"`, and there are no leading zeros).
pub open spec fn dec_seq(n: nat) -> Seq<u8>
    decreases n,
{
    if n < 10 {
        seq![(n + 48) as u8]
    } else {
        dec_seq(n / 10).push((n % 10 + 48) as u8)
    }
}

/// Reading one more digit multiplies the value read so far by ten.
proof fn lemma_dec_val_take_succ(s: Seq<u8>, i: int)
    requires
        0 <= i < s.len(),
    ensures
        dec_val(s.take(i + 1)) == dec_val(s.take(i)) * 10 + digit_val(s[i]),
{
    assert(s.take(i + 1).drop_last() =~= s.take(i));
    assert(s.take(i + 1).last() == s[i]);
}

/// The value of a prefix never exceeds the value of the whole string.
proof fn lemma_dec_val_take_le(s: Seq<u8>, i: int)
    requires
        0 <= i <= s.len(),
    ensures
        dec_val(s.take(i)) <= dec_val(s),
    decreases s.len() - i,
{
    if i == s.len() {
        assert(s.take(i) =~= s);
    } else {
        lemma_dec_val_take_succ(s, i);
        lemma_dec_val_take_le(s, i + 1);
    }
}

/// Parse a byte string as an unsigned 32-bit decimal number.
/// Succeeds exactly on non-empty all-digit strings whose value fits.
pub fn parse_u32(s: &[u8]) -> (r: Option<u32>)
    ensures
        r is Some <==> is_dec_string(s@) && dec_val(s@) <= u32::MAX,
        r matches Some(v) ==> v == dec_val(s@),
{
    if s.len() == 0 {
        return None;
    }
    let mut i: usize = 0;
    let mut acc: u64 = 0;
    while i < s.len()
        invariant
            0 <= i <= s.len(),
            forall|j: int| 0 <= j < i ==> is_digit(#[trigger] s@[j]),
            acc == dec_val(s@.take(i as int)),
            acc <= u32::MAX,
        decreases s.len() - i,
    {
        let b = s[i];
        if b < 48 || b > 57 {
            return None;
        }
        let acc2: u64 = acc * 10 + ((b - 48) as u64);
        proof {
            lemma_dec_val_take_succ(s@, i as int);
        }
        if acc2 > u32::MAX as u64 {
            proof {
                lemma_dec_val_take_le(s@, i + 1);
            }
            return None;
        }
        acc = acc2;
        i = i + 1;
    }
    proof {
        assert(s@.take(i as int) =~= s@);
    }
    Some(acc as u32)
}

/// Write a number as decimal digits, most significant first.
pub fn u32_to_dec(n: u32) -> (r: Vec<u8>)
    ensures
        r@ == dec_seq(n as nat),
    decreases n,
{
    if n < 10 {
        let mut v: Vec<u8> = Vec::new();
        v.push((n as u8) + 48);
        v
    } else {
        let mut v = u32_to_dec(n / 10);
        v.push((n % 10) as u8 + 48);
        v
    }
}

/// Split a byte string at every occurrence of `sep`. The empty string has
/// one (empty) field; `n` separators give `n + 1` fields.
pub open spec fn split_bytes(s: Seq<u8>, sep: u8) -> Seq<Seq<u8>>
    decreases s.len(),
{
    if s.len() == 0 {
        seq![Seq::<u8>::empty()]
    } else if s.last() == sep {
        split_bytes(s.drop_last(), sep).push(Seq::<u8>::empty())
    } else {
        let r = split_bytes(s.drop_last(), sep);
        r.update(r.len() - 1, r.last().push(s.last()))
    }
}

/// Splitting always yields at least one field.
pub proof fn lemma_split_len(s: Seq<u8>, sep: u8)
    ensures
        split_bytes(s, sep).len() >= 1,
    decreases s.len(),
{
    if s.len() > 0 {
        lemma_split_len(s.drop_last(), sep);
    }
}

/// A string without the separator is a single field.
pub proof fn lemma_split_no_sep(s: Seq<u8>, sep: u8)
    requires
        forall|i: int| 0 <= i < s.len() ==> #[trigger] s[i] != sep,
    ensures
        split_bytes(s, sep) =~~= seq![s],
    decreases s.len(),
{
    if s.len() == 0 {
        assert(split_bytes(s, sep) =~~= seq![s]);
    } else {
        lemma_split_no_sep(s.drop_last(), sep);
        assert(s.last() != sep);
        assert(split_bytes(s, sep) =~~= seq![s]);
    }
}

/// Splitting distributes over a separator: the fields of
/// `u ++ <sep> ++ v` are the fields of `u` followed by the fields of `v`.
pub proof fn lemma_split_concat(u: Seq<u8>, v: Seq<u8>, sep: u8)
    ensures
        split_bytes(u + seq![sep] + v, sep) =~~= split_bytes(u, sep) + split_bytes(v, sep),
    decreases v.len(),
{
    let s = u + seq![sep] + v;
    if v.len() == 0 {
        assert(s.drop_last() =~= u);
        assert(s.last() == sep);
        assert(split_bytes(s, sep) =~~= split_bytes(u, sep).push(Seq::<u8>::empty()));
        assert(split_bytes(v, sep) =~= seq![Seq::<u8>::empty()]);
    } else {
        let v0 = v.drop_last();
        lemma_split_concat(u, v0, sep);
        assert(s.drop_last() =~= u + seq![sep] + v0);
        assert(s.last() == v.last());
        lemma_split_len(u, sep);
        lemma_split_len(v0, sep);
        if v.last() == sep {
            assert(split_bytes(s, sep) =~~= split_bytes(u, sep) + split_bytes(v, sep));
        } else {
            let r = split_bytes(u, sep) + split_bytes(v0, sep);
            let rv = split_bytes(v0, sep);
            assert(r.last() == rv.last());
            assert(r.update(r.len() - 1, r.last().push(v.last())) =~~= split_bytes(u, sep)
                + rv.update(rv.len() - 1, rv.last().push(v.last())));
        }
    }
}

/// The deep view of a vector of byte vectors.
pub open spec fn deep(s: Seq<Vec<u8>>) -> Seq<Seq<u8>> {
    s.map_values(|v: Vec<u8>| v@)
}

/// Split a byte string at every occurrence of `sep`.
pub fn split_on(s: &[u8], sep: u8) -> (r: Vec<Vec<u8>>)
    ensures
        deep(r@) == split_bytes(s@, sep),
        r@.len() >= 1,
{
    let mut fields: Vec<Vec<u8>> = Vec::new();
    let mut cur: Vec<u8> = Vec::new();
    let mut i: usize = 0;
    proof {
        assert(s@.take(0) =~= Seq::<u8>::empty());
        assert(deep(fields@).push(cur@) =~~= split_bytes(s@.take(0), sep));
    }
    while i < s.len()
        invariant
            0 <= i <= s.len(),
            deep(fields@).push(cur@) =~~= split_bytes(s@.take(i as int), sep),
        decreases s.len() - i,
    {
        let b = s[i];
        proof {
            assert(s@.take(i + 1).drop_last() =~= s@.take(i as int));
            assert(s@.take(i + 1).last() == s@[i as int]);
        }
        if b == sep {
            let done = cur;
            cur = Vec::new();
            fields.push(done);
            proof {
                assert(deep(fields@).push(cur@) =~~= split_bytes(s@.take(i + 1), sep));
            }
        } else {
            cur.push(b);
            proof {
                let r = split_bytes(s@.take(i as int), sep);
                assert(deep(fields@).push(cur@) =~~= r.update(r.len() - 1, r.last().push(b)));
            }
        }
        i = i + 1;
    }
    proof {
        assert(s@.take(i as int) =~= s@);
    }
    fields.push(cur);
    proof {
        assert(deep(fields@) =~~= split_bytes(s@, sep));
        lemma_split_len(s@, sep);
    }
    fields
}

/// An ASCII whitespace byte: space, tab, line feed, form feed or carriage
/// return.
pub open spec fn is_space(b: u8) -> bool {
    b == 32 || b == 9 || b == 10 || b == 12 || b == 13
}

/// The maximal runs of non-whitespace bytes, in order. Runs of whitespace
/// collapse, so no token is empty.
pub open spec fn split_ws(s: Seq<u8>) -> Seq<Seq<u8>>
    decreases s.len(),
{
    if s.len() == 0 {
        Seq::empty()
    } else if is_space(s.last()) {
        split_ws(s.drop_last())
    } else if s.len() >= 2 && !is_space(s[s.len() - 2]) {
        let r = split_ws(s.drop_last());
        r.update(r.len() - 1, r.last().push(s.last()))
    } else {
        split_ws(s.drop_last()).push(seq![s.last()])
    }
}

/// A string ending in a non-whitespace byte has at least one token.
proof fn lemma_split_ws_nonempty(s: Seq<u8>)
    requires
        s.len() > 0,
        !is_space(s.last()),
    ensures
        split_ws(s).len() >= 1,
    decreases s.len(),
{
    if s.len() >= 2 && !is_space(s[s.len() - 2]) {
        assert(s.drop_last().last() == s[s.len() - 2]);
        lemma_split_ws_nonempty(s.drop_last());
    }
}

/// Every whitespace token is non-empty.
pub proof fn lemma_split_ws_tokens_nonempty(s: Seq<u8>)
    ensures
        forall|j: int| 0 <= j < split_ws(s).len() ==> #[trigger] split_ws(s)[j].len() > 0,
    decreases s.len(),
{
    if s.len() > 0 {
        lemma_split_ws_tokens_nonempty(s.drop_last());
        let r = split_ws(s.drop_last());
        if !is_space(s.last()) {
            if s.len() >= 2 && !is_space(s[s.len() - 2]) {
                assert(s.drop_last().last() == s[s.len() - 2]);
                lemma_split_ws_nonempty(s.drop_last());
                let u = r.update(r.len() - 1, r.last().push(s.last()));
                assert forall|j: int| 0 <= j < u.len() implies #[trigger] u[j].len() > 0 by {
                    if j < r.len() - 1 {
                        assert(u[j] == r[j]);
                    } else {
                        assert(u[j] == r.last().push(s.last()));
                    }
                }
            } else {
                let u = r.push(seq![s.last()]);
                assert forall|j: int| 0 <= j < u.len() implies #[trigger] u[j].len() > 0 by {
                    if j < r.len() {
                        assert(u[j] == r[j]);
                    }
                }
            }
        }
    }
}

/// Split a byte string into its maximal non-whitespace runs.
pub fn split_whitespace(s: &[u8]) -> (r: Vec<Vec<u8>>)
    ensures
        deep(r@) == split_ws(s@),
{
    let mut fields: Vec<Vec<u8>> = Vec::new();
    let mut cur: Vec<u8> = Vec::new();
    let mut i: usize = 0;
    proof {
        assert(s@.take(0) =~= Seq::<u8>::empty());
    }
    while i < s.len()
        invariant
            0 <= i <= s.len(),
            cur@.len() > 0 ==> i > 0 && !is_space(s@[i - 1]) && deep(fields@).push(cur@)
                =~~= split_ws(s@.take(i as int)),
            cur@.len() == 0 ==> (i == 0 || is_space(s@[i - 1])) && deep(fields@) =~~= split_ws(
                s@.take(i as int),
            ),
        decreases s.len() - i,
    {
        let b = s[i];
        proof {
            assert(s@.take(i + 1).drop_last() =~= s@.take(i as int));
            assert(s@.take(i + 1).last() == s@[i as int]);
            if i > 0 {
                assert(s@.take(i + 1)[i - 1] == s@[i - 1]);
            }
        }
        if b == 32 || b == 9 || b == 10 || b == 12 || b == 13 {
            if cur.len() > 0 {
                fields.push(cur);
                cur = Vec::new();
                proof {
                    assert(deep(fields@) =~~= split_ws(s@.take(i + 1)));
                }
            }
        } else {
            if cur.len() == 0 {
                cur.push(b);
                proof {
                    assert(deep(fields@).push(cur@) =~~= split_ws(s@.take(i + 1)));
                }
            } else {
                proof {
                    let r = split_ws(s@.take(i as int));
                    assert(r.len() == deep(fields@).len() + 1);
                    assert(deep(fields@).push(cur@.push(b)) =~~= r.update(
                        r.len() - 1,
                        r.last().push(b),
                    ));
                }
                cur.push(b);
            }
        }
        i = i + 1;
    }
    proof {
        assert(s@.take(i as int) =~= s@);
    }
    if cur.len() > 0 {
        fields.push(cur);
        proof {
            assert(deep(fields@) =~~= split_ws(s@));
        }
        fields
    } else {
        fields
    }
}

/// Whether a byte occurs in a byte vector.
pub fn contains_byte(v: &Vec<u8>, b: u8) -> (r: bool)
    ensures
        r <==> exists|i: int| 0 <= i < v@.len() && v@[i] == b,
{
    let mut i: usize = 0;
    while i < v.len()
        invariant
            0 <= i <= v.len(),
            forall|k: int| 0 <= k < i ==> v@[k] != b,
        decreases v.len() - i,
    {
        if v[i] == b {
            return true;
        }
        i = i + 1;
    }
    false
}

/// Copy a byte vector.
pub fn clone_bytes(v: &Vec<u8>) -> (r: Vec<u8>)
    ensures
        r@ == v@,
{
    let mut r: Vec<u8> = Vec::new();
    let mut i: usize = 0;
    while i < v.len()
        invariant
            0 <= i <= v.len(),
            r@ =~= v@.take(i as int),
        decreases v.len() - i,
    {
        r.push(v[i]);
        i = i + 1;
    }
    proof {
        assert(v@.take(v.len() as int) =~= v@);
    }
    r
}

/// Compare two byte vectors for equality of contents.
pub fn bytes_eq(a: &Vec<u8>, b: &Vec<u8>) -> (r: bool)
    ensures
        r == (a@ == b@),
{
    let r = a == b;
    proof {
        if r {
            assert(a@ =~= b@);
        }
    }
    r
}

} // verus!
