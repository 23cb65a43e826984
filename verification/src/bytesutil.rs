//! Byte-string utilities the token grammar is built on: equality, search,
//! splitting on a separator, prefix stripping, and decimal parsing.

use vstd::prelude::*;
use vstd::slice::{slice_subrange, slice_to_vec};

verus! {

/// The mathematical views of a list of byte vectors.
pub open spec fn views(l: Seq<Vec<u8>>) -> Seq<Seq<u8>> {
    l.map_values(|p: Vec<u8>| p@)
}

/// Byte-wise equality of two slices.
pub fn bytes_eq(a: &[u8], b: &[u8]) -> (r: bool)
    ensures
        r == (a@ == b@),
{
    if a.len() != b.len() {
        return false;
    }
    let mut i: usize = 0;
    while i < a.len()
        invariant
            a@.len() == b@.len(),
            i <= a@.len(),
            forall|j: int| 0 <= j < i ==> a@[j] == b@[j],
        decreases a@.len() - i,
    {
        if a[i] != b[i] {
            return false;
        }
        i += 1;
    }
    proof {
        assert(a@ =~= b@);
    }
    true
}

/// Index of the first occurrence of `b` in `s`, if any.
pub open spec fn spec_find(s: Seq<u8>, b: u8) -> Option<int>
    decreases s.len(),
{
    if s.len() == 0 {
        None
    } else if s[0] == b {
        Some(0)
    } else {
        match spec_find(s.skip(1), b) {
            None => None,
            Some(i) => Some(i + 1),
        }
    }
}

/// `spec_find` returns the first occurrence: a position holding `b` with no
/// earlier one, or `None` when `b` does not occur at all.
pub proof fn lemma_find_props(s: Seq<u8>, b: u8)
    ensures
        match spec_find(s, b) {
            Some(i) => 0 <= i < s.len() && s[i] == b && (forall|j: int| 0 <= j < i ==> s[j] != b),
            None => forall|j: int| 0 <= j < s.len() ==> s[j] != b,
        },
    decreases s.len(),
{
    if s.len() == 0 {
    } else if s[0] == b {
    } else {
        lemma_find_props(s.skip(1), b);
        match spec_find(s.skip(1), b) {
            None => {
                assert forall|j: int| 0 <= j < s.len() implies s[j] != b by {
                    if j >= 1 {
                        assert(s[j] == s.skip(1)[j - 1]);
                    }
                }
            },
            Some(i) => {
                assert(s[i + 1] == s.skip(1)[i]);
                assert forall|j: int| 0 <= j < i + 1 implies s[j] != b by {
                    if j >= 1 {
                        assert(s[j] == s.skip(1)[j - 1]);
                    }
                }
            },
        }
    }
}

/// A position holding `b` with no earlier occurrence is what `spec_find` returns.
pub proof fn lemma_find_at(s: Seq<u8>, b: u8, i: int)
    requires
        0 <= i < s.len(),
        s[i] == b,
        forall|j: int| 0 <= j < i ==> s[j] != b,
    ensures
        spec_find(s, b) == Some(i),
    decreases i,
{
    if i == 0 {
    } else {
        assert(s.skip(1)[i - 1] == s[i]);
        assert(forall|j: int| 0 <= j < i - 1 ==> s.skip(1)[j] == s[j + 1]);
        lemma_find_at(s.skip(1), b, i - 1);
    }
}

/// When `b` occurs nowhere in `s`, `spec_find` returns `None`.
pub proof fn lemma_find_none(s: Seq<u8>, b: u8)
    requires
        forall|j: int| 0 <= j < s.len() ==> s[j] != b,
    ensures
        spec_find(s, b) is None,
    decreases s.len(),
{
    if s.len() == 0 {
    } else {
        assert(forall|j: int| 0 <= j < s.skip(1).len() ==> s.skip(1)[j] == s[j + 1]);
        lemma_find_none(s.skip(1), b);
    }
}

/// The segments of `s` between occurrences of `sep`: always one more segment
/// than there are separators, so the result is never empty.
pub open spec fn spec_split(s: Seq<u8>, sep: u8) -> Seq<Seq<u8>>
    decreases s.len(),
    via spec_split_decreases
{
    match spec_find(s, sep) {
        None => seq![s],
        Some(i) => seq![s.take(i)] + spec_split(s.skip(i + 1), sep),
    }
}

#[via_fn]
proof fn spec_split_decreases(s: Seq<u8>, sep: u8) {
    lemma_find_props(s, sep);
}

/// Splits `s` on `sep`, returning exactly the segments of `spec_split`.
pub fn split_bytes(s: &[u8], sep: u8) -> (parts: Vec<Vec<u8>>)
    ensures
        views(parts@) == spec_split(s@, sep),
{
    let mut parts: Vec<Vec<u8>> = Vec::new();
    let mut start: usize = 0;
    let mut done: bool = false;
    proof {
        assert(s@.skip(0) =~= s@);
        assert(views(parts@) + spec_split(s@.skip(0), sep) =~~= spec_split(s@, sep));
    }
    while !done
        invariant
            start <= s@.len(),
            !done ==> spec_split(s@, sep) == views(parts@) + spec_split(
                s@.skip(start as int),
                sep,
            ),
            done ==> views(parts@) == spec_split(s@, sep),
        decreases s@.len() - start + (if done { 0int } else { 1int }),
    {
        let mut j: usize = start;
        while j < s.len() && s[j] != sep
            invariant
                start <= j <= s@.len(),
                forall|k: int| start <= k < j ==> s@[k] != sep,
            decreases s@.len() - j,
        {
            j += 1;
        }
        let seg: Vec<u8> = slice_to_vec(slice_subrange(s, start, j));
        let ghost segv = seg@;
        let ghost os = s@.skip(start as int);
        let ghost old_parts = parts@;
        proof {
            assert(forall|k: int| 0 <= k < os.len() ==> os[k] == s@[start + k]);
            assert(segv =~= os.take(j - start));
        }
        if j == s.len() {
            proof {
                assert(forall|k: int| 0 <= k < os.len() ==> os[k] != sep);
                lemma_find_none(os, sep);
                assert(spec_split(os, sep) == seq![os]);
                assert(segv =~= os);
            }
            parts.push(seg);
            done = true;
            proof {
                assert(views(parts@) =~~= views(old_parts) + seq![segv]);
                assert(views(parts@) =~~= spec_split(s@, sep));
            }
        } else {
            proof {
                assert(os[j - start] == s@[j as int]);
                assert(forall|k: int| 0 <= k < j - start ==> os[k] != sep);
                lemma_find_at(os, sep, j - start);
                assert(spec_split(os, sep) == seq![os.take(j - start)] + spec_split(
                    os.skip(j - start + 1),
                    sep,
                ));
                assert(os.skip(j - start + 1) =~= s@.skip(j + 1));
            }
            parts.push(seg);
            start = j + 1;
            proof {
                assert(views(parts@) =~~= views(old_parts) + seq![segv]);
                assert(spec_split(s@, sep) =~~= views(parts@) + spec_split(
                    s@.skip(start as int),
                    sep,
                ));
            }
        }
    }
    parts
}

/// What remains of `s` after a literal prefix `p`, or `None` when `p` is not
/// a prefix of `s`.
pub fn strip_prefix_bytes(s: &[u8], p: &[u8]) -> (r: Option<Vec<u8>>)
    ensures
        match r {
            Some(v) => p@.is_prefix_of(s@) && v@ == s@.skip(p@.len() as int),
            None => !p@.is_prefix_of(s@),
        },
{
    if p.len() > s.len() {
        return None;
    }
    let mut i: usize = 0;
    while i < p.len()
        invariant
            i <= p@.len() <= s@.len(),
            forall|j: int| 0 <= j < i ==> s@[j] == p@[j],
        decreases p@.len() - i,
    {
        if s[i] != p[i] {
            proof {
                assert(s@.subrange(0, p@.len() as int)[i as int] == s@[i as int]);
            }
            return None;
        }
        i += 1;
    }
    proof {
        assert(p@ =~= s@.subrange(0, p@.len() as int));
    }
    let rest = slice_to_vec(slice_subrange(s, p.len(), s.len()));
    proof {
        assert(rest@ =~= s@.skip(p@.len() as int));
    }
    Some(rest)
}

/// Whether `b` is an ASCII decimal digit.
pub open spec fn spec_digit(b: u8) -> bool {
    48 <= b <= 57
}

/// The value of a string of decimal digits, most significant first.
pub open spec fn spec_num_val(s: Seq<u8>) -> int
    decreases s.len(),
{
    if s.len() == 0 {
        0
    } else {
        spec_num_val(s.drop_last()) * 10 + (s.last() - 48)
    }
}

/// Ten to the power `n`.
pub open spec fn ten_pow(n: nat) -> int
    decreases n,
{
    if n == 0 {
        1
    } else {
        10 * ten_pow((n - 1) as nat)
    }
}

/// Powers of ten are positive and monotonic in the exponent.
pub proof fn lemma_ten_pow_le(a: nat, b: nat)
    requires
        a <= b,
    ensures
        1 <= ten_pow(a) <= ten_pow(b),
    decreases b,
{
    if b == 0 {
    } else if a == b {
        lemma_ten_pow_le(0, (b - 1) as nat);
    } else {
        lemma_ten_pow_le(a, (b - 1) as nat);
    }
}

/// The value of `n` digits is below the `n`-th power of ten.
pub proof fn lemma_num_val_bound(s: Seq<u8>)
    requires
        forall|i: int| 0 <= i < s.len() ==> spec_digit(#[trigger] s[i]),
    ensures
        0 <= spec_num_val(s) < ten_pow(s.len() as nat),
    decreases s.len(),
{
    if s.len() == 0 {
    } else {
        assert(forall|i: int| 0 <= i < s.drop_last().len() ==> spec_digit(
            #[trigger] s.drop_last()[i],
        ));
        lemma_num_val_bound(s.drop_last());
    }
}

/// A decimal number: one to eighteen digits, so the value always fits `u64`.
pub open spec fn spec_parse_num(s: Seq<u8>) -> Option<u64> {
    if 1 <= s.len() <= 18 && (forall|i: int| 0 <= i < s.len() ==> spec_digit(#[trigger] s[i])) {
        Some(spec_num_val(s) as u64)
    } else {
        None
    }
}

/// Parses a decimal number of at most eighteen digits.
pub fn parse_u64_digits(s: &[u8]) -> (r: Option<u64>)
    ensures
        r == spec_parse_num(s@),
{
    if s.len() == 0 || s.len() > 18 {
        return None;
    }
    let mut i: usize = 0;
    let mut val: u64 = 0;
    while i < s.len()
        invariant
            i <= s@.len() <= 18,
            forall|j: int| 0 <= j < i ==> spec_digit(#[trigger] s@[j]),
            val == spec_num_val(s@.take(i as int)),
        decreases s@.len() - i,
    {
        let b = s[i];
        if b < 48 || b > 57 {
            return None;
        }
        proof {
            assert(forall|j: int| 0 <= j < i + 1 ==> spec_digit(#[trigger] s@.take(i + 1)[j]));
            lemma_num_val_bound(s@.take(i as int));
            lemma_ten_pow_le((i as nat), 17nat);
            lemma_ten_pow_le(17nat, 18nat);
            assert(ten_pow(18) == 1000000000000000000) by {
                reveal_with_fuel(ten_pow, 19);
            }
            assert(s@.take(i + 1).drop_last() =~= s@.take(i as int));
            assert(s@.take(i + 1).last() == s@[i as int]);
        }
        val = val * 10 + ((b - 48) as u64);
        i += 1;
    }
    proof {
        assert(s@.take(i as int) =~= s@);
    }
    Some(val)
}

/// Whether some element of `a` also stands in `b`.
pub open spec fn spec_intersects(a: Seq<Seq<u8>>, b: Seq<Seq<u8>>) -> bool {
    exists|i: int| 0 <= i < a.len() && b.contains(a[i])
}

/// Whether `x` is one of the byte strings in `list`.
pub fn list_contains(list: &Vec<Vec<u8>>, x: &[u8]) -> (r: bool)
    ensures
        r == views(list@).contains(x@),
{
    let mut i: usize = 0;
    while i < list.len()
        invariant
            i <= list@.len(),
            forall|k: int| 0 <= k < i ==> views(list@)[k] != x@,
        decreases list@.len() - i,
    {
        if bytes_eq(list[i].as_slice(), x) {
            proof {
                assert(views(list@)[i as int] == x@);
            }
            return true;
        }
        i += 1;
    }
    proof {
        assert(forall|k: int| 0 <= k < views(list@).len() ==> views(list@)[k] != x@);
    }
    false
}

/// Whether the two lists share at least one byte string.
pub fn lists_intersect(a: &Vec<Vec<u8>>, b: &Vec<Vec<u8>>) -> (r: bool)
    ensures
        r == spec_intersects(views(a@), views(b@)),
{
    let mut i: usize = 0;
    while i < a.len()
        invariant
            i <= a@.len(),
            forall|k: int| 0 <= k < i ==> !views(b@).contains(#[trigger] views(a@)[k]),
        decreases a@.len() - i,
    {
        if list_contains(b, a[i].as_slice()) {
            proof {
                assert(views(b@).contains(views(a@)[i as int]));
            }
            return true;
        }
        i += 1;
    }
    false
}

/// A copy of the bytes of `v`.
pub fn clone_bytes(v: &Vec<u8>) -> (r: Vec<u8>)
    ensures
        r@ == v@,
{
    slice_to_vec(v.as_slice())
}

} // verus!
