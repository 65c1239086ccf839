//! The order of strings by their UTF-8 bytes, and sorted lists of distinct
//! strings kept in that order.

use vstd::prelude::*;
use vstd::string::*;
use vstd::utf8::{decode_utf8, encode_utf8};
use crate::fields::strings_view;

verus! {

/// Lexicographic order of byte sequences: the first differing byte decides,
/// and a proper prefix comes first.
pub open spec fn bytes_less(a: Seq<u8>, b: Seq<u8>) -> bool
    decreases a.len(),
{
    if b.len() == 0 {
        false
    } else if a.len() == 0 {
        true
    } else if a[0] < b[0] {
        true
    } else if a[0] > b[0] {
        false
    } else {
        bytes_less(a.drop_first(), b.drop_first())
    }
}

/// The order of strings by their UTF-8 encodings.
pub open spec fn name_less(a: Seq<char>, b: Seq<char>) -> bool {
    bytes_less(encode_utf8(a), encode_utf8(b))
}

/// Every earlier item is less than every later one: sorted, with no
/// repetition.
pub open spec fn strictly_sorted(s: Seq<Seq<char>>) -> bool {
    forall|i: int, j: int| 0 <= i < j < s.len() ==> name_less(#[trigger] s[i], #[trigger] s[j])
}

pub proof fn lemma_bytes_less_irreflexive(a: Seq<u8>)
    ensures
        !bytes_less(a, a),
    decreases a.len(),
{
    if a.len() > 0 {
        lemma_bytes_less_irreflexive(a.drop_first());
    }
}

pub proof fn lemma_bytes_less_transitive(a: Seq<u8>, b: Seq<u8>, c: Seq<u8>)
    requires
        bytes_less(a, b),
        bytes_less(b, c),
    ensures
        bytes_less(a, c),
    decreases a.len(),
{
    if a.len() > 0 && b.len() > 0 && c.len() > 0 && a[0] == b[0] && b[0] == c[0] {
        lemma_bytes_less_transitive(a.drop_first(), b.drop_first(), c.drop_first());
    }
}

pub proof fn lemma_bytes_less_total(a: Seq<u8>, b: Seq<u8>)
    requires
        a != b,
    ensures
        bytes_less(a, b) || bytes_less(b, a),
    decreases a.len(),
{
    if a.len() > 0 && b.len() > 0 && a[0] == b[0] {
        if a.drop_first() == b.drop_first() {
            assert(a.drop_first().len() == a.len() - 1);
            assert(b.drop_first().len() == b.len() - 1);
            assert(a.len() == b.len());
            assert(a =~= b) by {
                assert forall|i: int| 0 <= i < a.len() implies a[i] == b[i] by {
                    if i > 0 {
                        assert(a[i] == a.drop_first()[i - 1]);
                        assert(b[i] == b.drop_first()[i - 1]);
                    }
                }
            }
        } else {
            lemma_bytes_less_total(a.drop_first(), b.drop_first());
        }
    } else if a.len() == 0 && b.len() == 0 {
        assert(a =~= b);
    }
}

/// Irreflexive, transitive and total on distinct strings: a strict total order.
pub proof fn lemma_name_order(a: Seq<char>, b: Seq<char>, c: Seq<char>)
    ensures
        !name_less(a, a),
        name_less(a, b) && name_less(b, c) ==> name_less(a, c),
        a != b ==> name_less(a, b) || name_less(b, a),
        name_less(a, b) ==> !name_less(b, a),
{
    lemma_bytes_less_irreflexive(encode_utf8(a));
    if name_less(a, b) && name_less(b, c) {
        lemma_bytes_less_transitive(encode_utf8(a), encode_utf8(b), encode_utf8(c));
    }
    if name_less(a, b) && name_less(b, a) {
        lemma_bytes_less_transitive(encode_utf8(a), encode_utf8(b), encode_utf8(a));
    }
    if a != b {
        vstd::utf8::encode_utf8_decode_utf8(a);
        vstd::utf8::encode_utf8_decode_utf8(b);
        lemma_bytes_less_total(encode_utf8(a), encode_utf8(b));
    }
}

proof fn lemma_bytes_less_skip(a: Seq<u8>, b: Seq<u8>, i: int)
    requires
        0 <= i <= a.len(),
        i <= b.len(),
        forall|j: int| 0 <= j < i ==> a[j] == b[j],
    ensures
        bytes_less(a, b) == bytes_less(a.subrange(i, a.len() as int), b.subrange(i, b.len() as int)),
    decreases i,
{
    if i > 0 {
        lemma_bytes_less_skip(a.drop_first(), b.drop_first(), i - 1);
        assert(a.drop_first().subrange(i - 1, a.len() - 1) =~= a.subrange(i, a.len() as int));
        assert(b.drop_first().subrange(i - 1, b.len() - 1) =~= b.subrange(i, b.len() as int));
    } else {
        assert(a.subrange(0, a.len() as int) =~= a);
        assert(b.subrange(0, b.len() as int) =~= b);
    }
}

/// Whether `a` comes before `b` in the order of their UTF-8 bytes.
pub fn str_less(a: &str, b: &str) -> (r: bool)
    ensures
        r == name_less(a@, b@),
{
    let ab = a.as_bytes();
    let bb = b.as_bytes();
    let mut i: usize = 0;
    while i < ab.len() && i < bb.len()
        invariant
            ab@ == encode_utf8(a@),
            bb@ == encode_utf8(b@),
            i <= ab@.len(),
            i <= bb@.len(),
            forall|j: int| 0 <= j < i ==> ab@[j] == bb@[j],
        decreases ab@.len() - i,
    {
        if ab[i] != bb[i] {
            proof {
                lemma_bytes_less_skip(ab@, bb@, i as int);
            }
            return ab[i] < bb[i];
        }
        i = i + 1;
    }
    proof {
        lemma_bytes_less_skip(ab@, bb@, i as int);
    }
    i == ab.len() && i < bb.len()
}

/// Adds `s` to a strictly sorted list, at its place, unless it is there already.
pub fn insert_sorted(v: &mut Vec<String>, s: String)
    requires
        strictly_sorted(strings_view(old(v)@)),
    ensures
        strictly_sorted(strings_view(final(v)@)),
        forall|x: Seq<char>| #[trigger] strings_view(final(v)@).contains(x)
            <==> strings_view(old(v)@).contains(x) || x == s@,
{
    let ghost before = strings_view(v@);
    let mut p: usize = 0;
    while p < v.len()
        invariant
            before == strings_view(v@),
            strictly_sorted(before),
            p <= v@.len(),
            forall|j: int| 0 <= j < p ==> name_less(#[trigger] before[j], s@),
        ensures
            p <= v@.len(),
            forall|j: int| 0 <= j < p ==> name_less(#[trigger] before[j], s@),
            p < v@.len() ==> !name_less(before[p as int], s@),
        decreases v@.len() - p,
    {
        if !str_less(v[p].as_str(), s.as_str()) {
            break;
        }
        p = p + 1;
    }
    if p < v.len() && crate::json::str_eq(v[p].as_str(), s.as_str()) {
        proof {
            assert forall|x: Seq<char>| before.contains(x) || x == s@ implies before.contains(x) by {
                if x == s@ {
                    assert(before[p as int] == x);
                }
            }
        }
        return;
    }
    let ghost sv = s@;
    proof {
        if p < before.len() {
            lemma_name_order(before[p as int], sv, sv);
            assert(name_less(sv, before[p as int]));
        }
    }
    v.insert(p, s);
    let ghost after = strings_view(v@);
    proof {
        assert(after =~= before.insert(p as int, sv));
        assert forall|i: int, j: int| 0 <= i < j < after.len() implies name_less(#[trigger] after[i], #[trigger] after[j]) by {
            if j < p {
            } else if j == p {
            } else if i < p {
                lemma_name_order(before[i], sv, before[j - 1]);
                if p < before.len() {
                    lemma_name_order(sv, before[p as int], before[j - 1]);
                }
            } else if i == p {
                if p < before.len() && p < j - 1 {
                    lemma_name_order(sv, before[p as int], before[j - 1]);
                }
            } else {
            }
        }
        assert forall|x: Seq<char>| #[trigger] after.contains(x) <==> before.contains(x) || x == sv by {
            if after.contains(x) {
                let k = choose|k: int| 0 <= k < after.len() && after[k] == x;
                if k < p {
                    assert(before[k] == x);
                } else if k > p {
                    assert(before[k - 1] == x);
                }
            }
            if before.contains(x) {
                let k = choose|k: int| 0 <= k < before.len() && before[k] == x;
                if k < p {
                    assert(after[k] == x);
                } else {
                    assert(after[k + 1] == x);
                }
            }
            if x == sv {
                assert(after[p as int] == x);
            }
        }
    }
}

} // verus!
