//! The order of identifiers: texts compared byte by byte, as `str` orders them.

use vstd::prelude::*;
use vstd::string::StringSliceAdditionalSpecFns;
use vstd::utf8::{encode_utf8, encode_utf8_decode_utf8};
use std::cmp::Ordering;

verus! {

/// Whether `a` comes strictly before `b` in lexicographic order.
pub open spec fn precedes(a: Seq<u8>, b: Seq<u8>) -> bool
    decreases a.len(),
{
    if b.len() == 0 {
        false
    } else if a.len() == 0 {
        true
    } else if a[0] != b[0] {
        a[0] < b[0]
    } else {
        precedes(a.drop_first(), b.drop_first())
    }
}

/// How the identifier `a` compares with the identifier `b`: equal texts are
/// equal, and different texts are ordered by their UTF-8 bytes.
pub open spec fn order(a: Seq<char>, b: Seq<char>) -> Ordering {
    if a == b {
        Ordering::Equal
    } else if precedes(encode_utf8(a), encode_utf8(b)) {
        Ordering::Less
    } else {
        Ordering::Greater
    }
}

/// `a` and `b` hold the same bytes before position `n`.
pub open spec fn same_prefix(a: Seq<u8>, b: Seq<u8>, n: usize) -> bool {
    &&& n <= a.len()
    &&& n <= b.len()
    &&& forall|j: int| 0 <= j < n ==> a[j] == b[j]
}

/// What follows position `n` of `s`.
pub open spec fn rest(s: Seq<u8>, n: usize) -> Seq<u8>
    recommends
        n <= s.len(),
{
    s.skip(n as int)
}

/// A common prefix does not change which of two texts comes first.
pub proof fn lemma_precedes_skips_common_prefix(a: Seq<u8>, b: Seq<u8>, n: usize)
    requires
        same_prefix(a, b, n),
    ensures
        precedes(a, b) == precedes(rest(a, n), rest(b, n)),
    decreases n,
{
    if n == 0 {
        assert(rest(a, n) =~= a);
        assert(rest(b, n) =~= b);
    } else {
        let m: usize = (n - 1) as usize;
        assert(a[0] == b[0]);
        assert forall|j: int| 0 <= j < m implies a.drop_first()[j] == b.drop_first()[j] by {
            assert(a[j + 1] == b[j + 1]);
        }
        lemma_precedes_skips_common_prefix(a.drop_first(), b.drop_first(), m);
        assert(rest(a.drop_first(), m) =~= rest(a, n));
        assert(rest(b.drop_first(), m) =~= rest(b, n));
    }
}

/// Whether the text `a` comes strictly before the text `b`, byte by byte.
pub fn comes_before(a: &str, b: &str) -> (r: bool)
    ensures
        r == precedes(encode_utf8(a@), encode_utf8(b@)),
{
    let x = a.as_bytes();
    let y = b.as_bytes();
    let mut i: usize = 0;
    while i < x.len() && i < y.len()
        invariant
            x@ == a.spec_bytes(),
            y@ == b.spec_bytes(),
            same_prefix(x@, y@, i),
        decreases x.len() - i,
    {
        if x[i] != y[i] {
            proof {
                lemma_precedes_skips_common_prefix(x@, y@, i);
                assert(rest(x@, i)[0] == x@[i as int]);
                assert(rest(y@, i)[0] == y@[i as int]);
            }
            return x[i] < y[i];
        }
        i += 1;
    }
    proof {
        lemma_precedes_skips_common_prefix(x@, y@, i);
    }
    i < y.len()
}

/// Compares two identifiers.
pub fn compare(a: &String, b: &String) -> (o: Ordering)
    ensures
        o == order(a@, b@),
{
    if *a == *b {
        Ordering::Equal
    } else if comes_before(a.as_str(), b.as_str()) {
        Ordering::Less
    } else {
        Ordering::Greater
    }
}

/// No text comes before itself.
pub proof fn lemma_precedes_is_irreflexive(a: Seq<u8>)
    ensures
        !precedes(a, a),
    decreases a.len(),
{
    if a.len() > 0 {
        lemma_precedes_is_irreflexive(a.drop_first());
    }
}

/// Of two texts, at most one comes before the other.
pub proof fn lemma_precedes_is_asymmetric(a: Seq<u8>, b: Seq<u8>)
    requires
        precedes(a, b),
    ensures
        !precedes(b, a),
    decreases a.len(),
{
    if a.len() > 0 && b.len() > 0 && a[0] == b[0] {
        lemma_precedes_is_asymmetric(a.drop_first(), b.drop_first());
    }
}

/// What comes before a text comes before all that the text comes before.
pub proof fn lemma_precedes_is_transitive(a: Seq<u8>, b: Seq<u8>, c: Seq<u8>)
    requires
        precedes(a, b),
        precedes(b, c),
    ensures
        precedes(a, c),
    decreases a.len(),
{
    if a.len() > 0 && b.len() > 0 && c.len() > 0 && a[0] == b[0] && b[0] == c[0] {
        lemma_precedes_is_transitive(a.drop_first(), b.drop_first(), c.drop_first());
    }
}

/// Of two different texts, one comes before the other.
pub proof fn lemma_precedes_is_total(a: Seq<u8>, b: Seq<u8>)
    requires
        a != b,
    ensures
        precedes(a, b) || precedes(b, a),
    decreases a.len(),
{
    if a.len() > 0 && b.len() > 0 && a[0] == b[0] {
        if a.drop_first() == b.drop_first() {
            assert(a =~= seq![a[0]] + a.drop_first());
            assert(b =~= seq![b[0]] + b.drop_first());
        }
        lemma_precedes_is_total(a.drop_first(), b.drop_first());
    } else if a.len() == 0 && b.len() == 0 {
        assert(a =~= b);
    }
}

/// Identifiers are in a total order: two identifiers compare as equal
/// exactly when they are the same text, the one is less than the other
/// exactly when the other is greater than the one, and less than is
/// transitive.
pub proof fn lemma_order_is_total(a: Seq<char>, b: Seq<char>, c: Seq<char>)
    ensures
        order(a, b) == Ordering::Equal <==> a == b,
        order(a, b) == Ordering::Less <==> order(b, a) == Ordering::Greater,
        order(a, b) == Ordering::Less && order(b, c) == Ordering::Less ==> order(a, c)
            == Ordering::Less,
{
    encode_utf8_decode_utf8(a);
    encode_utf8_decode_utf8(b);
    encode_utf8_decode_utf8(c);
    let x = encode_utf8(a);
    let y = encode_utf8(b);
    let z = encode_utf8(c);
    lemma_precedes_is_irreflexive(x);
    if precedes(x, y) {
        lemma_precedes_is_asymmetric(x, y);
    }
    if precedes(y, x) {
        lemma_precedes_is_asymmetric(y, x);
    }
    if a != b {
        lemma_precedes_is_total(x, y);
    }
    if precedes(x, y) && precedes(y, z) {
        lemma_precedes_is_transitive(x, y, z);
    }
}

} // verus!
