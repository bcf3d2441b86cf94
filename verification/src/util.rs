//! Folding a sequence of values into one, as bounding boxes are merged.

use vstd::prelude::*;
use vstd::std_specs::iter::IteratorSpec;
use vstd::seq_lib::{to_multiset_contains, to_multiset_len, to_multiset_remove};

verus! {

/// `outcome` is what `func` may make of `first` and `rest` when it takes
/// the items of `rest` in their order, each together with what it made of
/// those before.
pub open spec fn folds_to<X, F: FnMut(X, X) -> X>(func: F, first: X, rest: Seq<X>, outcome: X) -> bool
    decreases rest.len(),
{
    if rest.len() == 0 {
        outcome == first
    } else {
        exists|before: X|
            folds_to(func, first, rest.drop_last(), before) && #[trigger] call_ensures(
                func,
                (before, rest.last()),
                outcome,
            )
    }
}

/// The items of the non-empty sequence `items` merged by `f` from the left.
pub open spec fn merged<X>(f: spec_fn(X, X) -> X, items: Seq<X>) -> X
    recommends
        items.len() > 0,
    decreases items.len(),
{
    if items.len() <= 1 {
        items[0]
    } else {
        f(merged(f, items.drop_last()), items.last())
    }
}

/// `f` gives the same for `(a, b)` and `(b, a)`.
#[verifier::opaque]
pub open spec fn commutative<X>(f: spec_fn(X, X) -> X) -> bool {
    forall|a: X, b: X| #[trigger] f(a, b) == f(b, a)
}

/// `f` gives the same however three items are grouped.
#[verifier::opaque]
pub open spec fn associative<X>(f: spec_fn(X, X) -> X) -> bool {
    forall|a: X, b: X, c: X| #[trigger] f(f(a, b), c) == f(a, f(b, c))
}

/// Whatever `func` returns is what `f` says.
pub open spec fn computes<X, F: FnMut(X, X) -> X>(func: F, f: spec_fn(X, X) -> X) -> bool {
    forall|a: X, b: X, outcome: X| #[trigger] call_ensures(func, (a, b), outcome) ==> outcome == f(a, b)
}

/// Perform a fold over an iterator, where the initial accumulator value is equal to the first
/// iterator value.
///
/// May yield a `None` when the iterator yields no value. An iterator of one
/// value yields that value, and `func` is not called.
pub fn fold_first<I, X, F>(mut iter: I, mut func: F) -> (outcome: Option<X>) where
    I: Iterator<Item = X>,
    F: FnMut(X, X) -> X,

    requires
        iter.obeys_prophetic_iter_laws(),
        iter.decrease() is Some,
        forall|a: X, b: X| call_requires(func, (a, b)),
    ensures
        iter.remaining().len() == 0 <==> outcome is None,
        iter.remaining().len() == 1 ==> outcome == Some(iter.remaining()[0]),
        outcome matches Some(value) ==> folds_to(
            func,
            iter.remaining()[0],
            iter.remaining().drop_first(),
            value,
        ),
{
    let ghost all = iter.remaining();
    let ghost func0 = func;
    let first = match iter.next() {
        Some(first) => first,
        None => {
            return None;
        },
    };
    let mut acc = first;
    let ghost mut taken: int = 1;
    assert(all.drop_first().take(0) =~= Seq::empty());
    loop
        invariant
            func == func0,
            iter.obeys_prophetic_iter_laws(),
            iter.decrease() is Some,
            forall|a: X, b: X| call_requires(func, (a, b)),
            1 <= taken <= all.len(),
            iter.remaining() == all.skip(taken),
            folds_to(func, all[0], all.drop_first().take(taken - 1), acc),
            all.len() == 1 ==> acc == all[0],
        ensures
            folds_to(func, all[0], all.drop_first(), acc),
            all.len() == 1 ==> acc == all[0],
        decreases iter.decrease()->0,
    {
        let ghost before = acc;
        match iter.next() {
            Some(item) => {
                acc = func(acc, item);
                proof {
                    let rest = all.drop_first().take(taken);
                    assert(item == all[taken]);
                    assert(rest.drop_last() =~= all.drop_first().take(taken - 1));
                    assert(rest.last() == item);
                    assert(folds_to(func, all[0], rest.drop_last(), before) && call_ensures(
                        func,
                        (before, rest.last()),
                        acc,
                    ));
                    assert(all.skip(taken).drop_first() =~= all.skip(taken + 1));
                    taken = taken + 1;
                }
            },
            None => {
                proof {
                    assert(all.drop_first().take(taken - 1) =~= all.drop_first());
                }
                break ;
            },
        }
    }
    Some(acc)
}

/// Where `func` computes `f`, the fold of a sequence is its merge by `f`.
pub proof fn lemma_fold_is_merge<X, F: FnMut(X, X) -> X>(
    func: F,
    f: spec_fn(X, X) -> X,
    items: Seq<X>,
    outcome: X,
)
    requires
        items.len() > 0,
        computes(func, f),
        folds_to(func, items[0], items.drop_first(), outcome),
    ensures
        outcome == merged(f, items),
    decreases items.len(),
{
    if items.len() > 1 {
        let rest = items.drop_first();
        let before = choose|before: X|
            folds_to(func, items[0], rest.drop_last(), before) && #[trigger] call_ensures(
                func,
                (before, rest.last()),
                outcome,
            );
        assert(items.drop_last().drop_first() =~= rest.drop_last());
        lemma_fold_is_merge(func, f, items.drop_last(), before);
    }
}

/// The first item of a sequence can be merged last.
proof fn lemma_merge_first_last<X>(f: spec_fn(X, X) -> X, items: Seq<X>)
    requires
        items.len() >= 2,
        associative(f),
    ensures
        merged(f, items) == f(items[0], merged(f, items.drop_first())),
    decreases items.len(),
{
    let tail = items.drop_first();
    assert(merged(f, items) == f(merged(f, items.drop_last()), items.last()));
    assert(tail.last() == items.last());
    if items.len() > 2 {
        lemma_merge_first_last(f, items.drop_last());
        assert(items.drop_last().drop_first() =~= tail.drop_last());
        assert(items.drop_last()[0] == items[0]);
        let middle = merged(f, tail.drop_last());
        assert(merged(f, tail) == f(middle, tail.last()));
        assert(f(f(items[0], middle), items.last()) == f(items[0], f(middle, items.last()))) by {
            reveal(associative);
        }
    } else {
        assert(merged(f, items.drop_last()) == items.drop_last()[0]);
        assert(merged(f, tail) == tail[0]);
    }
}

/// Any item of a sequence can be merged before the others.
proof fn lemma_merge_any_first<X>(f: spec_fn(X, X) -> X, items: Seq<X>, i: int)
    requires
        items.len() >= 2,
        0 <= i < items.len(),
        associative(f),
        commutative(f),
    ensures
        merged(f, items) == f(items[i], merged(f, items.remove(i))),
    decreases i,
{
    lemma_merge_first_last(f, items);
    if i == 0 {
        assert(items.remove(0) =~= items.drop_first());
    } else if items.len() == 2 {
        assert(items.remove(1) =~= seq![items[0]]);
        assert(items.drop_first() =~= seq![items[1]]);
        assert(f(items[0], items[1]) == f(items[1], items[0])) by {
            reveal(commutative);
        }
    } else {
        let tail = items.drop_first();
        lemma_merge_any_first(f, tail, i - 1);
        let others = merged(f, tail.remove(i - 1));
        assert(tail[i - 1] == items[i]);
        lemma_merge_first_last(f, items.remove(i));
        assert(items.remove(i).drop_first() =~= tail.remove(i - 1));
        assert(items.remove(i)[0] == items[0]);
        assert(f(f(items[0], items[i]), others) == f(items[0], f(items[i], others))) by {
            reveal(associative);
        }
        assert(f(items[0], items[i]) == f(items[i], items[0])) by {
            reveal(commutative);
        }
        assert(f(f(items[i], items[0]), others) == f(items[i], f(items[0], others))) by {
            reveal(associative);
        }
    }
}

/// The merge of a sequence by a function that is associative and
/// commutative does not depend on the order of its items: two non-empty
/// sequences that hold the same items, each as often in the one as in the
/// other, merge to the same.
pub proof fn lemma_merge_ignores_order<X>(f: spec_fn(X, X) -> X, a: Seq<X>, b: Seq<X>)
    requires
        a.len() > 0,
        a.to_multiset() == b.to_multiset(),
        associative(f),
        commutative(f),
    ensures
        merged(f, a) == merged(f, b),
    decreases a.len(),
{
    to_multiset_len(a);
    to_multiset_len(b);
    let head = b[0];
    assert(b.contains(head));
    to_multiset_contains(b, head);
    to_multiset_contains(a, head);
    let i = choose|i: int| 0 <= i < a.len() && a[i] == head;
    if a.len() >= 2 {
        lemma_merge_any_first(f, a, i);
        lemma_merge_first_last(f, b);
        to_multiset_remove(a, i);
        to_multiset_remove(b, 0);
        assert(b.remove(0) =~= b.drop_first());
        lemma_merge_ignores_order(f, a.remove(i), b.drop_first());
    }
}

} // verus!
