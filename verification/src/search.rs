//! The first item of a list that meets a condition.

use vstd::prelude::*;

verus! {

/// Whether `at` is the place of the first item of `items` that is wanted.
pub open spec fn is_first<T>(items: Seq<T>, wanted: spec_fn(T) -> bool, at: int) -> bool {
    &&& 0 <= at < items.len()
    &&& wanted(items[at])
    &&& forall|before: int| 0 <= before < at ==> !wanted(#[trigger] items[before])
}

/// The place of the first wanted item, if any item is wanted.
pub open spec fn first_index<T>(items: Seq<T>, wanted: spec_fn(T) -> bool) -> Option<int> {
    if exists|at: int| is_first(items, wanted, at) {
        Some(choose|at: int| is_first(items, wanted, at))
    } else {
        None
    }
}

/// A place found by a search, as a number without bound.
pub open spec fn as_place(found: Option<usize>) -> Option<int> {
    match found {
        Some(at) => Some(at as int),
        None => None,
    }
}

/// A place that is first is the one that `first_index` names.
pub proof fn lemma_first_index_is<T>(items: Seq<T>, wanted: spec_fn(T) -> bool, at: int)
    requires
        is_first(items, wanted, at),
    ensures
        first_index(items, wanted) == Some(at),
{
    let chosen = choose|k: int| is_first(items, wanted, k);
    assert(is_first(items, wanted, chosen));
    if chosen < at {
        assert(!wanted(items[chosen]));
    }
    if at < chosen {
        assert(!wanted(items[at]));
    }
}

/// Where no item is wanted, `first_index` names none; and the other way round.
pub proof fn lemma_first_index_none<T>(items: Seq<T>, wanted: spec_fn(T) -> bool)
    ensures
        first_index(items, wanted) is None <==> forall|i: int|
            0 <= i < items.len() ==> !wanted(#[trigger] items[i]),
{
    if forall|i: int| 0 <= i < items.len() ==> !wanted(#[trigger] items[i]) {
        assert forall|at: int| !is_first(items, wanted, at) by {
            if 0 <= at < items.len() {
                assert(!wanted(items[at]));
            }
        }
    } else {
        let some = choose|i: int| 0 <= i < items.len() && wanted(#[trigger] items[i]);
        lemma_some_is_first(items, wanted, some);
    }
}

/// Below any wanted item there is a first one.
proof fn lemma_some_is_first<T>(items: Seq<T>, wanted: spec_fn(T) -> bool, upto: int)
    requires
        0 <= upto < items.len(),
        wanted(items[upto]),
    ensures
        exists|at: int| is_first(items, wanted, at) && at <= upto,
    decreases upto,
{
    if exists|j: int| 0 <= j < upto && wanted(#[trigger] items[j]) {
        let j = choose|j: int| 0 <= j < upto && wanted(#[trigger] items[j]);
        lemma_some_is_first(items, wanted, j);
    } else {
        assert(is_first(items, wanted, upto));
    }
}

} // verus!
