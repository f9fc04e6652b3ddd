//! Finding the first item of a sequence that is wanted.

use vstd::prelude::*;

verus! {

/// The position of the first item of `items` that is wanted, or the length of
/// `items` where none is.
pub open spec fn first_index<T>(items: Seq<T>, wanted: spec_fn(T) -> bool) -> int
    decreases items.len(),
{
    if items.len() == 0 {
        0
    } else if wanted(items[0]) {
        0
    } else {
        1 + first_index(items.drop_first(), wanted)
    }
}

/// `first_index` lies inside the sequence or at its end, nothing before it is
/// wanted, and what stands at it is.
pub proof fn lemma_first_index<T>(items: Seq<T>, wanted: spec_fn(T) -> bool)
    ensures
        0 <= first_index(items, wanted) <= items.len(),
        forall|i: int| 0 <= i < first_index(items, wanted) ==> !wanted(#[trigger] items[i]),
        first_index(items, wanted) < items.len() ==> wanted(items[first_index(items, wanted)]),
    decreases items.len(),
{
    if items.len() > 0 && !wanted(items[0]) {
        let rest = items.drop_first();
        lemma_first_index(rest, wanted);
        assert forall|i: int| 0 <= i < first_index(items, wanted) implies !wanted(
            #[trigger] items[i],
        ) by {
            if i > 0 {
                assert(items[i] == rest[i - 1]);
            }
        }
    }
}

/// A position with nothing wanted before it, which holds a wanted item or is
/// the end, is the `first_index`.
pub proof fn lemma_first_index_is<T>(items: Seq<T>, wanted: spec_fn(T) -> bool, at: int)
    requires
        0 <= at <= items.len(),
        forall|i: int| 0 <= i < at ==> !wanted(#[trigger] items[i]),
        at < items.len() ==> wanted(items[at]),
    ensures
        first_index(items, wanted) == at,
    decreases at,
{
    if at > 0 {
        let rest = items.drop_first();
        assert(!wanted(items[0]));
        assert forall|i: int| 0 <= i < at - 1 implies !wanted(#[trigger] rest[i]) by {
            assert(rest[i] == items[i + 1]);
        }
        if at < items.len() {
            assert(rest[at - 1] == items[at]);
        }
        lemma_first_index_is(rest, wanted, at - 1);
    }
}

} // verus!
