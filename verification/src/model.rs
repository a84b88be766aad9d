//! Views of lists: the contents of a vector of library values.

use vstd::prelude::*;

verus! {

/// The contents of a list of values, in order.
pub open spec fn views<T: View>(items: Seq<T>) -> Seq<T::V> {
    items.map_values(|item: T| item@)
}

/// An empty list has no contents.
pub proof fn lemma_views_empty<T: View>(items: Seq<T>)
    requires
        items.len() == 0,
    ensures
        views(items) == Seq::<T::V>::empty(),
{
    assert(views(items) =~= Seq::<T::V>::empty());
}

/// Appending lists appends their contents.
pub proof fn lemma_views_concat<T: View>(a: Seq<T>, b: Seq<T>)
    ensures
        views(a + b) == views(a) + views(b),
{
    assert(views(a + b) =~= views(a) + views(b));
}

/// Pushing a value pushes its contents.
pub proof fn lemma_views_push<T: View>(a: Seq<T>, item: T)
    ensures
        views(a.push(item)) == views(a).push(item@),
{
    assert(views(a.push(item)) =~= views(a).push(item@));
}

} // verus!
