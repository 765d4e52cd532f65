//! How the deep view of a vector follows the vector.

use vstd::prelude::*;

verus! {

/// Pushing an item onto a vector pushes the item's view onto the vector's
/// deep view.
pub proof fn lemma_push_deep_view<T: DeepView>(before: Vec<T>, after: Vec<T>, item: T)
    requires
        after@ == before@.push(item),
    ensures
        after.deep_view() == before.deep_view().push(item.deep_view()),
{
    assert(after.deep_view() =~= before.deep_view().push(item.deep_view()));
}

/// A vector that holds, item by item, views equal to those of a slice has
/// the slice's deep view.
pub proof fn lemma_same_deep_view<T: DeepView>(copy: Vec<T>, items: &[T])
    requires
        copy@.len() == items@.len(),
        forall|i: int|
            0 <= i < items@.len() ==> (#[trigger] copy@[i]).deep_view()
                == items@[i].deep_view(),
    ensures
        copy.deep_view() == items.deep_view(),
{
    assert(copy.deep_view() =~= items.deep_view());
}

} // verus!
