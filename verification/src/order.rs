//! Taking the items of a vector out one by one, first item first.

use vstd::prelude::*;

verus! {

/// The items of `items` in the opposite order, so that popping hands them
/// out first item first.
pub(crate) fn reversed<T>(items: Vec<T>) -> (turned: Vec<T>)
    ensures
        turned@.len() == items@.len(),
        forall|k: int|
            0 <= k < items@.len() ==> #[trigger] turned@[k] == items@[items@.len() - 1 - k],
{
    let ghost all = items@;
    let mut items = items;
    let mut turned: Vec<T> = Vec::with_capacity(items.len());
    while items.len() > 0
        invariant
            items@.len() <= all.len(),
            turned@.len() == all.len() - items@.len(),
            forall|k: int| 0 <= k < items@.len() ==> #[trigger] items@[k] == all[k],
            forall|k: int|
                0 <= k < turned@.len() ==> #[trigger] turned@[k] == all[all.len() - 1 - k],
        decreases items@.len(),
    {
        match items.pop() {
            Some(item) => {
                turned.push(item);
            },
            None => {},
        }
    }
    turned
}

} // verus!
