//! Applying a scalar function to every element of a sequence.

use vstd::prelude::*;

verus! {

/// Applies `f` to each item of `items`, in order.
///
/// The result is as long as `items`, and the value at each position is one
/// that `f` gives for the item at the same position.
pub fn map_each<A: Copy, B, F: Fn(A) -> B>(items: &[A], f: F) -> (mapped: Vec<B>)
    requires
        forall|i: int| 0 <= i < items@.len() ==> f.requires((#[trigger] items@[i],)),
    ensures
        mapped@.len() == items@.len(),
        forall|i: int| 0 <= i < items@.len() ==> f.ensures((items@[i],), #[trigger] mapped@[i]),
{
    let n = items.len();
    let mut mapped: Vec<B> = Vec::with_capacity(n);
    for at in 0..n
        invariant
            n == items@.len(),
            mapped@.len() == at,
            forall|i: int| 0 <= i < items@.len() ==> f.requires((#[trigger] items@[i],)),
            forall|i: int| 0 <= i < at ==> f.ensures((items@[i],), #[trigger] mapped@[i]),
    {
        let value = f(items[at]);
        mapped.push(value);
    }
    mapped
}

} // verus!
