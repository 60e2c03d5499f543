//! Helpers for vectors that are consumed element by element.

use vstd::prelude::*;

verus! {

/// The elements of `v` in the opposite order, so that popping from the end
/// gives them first to last.
pub fn reversed<T>(v: Vec<T>) -> (r: Vec<T>)
    ensures
        r@.len() == v@.len(),
        forall|i: int| 0 <= i < r@.len() ==> #[trigger] r@[i] == v@[v@.len() - 1 - i],
{
    let mut rest = v;
    let mut r: Vec<T> = Vec::new();
    while rest.len() > 0
        invariant
            rest@.len() + r@.len() == v@.len(),
            forall|i: int| 0 <= i < rest@.len() ==> rest@[i] == v@[i],
            forall|i: int| 0 <= i < r@.len() ==> #[trigger] r@[i] == v@[v@.len() - 1 - i],
        decreases rest@.len(),
    {
        let last = rest.pop().unwrap();
        r.push(last);
    }
    r
}

} // verus!
