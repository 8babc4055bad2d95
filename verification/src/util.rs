use vstd::prelude::*;

use crate::vec2::gvec2;
use crate::scalar::Scalar;

verus! {

/// A fresh acceleration buffer of `n` zero vectors.
pub fn zeros<S: Scalar>(n: usize) -> (r: Vec<gvec2<S>>)
    ensures
        r@.len() == n,
        forall|i: int| 0 <= i < n ==> r@[i] == gvec2::<S>::zero_spec(),
{
    let mut dst: Vec<gvec2<S>> = Vec::new();
    let mut i: usize = 0;
    while i < n
        invariant
            i <= n,
            dst@.len() == i,
            forall|k: int| 0 <= k < i ==> dst@[k] == gvec2::<S>::zero_spec(),
        decreases n - i,
    {
        dst.push(gvec2::zero());
        i = i + 1;
    }
    dst
}

} // verus!
