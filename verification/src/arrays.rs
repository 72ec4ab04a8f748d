//! Copying constant arrays into vectors.
use vstd::prelude::*;

verus! {

/// A vector with the elements of `array`, in order.
pub fn vec_of<T: Copy, const N: usize>(array: &[T; N]) -> (v: Vec<T>)
    ensures
        v@ == array@,
{
    let mut v: Vec<T> = Vec::with_capacity(N);
    let mut i: usize = 0;
    while i < N
        invariant
            i <= N,
            v@ == array@.subrange(0, i as int),
        decreases N - i,
    {
        v.push(array[i]);
        assert(v@ =~= array@.subrange(0, i + 1));
        i += 1;
    }
    assert(v@ =~= array@);
    v
}

} // verus!
