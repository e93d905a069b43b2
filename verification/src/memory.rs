//! Zeroing memory.

use vstd::prelude::*;
use vstd::slice::SliceAdditionalExecFns;

verus! {

/// Zero out a memory region.
pub fn zero_volatile(range: &mut [usize])
    ensures
        final(range)@.len() == old(range)@.len(),
        forall|i: int| 0 <= i < final(range)@.len() ==> final(range)@[i] == 0,
{
    let mut i: usize = 0;
    while i < range.len()
        invariant
            0 <= i <= range@.len(),
            range@.len() == old(range)@.len(),
            forall|j: int| 0 <= j < i ==> range@[j] == 0,
        decreases range@.len() - i,
    {
        range.set(i, 0);
        i = i + 1;
    }
}

} // verus!
