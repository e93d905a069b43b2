//! Synchronization primitives.

use vstd::prelude::*;

verus! {

/// Any object implementing this trait guarantees exclusive access to the data contained within
/// the mutex for the duration of the provided closure.
pub trait Mutex {
    /// The type of encapsulated data.
    type Data;

    /// Creates a critical section and grants temporary mutable access to the encapsulated data.
    fn lock<R, F: FnOnce(&mut Self::Data) -> R>(&mut self, f: F) -> R;
}

/// A pseudo-lock for teaching purposes. It does not protect against concurrent access from other
/// cores; it is meant for a kernel that runs on a single core with interrupts disabled.
pub struct NullLock<T> {
    data: T,
}

impl<T> NullLock<T> {
    /// The data the lock holds.
    pub closed spec fn spec_data(&self) -> T {
        self.data
    }

    /// Wraps `data` into a new `NullLock`.
    pub fn new(data: T) -> (r: Self)
        ensures
            r.spec_data() == data,
    {
        NullLock { data }
    }

    /// Grants the closure mutable access to the data and returns what the closure returns: the
    /// closure starts from the data the lock held, and the lock keeps what the closure leaves.
    pub fn lock<R, F: FnOnce(&mut T) -> R>(&mut self, f: F) -> (r: R)
        requires
            forall|d: &mut T| #[trigger] f.requires((d,)),
        ensures
            exists|d: &mut T|
                *d == old(self).spec_data() && *final(d) == final(self).spec_data()
                    && #[trigger] f.ensures((d,), r),
    {
        let d = &mut self.data;
        f(d)
    }
}

/// Running a closure that swaps the lock's data for `y` returns the data the lock held, and the
/// lock then holds `y`: the closure sees the lock's data, its result is returned, and its writes
/// are kept. The first premise is what `lock` ensures of the lock `old` before the call, the lock
/// `new` after it and the result `r`.
pub proof fn lemma_lock_swaps<T, F: FnOnce(&mut T) -> T>(
    old: NullLock<T>,
    f: F,
    new: NullLock<T>,
    r: T,
    y: T,
)
    requires
        exists|d: &mut T|
            *d == old.spec_data() && *final(d) == new.spec_data() && #[trigger] f.ensures((d,), r),
        forall|d: &mut T, v: T| #[trigger] f.ensures((d,), v) ==> v == *d && *final(d) == y,
    ensures
        r == old.spec_data(),
        new.spec_data() == y,
{
}

} // verus!
