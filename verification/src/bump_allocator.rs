//! A bump allocator for DMA-able memory.

use vstd::prelude::*;
use crate::common::{is_power_of_two, spec_align_up};

verus! {

/// The address `addr` rounded up to the next multiple of `alignment`, by masking: exact when the
/// alignment is a power of two.
pub fn aligned_addr_unchecked(addr: usize, alignment: usize) -> (r: usize)
    requires
        alignment >= 1,
        addr + alignment - 1 <= usize::MAX,
    ensures
        r == ((addr + alignment - 1) as usize) & !((alignment - 1) as usize),
        is_power_of_two(alignment) ==> r == spec_align_up(addr as int, alignment as int),
{
    proof {
        if is_power_of_two(alignment) {
            crate::common::lemma_mask_is_mod((addr + alignment - 1) as usize, alignment);
        }
    }
    (addr + (alignment - 1)) & !(alignment - 1)
}

/// The allocator found no room for the requested allocation.
#[derive(Copy, Clone, Debug, PartialEq, Eq, Structural)]
pub struct AllocErr;

/// A bump allocator: hands out memory from a pool front to back and never takes it back.
pub struct BumpAllocator {
    next: usize,
    pool_end: usize,
    name: &'static str,
}

impl BumpAllocator {
    /// The first address not handed out yet.
    pub closed spec fn spec_next(&self) -> usize {
        self.next
    }

    /// The (inclusive) end of the pool.
    pub closed spec fn spec_pool_end(&self) -> usize {
        self.pool_end
    }

    /// The allocator's name.
    pub closed spec fn spec_name(&self) -> &'static str {
        self.name
    }

    /// An allocator for the pool `[pool_start, pool_end]`.
    pub fn new(pool_start: usize, pool_end: usize, name: &'static str) -> (r: Self)
        ensures
            r.spec_next() == pool_start,
            r.spec_pool_end() == pool_end,
            r.spec_name() == name,
    {
        Self { next: pool_start, pool_end, name }
    }

    /// The first address not handed out yet.
    pub fn next_free(&self) -> (r: usize)
        ensures
            r == self.spec_next(),
    {
        self.next
    }

    /// The allocator's name.
    pub fn name(&self) -> (r: &'static str)
        ensures
            r == self.spec_name(),
    {
        self.name
    }

    /// Allocate `size` bytes aligned to `align`: the start address of the allocation. An
    /// allocation succeeds if it ends within the pool.
    pub fn alloc_bytes(&mut self, size: usize, align: usize) -> (r: Result<usize, AllocErr>)
        requires
            is_power_of_two(align),
            old(self).spec_next() + align - 1 <= usize::MAX,
            spec_align_up(old(self).spec_next() as int, align as int) + size <= usize::MAX,
        ensures
            bump_alloc_post(*old(self), size, align, *final(self), r),
    {
        proof {
            crate::common::lemma_power_of_two_bounds(align);
            crate::common::lemma_align_up_properties(self.next as int, align as int);
        }
        let start = aligned_addr_unchecked(self.next, align);
        let end = start + size;

        if end <= self.pool_end {
            self.next = end;
            Ok(start)
        } else {
            Err(AllocErr)
        }
    }

    /// Allocate room for `count_of_items` items of `item_size` bytes each, aligned to
    /// `alignment`: the start address of the allocation, whose bytes the caller zeroes. Fails if
    /// the layout is invalid (the alignment is not a power of two, or the size rounded up to the
    /// alignment exceeds `isize::MAX`) or the pool has no room.
    pub fn alloc_slice_zeroed(
        &mut self,
        count_of_items: usize,
        item_size: usize,
        alignment: usize,
    ) -> (r: Result<usize, ()>)
        requires
            count_of_items * item_size <= usize::MAX,
            is_power_of_two(alignment) && count_of_items * item_size + alignment - 1 <= isize::MAX
                ==> old(self).spec_next() + alignment - 1 <= usize::MAX && spec_align_up(
                old(self).spec_next() as int,
                alignment as int,
            ) + count_of_items * item_size <= usize::MAX,
        ensures
            final(self).spec_pool_end() == old(self).spec_pool_end(),
            ({
                let size = count_of_items * item_size;
                let start = spec_align_up(old(self).spec_next() as int, alignment as int);
                &&& r is Ok <==> is_power_of_two(alignment) && size + alignment - 1 <= isize::MAX
                    && start + size <= old(self).spec_pool_end()
                &&& r is Ok ==> r == Ok::<usize, ()>(start as usize) && final(self).spec_next()
                    == start + size
                &&& r is Err ==> final(self).spec_next() == old(self).spec_next()
            }),
    {
        let size_in_byte = count_of_items * item_size;
        if !valid_layout(size_in_byte, alignment) {
            return Err(());
        }
        match self.alloc_bytes(size_in_byte, alignment) {
            Ok(start) => Ok(start),
            Err(_) => Err(()),
        }
    }
}

/// The outcome of asking allocator `old` for `size` bytes aligned to `align`, leaving allocator
/// `new` and returning `r`: the allocation starts at the next free address rounded up to the
/// alignment, and succeeds if and only if it ends within the pool; the pool and the name stay.
pub open spec fn bump_alloc_post(
    old: BumpAllocator,
    size: usize,
    align: usize,
    new: BumpAllocator,
    r: Result<usize, AllocErr>,
) -> bool {
    let start = spec_align_up(old.spec_next() as int, align as int);
    &&& new.spec_pool_end() == old.spec_pool_end()
    &&& new.spec_name() == old.spec_name()
    &&& start + size <= old.spec_pool_end() <==> r is Ok
    &&& r is Ok ==> r == Ok::<usize, AllocErr>(start as usize) && new.spec_next() == start + size
    &&& r is Err ==> new.spec_next() == old.spec_next()
}

/// Two successive successful allocations are aligned as asked, lie in the pool one after the
/// other from the allocator's next free address on, and do not overlap.
pub proof fn lemma_bump_allocations_disjoint(
    a0: BumpAllocator,
    size1: usize,
    align1: usize,
    a1: BumpAllocator,
    first: usize,
    size2: usize,
    align2: usize,
    a2: BumpAllocator,
    second: usize,
)
    requires
        is_power_of_two(align1),
        is_power_of_two(align2),
        bump_alloc_post(a0, size1, align1, a1, Ok(first)),
        bump_alloc_post(a1, size2, align2, a2, Ok(second)),
    ensures
        first % align1 == 0,
        second % align2 == 0,
        a0.spec_next() <= first,
        first + size1 <= second,
        second + size2 <= a0.spec_pool_end(),
        a2.spec_next() == second + size2,
{
    crate::common::lemma_power_of_two_bounds(align1);
    crate::common::lemma_power_of_two_bounds(align2);
    crate::common::lemma_align_up_properties(a0.spec_next() as int, align1 as int);
    crate::common::lemma_align_up_properties(a1.spec_next() as int, align2 as int);
}

/// Whether `align` is a power of two: the one set bit of such a value is found by comparing it
/// with every power of two that fits into a `usize`.
pub fn is_power_of_two_exec(align: usize) -> (r: bool)
    ensures
        r == is_power_of_two(align),
{
    let mut k: usize = 0;
    while k < usize::BITS as usize
        invariant
            0 <= k <= usize::BITS,
            forall|j: nat| j < k ==> align as nat != vstd::arithmetic::power2::pow2(j),
        decreases usize::BITS - k,
    {
        proof {
            vstd::bits::lemma_usize_pow2_no_overflow(k as nat);
            vstd::bits::lemma_usize_shl_is_mul(1, k);
        }
        if align == (1usize << k) {
            return true;
        }
        k = k + 1;
    }
    false
}

/// `Layout::from_size_align`'s check: the alignment is a power of two, and the size rounded up
/// to the alignment does not exceed `isize::MAX`.
pub fn valid_layout(size: usize, align: usize) -> (r: bool)
    ensures
        r == (is_power_of_two(align) && size + align - 1 <= isize::MAX),
{
    if !is_power_of_two_exec(align) {
        return false;
    }
    proof { crate::common::lemma_power_of_two_bounds(align); }
    size <= (isize::MAX as usize) - (align - 1)
}

} // verus!
