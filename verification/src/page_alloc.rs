//! Page allocation.

use vstd::prelude::*;
use crate::address::AddressType;
use crate::mmu_types::{MemoryRegion, take_first_n_pages_post};

verus! {

/// A page allocator that can be lazily initialized.
pub struct PageAllocator<ATYPE: AddressType> {
    pool: Option<MemoryRegion<ATYPE>>,
}

/// Message of the error that the allocator was asked for pages before it got a pool.
pub open spec fn not_initialized_message() -> Seq<char> {
    "Allocator not initialized"@
}

impl<ATYPE: AddressType> PageAllocator<ATYPE> {
    /// The pool the allocator hands pages out of, if it has one.
    pub closed spec fn spec_pool(self) -> Option<MemoryRegion<ATYPE>> {
        self.pool
    }

    /// The pool, if any, is a well-formed region.
    pub open spec fn wf(self) -> bool {
        self.spec_pool() is Some ==> self.spec_pool()->0.wf()
    }

    /// Create an instance.
    pub fn new() -> (r: Self)
        ensures
            r.spec_pool() is None,
            r.wf(),
    {
        Self { pool: None }
    }

    /// Whether the allocator has a pool: initializing it again has no effect.
    pub fn is_initialized(&self) -> (r: bool)
        ensures
            r == self.spec_pool() is Some,
    {
        self.pool.is_some()
    }

    /// Initialize the allocator. An allocator that already has a pool keeps it.
    pub fn init(&mut self, pool: MemoryRegion<ATYPE>)
        requires
            pool.wf(),
        ensures
            old(self).spec_pool() is Some ==> final(self).spec_pool() == old(self).spec_pool(),
            old(self).spec_pool() is None ==> final(self).spec_pool() == Some(pool),
    {
        if self.pool.is_some() {
            return;
        }
        self.pool = Some(pool);
    }

    /// Allocate a number of pages.
    pub fn alloc_pages(&mut self, num_requested_pages: usize) -> (r: Result<MemoryRegion<ATYPE>, &'static str>)
        requires
            num_requested_pages > 0,
            old(self).wf(),
        ensures
            final(self).wf(),
            alloc_post(*old(self), num_requested_pages, *final(self), r),
    {
        if self.pool.is_none() {
            return Err("Allocator not initialized");
        }
        let mut pool = self.pool.take().unwrap();
        let r = pool.take_first_n_pages(num_requested_pages);
        self.pool = Some(pool);
        r
    }
}

/// The outcome of asking allocator `old` for `num_pages` pages, leaving allocator `new` and
/// returning `r`.
pub open spec fn alloc_post<ATYPE: AddressType>(
    old: PageAllocator<ATYPE>,
    num_pages: usize,
    new: PageAllocator<ATYPE>,
    r: Result<MemoryRegion<ATYPE>, &'static str>,
) -> bool {
    match old.spec_pool() {
        None => new.spec_pool() is None && r is Err && r->Err_0@ == not_initialized_message(),
        Some(pool) => new.spec_pool() is Some && take_first_n_pages_post(
            pool,
            num_pages,
            new.spec_pool()->0,
            r,
        ),
    }
}

/// An allocation that succeeds hands out exactly the number of pages asked for, from the front
/// of the pool, and the pool keeps exactly the pages after them.
pub proof fn lemma_alloc_takes_front_pages<ATYPE: AddressType>(
    old: PageAllocator<ATYPE>,
    num_pages: usize,
    new: PageAllocator<ATYPE>,
    allocation: MemoryRegion<ATYPE>,
)
    requires
        old.wf(),
        alloc_post(old, num_pages, new, Ok(allocation)),
    ensures
        old.spec_pool() is Some,
        allocation.spec_num_pages() == num_pages,
        allocation.spec_start() == old.spec_pool()->0.spec_start(),
        new.spec_pool()->0.spec_start() == allocation.spec_end_exclusive(),
        new.spec_pool()->0.spec_end_exclusive() == old.spec_pool()->0.spec_end_exclusive(),
        new.spec_pool()->0.spec_num_pages() + num_pages == old.spec_pool()->0.spec_num_pages(),
{
    old.spec_pool()->0.lemma_wf();
    assert((num_pages * 0x1_0000) / 0x1_0000 == num_pages) by (nonlinear_arith);
    let p = old.spec_pool()->0;
    let e = p.spec_end_exclusive() as int;
    let st = p.spec_start() as int;
    assert((e - st) % 0x1_0000 == 0) by {
        vstd::arithmetic::div_mod::lemma_mod_sub_multiples_vanish(e, 0x1_0000);
    }
}

/// Two successive successful allocations are adjacent, do not overlap, and both lie within the
/// pool the allocator had before the first of them.
pub proof fn lemma_successive_allocations_disjoint<ATYPE: AddressType>(
    a0: PageAllocator<ATYPE>,
    n1: usize,
    a1: PageAllocator<ATYPE>,
    first: MemoryRegion<ATYPE>,
    n2: usize,
    a2: PageAllocator<ATYPE>,
    second: MemoryRegion<ATYPE>,
)
    requires
        n1 > 0,
        n2 > 0,
        a0.wf(),
        a1.wf(),
        alloc_post(a0, n1, a1, Ok(first)),
        alloc_post(a1, n2, a2, Ok(second)),
    ensures
        first.spec_end_exclusive() == second.spec_start(),
        first.spec_start() < first.spec_end_exclusive() <= second.spec_start()
            < second.spec_end_exclusive(),
        a0.spec_pool()->0.spec_start() <= first.spec_start(),
        second.spec_end_exclusive() <= a0.spec_pool()->0.spec_end_exclusive(),
{
}

} // verus!
