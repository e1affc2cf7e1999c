//! The memory pools: bookkeeping of which ranges of a block of device memory
//! are handed out. The block itself is allocated through Vulkan by the caller.

use vstd::prelude::*;
use crate::alignment::{align_up, align_up_spec, is_pow2};
use crate::allocators::{
    blocks_wf, find_block, find_block_from, first_fit, fits_in_gap, gap_start, lemma_align_up_ge,
    lemma_allocation_placed, lemma_fit_leaves_room, lemma_first_fit_none, lemma_first_fit_prefix,
    lemma_free_undoes_insert, lemma_insert_in_gap,
    lemma_remove_wf, lemma_sum_insert, lemma_sum_remove, lemma_used_within_capacity, sum_sizes,
    try_gap, UsedBlock,
};
use crate::errors::MemoryPoolError;
use crate::flags::MemoryPropertyFlags;
use crate::memory::{MemoryBlock, MemoryRequirements};

verus! {

/// A pool with a fast bump allocator over one block: freed ranges are only
/// reused after `reset`. The block is allocated lazily, on the first
/// allocation, and serves one memory type.
pub struct LinearPool {
    /// The block of memory, once allocated.
    block: Option<MemoryBlock>,
    /// The offset where the next allocation may start.
    pointer: usize,
    /// The size of the pool in bytes.
    capacity: usize,
}

impl LinearPool {
    /// The block of memory, once allocated.
    pub closed spec fn spec_block(&self) -> Option<MemoryBlock> { self.block }

    /// The offset where the next allocation may start.
    pub closed spec fn spec_pointer(&self) -> nat { self.pointer as nat }

    /// The size of the pool in bytes.
    pub closed spec fn spec_capacity(&self) -> nat { self.capacity as nat }

    /// A pool of `capacity` bytes with no block yet.
    pub fn new(capacity: usize) -> (r: Self)
        ensures
            r.spec_block() is None,
            r.spec_pointer() == 0,
            r.spec_capacity() == capacity,
    {
        LinearPool { block: None, pointer: 0, capacity }
    }

    /// Whether an allocation first needs a block of memory (see `set_block`).
    pub fn needs_block(&self) -> (r: bool)
        ensures r == self.spec_block() is None,
    {
        self.block.is_none()
    }

    /// Whether the pool has a block and that block serves requests with these
    /// requirements and properties.
    pub fn serves(&self, reqs: &MemoryRequirements, props: MemoryPropertyFlags) -> (r: bool)
        ensures r == (self.spec_block() matches Some(b) && b.serves(*reqs, props)),
    {
        match &self.block {
            Some(block) => block.can_serve(reqs, props),
            None => false,
        }
    }

    /// Gives the pool the block it allocates from.
    pub fn set_block(&mut self, block: MemoryBlock)
        ensures
            final(self).spec_block() == Some(block),
            final(self).spec_pointer() == old(self).spec_pointer(),
            final(self).spec_capacity() == old(self).spec_capacity(),
    {
        self.block = Some(block);
    }

    /// Drops the block, so that the next allocation needs a new one (for
    /// instance of another memory type).
    pub fn release(&mut self)
        ensures
            final(self).spec_block() is None,
            final(self).spec_pointer() == old(self).spec_pointer(),
            final(self).spec_capacity() == old(self).spec_capacity(),
    {
        self.block = None;
    }

    /// Reserves `reqs.size` bytes at the next offset aligned to `reqs.align`
    /// and returns the block's memory handle and that offset; fails, leaving
    /// the pool as it was, where the pool has no room left for it. The block
    /// must serve the request's memory types and properties.
    pub fn allocate(&mut self, reqs: &MemoryRequirements, props: MemoryPropertyFlags) -> (r: Result<(u64, usize), MemoryPoolError>)
        requires
            old(self).spec_block() is Some,
            old(self).spec_block()->0.serves(*reqs, props),
            reqs.align == 0 || is_pow2(reqs.align as nat),
        ensures
            final(self).spec_block() == old(self).spec_block(),
            final(self).spec_capacity() == old(self).spec_capacity(),
            ({
                let start = align_up_spec(old(self).spec_pointer(), reqs.align as nat);
                if start + reqs.size <= old(self).spec_capacity() {
                    &&& r == Ok::<(u64, usize), MemoryPoolError>((old(self).spec_block()->0.spec_vk(), start as usize))
                    &&& final(self).spec_pointer() == start + reqs.size
                } else {
                    &&& r == Err::<(u64, usize), MemoryPoolError>(MemoryPoolError::OutOfMemoryError { req_size: reqs.size })
                    &&& final(self).spec_pointer() == old(self).spec_pointer()
                }
            }),
    {
        let memory = match &self.block {
            Some(block) => block.vk(),
            None => 0,
        };
        let pointer = match align_up(self.pointer, reqs.align as usize) {
            Some(p) => p,
            None => {
                return Err(MemoryPoolError::OutOfMemoryError { req_size: reqs.size });
            },
        };
        if pointer > self.capacity || reqs.size > self.capacity - pointer {
            return Err(MemoryPoolError::OutOfMemoryError { req_size: reqs.size });
        }
        self.pointer = pointer + reqs.size;
        Ok((memory, pointer))
    }

    /// Freeing a single allocation does nothing: the space comes back on `reset`.
    pub fn free(&mut self, _pointer: usize)
        ensures *final(self) == *old(self),
    {
    }

    /// Makes the whole pool available again.
    pub fn reset(&mut self)
        ensures
            final(self).spec_block() == old(self).spec_block(),
            final(self).spec_pointer() == 0,
            final(self).spec_capacity() == old(self).spec_capacity(),
    {
        self.pointer = 0;
    }

    /// The bytes used so far (including alignment padding).
    pub fn size(&self) -> (r: usize)
        ensures r == self.spec_pointer(),
    {
        self.pointer
    }

    /// The size of the pool in bytes.
    pub fn capacity(&self) -> (r: usize)
        ensures r == self.spec_capacity(),
    {
        self.capacity
    }
}

/// Where a block pool places an allocation: after the last used range if it
/// fits there, else in the first gap between used ranges that can hold it.
pub open spec fn block_pool_choice(s: Seq<UsedBlock>, capacity: nat, align: nat, size: nat) -> Option<int> {
    if fits_in_gap(s, capacity, s.len() as int, align, size) {
        Some(s.len() as int)
    } else {
        first_fit(s, capacity, align, size)
    }
}

/// A pool that reuses freed ranges of one block of memory.
pub struct BlockPool {
    /// The block of memory.
    block: MemoryBlock,
    /// The allocated ranges, ordered by offset.
    used_list: Vec<UsedBlock>,
    /// The number of allocated bytes.
    size: usize,
}

impl BlockPool {
    /// The block of memory.
    pub closed spec fn spec_block(&self) -> MemoryBlock { self.block }

    /// The allocated ranges, ordered by offset.
    pub closed spec fn blocks(&self) -> Seq<UsedBlock> { self.used_list@ }

    /// The number of allocated bytes.
    pub closed spec fn spec_size(&self) -> nat { self.size as nat }

    /// The ranges are ordered, disjoint and within the block, and `size` is
    /// their total length.
    pub closed spec fn wf(&self) -> bool {
        &&& blocks_wf(self.used_list@, self.block.spec_mem_size() as nat)
        &&& self.size as nat == sum_sizes(self.used_list@)
    }

    /// What every block pool keeps: its allocations are ordered by offset, do
    /// not overlap, end within the block, and add up to the used size, which is
    /// at most the block's size.
    pub proof fn lemma_invariant(&self)
        requires self.wf(),
        ensures
            blocks_wf(self.blocks(), self.spec_block().spec_mem_size() as nat),
            self.spec_size() == sum_sizes(self.blocks()),
            self.spec_size() <= self.spec_block().spec_mem_size(),
    {
        lemma_used_within_capacity(self.blocks(), self.spec_block().spec_mem_size() as nat);
    }

    /// An empty pool over an allocated block.
    pub fn new(block: MemoryBlock) -> (r: Self)
        ensures
            r.wf(),
            r.spec_block() == block,
            r.blocks() == Seq::<UsedBlock>::empty(),
            r.spec_size() == 0,
    {
        BlockPool { block, used_list: Vec::new(), size: 0 }
    }

    /// Reserves `reqs.size` bytes aligned to `reqs.align` after the last used
    /// range, or else in the first gap that can hold them, and returns the
    /// block's memory handle and their offset; fails, leaving the pool as it
    /// was, where no gap can. The block must serve the request's memory types
    /// and properties.
    pub fn allocate(&mut self, reqs: &MemoryRequirements, props: MemoryPropertyFlags) -> (r: Result<(u64, usize), MemoryPoolError>)
        requires
            old(self).wf(),
            old(self).spec_block().serves(*reqs, props),
            reqs.align == 0 || is_pow2(reqs.align as nat),
        ensures
            final(self).wf(),
            final(self).spec_block() == old(self).spec_block(),
            match block_pool_choice(old(self).blocks(), old(self).spec_block().spec_mem_size() as nat, reqs.align as nat, reqs.size as nat) {
                Some(i) => {
                    let p = align_up_spec(gap_start(old(self).blocks(), i), reqs.align as nat);
                    &&& r == Ok::<(u64, usize), MemoryPoolError>((old(self).spec_block().spec_vk(), p as usize))
                    &&& final(self).blocks() == old(self).blocks().insert(i, UsedBlock { pointer: p as usize, size: reqs.size })
                    &&& final(self).spec_size() == old(self).spec_size() + reqs.size
                },
                None => {
                    &&& r == Err::<(u64, usize), MemoryPoolError>(MemoryPoolError::OutOfMemoryError { req_size: reqs.size })
                    &&& final(self).blocks() == old(self).blocks()
                    &&& final(self).spec_size() == old(self).spec_size()
                },
            },
            r is Err <==> forall|j: int| 0 <= j <= old(self).blocks().len()
                ==> !#[trigger] fits_in_gap(old(self).blocks(), old(self).spec_block().spec_mem_size() as nat, j, reqs.align as nat, reqs.size as nat),
    {
        proof {
            lemma_block_pool_choice_fits(old(self).blocks(), old(self).spec_block().spec_mem_size() as nat, reqs.align as nat, reqs.size as nat);
        }
        let ghost s = self.used_list@;
        let capacity = self.block.mem_size();
        let ghost cap = capacity as nat;
        let align = reqs.align as usize;
        let size = reqs.size;
        let n = self.used_list.len();
        proof { lemma_used_within_capacity(s, cap); }
        // The range after the last used one first.
        match try_gap(&self.used_list, capacity, n, align, size) {
            Some(p) => {
                proof {
                    lemma_fit_leaves_room(s, cap, n as int, align as nat, size as nat);
                    lemma_align_up_ge(gap_start(s, n as int), align as nat);
                    lemma_insert_in_gap(s, cap, n as int, UsedBlock { pointer: p, size });
                    lemma_sum_insert(s, n as int, UsedBlock { pointer: p, size });
                }
                if n == 0 {
                    assert(s.insert(0, UsedBlock { pointer: p, size }) =~= s.push(UsedBlock { pointer: p, size }));
                    self.used_list.push(UsedBlock::new(p, size));
                } else {
                    UsedBlock::insert_after(&mut self.used_list, n - 1, UsedBlock::new(p, size));
                }
                self.size = self.size + size;
                return Ok((self.block.vk(), p));
            },
            None => {},
        }
        let mut i: usize = 0;
        while i < n
            invariant
                s == self.used_list@,
                s == old(self).used_list@,
                cap == self.block.spec_mem_size(),
                capacity == self.block.spec_mem_size(),
                self.block == old(self).block,
                self.size == old(self).size,
                self.wf(),
                n == s.len(),
                align == reqs.align as usize,
                size == reqs.size,
                align == 0 || is_pow2(align as nat),
                0 <= i <= n,
                !fits_in_gap(s, cap, n as int, align as nat, size as nat),
                forall|j: int| 0 <= j < i ==> !fits_in_gap(s, cap, j, align as nat, size as nat),
            decreases n - i,
        {
            match try_gap(&self.used_list, capacity, i, align, size) {
                Some(p) => {
                    proof {
                        let ghost k = i as int;
                        lemma_first_fit_prefix(s, cap, align as nat, size as nat, 0, k);
                        lemma_fit_leaves_room(s, cap, k, align as nat, size as nat);
                        lemma_align_up_ge(gap_start(s, k), align as nat);
                        lemma_insert_in_gap(s, cap, k, UsedBlock { pointer: p, size });
                        lemma_sum_insert(s, k, UsedBlock { pointer: p, size });
                    }
                    UsedBlock::insert_before(&mut self.used_list, i, UsedBlock::new(p, size));
                    self.size = self.size + size;
                    return Ok((self.block.vk(), p));
                },
                None => {},
            }
            i = i + 1;
        }
        proof { lemma_first_fit_none(s, cap, align as nat, size as nat, 0); }
        Err(MemoryPoolError::OutOfMemoryError { req_size: size })
    }

    /// Releases the first allocated range that starts at `pointer`, which must
    /// exist.
    pub fn free(&mut self, pointer: usize)
        requires
            old(self).wf(),
            find_block(old(self).blocks(), pointer as nat) is Some,
        ensures
            final(self).wf(),
            final(self).spec_block() == old(self).spec_block(),
            ({
                let i = find_block(old(self).blocks(), pointer as nat)->0;
                &&& final(self).blocks() == old(self).blocks().remove(i)
                &&& final(self).spec_size() + old(self).blocks()[i].size == old(self).spec_size()
            }),
    {
        let ghost s = self.used_list@;
        let n = self.used_list.len();
        let mut i: usize = 0;
        while i < n
            invariant
                s == self.used_list@,
                s == old(self).used_list@,
                self.block == old(self).block,
                self.size == old(self).size,
                self.wf(),
                n == s.len(),
                0 <= i <= n,
                find_block(s, pointer as nat) == find_block_from(s, pointer as nat, i as int),
                find_block(s, pointer as nat) is Some,
            decreases n - i,
        {
            if self.used_list[i].pointer == pointer {
                let b = UsedBlock::remove(&mut self.used_list, i);
                proof {
                    lemma_remove_wf(s, self.block.spec_mem_size() as nat, i as int);
                    lemma_sum_remove(s, i as int);
                }
                self.size = self.size - b.size;
                return;
            }
            i = i + 1;
        }
    }

    /// Releases every allocation.
    pub fn reset(&mut self)
        ensures
            final(self).wf(),
            final(self).spec_block() == old(self).spec_block(),
            final(self).blocks() == Seq::<UsedBlock>::empty(),
            final(self).spec_size() == 0,
    {
        self.used_list = Vec::new();
        self.size = 0;
    }

    /// The number of allocated bytes.
    pub fn size(&self) -> (r: usize)
        ensures r == self.spec_size(),
    {
        self.size
    }

    /// The size of the block in bytes.
    pub fn capacity(&self) -> (r: usize)
        ensures r == self.spec_block().spec_mem_size(),
    {
        self.block.mem_size()
    }
}

/// Freeing the offset a block pool's allocation returned undoes the
/// allocation, where no earlier allocation starts at that offset: the pool
/// finds the new range, and removing it gives back the ranges as they were.
pub proof fn lemma_block_pool_free_undoes_allocate(s: Seq<UsedBlock>, capacity: nat, align: nat, size: usize)
    requires
        blocks_wf(s, capacity),
        capacity <= usize::MAX,
        block_pool_choice(s, capacity, align, size as nat) is Some,
        ({
            let i = block_pool_choice(s, capacity, align, size as nat)->0;
            find_block(s, align_up_spec(gap_start(s, i), align)) is None
        }),
    ensures
        ({
            let i = block_pool_choice(s, capacity, align, size as nat)->0;
            let p = align_up_spec(gap_start(s, i), align);
            let t = s.insert(i, UsedBlock { pointer: p as usize, size });
            &&& find_block(t, p) == Some(i)
            &&& t.remove(i) == s
            &&& sum_sizes(t) - size == sum_sizes(s)
        }),
{
    let i = block_pool_choice(s, capacity, align, size as nat)->0;
    if !fits_in_gap(s, capacity, s.len() as int, align, size as nat) {
        lemma_allocation_placed(s, capacity, align, size as nat);
    }
    lemma_free_undoes_insert(s, capacity, i, align, size);
}


/// Where a block pool places a request, stated over the gaps: it is placed
/// exactly where some gap between or after the used ranges holds it; in the
/// gap after the last range where that one does, else in the first gap that
/// does.
pub proof fn lemma_block_pool_choice_fits(s: Seq<UsedBlock>, capacity: nat, align: nat, size: nat)
    ensures
        block_pool_choice(s, capacity, align, size) is None
            <==> forall|j: int| 0 <= j <= s.len() ==> !#[trigger] fits_in_gap(s, capacity, j, align, size),
        block_pool_choice(s, capacity, align, size) matches Some(i) ==> {
            &&& 0 <= i <= s.len()
            &&& fits_in_gap(s, capacity, i, align, size)
            &&& fits_in_gap(s, capacity, s.len() as int, align, size) ==> i == s.len()
            &&& !fits_in_gap(s, capacity, s.len() as int, align, size)
                ==> forall|j: int| 0 <= j < i ==> !#[trigger] fits_in_gap(s, capacity, j, align, size)
        },
{
    crate::allocators::lemma_first_fit_exact(s, capacity, align, size);
}

} // verus!
