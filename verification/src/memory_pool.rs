//! The decisions of the general memory pool: which memory types may serve a
//! request, which existing block takes it, and which sizes a new block is
//! tried with. The device allocations themselves are the caller's.

use vstd::prelude::*;
use crate::alignment::{align_up_spec, is_pow2};
use crate::allocators::{DenseAllocator, LinearAllocator, MemoryAllocatorKind, UsedBlock, first_fit, first_fit_from, fits_in_gap, gap_start};
use crate::errors::MemoryPoolError;
use crate::flags::{DeviceMemoryType, DeviceMemoryTypeFlags, MemoryPropertyFlags};

verus! {

/// The allocation strategy of a block: one of the two allocators.
pub enum BlockAllocator {
    /// First-fit allocation with reuse of freed ranges.
    Dense(DenseAllocator),
    /// Bump allocation.
    Linear(LinearAllocator),
}

impl BlockAllocator {
    /// The allocator's own invariant.
    pub open spec fn wf(&self) -> bool {
        match self {
            BlockAllocator::Dense(a) => a.wf(),
            BlockAllocator::Linear(a) => a.wf(),
        }
    }

    /// Which allocator this is.
    pub open spec fn kind_spec(&self) -> MemoryAllocatorKind {
        match self {
            BlockAllocator::Dense(_) => MemoryAllocatorKind::Dense,
            BlockAllocator::Linear(a) => MemoryAllocatorKind::Linear(a.spec_id()),
        }
    }

    /// The bytes in use.
    pub open spec fn size_spec(&self) -> nat {
        match self {
            BlockAllocator::Dense(a) => a.spec_size(),
            BlockAllocator::Linear(a) => a.spec_pointer(),
        }
    }

    /// The size of the managed range.
    pub open spec fn capacity_spec(&self) -> nat {
        match self {
            BlockAllocator::Dense(a) => a.spec_capacity(),
            BlockAllocator::Linear(a) => a.spec_capacity(),
        }
    }

    /// Where `size` bytes aligned to `align` would be placed, if anywhere.
    pub open spec fn placement(&self, align: nat, size: nat) -> Option<usize> {
        match self {
            BlockAllocator::Dense(a) => match first_fit(a.blocks(), a.spec_capacity(), align, size) {
                Some(i) => Some(align_up_spec(gap_start(a.blocks(), i), align) as usize),
                None => None,
            },
            BlockAllocator::Linear(a) => {
                let start = align_up_spec(a.spec_pointer(), align);
                if start + size <= a.spec_capacity() { Some(start as usize) } else { None }
            },
        }
    }

    /// `new` holds what `old` holds.
    pub open spec fn unchanged(old: Self, new: Self) -> bool {
        match (old, new) {
            (BlockAllocator::Dense(a), BlockAllocator::Dense(b)) => {
                &&& b.blocks() == a.blocks()
                &&& b.spec_size() == a.spec_size()
                &&& b.spec_capacity() == a.spec_capacity()
            },
            (BlockAllocator::Linear(a), BlockAllocator::Linear(b)) => {
                &&& b.spec_id() == a.spec_id()
                &&& b.spec_pointer() == a.spec_pointer()
                &&& b.spec_capacity() == a.spec_capacity()
            },
            _ => false,
        }
    }

    /// `new` is `old` after `size` bytes aligned to `align` were placed where
    /// `placement` says, or `old` unchanged where they could not be.
    pub open spec fn allocated(old: Self, new: Self, align: nat, size: usize) -> bool {
        match old {
            BlockAllocator::Dense(a) => new matches BlockAllocator::Dense(b) && {
                &&& b.spec_capacity() == a.spec_capacity()
                &&& match first_fit(a.blocks(), a.spec_capacity(), align, size as nat) {
                    Some(i) => {
                        let p = align_up_spec(gap_start(a.blocks(), i), align) as usize;
                        &&& b.blocks() == a.blocks().insert(i, UsedBlock { pointer: p, size })
                        &&& b.spec_size() == a.spec_size() + size
                    },
                    None => {
                        &&& b.blocks() == a.blocks()
                        &&& b.spec_size() == a.spec_size()
                    },
                }
            },
            BlockAllocator::Linear(a) => new matches BlockAllocator::Linear(b) && {
                &&& b.spec_id() == a.spec_id()
                &&& b.spec_capacity() == a.spec_capacity()
                &&& b.spec_pointer() == if old.placement(align, size as nat) is Some {
                    align_up_spec(a.spec_pointer(), align) + size
                } else {
                    a.spec_pointer() as int
                }
            },
        }
    }

    /// Reserves `size` bytes aligned to `align` with this allocator's strategy.
    pub fn allocate(&mut self, align: usize, size: usize) -> (r: Result<usize, MemoryPoolError>)
        requires
            old(self).wf(),
            align == 0 || is_pow2(align as nat),
        ensures
            final(self).wf(),
            r == match old(self).placement(align as nat, size as nat) {
                Some(p) => Ok::<usize, MemoryPoolError>(p),
                None => Err::<usize, MemoryPoolError>(MemoryPoolError::OutOfMemoryError { req_size: size }),
            },
            Self::allocated(*old(self), *final(self), align as nat, size),
    {
        match self {
            BlockAllocator::Dense(a) => a.allocate(align, size),
            BlockAllocator::Linear(a) => a.allocate(align, size),
        }
    }

    /// Which allocator this is.
    pub fn kind(&self) -> (r: MemoryAllocatorKind)
        ensures r == self.kind_spec(),
    {
        match self {
            BlockAllocator::Dense(a) => a.kind(),
            BlockAllocator::Linear(a) => a.kind(),
        }
    }

    /// The bytes in use.
    pub fn size(&self) -> (r: usize)
        ensures r == self.size_spec(),
    {
        match self {
            BlockAllocator::Dense(a) => a.size(),
            BlockAllocator::Linear(a) => a.size(),
        }
    }

    /// The size of the managed range.
    pub fn capacity(&self) -> (r: usize)
        ensures r == self.capacity_spec(),
    {
        match self {
            BlockAllocator::Dense(a) => a.capacity(),
            BlockAllocator::Linear(a) => a.capacity(),
        }
    }

    /// An allocation lies, whole, within the block's range, at an offset
    /// aligned as requested.
    pub proof fn lemma_placement_within(&self, align: nat, size: nat)
        requires
            self.wf(),
            self.placement(align, size) is Some,
        ensures
            ({
                let p = self.placement(align, size)->0;
                &&& p + size <= self.capacity_spec()
                &&& align > 0 ==> (p as nat) % align == 0
            }),
    {
        match self {
            BlockAllocator::Dense(a) => {
                a.lemma_invariant();
                crate::allocators::lemma_allocation_placed(a.blocks(), a.spec_capacity(), align, size);
                let i = first_fit(a.blocks(), a.spec_capacity(), align, size)->0;
                if i < a.blocks().len() {
                    assert(a.blocks()[i].end() <= a.spec_capacity());
                }
            },
            BlockAllocator::Linear(a) => {
                a.lemma_within();
                if align > 0 {
                    crate::alignment::lemma_round_up_bounds(a.spec_pointer(), align);
                }
            },
        }
    }

    /// No more bytes are in use than the range holds.
    pub proof fn lemma_size_within(&self)
        requires self.wf(),
        ensures self.size_spec() <= self.capacity_spec(),
    {
        match self {
            BlockAllocator::Dense(a) => a.lemma_invariant(),
            BlockAllocator::Linear(a) => a.lemma_within(),
        }
    }
}

/// A block of device memory (the raw `VkDeviceMemory` handle) that is
/// sub-allocated by its allocator.
pub struct DeviceBlock {
    /// The raw handle of the device memory.
    pub memory: u64,
    /// How the block is sub-allocated.
    pub allocator: BlockAllocator,
}

impl DeviceBlock {
    /// A block around `memory`, sub-allocated by `allocator`.
    pub fn new(memory: u64, allocator: BlockAllocator) -> (r: Self)
        ensures r.memory == memory, r.allocator == allocator,
    {
        DeviceBlock { memory, allocator }
    }

    /// The raw handle of the device memory.
    pub fn mem(&self) -> (r: u64)
        ensures r == self.memory,
    {
        self.memory
    }
}

/// Whether the block `b` takes a request: it has room for `size` bytes in
/// total, it has the requested allocator, and its allocator places them.
pub open spec fn accepts(b: DeviceBlock, align: nat, size: nat, kind: MemoryAllocatorKind) -> bool {
    &&& b.allocator.capacity_spec() - b.allocator.size_spec() >= size
    &&& b.allocator.kind_spec() == kind
    &&& b.allocator.placement(align, size) is Some
}

/// Whether `k` is the first block of `blocks` that takes the request.
pub open spec fn first_accepting(blocks: Seq<DeviceBlock>, align: nat, size: nat, kind: MemoryAllocatorKind, k: int) -> bool {
    &&& 0 <= k < blocks.len()
    &&& accepts(blocks[k], align, size, kind)
    &&& forall|j: int| 0 <= j < k ==> !accepts(#[trigger] blocks[j], align, size, kind)
}

/// The blocks of device memory of one memory type.
pub struct MemoryType {
    /// Which memory type this is.
    mtype: DeviceMemoryType,
    /// What the memory type supports.
    mprops: MemoryPropertyFlags,
    /// The blocks allocated of this type.
    blocks: Vec<DeviceBlock>,
}

impl MemoryType {
    /// Which memory type this is.
    pub closed spec fn spec_mtype(&self) -> DeviceMemoryType { self.mtype }

    /// What the memory type supports.
    pub closed spec fn spec_mprops(&self) -> MemoryPropertyFlags { self.mprops }

    /// The blocks allocated of this type.
    pub closed spec fn spec_blocks(&self) -> Seq<DeviceBlock> { self.blocks@ }

    /// Every block's allocator keeps its invariant.
    pub open spec fn wf(&self) -> bool {
        forall|i: int| 0 <= i < self.spec_blocks().len() ==> (#[trigger] self.spec_blocks()[i]).allocator.wf()
    }

    /// A memory type with no blocks yet.
    pub fn new(mtype: DeviceMemoryType, mprops: MemoryPropertyFlags) -> (r: Self)
        ensures
            r.wf(),
            r.spec_mtype() == mtype,
            r.spec_mprops() == mprops,
            r.spec_blocks() == Seq::<DeviceBlock>::empty(),
    {
        MemoryType { mtype, mprops, blocks: Vec::new() }
    }

    /// Registers a new block of this type.
    pub fn add(&mut self, block: DeviceBlock)
        requires
            old(self).wf(),
            block.allocator.wf(),
        ensures
            final(self).wf(),
            final(self).spec_mtype() == old(self).spec_mtype(),
            final(self).spec_mprops() == old(self).spec_mprops(),
            final(self).spec_blocks() == old(self).spec_blocks().push(block),
    {
        self.blocks.push(block);
    }

    /// The number of blocks of this type.
    pub fn n_blocks(&self) -> (r: usize)
        ensures r == self.spec_blocks().len(),
    {
        self.blocks.len()
    }

    /// Which memory type this is.
    pub fn mtype(&self) -> (r: DeviceMemoryType)
        ensures r == self.spec_mtype(),
    {
        self.mtype
    }

    /// What the memory type supports.
    pub fn mprops(&self) -> (r: MemoryPropertyFlags)
        ensures r == self.spec_mprops(),
    {
        self.mprops
    }

    /// Whether this memory type may serve a request: it is one of the
    /// `req_types` and supports every one of the `req_props`.
    pub fn suits(&self, req_types: DeviceMemoryTypeFlags, req_props: MemoryPropertyFlags) -> (r: bool)
        ensures r == (req_types.bits() & self.spec_mtype().bits() == self.spec_mtype().bits()
            && self.spec_mprops().has(req_props)),
    {
        req_types.check_type(self.mtype) && self.mprops.check(req_props)
    }

    /// Places `req_size` bytes aligned to `req_align` in the first existing
    /// block that takes them (see `accepts`), and returns that block's memory
    /// and the offset within it; returns `None`, changing nothing, where no
    /// block does.
    pub fn allocate_existing(&mut self, req_align: usize, req_size: usize, req_kind: MemoryAllocatorKind) -> (r: Option<(u64, usize)>)
        requires
            old(self).wf(),
            req_align == 0 || is_pow2(req_align as nat),
        ensures
            final(self).wf(),
            final(self).spec_mtype() == old(self).spec_mtype(),
            final(self).spec_mprops() == old(self).spec_mprops(),
            final(self).spec_blocks().len() == old(self).spec_blocks().len(),
            forall|j: int| 0 <= j < old(self).spec_blocks().len()
                ==> (#[trigger] final(self).spec_blocks()[j]).memory == old(self).spec_blocks()[j].memory,
            r is None <==> forall|j: int| 0 <= j < old(self).spec_blocks().len()
                ==> !accepts(#[trigger] old(self).spec_blocks()[j], req_align as nat, req_size as nat, req_kind),
            r is None ==> forall|j: int| 0 <= j < old(self).spec_blocks().len()
                ==> BlockAllocator::unchanged(old(self).spec_blocks()[j].allocator, #[trigger] final(self).spec_blocks()[j].allocator),
            r matches Some((m, p)) ==> exists|k: int| {
                &&& #[trigger] first_accepting(old(self).spec_blocks(), req_align as nat, req_size as nat, req_kind, k)
                &&& m == old(self).spec_blocks()[k].memory
                &&& old(self).spec_blocks()[k].allocator.placement(req_align as nat, req_size as nat) == Some(p)
                &&& BlockAllocator::allocated(old(self).spec_blocks()[k].allocator, final(self).spec_blocks()[k].allocator, req_align as nat, req_size)
                &&& forall|j: int| 0 <= j < k ==> BlockAllocator::unchanged(old(self).spec_blocks()[j].allocator, #[trigger] final(self).spec_blocks()[j].allocator)
                &&& forall|j: int| k < j < old(self).spec_blocks().len() ==> #[trigger] final(self).spec_blocks()[j] == old(self).spec_blocks()[j]
            },
    {
        let ghost s = self.blocks@;
        let n = self.blocks.len();
        let mut i: usize = 0;
        while i < n
            invariant
                n == s.len(),
                i <= n,
                self.blocks@.len() == n,
                self.mtype == old(self).mtype,
                self.mprops == old(self).mprops,
                s == old(self).blocks@,
                req_align == 0 || is_pow2(req_align as nat),
                forall|j: int| 0 <= j < n ==> (#[trigger] self.blocks@[j]).allocator.wf(),
                forall|j: int| 0 <= j < n ==> (#[trigger] self.blocks@[j]).memory == s[j].memory,
                forall|j: int| 0 <= j < i ==> !accepts(#[trigger] s[j], req_align as nat, req_size as nat, req_kind),
                forall|j: int| 0 <= j < i ==> BlockAllocator::unchanged(s[j].allocator, #[trigger] self.blocks@[j].allocator),
                forall|j: int| i <= j < n ==> #[trigger] self.blocks@[j] == s[j],
            decreases n - i,
        {
            assert(self.blocks@[i as int] == s[i as int]);
            proof { s[i as int].allocator.lemma_size_within(); }
            let capacity = self.blocks[i].allocator.capacity();
            let used = self.blocks[i].allocator.size();
            let kind = self.blocks[i].allocator.kind();
            if capacity - used >= req_size && kind == req_kind {
                let memory = self.blocks[i].memory;
                match self.blocks[i].allocator.allocate(req_align, req_size) {
                    Ok(pointer) => {
                        assert(first_accepting(s, req_align as nat, req_size as nat, req_kind, i as int));
                        assert(forall|j: int| i < j < n ==> #[trigger] self.blocks@[j] == s[j]);
                        assert(self.blocks@[i as int].memory == s[i as int].memory);
                        assert(s[i as int].allocator.placement(req_align as nat, req_size as nat) == Some(pointer));
                        assert(BlockAllocator::allocated(s[i as int].allocator, self.blocks@[i as int].allocator, req_align as nat, req_size));
                        assert(forall|j: int| 0 <= j < i ==> BlockAllocator::unchanged(s[j].allocator, #[trigger] self.blocks@[j].allocator));
                        return Some((memory, pointer));
                    },
                    Err(_) => {},
                }
            }
            assert(!accepts(s[i as int], req_align as nat, req_size as nat, req_kind));
            i = i + 1;
        }
        None
    }
}

/// What `allocate_existing` does to a memory type: `new` is `old` after
/// placing `size` bytes aligned to `align` in its first block that takes them,
/// with `r` the block's memory and the offset; or, where no block takes them,
/// `r` is `None` and every block is unchanged.
pub open spec fn allocated_existing(old: MemoryType, new: MemoryType, align: nat, size: usize, kind: MemoryAllocatorKind, r: Option<(u64, usize)>) -> bool {
    &&& new.wf()
    &&& new.spec_mtype() == old.spec_mtype()
    &&& new.spec_mprops() == old.spec_mprops()
    &&& new.spec_blocks().len() == old.spec_blocks().len()
    &&& forall|j: int| 0 <= j < old.spec_blocks().len()
        ==> (#[trigger] new.spec_blocks()[j]).memory == old.spec_blocks()[j].memory
    &&& (r is None <==> forall|j: int| 0 <= j < old.spec_blocks().len()
        ==> !accepts(#[trigger] old.spec_blocks()[j], align, size as nat, kind))
    &&& (r is None ==> forall|j: int| 0 <= j < old.spec_blocks().len()
        ==> BlockAllocator::unchanged(old.spec_blocks()[j].allocator, #[trigger] new.spec_blocks()[j].allocator))
    &&& (r matches Some((m, p)) ==> exists|k: int| {
        &&& #[trigger] first_accepting(old.spec_blocks(), align, size as nat, kind, k)
        &&& m == old.spec_blocks()[k].memory
        &&& old.spec_blocks()[k].allocator.placement(align, size as nat) == Some(p)
        &&& BlockAllocator::allocated(old.spec_blocks()[k].allocator, new.spec_blocks()[k].allocator, align, size)
        &&& forall|j: int| 0 <= j < k ==> BlockAllocator::unchanged(old.spec_blocks()[j].allocator, #[trigger] new.spec_blocks()[j].allocator)
        &&& forall|j: int| k < j < old.spec_blocks().len() ==> #[trigger] new.spec_blocks()[j] == old.spec_blocks()[j]
    })
}

/// Whether the memory type may serve a request: it is one of `req_types`
/// and has every one of `req_props`.
pub open spec fn type_suits(t: MemoryType, req_types: DeviceMemoryTypeFlags, req_props: MemoryPropertyFlags) -> bool {
    req_types.bits() & t.spec_mtype().bits() == t.spec_mtype().bits() && t.spec_mprops().has(req_props)
}

/// Every memory type keeps its invariant.
pub open spec fn types_wf(types: Seq<MemoryType>) -> bool {
    forall|i: int| 0 <= i < types.len() ==> (#[trigger] types[i]).wf()
}

/// The memory types of a device, in the device's order, each with no blocks
/// yet: the `i`th has the type bits `type_bits[i]` and the properties
/// `props[i]`.
pub fn memory_types(type_bits: &Vec<u32>, props: &Vec<MemoryPropertyFlags>) -> (r: Vec<MemoryType>)
    requires type_bits.len() == props.len(),
    ensures
        r@.len() == type_bits@.len(),
        types_wf(r@),
        forall|i: int| 0 <= i < r@.len() ==> {
            &&& (#[trigger] r@[i]).spec_mtype().bits() == type_bits@[i]
            &&& r@[i].spec_mprops() == props@[i]
            &&& r@[i].spec_blocks() == Seq::<DeviceBlock>::empty()
        },
{
    let mut r: Vec<MemoryType> = Vec::new();
    let mut i: usize = 0;
    while i < type_bits.len()
        invariant
            i <= type_bits@.len(),
            type_bits@.len() == props@.len(),
            r@.len() == i,
            types_wf(r@),
            forall|k: int| 0 <= k < i ==> {
                &&& (#[trigger] r@[k]).spec_mtype().bits() == type_bits@[k]
                &&& r@[k].spec_mprops() == props@[k]
                &&& r@[k].spec_blocks() == Seq::<DeviceBlock>::empty()
            },
        decreases type_bits.len() - i,
    {
        let mtype = DeviceMemoryType::from(type_bits[i]);
        r.push(MemoryType::new(mtype, props[i]));
        i = i + 1;
    }
    r
}

/// The first memory type from `from` on that may serve a request (see
/// `type_suits`), if any.
pub fn find_suitable_type(types: &Vec<MemoryType>, from: usize, req_types: DeviceMemoryTypeFlags, req_props: MemoryPropertyFlags) -> (r: Option<usize>)
    ensures
        r is None <==> forall|i: int| from <= i < types@.len() ==> !type_suits(#[trigger] types@[i], req_types, req_props),
        r matches Some(t) ==> {
            &&& from <= t < types@.len()
            &&& type_suits(types@[t as int], req_types, req_props)
            &&& forall|i: int| from <= i < t ==> !type_suits(#[trigger] types@[i], req_types, req_props)
        },
{
    let mut i: usize = from;
    while i < types.len()
        invariant
            from <= i,
            forall|k: int| from <= k < i ==> !type_suits(#[trigger] types@[k], req_types, req_props),
        decreases types.len() - i,
    {
        if types[i].suits(req_types, req_props) {
            assert(type_suits(types@[i as int], req_types, req_props));
            return Some(i);
        }
        i = i + 1;
    }
    None
}

/// The first step of serving a request, from the memory type `from` on: the
/// first memory type that may serve it (see `type_suits`), and the memory and
/// offset where its existing blocks take the request, as `allocate_existing`
/// places it. Returns `None`, changing nothing, where no type from `from` on
/// may serve the request; `Some((t, None))` where type `t` may, but none of
/// its blocks takes the request, so that a new block of that type is next.
pub fn allocate_existing_in(
    types: &mut Vec<MemoryType>,
    from: usize,
    req_size: usize,
    req_align: usize,
    req_types: DeviceMemoryTypeFlags,
    req_props: MemoryPropertyFlags,
    req_kind: MemoryAllocatorKind,
) -> (r: Option<(usize, Option<(u64, usize)>)>)
    requires
        types_wf(old(types)@),
        req_align == 0 || is_pow2(req_align as nat),
    ensures
        types_wf(final(types)@),
        final(types)@.len() == old(types)@.len(),
        r is None <==> forall|i: int| from <= i < old(types)@.len() ==> !type_suits(#[trigger] old(types)@[i], req_types, req_props),
        r is None ==> final(types)@ == old(types)@,
        r matches Some((t, res)) ==> {
            &&& from <= t < old(types)@.len()
            &&& type_suits(old(types)@[t as int], req_types, req_props)
            &&& forall|i: int| from <= i < t ==> !type_suits(#[trigger] old(types)@[i], req_types, req_props)
            &&& allocated_existing(old(types)@[t as int], final(types)@[t as int], req_align as nat, req_size, req_kind, res)
            &&& forall|j: int| 0 <= j < old(types)@.len() && j != t ==> #[trigger] final(types)@[j] == old(types)@[j]
        },
{
    let mut i: usize = from;
    while i < types.len()
        invariant
            types@ == old(types)@,
            types_wf(types@),
            from <= i,
            req_align == 0 || is_pow2(req_align as nat),
            forall|k: int| from <= k < i ==> !type_suits(#[trigger] old(types)@[k], req_types, req_props),
        decreases types.len() - i,
    {
        if types[i].suits(req_types, req_props) {
            let ghost before = types@;
            assert(before[i as int].wf());
            assert(type_suits(old(types)@[i as int], req_types, req_props));
            let res = types[i].allocate_existing(req_align, req_size, req_kind);
            assert(allocated_existing(before[i as int], types@[i as int], req_align as nat, req_size, req_kind, res));
            assert forall|j: int| 0 <= j < types@.len() implies (#[trigger] types@[j]).wf() by {
                if j != i {
                    assert(types@[j] == before[j]);
                }
            }
            return Some((i, res));
        }
        i = i + 1;
    }
    None
}

/// Wraps a newly allocated `memory` of `size` bytes of the memory type in a
/// block with the requested allocator, registers the block with the type, and
/// places `req_size` bytes aligned to `req_align` in it (at offset 0, where
/// the block holds them).
pub fn add_new_block(mtype: &mut MemoryType, memory: u64, size: usize, kind: MemoryAllocatorKind, req_align: usize, req_size: usize)
    -> (r: Result<usize, MemoryPoolError>)
    requires
        old(mtype).wf(),
        req_align == 0 || is_pow2(req_align as nat),
    ensures
        final(mtype).wf(),
        final(mtype).spec_mtype() == old(mtype).spec_mtype(),
        final(mtype).spec_mprops() == old(mtype).spec_mprops(),
        final(mtype).spec_blocks() == old(mtype).spec_blocks().push(final(mtype).spec_blocks().last()),
        final(mtype).spec_blocks().last().memory == memory,
        final(mtype).spec_blocks().last().allocator.kind_spec() == kind,
        final(mtype).spec_blocks().last().allocator.capacity_spec() == size,
        size >= req_size ==> r == Ok::<usize, MemoryPoolError>(0),
        size >= req_size ==> final(mtype).spec_blocks().last().allocator.size_spec() == req_size,
        size < req_size ==> r == Err::<usize, MemoryPoolError>(MemoryPoolError::OutOfMemoryError { req_size }),
        size < req_size ==> final(mtype).spec_blocks().last().allocator.size_spec() == 0,
{
    let (block, r) = new_block(memory, size, kind, req_align, req_size);
    mtype.add(block);
    r
}

/// The sizes a new block is tried with, largest first: the preferred block
/// size, its half, quarter and eighth, and the requested size itself, each
/// only where it holds the request.
pub open spec fn block_sizes_spec(pref: usize, req: usize) -> Seq<usize> {
    keep_if_fits(pref, req) + keep_if_fits(pref / 2, req) + keep_if_fits(pref / 4, req)
        + keep_if_fits(pref / 8, req) + keep_if_fits(req, req)
}

/// `size` alone where it is at least `req`, else nothing.
pub open spec fn keep_if_fits(size: usize, req: usize) -> Seq<usize> {
    if size >= req { seq![size] } else { Seq::empty() }
}

/// The sizes a new block is tried with, as `block_sizes_spec` says.
pub fn block_sizes(pref: usize, req: usize) -> (r: Vec<usize>)
    ensures r@ == block_sizes_spec(pref, req),
{
    let mut r: Vec<usize> = Vec::new();
    if pref >= req {
        r.push(pref);
    }
    assert(r@ == keep_if_fits(pref, req));
    if pref / 2 >= req {
        r.push(pref / 2);
    }
    assert(r@ == keep_if_fits(pref, req) + keep_if_fits(pref / 2, req));
    if pref / 4 >= req {
        r.push(pref / 4);
    }
    assert(r@ == keep_if_fits(pref, req) + keep_if_fits(pref / 2, req) + keep_if_fits(pref / 4, req));
    if pref / 8 >= req {
        r.push(pref / 8);
    }
    assert(r@ == keep_if_fits(pref, req) + keep_if_fits(pref / 2, req) + keep_if_fits(pref / 4, req)
        + keep_if_fits(pref / 8, req));
    r.push(req);
    assert(r@ == block_sizes_spec(pref, req));
    r
}

/// Wraps a newly allocated `memory` of `size` bytes in a block with the
/// requested allocator (a linear one carries the requested identifier), and
/// places `req_size` bytes aligned to `req_align` in it.
pub fn new_block(memory: u64, size: usize, kind: MemoryAllocatorKind, req_align: usize, req_size: usize)
    -> (r: (DeviceBlock, Result<usize, MemoryPoolError>))
    requires
        req_align == 0 || is_pow2(req_align as nat),
    ensures
        r.0.memory == memory,
        r.0.allocator.wf(),
        r.0.allocator.kind_spec() == kind,
        r.0.allocator.capacity_spec() == size,
        size >= req_size ==> r.1 == Ok::<usize, MemoryPoolError>(0),
        size >= req_size ==> r.0.allocator.size_spec() == req_size,
        size < req_size ==> r.1 == Err::<usize, MemoryPoolError>(MemoryPoolError::OutOfMemoryError { req_size }),
        size < req_size ==> r.0.allocator.size_spec() == 0,
{
    let mut allocator = match kind {
        MemoryAllocatorKind::Dense => BlockAllocator::Dense(DenseAllocator::new(size)),
        MemoryAllocatorKind::Linear(id) => BlockAllocator::Linear(LinearAllocator::new(id, size)),
    };
    proof {
        crate::alignment::lemma_align_zero(req_align as nat);
        match &allocator {
            BlockAllocator::Dense(a) => {
                assert(a.blocks().len() == 0);
                if size >= req_size {
                    assert(fits_in_gap(a.blocks(), a.spec_capacity(), 0, req_align as nat, req_size as nat));
                } else {
                    assert(!fits_in_gap(a.blocks(), a.spec_capacity(), 0, req_align as nat, req_size as nat));
                    assert(first_fit_from(a.blocks(), a.spec_capacity(), req_align as nat, req_size as nat, 1) is None);
                }
            },
            BlockAllocator::Linear(a) => {},
        }
    }
    let result = allocator.allocate(req_align, req_size);
    (DeviceBlock::new(memory, allocator), result)
}

} // verus!
