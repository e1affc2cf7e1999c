//! The allocators that hand out ranges of a block of device memory: a linear
//! (bump) allocator and a dense, first-fit allocator that reuses freed ranges.

use vstd::prelude::*;
use crate::alignment::{align_up, align_up_spec, is_pow2};
use crate::errors::MemoryPoolError;
use crate::text::{decimal, decimal_string};
use vstd::string::StringExecFns;

verus! {

/// Which allocator manages a block of memory.
#[derive(Clone, Copy, Debug, PartialEq, Eq, Structural)]
pub enum MemoryAllocatorKind {
    /// A first-fit allocator that reuses freed ranges.
    Dense,
    /// A bump allocator with the given identifier.
    Linear(u64),
}

impl Default for MemoryAllocatorKind {
    /// `Dense`.
    fn default() -> (r: Self)
        ensures r == MemoryAllocatorKind::Dense,
    {
        MemoryAllocatorKind::Dense
    }
}

impl MemoryAllocatorKind {
    /// The text shown to users: `Dense` or `Linear(<id>)`.
    pub fn describe(&self) -> (r: String)
        ensures
            match *self {
                MemoryAllocatorKind::Dense => r@ == "Dense"@,
                MemoryAllocatorKind::Linear(id) => r@ == "Linear("@ + decimal(id) + ")"@,
            },
    {
        match self {
            MemoryAllocatorKind::Dense => String::from_str("Dense"),
            MemoryAllocatorKind::Linear(id) => {
                let mut s = String::from_str("Linear(");
                let digits = decimal_string(*id);
                s.append(digits.as_str());
                s.append(")");
                s
            },
        }
    }
}

/// An allocated range: `size` bytes from offset `pointer`.
#[derive(Clone, Copy, Debug, PartialEq, Eq, Structural)]
pub struct UsedBlock {
    /// The offset of the range.
    pub pointer: usize,
    /// The length of the range.
    pub size: usize,
}

/// A free range: `size` bytes from offset `pointer`.
#[derive(Clone, Copy, Debug, PartialEq, Eq, Structural)]
pub struct FreeBlock {
    /// The offset of the range.
    pub pointer: usize,
    /// The length of the range.
    pub size: usize,
}

impl FreeBlock {
    /// A free range of `size` bytes from `pointer`.
    pub fn new(pointer: usize, size: usize) -> (r: Self)
        ensures r.pointer == pointer, r.size == size,
    {
        FreeBlock { pointer, size }
    }
}

impl UsedBlock {
    /// A used range of `size` bytes from `pointer`.
    pub fn new(pointer: usize, size: usize) -> (r: Self)
        ensures r.pointer == pointer, r.size == size,
    {
        UsedBlock { pointer, size }
    }

    /// Inserts `block` into the list right before position `i`.
    pub fn insert_before(list: &mut Vec<UsedBlock>, i: usize, block: UsedBlock)
        requires i < old(list)@.len(),
        ensures final(list)@ == old(list)@.insert(i as int, block),
    {
        list.insert(i, block);
    }

    /// Inserts `block` into the list right after position `i`.
    pub fn insert_after(list: &mut Vec<UsedBlock>, i: usize, block: UsedBlock)
        requires i < old(list)@.len(),
        ensures final(list)@ == old(list)@.insert(i + 1, block),
    {
        let n = list.len();
        assert(i + 1 <= n);
        list.insert(i + 1, block);
    }

    /// Removes the block at position `i` from the list and returns it.
    pub fn remove(list: &mut Vec<UsedBlock>, i: usize) -> (r: UsedBlock)
        requires i < old(list)@.len(),
        ensures
            r == old(list)@[i as int],
            final(list)@ == old(list)@.remove(i as int),
    {
        list.remove(i)
    }

    /// The offset one past the end of the range.
    pub open spec fn end(self) -> nat { self.pointer as nat + self.size as nat }
}

/// The blocks are ordered by offset, do not overlap and end within `capacity`.
pub open spec fn blocks_wf(s: Seq<UsedBlock>, capacity: nat) -> bool {
    &&& forall|i: int, j: int| 0 <= i < j < s.len() ==> #[trigger] s[i].end() <= #[trigger] s[j].pointer
    &&& forall|i: int| 0 <= i < s.len() ==> #[trigger] s[i].end() <= capacity
}

/// The total size of the blocks.
pub open spec fn sum_sizes(s: Seq<UsedBlock>) -> nat
    decreases s.len(),
{
    if s.len() == 0 { 0 } else { sum_sizes(s.drop_last()) + s.last().size as nat }
}

/// Where the free gap before block `i` starts (`i == len` is the gap at the end).
pub open spec fn gap_start(s: Seq<UsedBlock>, i: int) -> nat {
    if i == 0 { 0 } else { s[i - 1].end() }
}

/// Where the free gap before block `i` ends (`i == len` is the gap at the end).
pub open spec fn gap_end(s: Seq<UsedBlock>, capacity: nat, i: int) -> nat {
    if i < s.len() { s[i].pointer as nat } else { capacity }
}

/// Whether an allocation of `size` bytes aligned to `align` fits in gap `i`.
pub open spec fn fits_in_gap(s: Seq<UsedBlock>, capacity: nat, i: int, align: nat, size: nat) -> bool {
    0 <= i <= s.len() && align_up_spec(gap_start(s, i), align) + size <= gap_end(s, capacity, i)
}

/// The first gap, from gap `i` on, in which the allocation fits.
pub open spec fn first_fit_from(s: Seq<UsedBlock>, capacity: nat, align: nat, size: nat, i: int) -> Option<int>
    decreases s.len() + 1 - i,
{
    if i < 0 || i > s.len() {
        None
    } else if fits_in_gap(s, capacity, i, align, size) {
        Some(i)
    } else {
        first_fit_from(s, capacity, align, size, i + 1)
    }
}

/// The first gap in which the allocation fits.
pub open spec fn first_fit(s: Seq<UsedBlock>, capacity: nat, align: nat, size: nat) -> Option<int> {
    first_fit_from(s, capacity, align, size, 0)
}

/// The first block that starts at `ptr`.
pub open spec fn find_block_from(s: Seq<UsedBlock>, ptr: nat, i: int) -> Option<int>
    decreases s.len() - i,
{
    if i < 0 || i >= s.len() {
        None
    } else if s[i].pointer == ptr {
        Some(i)
    } else {
        find_block_from(s, ptr, i + 1)
    }
}

/// The first block that starts at `ptr`.
pub open spec fn find_block(s: Seq<UsedBlock>, ptr: nat) -> Option<int> {
    find_block_from(s, ptr, 0)
}

proof fn lemma_sum_push(s: Seq<UsedBlock>, b: UsedBlock)
    ensures sum_sizes(s.push(b)) == sum_sizes(s) + b.size,
{
    assert(s.push(b).drop_last() =~= s);
}

/// Inserting a block adds its size to the total.
pub proof fn lemma_sum_insert(s: Seq<UsedBlock>, i: int, b: UsedBlock)
    requires 0 <= i <= s.len(),
    ensures sum_sizes(s.insert(i, b)) == sum_sizes(s) + b.size,
    decreases s.len(),
{
    if i == s.len() {
        assert(s.insert(i, b) =~= s.push(b));
        lemma_sum_push(s, b);
    } else {
        let t = s.drop_last();
        lemma_sum_insert(t, i, b);
        assert(s.insert(i, b) =~= t.insert(i, b).push(s.last()));
        lemma_sum_push(t.insert(i, b), s.last());
    }
}

/// Removing a block takes its size off the total.
pub proof fn lemma_sum_remove(s: Seq<UsedBlock>, i: int)
    requires 0 <= i < s.len(),
    ensures sum_sizes(s.remove(i)) + s[i].size == sum_sizes(s),
    decreases s.len(),
{
    if i == s.len() - 1 {
        assert(s.remove(i) =~= s.drop_last());
    } else {
        let t = s.drop_last();
        lemma_sum_remove(t, i);
        assert(s.remove(i) =~= t.remove(i).push(s.last()));
        lemma_sum_push(t.remove(i), s.last());
    }
}

/// Blocks that are ordered, disjoint and lie in `[lo, hi]` take up at most `hi - lo` bytes.
proof fn lemma_sum_bound(s: Seq<UsedBlock>, lo: nat, hi: nat)
    requires
        lo <= hi,
        forall|i: int, j: int| 0 <= i < j < s.len() ==> #[trigger] s[i].end() <= #[trigger] s[j].pointer,
        forall|i: int| 0 <= i < s.len() ==> lo <= #[trigger] s[i].pointer && s[i].end() <= hi,
    ensures sum_sizes(s) <= hi - lo,
    decreases s.len(),
{
    if s.len() > 0 {
        let t = s.drop_last();
        let last = s.last();
        assert(lo <= last.pointer);
        assert forall|i: int| 0 <= i < t.len() implies lo <= #[trigger] t[i].pointer && t[i].end() <= last.pointer by {
            assert(s[i] == t[i]);
            assert(s[i].end() <= s[s.len() - 1].pointer);
        }
        lemma_sum_bound(t, lo, last.pointer as nat);
    }
}

proof fn lemma_sum_split(s: Seq<UsedBlock>, i: int)
    requires 0 <= i <= s.len(),
    ensures sum_sizes(s) == sum_sizes(s.subrange(0, i)) + sum_sizes(s.subrange(i, s.len() as int)),
    decreases s.len(),
{
    if i == s.len() {
        assert(s.subrange(0, i) =~= s);
        assert(s.subrange(i, s.len() as int) =~= Seq::<UsedBlock>::empty());
    } else {
        let t = s.drop_last();
        lemma_sum_split(t, i);
        assert(t.subrange(0, i) =~= s.subrange(0, i));
        assert(s.subrange(i, s.len() as int).drop_last() =~= t.subrange(i, t.len() as int));
    }
}

/// The used bytes never exceed the capacity.
pub proof fn lemma_used_within_capacity(s: Seq<UsedBlock>, capacity: nat)
    requires blocks_wf(s, capacity),
    ensures sum_sizes(s) <= capacity,
{
    lemma_sum_bound(s, 0, capacity);
}

/// An allocation that fits in some gap is no larger than the unused bytes.
pub proof fn lemma_fit_leaves_room(s: Seq<UsedBlock>, capacity: nat, i: int, align: nat, size: nat)
    requires
        blocks_wf(s, capacity),
        fits_in_gap(s, capacity, i, align, size),
    ensures sum_sizes(s) + size <= capacity,
{
    let a = s.subrange(0, i);
    let b = s.subrange(i, s.len() as int);
    lemma_sum_split(s, i);
    lemma_align_up_ge(gap_start(s, i), align);
    assert forall|k: int| 0 <= k < a.len() implies 0 <= #[trigger] a[k].pointer && a[k].end() <= gap_start(s, i) by {
        assert(a[k] == s[k]);
        if k < i - 1 {
            assert(s[k].end() <= s[i - 1].pointer);
        }
    }
    lemma_sum_bound(a, 0, gap_start(s, i));
    assert forall|k: int| 0 <= k < b.len() implies gap_end(s, capacity, i) <= #[trigger] b[k].pointer && b[k].end() <= capacity by {
        assert(b[k] == s[i + k]);
        if k > 0 {
            assert(s[i].end() <= s[i + k].pointer);
        }
    }
    if b.len() > 0 {
        lemma_sum_bound(b, gap_end(s, capacity, i), capacity);
    }
}

/// Aligning never moves an offset down.
pub proof fn lemma_align_up_ge(x: nat, align: nat)
    ensures x <= align_up_spec(x, align),
{
    if align > 0 {
        crate::alignment::lemma_round_up_bounds(x, align);
    }
}

/// Where no gap from `i` on fits the allocation, the first-fit search from
/// `i` finds none.
pub proof fn lemma_first_fit_none(s: Seq<UsedBlock>, capacity: nat, align: nat, size: nat, i: int)
    requires
        0 <= i,
        forall|j: int| i <= j <= s.len() ==> !fits_in_gap(s, capacity, j, align, size),
    ensures first_fit_from(s, capacity, align, size, i).is_none(),
    decreases s.len() + 1 - i,
{
    if i <= s.len() {
        lemma_first_fit_none(s, capacity, align, size, i + 1);
    }
}

/// Inserting a block that lies within gap `i` keeps the blocks well formed.
pub proof fn lemma_insert_in_gap(s: Seq<UsedBlock>, capacity: nat, i: int, b: UsedBlock)
    requires
        blocks_wf(s, capacity),
        0 <= i <= s.len(),
        gap_start(s, i) <= b.pointer,
        b.end() <= gap_end(s, capacity, i),
    ensures blocks_wf(s.insert(i, b), capacity),
{
    let t = s.insert(i, b);
    assert forall|x: int, y: int| 0 <= x < y < t.len() implies #[trigger] t[x].end() <= #[trigger] t[y].pointer by {
        if y < i {
            assert(t[x] == s[x] && t[y] == s[y]);
        } else if y == i {
            assert(t[x] == s[x]);
            if x < i - 1 {
                assert(s[x].end() <= s[i - 1].pointer);
            }
        } else if x == i {
            assert(t[y] == s[y - 1]);
            if y - 1 > i {
                assert(s[i].end() <= s[y - 1].pointer);
            }
        } else if x < i {
            assert(t[x] == s[x] && t[y] == s[y - 1]);
        } else {
            assert(t[x] == s[x - 1] && t[y] == s[y - 1]);
        }
    }
    assert forall|x: int| 0 <= x < t.len() implies #[trigger] t[x].end() <= capacity by {
        if x < i {
            assert(t[x] == s[x]);
        } else if x > i {
            assert(t[x] == s[x - 1]);
        } else if i < s.len() {
            assert(s[i].pointer <= s[i].end());
        }
    }
}

/// Removing a block keeps the blocks well formed.
pub proof fn lemma_remove_wf(s: Seq<UsedBlock>, capacity: nat, i: int)
    requires
        blocks_wf(s, capacity),
        0 <= i < s.len(),
    ensures blocks_wf(s.remove(i), capacity),
{
    let t = s.remove(i);
    assert forall|x: int, y: int| 0 <= x < y < t.len() implies #[trigger] t[x].end() <= #[trigger] t[y].pointer by {
        let sx = if x < i { x } else { x + 1 };
        let sy = if y < i { y } else { y + 1 };
        assert(t[x] == s[sx] && t[y] == s[sy]);
    }
    assert forall|x: int| 0 <= x < t.len() implies #[trigger] t[x].end() <= capacity by {
        let sx = if x < i { x } else { x + 1 };
        assert(t[x] == s[sx]);
    }
}

/// The aligned offset at which an allocation of `size` bytes aligned to
/// `align` would start in gap `i` of the blocks, if it fits there.
pub fn try_gap(used: &Vec<UsedBlock>, capacity: usize, i: usize, align: usize, size: usize) -> (r: Option<usize>)
    requires
        blocks_wf(used@, capacity as nat),
        i <= used@.len(),
        align == 0 || is_pow2(align as nat),
    ensures
        match r {
            Some(p) => {
                &&& fits_in_gap(used@, capacity as nat, i as int, align as nat, size as nat)
                &&& p == align_up_spec(gap_start(used@, i as int), align as nat)
            },
            None => !fits_in_gap(used@, capacity as nat, i as int, align as nat, size as nat),
        },
{
    let ghost s = used@;
    let n = used.len();
    proof {
        if i > 0 {
            assert(s[i - 1].end() <= capacity);
        }
    }
    let start: usize = if i == 0 { 0 } else { used[i - 1].pointer + used[i - 1].size };
    let end: usize = if i < n { used[i].pointer } else { capacity };
    assert(start as nat == gap_start(s, i as int));
    assert(end as nat == gap_end(s, capacity as nat, i as int));
    match align_up(start, align) {
        Some(p) => {
            if p <= end && size <= end - p {
                Some(p)
            } else {
                None
            }
        },
        None => None,
    }
}

proof fn lemma_find_block_skips(s: Seq<UsedBlock>, ptr: nat, j: int, i: int)
    requires
        0 <= j <= i < s.len(),
        forall|k: int| j <= k < i ==> s[k].pointer != ptr,
        s[i].pointer == ptr,
    ensures find_block_from(s, ptr, j) == Some(i),
    decreases i - j,
{
    if j < i {
        lemma_find_block_skips(s, ptr, j + 1, i);
    }
}

proof fn lemma_find_block_none(s: Seq<UsedBlock>, ptr: nat, j: int)
    requires
        0 <= j <= s.len(),
        find_block_from(s, ptr, j) is None,
    ensures forall|m: int| j <= m < s.len() ==> s[m].pointer != ptr,
    decreases s.len() - j,
{
    if j < s.len() {
        lemma_find_block_none(s, ptr, j + 1);
    }
}

/// Freeing the offset an allocation returned undoes the allocation, where no
/// earlier allocation starts at that offset: the allocator finds the new
/// block, and removing it gives back the blocks as they were.
pub proof fn lemma_free_undoes_allocate(s: Seq<UsedBlock>, capacity: nat, align: nat, size: usize)
    requires
        blocks_wf(s, capacity),
        capacity <= usize::MAX,
        first_fit(s, capacity, align, size as nat) is Some,
        ({
            let i = first_fit(s, capacity, align, size as nat)->0;
            find_block(s, align_up_spec(gap_start(s, i), align)) is None
        }),
    ensures
        ({
            let i = first_fit(s, capacity, align, size as nat)->0;
            let p = align_up_spec(gap_start(s, i), align);
            let t = s.insert(i, UsedBlock { pointer: p as usize, size });
            &&& find_block(t, p) == Some(i)
            &&& t.remove(i) == s
            &&& sum_sizes(t) - size == sum_sizes(s)
        }),
{
    let i = first_fit(s, capacity, align, size as nat)->0;
    lemma_first_fit_in_range(s, capacity, align, size as nat, 0);
    lemma_free_undoes_insert(s, capacity, i, align, size);
}

/// Placing an allocation in a gap it fits and then freeing its offset gives
/// back the blocks as they were, where no other block starts at that offset.
pub proof fn lemma_free_undoes_insert(s: Seq<UsedBlock>, capacity: nat, i: int, align: nat, size: usize)
    requires
        blocks_wf(s, capacity),
        capacity <= usize::MAX,
        fits_in_gap(s, capacity, i, align, size as nat),
        find_block(s, align_up_spec(gap_start(s, i), align)) is None,
    ensures
        ({
            let p = align_up_spec(gap_start(s, i), align);
            let t = s.insert(i, UsedBlock { pointer: p as usize, size });
            &&& find_block(t, p) == Some(i)
            &&& t.remove(i) == s
            &&& sum_sizes(t) - size == sum_sizes(s)
        }),
{
    let p = align_up_spec(gap_start(s, i), align);
    let b = UsedBlock { pointer: p as usize, size };
    let t = s.insert(i, b);
    lemma_fits_small(s, capacity, i, align, size as nat);
    assert(t[i].pointer == p);
    lemma_find_block_none(s, p, 0);
    assert forall|k: int| 0 <= k < i implies t[k].pointer != p by {
        assert(t[k] == s[k]);
    }
    lemma_find_block_skips(t, p, 0, i);
    assert(t.remove(i) =~= s);
    lemma_sum_insert(s, i, b);
}

/// The offset an allocation gets is aligned and lies, with the whole
/// allocation, in the chosen gap: after the previous block and before the next
/// one (or the end).
pub proof fn lemma_allocation_placed(s: Seq<UsedBlock>, capacity: nat, align: nat, size: nat)
    requires first_fit(s, capacity, align, size) is Some,
    ensures
        ({
            let i = first_fit(s, capacity, align, size)->0;
            let p = align_up_spec(gap_start(s, i), align);
            &&& 0 <= i <= s.len()
            &&& align > 0 ==> p % align == 0
            &&& gap_start(s, i) <= p
            &&& p + size <= gap_end(s, capacity, i)
        }),
{
    let i = first_fit(s, capacity, align, size)->0;
    lemma_first_fit_in_range(s, capacity, align, size, 0);
    lemma_align_up_ge(gap_start(s, i), align);
    if align > 0 {
        crate::alignment::lemma_round_up_bounds(gap_start(s, i), align);
    }
}

proof fn lemma_first_fit_in_range(s: Seq<UsedBlock>, capacity: nat, align: nat, size: nat, j: int)
    requires 0 <= j,
    ensures
        first_fit_from(s, capacity, align, size, j) matches Some(i)
            ==> j <= i <= s.len() && fits_in_gap(s, capacity, i, align, size),
    decreases s.len() + 1 - j,
{
    if j <= s.len() {
        lemma_first_fit_in_range(s, capacity, align, size, j + 1);
    }
}

proof fn lemma_fits_small(s: Seq<UsedBlock>, capacity: nat, i: int, align: nat, size: nat)
    requires
        blocks_wf(s, capacity),
        capacity <= usize::MAX,
        fits_in_gap(s, capacity, i, align, size),
    ensures align_up_spec(gap_start(s, i), align) <= usize::MAX,
{
    if i < s.len() {
        assert(s[i].pointer <= usize::MAX);
    }
}

/// A bump allocator: allocations are handed out in increasing order and only
/// reclaimed all at once by `reset`.
pub struct LinearAllocator {
    /// Distinguishes this allocator from other linear allocators.
    id: u64,
    /// The offset where the next allocation may start.
    pointer: usize,
    /// The size of the managed range.
    capacity: usize,
}

impl LinearAllocator {
    /// The allocator's identifier.
    pub closed spec fn spec_id(&self) -> u64 { self.id }

    /// The offset where the next allocation may start.
    pub closed spec fn spec_pointer(&self) -> nat { self.pointer as nat }

    /// The size of the managed range.
    pub closed spec fn spec_capacity(&self) -> nat { self.capacity as nat }

    /// The pointer never passes the end of the range.
    pub closed spec fn wf(&self) -> bool { self.pointer <= self.capacity }

    /// The pointer never passes the end of the range.
    pub proof fn lemma_within(&self)
        requires self.wf(),
        ensures
            self.spec_pointer() <= self.spec_capacity(),
            self.spec_capacity() <= usize::MAX,
    {
    }

    /// An empty allocator over `size` bytes.
    pub fn new(id: u64, size: usize) -> (r: Self)
        ensures
            r.wf(),
            r.spec_id() == id,
            r.spec_pointer() == 0,
            r.spec_capacity() == size,
    {
        LinearAllocator { id, pointer: 0, capacity: size }
    }

    /// Makes the whole range available again.
    pub fn reset(&mut self)
        ensures
            final(self).wf(),
            final(self).spec_pointer() == 0,
            final(self).spec_id() == old(self).spec_id(),
            final(self).spec_capacity() == old(self).spec_capacity(),
    {
        self.pointer = 0;
    }

    /// The allocator's identifier.
    pub fn id(&self) -> (r: u64)
        ensures r == self.spec_id(),
    {
        self.id
    }

    /// Reserves `size` bytes at the next offset aligned to `align` (a power of
    /// two, or zero for no alignment) and returns that offset; fails, leaving
    /// the allocator as it was, where the range has no room left for it.
    pub fn allocate(&mut self, align: usize, size: usize) -> (r: Result<usize, MemoryPoolError>)
        requires
            old(self).wf(),
            align == 0 || is_pow2(align as nat),
        ensures
            final(self).wf(),
            final(self).spec_id() == old(self).spec_id(),
            final(self).spec_capacity() == old(self).spec_capacity(),
            ({
                let start = align_up_spec(old(self).spec_pointer(), align as nat);
                if start + size <= old(self).spec_capacity() {
                    &&& r == Ok::<usize, MemoryPoolError>(start as usize)
                    &&& final(self).spec_pointer() == start + size
                } else {
                    &&& r == Err::<usize, MemoryPoolError>(MemoryPoolError::OutOfMemoryError { req_size: size })
                    &&& final(self).spec_pointer() == old(self).spec_pointer()
                }
            }),
    {
        let pointer = match align_up(self.pointer, align) {
            Some(p) => p,
            None => {
                return Err(MemoryPoolError::OutOfMemoryError { req_size: size });
            },
        };
        if pointer > self.capacity || size > self.capacity - pointer {
            return Err(MemoryPoolError::OutOfMemoryError { req_size: size });
        }
        self.pointer = pointer + size;
        Ok(pointer)
    }

    /// Which allocator this is.
    pub fn kind(&self) -> (r: MemoryAllocatorKind)
        ensures r == MemoryAllocatorKind::Linear(self.spec_id()),
    {
        MemoryAllocatorKind::Linear(self.id)
    }

    /// The bytes used so far (including alignment padding).
    pub fn size(&self) -> (r: usize)
        ensures r == self.spec_pointer(),
    {
        self.pointer
    }

    /// The size of the managed range.
    pub fn capacity(&self) -> (r: usize)
        ensures r == self.spec_capacity(),
    {
        self.capacity
    }
}

/// A first-fit allocator: each allocation takes the first free gap, in order
/// of offset, that can hold it, so freed ranges are reused.
pub struct DenseAllocator {
    /// The allocated ranges, ordered by offset.
    used_list: Vec<UsedBlock>,
    /// The number of allocated bytes.
    size: usize,
    /// The size of the managed range.
    capacity: usize,
}

impl DenseAllocator {
    /// The allocated ranges, ordered by offset.
    pub closed spec fn blocks(&self) -> Seq<UsedBlock> { self.used_list@ }

    /// The number of allocated bytes.
    pub closed spec fn spec_size(&self) -> nat { self.size as nat }

    /// The size of the managed range.
    pub closed spec fn spec_capacity(&self) -> nat { self.capacity as nat }

    /// The ranges are ordered, disjoint and within the capacity, and `size` is
    /// their total length.
    pub closed spec fn wf(&self) -> bool {
        &&& blocks_wf(self.used_list@, self.capacity as nat)
        &&& self.size as nat == sum_sizes(self.used_list@)
    }

    /// What every allocator keeps: its allocations are ordered by offset, do
    /// not overlap, end within the capacity, and add up to the used size, which
    /// is at most the capacity.
    pub proof fn lemma_invariant(&self)
        requires self.wf(),
        ensures
            blocks_wf(self.blocks(), self.spec_capacity()),
            self.spec_size() == sum_sizes(self.blocks()),
            self.spec_size() <= self.spec_capacity(),
            self.spec_capacity() <= usize::MAX,
    {
        lemma_used_within_capacity(self.blocks(), self.spec_capacity());
    }

    /// An empty allocator over `size` bytes.
    pub fn new(size: usize) -> (r: Self)
        ensures
            r.wf(),
            r.blocks() == Seq::<UsedBlock>::empty(),
            r.spec_size() == 0,
            r.spec_capacity() == size,
    {
        DenseAllocator { used_list: Vec::new(), size: 0, capacity: size }
    }

    /// Reserves `size` bytes aligned to `align` (a power of two, or zero for no
    /// alignment) in the first gap between allocations, in order of offset, that
    /// can hold them, and returns their offset; fails, leaving the allocator as
    /// it was, where no gap can.
    pub fn allocate(&mut self, align: usize, size: usize) -> (r: Result<usize, MemoryPoolError>)
        requires
            old(self).wf(),
            align == 0 || is_pow2(align as nat),
        ensures
            final(self).wf(),
            final(self).spec_capacity() == old(self).spec_capacity(),
            match first_fit(old(self).blocks(), old(self).spec_capacity(), align as nat, size as nat) {
                Some(i) => {
                    let p = align_up_spec(gap_start(old(self).blocks(), i), align as nat);
                    &&& r == Ok::<usize, MemoryPoolError>(p as usize)
                    &&& final(self).blocks() == old(self).blocks().insert(i, UsedBlock { pointer: p as usize, size })
                    &&& final(self).spec_size() == old(self).spec_size() + size
                },
                None => {
                    &&& r == Err::<usize, MemoryPoolError>(MemoryPoolError::OutOfMemoryError { req_size: size })
                    &&& final(self).blocks() == old(self).blocks()
                    &&& final(self).spec_size() == old(self).spec_size()
                },
            },
            r is Err <==> forall|j: int| 0 <= j <= old(self).blocks().len()
                ==> !#[trigger] fits_in_gap(old(self).blocks(), old(self).spec_capacity(), j, align as nat, size as nat),
    {
        proof { lemma_first_fit_exact(old(self).blocks(), old(self).spec_capacity(), align as nat, size as nat); }
        let ghost s = self.used_list@;
        let ghost cap = self.capacity as nat;
        proof { lemma_used_within_capacity(s, cap); }
        // No gap can hold more than the unused bytes.
        if size > self.capacity - self.size {
            proof {
                assert forall|j: int| 0 <= j <= s.len() implies !fits_in_gap(s, cap, j, align as nat, size as nat) by {
                    if fits_in_gap(s, cap, j, align as nat, size as nat) {
                        lemma_fit_leaves_room(s, cap, j, align as nat, size as nat);
                    }
                }
                lemma_first_fit_none(s, cap, align as nat, size as nat, 0);
            }
            return Err(MemoryPoolError::OutOfMemoryError { req_size: size });
        }
        let n = self.used_list.len();
        let mut i: usize = 0;
        loop
            invariant
                s == self.used_list@,
                cap == self.capacity,
                s == old(self).used_list@,
                cap == old(self).capacity,
                self.size == old(self).size,
                self.wf(),
                n == s.len(),
                align == 0 || is_pow2(align as nat),
                0 <= i <= n,
                self.size + size <= cap,
                forall|j: int| 0 <= j < i ==> !fits_in_gap(s, cap, j, align as nat, size as nat),
            ensures
                forall|j: int| 0 <= j <= n ==> !fits_in_gap(s, cap, j, align as nat, size as nat),
                s == self.used_list@,
                self.size == old(self).size,
                cap == self.capacity,
            decreases n - i,
        {
            match try_gap(&self.used_list, self.capacity, i, align, size) {
                Some(p) => {
                    proof {
                        let ghost k = i as int;
                        lemma_first_fit_prefix(s, cap, align as nat, size as nat, 0, k);
                        lemma_align_up_ge(gap_start(s, k), align as nat);
                        lemma_insert_in_gap(s, cap, k, UsedBlock { pointer: p, size });
                        lemma_sum_insert(s, k, UsedBlock { pointer: p, size });
                    }
                    self.used_list.insert(i, UsedBlock::new(p, size));
                    self.size = self.size + size;
                    return Ok(p);
                },
                None => {},
            }
            if i == n {
                break;
            }
            i = i + 1;
        }
        proof { lemma_first_fit_none(s, cap, align as nat, size as nat, 0); }
        Err(MemoryPoolError::OutOfMemoryError { req_size: size })
    }

    /// Releases the first allocated range that starts at `pointer`; fails,
    /// leaving the allocator as it was, where no range starts there.
    pub fn free(&mut self, pointer: usize) -> (r: Result<(), MemoryPoolError>)
        requires old(self).wf(),
        ensures
            final(self).wf(),
            final(self).spec_capacity() == old(self).spec_capacity(),
            match find_block(old(self).blocks(), pointer as nat) {
                Some(i) => {
                    &&& r == Ok::<(), MemoryPoolError>(())
                    &&& final(self).blocks() == old(self).blocks().remove(i)
                    &&& final(self).spec_size() + old(self).blocks()[i].size == old(self).spec_size()
                },
                None => {
                    &&& r == Err::<(), MemoryPoolError>(MemoryPoolError::UnknownPointer { ptr: pointer })
                    &&& final(self).blocks() == old(self).blocks()
                    &&& final(self).spec_size() == old(self).spec_size()
                },
            },
    {
        let ghost s = self.used_list@;
        let ghost cap = self.capacity;
        let n = self.used_list.len();
        let mut i: usize = 0;
        while i < n
            invariant
                s == self.used_list@,
                cap == self.capacity,
                s == old(self).used_list@,
                cap == old(self).capacity,
                self.size == old(self).size,
                self.wf(),
                n == s.len(),
                0 <= i <= n,
                find_block(s, pointer as nat) == find_block_from(s, pointer as nat, i as int),
            decreases n - i,
        {
            if self.used_list[i].pointer == pointer {
                let b = self.used_list.remove(i);
                proof {
                    lemma_remove_wf(s, self.capacity as nat, i as int);
                    lemma_sum_remove(s, i as int);
                }
                self.size = self.size - b.size;
                return Ok(());
            }
            i = i + 1;
        }
        Err(MemoryPoolError::UnknownPointer { ptr: pointer })
    }

    /// Releases every allocation.
    pub fn reset(&mut self)
        ensures
            final(self).wf(),
            final(self).blocks() == Seq::<UsedBlock>::empty(),
            final(self).spec_size() == 0,
            final(self).spec_capacity() == old(self).spec_capacity(),
    {
        self.used_list = Vec::new();
        self.size = 0;
    }

    /// Which allocator this is.
    pub fn kind(&self) -> (r: MemoryAllocatorKind)
        ensures r == MemoryAllocatorKind::Dense,
    {
        MemoryAllocatorKind::Dense
    }

    /// The number of allocated bytes.
    pub fn size(&self) -> (r: usize)
        ensures r == self.spec_size(),
    {
        self.size
    }

    /// The size of the managed range.
    pub fn capacity(&self) -> (r: usize)
        ensures r == self.spec_capacity(),
    {
        self.capacity
    }
}

/// Gaps that do not fit the allocation can be skipped: the search from `i`
/// finds what the search from `k` finds.
pub proof fn lemma_first_fit_prefix(s: Seq<UsedBlock>, capacity: nat, align: nat, size: nat, i: int, k: int)
    requires
        0 <= i <= k <= s.len(),
        forall|j: int| i <= j < k ==> !fits_in_gap(s, capacity, j, align, size),
    ensures first_fit_from(s, capacity, align, size, i) == first_fit_from(s, capacity, align, size, k),
    decreases k - i,
{
    if i < k {
        lemma_first_fit_prefix(s, capacity, align, size, i + 1, k);
    }
}


/// The first-fit search finds a gap exactly where some gap holds the
/// allocation, and then the first such gap.
pub proof fn lemma_first_fit_exact(s: Seq<UsedBlock>, capacity: nat, align: nat, size: nat)
    ensures
        first_fit(s, capacity, align, size) is None
            <==> forall|j: int| 0 <= j <= s.len() ==> !#[trigger] fits_in_gap(s, capacity, j, align, size),
        first_fit(s, capacity, align, size) matches Some(i) ==> {
            &&& 0 <= i <= s.len()
            &&& fits_in_gap(s, capacity, i, align, size)
            &&& forall|j: int| 0 <= j < i ==> !#[trigger] fits_in_gap(s, capacity, j, align, size)
        },
{
    lemma_first_fit_from_exact(s, capacity, align, size, 0);
}

proof fn lemma_first_fit_from_exact(s: Seq<UsedBlock>, capacity: nat, align: nat, size: nat, k: int)
    requires 0 <= k,
    ensures
        first_fit_from(s, capacity, align, size, k) is None
            <==> forall|j: int| k <= j <= s.len() ==> !#[trigger] fits_in_gap(s, capacity, j, align, size),
        first_fit_from(s, capacity, align, size, k) matches Some(i) ==> {
            &&& k <= i <= s.len()
            &&& fits_in_gap(s, capacity, i, align, size)
            &&& forall|j: int| k <= j < i ==> !#[trigger] fits_in_gap(s, capacity, j, align, size)
        },
    decreases s.len() + 1 - k,
{
    if k <= s.len() {
        lemma_first_fit_from_exact(s, capacity, align, size, k + 1);
    }
}

} // verus!
