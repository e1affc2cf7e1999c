//! Plain descriptions of device memory: requirements, blocks and buffer
//! allocation parameters.

use vstd::prelude::*;
use crate::allocators::MemoryAllocatorKind;
use crate::flags::{BufferUsageFlags, DeviceMemoryType, DeviceMemoryTypeFlags, MemoryPropertyFlags};

verus! {

/// What a resource needs of the memory it is bound to.
#[derive(Clone, Copy, Debug, PartialEq, Eq, Structural)]
pub struct MemoryRequirements {
    /// The number of bytes.
    pub size: usize,
    /// The alignment of the start offset (a power of two, or zero for none).
    pub align: u8,
    /// The memory types the resource may live in.
    pub types: DeviceMemoryTypeFlags,
}

impl MemoryRequirements {
    /// The requirements of a Vulkan `VkMemoryRequirements`: its size, its
    /// alignment truncated to 8 bits and its memory type bits.
    pub fn from_vk(size: u64, alignment: u64, memory_type_bits: u32) -> (r: Self)
        ensures
            r.size == size as usize,
            r.align == alignment as u8,
            r.types.bits() == memory_type_bits,
    {
        MemoryRequirements { size: size as usize, align: alignment as u8, types: DeviceMemoryTypeFlags::from(memory_type_bits) }
    }

    /// The size, alignment and memory type bits of the Vulkan `VkMemoryRequirements`.
    pub fn to_vk(&self) -> (r: (u64, u64, u32))
        ensures r == (self.size as u64, self.align as u64, self.types.bits()),
    {
        (self.size as u64, self.align as u64, self.types.as_raw())
    }
}

/// A block of device memory that a pool hands out ranges of.
#[derive(Clone, Copy, Debug, PartialEq, Eq, Structural)]
pub struct MemoryBlock {
    /// The raw handle of the Vulkan `VkDeviceMemory`.
    memory: u64,
    /// The memory type the block was allocated in.
    mem_type: DeviceMemoryType,
    /// The properties of that memory type.
    mem_props: MemoryPropertyFlags,
    /// The size of the block in bytes.
    mem_size: usize,
}

impl MemoryBlock {
    /// The raw handle of the Vulkan memory.
    pub closed spec fn spec_vk(self) -> u64 { self.memory }

    /// The memory type the block was allocated in.
    pub closed spec fn spec_mem_type(self) -> DeviceMemoryType { self.mem_type }

    /// The properties of that memory type.
    pub closed spec fn spec_mem_props(self) -> MemoryPropertyFlags { self.mem_props }

    /// The size of the block in bytes.
    pub closed spec fn spec_mem_size(self) -> usize { self.mem_size }

    /// Describes an allocated block of device memory.
    pub fn new(memory: u64, mem_type: DeviceMemoryType, mem_props: MemoryPropertyFlags, mem_size: usize) -> (r: Self)
        ensures
            r.spec_vk() == memory,
            r.spec_mem_type() == mem_type,
            r.spec_mem_props() == mem_props,
            r.spec_mem_size() == mem_size,
    {
        MemoryBlock { memory, mem_type, mem_props, mem_size }
    }

    /// The raw handle of the Vulkan memory.
    pub fn vk(&self) -> (r: u64)
        ensures r == self.spec_vk(),
    {
        self.memory
    }

    /// The memory type the block was allocated in.
    pub fn mem_type(&self) -> (r: DeviceMemoryType)
        ensures r == self.spec_mem_type(),
    {
        self.mem_type
    }

    /// The properties of that memory type.
    pub fn mem_props(&self) -> (r: MemoryPropertyFlags)
        ensures r == self.spec_mem_props(),
    {
        self.mem_props
    }

    /// The size of the block in bytes.
    pub fn mem_size(&self) -> (r: usize)
        ensures r == self.spec_mem_size(),
    {
        self.mem_size
    }

    /// Whether a request with these requirements and properties may be served
    /// from this block: the block's memory type is among the allowed ones and
    /// has every requested property.
    pub open spec fn serves(self, reqs: MemoryRequirements, props: MemoryPropertyFlags) -> bool {
        &&& reqs.types.bits() & self.spec_mem_type().bits() == self.spec_mem_type().bits()
        &&& self.spec_mem_props().has(props)
    }

    /// Whether a request with these requirements and properties may be served
    /// from this block.
    pub fn can_serve(&self, reqs: &MemoryRequirements, props: MemoryPropertyFlags) -> (r: bool)
        ensures r == self.serves(*reqs, props),
    {
        reqs.types.check_type(self.mem_type) && self.mem_props.check(props)
    }
}

/// Whether a buffer is used by one queue family at a time or by several.
#[derive(Clone, Debug, PartialEq, Eq)]
pub enum SharingMode {
    /// One queue family at a time.
    Exclusive,
    /// Concurrently by the listed queue families.
    Concurrent(Vec<u32>),
}

/// The raw value of `VK_SHARING_MODE_EXCLUSIVE`.
pub const SHARING_MODE_EXCLUSIVE: i32 = 0;
/// The raw value of `VK_SHARING_MODE_CONCURRENT`.
pub const SHARING_MODE_CONCURRENT: i32 = 1;

impl SharingMode {
    /// The sharing mode for a raw Vulkan `VkSharingMode`; a concurrent mode
    /// takes the given queue family indices, which it then needs.
    pub fn from_vk(sharing_mode: i32, queue_family_indices: Option<&[u32]>) -> (r: Self)
        requires
            sharing_mode == SHARING_MODE_EXCLUSIVE || sharing_mode == SHARING_MODE_CONCURRENT,
            sharing_mode == SHARING_MODE_CONCURRENT ==> queue_family_indices is Some,
        ensures
            sharing_mode == SHARING_MODE_EXCLUSIVE ==> r == SharingMode::Exclusive,
            sharing_mode == SHARING_MODE_CONCURRENT ==> (r matches SharingMode::Concurrent(v)
                && v@ == queue_family_indices->0@),
    {
        if sharing_mode == SHARING_MODE_EXCLUSIVE {
            SharingMode::Exclusive
        } else {
            match queue_family_indices {
                Some(indices) => SharingMode::Concurrent(copy_indices(indices)),
                None => SharingMode::Exclusive,
            }
        }
    }

    /// The raw Vulkan `VkSharingMode` and, for a concurrent mode, its queue
    /// family indices.
    pub fn to_vk(self) -> (r: (i32, Option<Vec<u32>>))
        ensures
            match self {
                SharingMode::Exclusive => r.0 == SHARING_MODE_EXCLUSIVE && r.1 is None,
                SharingMode::Concurrent(v) => r.0 == SHARING_MODE_CONCURRENT && r.1 == Some(v),
            },
    {
        match self {
            SharingMode::Exclusive => (SHARING_MODE_EXCLUSIVE, None),
            SharingMode::Concurrent(indices) => (SHARING_MODE_CONCURRENT, Some(indices)),
        }
    }
}

/// A copy of the queue family indices.
fn copy_indices(indices: &[u32]) -> (r: Vec<u32>)
    ensures r@ == indices@,
{
    let mut v: Vec<u32> = Vec::new();
    let mut i: usize = 0;
    while i < indices.len()
        invariant
            0 <= i <= indices@.len(),
            v@ == indices@.subrange(0, i as int),
        decreases indices@.len() - i,
    {
        v.push(indices[i]);
        i = i + 1;
    }
    assert(indices@.subrange(0, indices@.len() as int) =~= indices@);
    v
}

/// The parameters of a new buffer.
#[derive(Clone, Debug, PartialEq, Eq)]
pub struct BufferAllocateInfo {
    /// How the buffer is used.
    pub usage_flags: BufferUsageFlags,
    /// Which queue families use it.
    pub sharing_mode: SharingMode,
    /// Its size in bytes.
    pub size: usize,
    /// The properties its memory must have.
    pub memory_props: MemoryPropertyFlags,
    /// The allocator its memory comes from.
    pub allocator: MemoryAllocatorKind,
}

} // verus!
