//! Sets of flags that stand for Vulkan flag sets. Each keeps its own bit
//! layout and converts to and from the raw bits of the Vulkan flags.

use vstd::prelude::*;
use vstd::string::StringExecFns;
use crate::text::{decimal, decimal_string};

verus! {

/// Properties of a memory heap.
#[derive(Clone, Copy, Debug, PartialEq, Eq, Structural)]
pub struct HeapPropertyFlags(u8);

impl HeapPropertyFlags {
    /// The set with the raw bits `0x1`.
    #[allow(non_snake_case)]
    pub fn DEVICE_LOCAL() -> (r: Self)
        ensures r.bits() == 0x1,
    {
        HeapPropertyFlags(0x1)
    }

    /// The set with the raw bits `0x2`.
    #[allow(non_snake_case)]
    pub fn MULTI_INSTANCE() -> (r: Self)
        ensures r.bits() == 0x2,
    {
        HeapPropertyFlags(0x2)
    }


    /// The raw bits of the set.
    pub closed spec fn bits(self) -> u8 { self.0 }

    /// Whether every flag of `other` is in this set.
    pub open spec fn has(self, other: Self) -> bool { self.bits() & other.bits() == other.bits() }

    /// The set with the given raw bits.
    pub closed spec fn with_bits(bits: u8) -> Self { HeapPropertyFlags(bits) }

    /// The empty set.
    pub fn empty() -> (r: Self)
        ensures r.bits() == 0,
    {
        HeapPropertyFlags(0)
    }

    /// The set of every bit.
    pub fn all() -> (r: Self)
        ensures r.bits() == 0xFF,
    {
        HeapPropertyFlags(0xFF)
    }

    /// The set with the given raw bits (this library's layout).
    pub fn from_raw(value: u8) -> (r: Self)
        ensures r.bits() == value,
    {
        HeapPropertyFlags(value)
    }

    /// The raw bits (this library's layout).
    pub fn as_raw(&self) -> (r: u8)
        ensures r == self.bits(),
    {
        self.0
    }

    /// Whether no flag is set.
    pub fn is_empty(&self) -> (r: bool)
        ensures r == (self.bits() == 0),
    {
        self.0 == 0
    }

    /// Whether every flag of `other` is in this set.
    pub fn check(&self, other: HeapPropertyFlags) -> (r: bool)
        ensures r == self.has(other),
    {
        (self.0 & other.0) == other.0
    }

    /// This library's bits for the raw bits of a Vulkan `VkMemoryHeapFlags`: each known
    /// Vulkan flag that is set sets its counterpart; other bits are dropped.
    pub open spec fn from_vk_spec(value: u32) -> u8 {
        (if value & 0x1 != 0 { 0x1u8 } else { 0u8 })
            | (if value & 0x2 != 0 { 0x2u8 } else { 0u8 })
            | (if value & 0x2 != 0 { 0x2u8 } else { 0u8 })
    }

    /// The set for the raw bits of a Vulkan `VkMemoryHeapFlags`: each known Vulkan flag
    /// that is set sets its counterpart; other bits are dropped.
    pub fn from_vk(value: u32) -> (r: Self)
        ensures r.bits() == Self::from_vk_spec(value),
    {
        let result: u8 = (if value & 0x1 != 0 { 0x1u8 } else { 0u8 })
            | (if value & 0x2 != 0 { 0x2u8 } else { 0u8 })
            | (if value & 0x2 != 0 { 0x2u8 } else { 0u8 });
        HeapPropertyFlags(result)
    }

    /// The raw bits of the Vulkan `VkMemoryHeapFlags` for the raw bits `bits` of this
    /// library: each known flag that is set sets its Vulkan counterpart.
    pub open spec fn to_vk_bits(bits: u8) -> u32 {
        (if bits & 0x1 == 0x1 { 0x1u32 } else { 0u32 })
            | (if bits & 0x2 == 0x2 { 0x2u32 } else { 0u32 })
            | (if bits & 0x2 == 0x2 { 0x2u32 } else { 0u32 })
    }

    /// The raw bits of the Vulkan `VkMemoryHeapFlags` for this set: each known flag that
    /// is set sets its Vulkan counterpart.
    pub open spec fn to_vk_spec(self) -> u32 {
        Self::to_vk_bits(self.bits())
    }

    /// The raw bits of the Vulkan `VkMemoryHeapFlags` for this set: each known flag that
    /// is set sets its Vulkan counterpart.
    pub fn to_vk(&self) -> (r: u32)
        ensures r == self.to_vk_spec(),
    {
        (if self.0 & 0x1 == 0x1 { 0x1u32 } else { 0u32 })
            | (if self.0 & 0x2 == 0x2 { 0x2u32 } else { 0u32 })
            | (if self.0 & 0x2 == 0x2 { 0x2u32 } else { 0u32 })
    }

    /// Converting to the Vulkan flags and back keeps exactly the flags that
    /// have a Vulkan counterpart (the mask `0x3`).
    pub proof fn lemma_vk_round_trip(self)
        ensures Self::from_vk_spec(self.to_vk_spec()) == self.bits() & 0x3,
    {
        let b: u8 = self.bits();
        assert(Self::from_vk_spec(Self::to_vk_bits(b)) == b & 0x3) by (bit_vector);
    }

    /// Converting Vulkan flags to this set and back keeps exactly the Vulkan
    /// flags that have a counterpart here (the mask `0x3`).
    pub proof fn lemma_vk_raw_round_trip(value: u32)
        ensures Self::with_bits(Self::from_vk_spec(value)).to_vk_spec() == value & 0x3,
    {
        assert(Self::to_vk_bits(Self::from_vk_spec(value)) == value & 0x3) by (bit_vector);
    }
}

impl core::ops::BitOr for HeapPropertyFlags {
    type Output = HeapPropertyFlags;

    /// The union of both sets.
    fn bitor(self, rhs: HeapPropertyFlags) -> (r: HeapPropertyFlags)
        ensures r.bits() == self.bits() | rhs.bits(),
    {
        HeapPropertyFlags(self.0 | rhs.0)
    }
}

impl vstd::std_specs::ops::BitOrSpecImpl for HeapPropertyFlags {
    open spec fn obeys_bitor_spec() -> bool { true }

    open spec fn bitor_req(self, rhs: HeapPropertyFlags) -> bool { true }

    open spec fn bitor_spec(self, rhs: HeapPropertyFlags) -> HeapPropertyFlags { HeapPropertyFlags::with_bits(self.bits() | rhs.bits()) }
}

impl core::ops::BitOrAssign for HeapPropertyFlags {
    /// Adds the flags of `rhs` to this set.
    fn bitor_assign(&mut self, rhs: HeapPropertyFlags)
        ensures final(self).bits() == old(self).bits() | rhs.bits(),
    {
        self.0 = self.0 | rhs.0;
    }
}

/// A set of shader stages.
#[derive(Clone, Copy, Debug, PartialEq, Eq, Structural)]
pub struct ShaderStage(u16);

impl ShaderStage {
    /// The set with the raw bits `0xffff`.
    #[allow(non_snake_case)]
    pub fn ALL() -> (r: Self)
        ensures r.bits() == 0xffff,
    {
        ShaderStage(0xffff)
    }

    /// The set with the raw bits `0x1f`.
    #[allow(non_snake_case)]
    pub fn ALL_GRAPHICS() -> (r: Self)
        ensures r.bits() == 0x1f,
    {
        ShaderStage(0x1f)
    }

    /// The set with the raw bits `0x0`.
    #[allow(non_snake_case)]
    pub fn EMPTY() -> (r: Self)
        ensures r.bits() == 0x0,
    {
        ShaderStage(0x0)
    }

    /// The set with the raw bits `0x1`.
    #[allow(non_snake_case)]
    pub fn VERTEX() -> (r: Self)
        ensures r.bits() == 0x1,
    {
        ShaderStage(0x1)
    }

    /// The set with the raw bits `0x2`.
    #[allow(non_snake_case)]
    pub fn TESSELLATION_CONTROL() -> (r: Self)
        ensures r.bits() == 0x2,
    {
        ShaderStage(0x2)
    }

    /// The set with the raw bits `0x4`.
    #[allow(non_snake_case)]
    pub fn TESSELLATION_EVALUATION() -> (r: Self)
        ensures r.bits() == 0x4,
    {
        ShaderStage(0x4)
    }

    /// The set with the raw bits `0x8`.
    #[allow(non_snake_case)]
    pub fn GEOMETRY() -> (r: Self)
        ensures r.bits() == 0x8,
    {
        ShaderStage(0x8)
    }

    /// The set with the raw bits `0x10`.
    #[allow(non_snake_case)]
    pub fn FRAGMENT() -> (r: Self)
        ensures r.bits() == 0x10,
    {
        ShaderStage(0x10)
    }

    /// The set with the raw bits `0x20`.
    #[allow(non_snake_case)]
    pub fn COMPUTE() -> (r: Self)
        ensures r.bits() == 0x20,
    {
        ShaderStage(0x20)
    }


    /// The raw bits of the set.
    pub closed spec fn bits(self) -> u16 { self.0 }

    /// Whether every flag of `other` is in this set.
    pub open spec fn has(self, other: Self) -> bool { self.bits() & other.bits() == other.bits() }

    /// The set with the given raw bits.
    pub closed spec fn with_bits(bits: u16) -> Self { ShaderStage(bits) }

    /// The set with the given raw bits (this library's layout).
    pub fn raw(value: u16) -> (r: Self)
        ensures r.bits() == value,
    {
        ShaderStage(value)
    }

    /// Whether every flag of `other` is in this set.
    pub fn check(&self, other: ShaderStage) -> (r: bool)
        ensures r == self.has(other),
    {
        (self.0 & other.0) == other.0
    }

    /// This library's bits for the raw bits of a Vulkan `VkShaderStageFlags`: each known
    /// Vulkan flag that is set sets its counterpart; other bits are dropped.
    pub open spec fn from_vk_spec(value: u32) -> u16 {
        (if value & 0x1 != 0 { 0x1u16 } else { 0u16 })
            | (if value & 0x2 != 0 { 0x2u16 } else { 0u16 })
            | (if value & 0x4 != 0 { 0x4u16 } else { 0u16 })
            | (if value & 0x8 != 0 { 0x8u16 } else { 0u16 })
            | (if value & 0x10 != 0 { 0x10u16 } else { 0u16 })
            | (if value & 0x20 != 0 { 0x20u16 } else { 0u16 })
    }

    /// The set for the raw bits of a Vulkan `VkShaderStageFlags`: each known Vulkan flag
    /// that is set sets its counterpart; other bits are dropped.
    pub fn from_vk(value: u32) -> (r: Self)
        ensures r.bits() == Self::from_vk_spec(value),
    {
        let result: u16 = (if value & 0x1 != 0 { 0x1u16 } else { 0u16 })
            | (if value & 0x2 != 0 { 0x2u16 } else { 0u16 })
            | (if value & 0x4 != 0 { 0x4u16 } else { 0u16 })
            | (if value & 0x8 != 0 { 0x8u16 } else { 0u16 })
            | (if value & 0x10 != 0 { 0x10u16 } else { 0u16 })
            | (if value & 0x20 != 0 { 0x20u16 } else { 0u16 });
        ShaderStage(result)
    }

    /// The raw bits of the Vulkan `VkShaderStageFlags` for the raw bits `bits` of this
    /// library: each known flag that is set sets its Vulkan counterpart.
    pub open spec fn to_vk_bits(bits: u16) -> u32 {
        (if bits & 0x1 == 0x1 { 0x1u32 } else { 0u32 })
            | (if bits & 0x2 == 0x2 { 0x2u32 } else { 0u32 })
            | (if bits & 0x4 == 0x4 { 0x4u32 } else { 0u32 })
            | (if bits & 0x8 == 0x8 { 0x8u32 } else { 0u32 })
            | (if bits & 0x10 == 0x10 { 0x10u32 } else { 0u32 })
            | (if bits & 0x20 == 0x20 { 0x20u32 } else { 0u32 })
    }

    /// The raw bits of the Vulkan `VkShaderStageFlags` for this set: each known flag that
    /// is set sets its Vulkan counterpart.
    pub open spec fn to_vk_spec(self) -> u32 {
        Self::to_vk_bits(self.bits())
    }

    /// The raw bits of the Vulkan `VkShaderStageFlags` for this set: each known flag that
    /// is set sets its Vulkan counterpart.
    pub fn to_vk(&self) -> (r: u32)
        ensures r == self.to_vk_spec(),
    {
        (if self.0 & 0x1 == 0x1 { 0x1u32 } else { 0u32 })
            | (if self.0 & 0x2 == 0x2 { 0x2u32 } else { 0u32 })
            | (if self.0 & 0x4 == 0x4 { 0x4u32 } else { 0u32 })
            | (if self.0 & 0x8 == 0x8 { 0x8u32 } else { 0u32 })
            | (if self.0 & 0x10 == 0x10 { 0x10u32 } else { 0u32 })
            | (if self.0 & 0x20 == 0x20 { 0x20u32 } else { 0u32 })
    }

    /// Converting to the Vulkan flags and back keeps exactly the flags that
    /// have a Vulkan counterpart (the mask `0x3f`).
    pub proof fn lemma_vk_round_trip(self)
        ensures Self::from_vk_spec(self.to_vk_spec()) == self.bits() & 0x3f,
    {
        let b: u16 = self.bits();
        assert(Self::from_vk_spec(Self::to_vk_bits(b)) == b & 0x3f) by (bit_vector);
    }

    /// Converting Vulkan flags to this set and back keeps exactly the Vulkan
    /// flags that have a counterpart here (the mask `0x3f`).
    pub proof fn lemma_vk_raw_round_trip(value: u32)
        ensures Self::with_bits(Self::from_vk_spec(value)).to_vk_spec() == value & 0x3f,
    {
        assert(Self::to_vk_bits(Self::from_vk_spec(value)) == value & 0x3f) by (bit_vector);
    }
}

impl core::ops::BitOr for ShaderStage {
    type Output = ShaderStage;

    /// The union of both sets.
    fn bitor(self, rhs: ShaderStage) -> (r: ShaderStage)
        ensures r.bits() == self.bits() | rhs.bits(),
    {
        ShaderStage(self.0 | rhs.0)
    }
}

impl vstd::std_specs::ops::BitOrSpecImpl for ShaderStage {
    open spec fn obeys_bitor_spec() -> bool { true }

    open spec fn bitor_req(self, rhs: ShaderStage) -> bool { true }

    open spec fn bitor_spec(self, rhs: ShaderStage) -> ShaderStage { ShaderStage::with_bits(self.bits() | rhs.bits()) }
}

impl core::ops::BitOrAssign for ShaderStage {
    /// Adds the flags of `rhs` to this set.
    fn bitor_assign(&mut self, rhs: ShaderStage)
        ensures final(self).bits() == old(self).bits() | rhs.bits(),
    {
        self.0 = self.0 | rhs.0;
    }
}

/// The kinds of memory access a dependency orders.
#[derive(Clone, Copy, Debug, PartialEq, Eq, Structural)]
pub struct AccessFlags(u32);

impl AccessFlags {
    /// The set with the raw bits `0x1`.
    #[allow(non_snake_case)]
    pub fn INDIRECT_COMMAND_READ() -> (r: Self)
        ensures r.bits() == 0x1,
    {
        AccessFlags(0x1)
    }

    /// The set with the raw bits `0x2`.
    #[allow(non_snake_case)]
    pub fn INDEX_READ() -> (r: Self)
        ensures r.bits() == 0x2,
    {
        AccessFlags(0x2)
    }

    /// The set with the raw bits `0x4`.
    #[allow(non_snake_case)]
    pub fn VERTEX_ATTRIBUTE_READ() -> (r: Self)
        ensures r.bits() == 0x4,
    {
        AccessFlags(0x4)
    }

    /// The set with the raw bits `0x8`.
    #[allow(non_snake_case)]
    pub fn UNIFORM_READ() -> (r: Self)
        ensures r.bits() == 0x8,
    {
        AccessFlags(0x8)
    }

    /// The set with the raw bits `0x10`.
    #[allow(non_snake_case)]
    pub fn INPUT_ATTACHMENT_READ() -> (r: Self)
        ensures r.bits() == 0x10,
    {
        AccessFlags(0x10)
    }

    /// The set with the raw bits `0x20`.
    #[allow(non_snake_case)]
    pub fn SHADER_READ() -> (r: Self)
        ensures r.bits() == 0x20,
    {
        AccessFlags(0x20)
    }

    /// The set with the raw bits `0x40`.
    #[allow(non_snake_case)]
    pub fn SHADER_WRITE() -> (r: Self)
        ensures r.bits() == 0x40,
    {
        AccessFlags(0x40)
    }

    /// The set with the raw bits `0x80`.
    #[allow(non_snake_case)]
    pub fn COLOUR_ATTACHMENT_READ() -> (r: Self)
        ensures r.bits() == 0x80,
    {
        AccessFlags(0x80)
    }

    /// The set with the raw bits `0x100`.
    #[allow(non_snake_case)]
    pub fn COLOUR_ATTACHMENT_WRITE() -> (r: Self)
        ensures r.bits() == 0x100,
    {
        AccessFlags(0x100)
    }

    /// The set with the raw bits `0x200`.
    #[allow(non_snake_case)]
    pub fn DEPTH_STENCIL_READ() -> (r: Self)
        ensures r.bits() == 0x200,
    {
        AccessFlags(0x200)
    }

    /// The set with the raw bits `0x400`.
    #[allow(non_snake_case)]
    pub fn DEPTH_STENCIL_WRITE() -> (r: Self)
        ensures r.bits() == 0x400,
    {
        AccessFlags(0x400)
    }

    /// The set with the raw bits `0x800`.
    #[allow(non_snake_case)]
    pub fn TRANSFER_READ() -> (r: Self)
        ensures r.bits() == 0x800,
    {
        AccessFlags(0x800)
    }

    /// The set with the raw bits `0x1000`.
    #[allow(non_snake_case)]
    pub fn TRANSFER_WRITE() -> (r: Self)
        ensures r.bits() == 0x1000,
    {
        AccessFlags(0x1000)
    }

    /// The set with the raw bits `0x2000`.
    #[allow(non_snake_case)]
    pub fn HOST_READ() -> (r: Self)
        ensures r.bits() == 0x2000,
    {
        AccessFlags(0x2000)
    }

    /// The set with the raw bits `0x4000`.
    #[allow(non_snake_case)]
    pub fn HOST_WRITE() -> (r: Self)
        ensures r.bits() == 0x4000,
    {
        AccessFlags(0x4000)
    }

    /// The set with the raw bits `0x8000`.
    #[allow(non_snake_case)]
    pub fn MEMORY_READ() -> (r: Self)
        ensures r.bits() == 0x8000,
    {
        AccessFlags(0x8000)
    }

    /// The set with the raw bits `0x10000`.
    #[allow(non_snake_case)]
    pub fn MEMORY_WRITE() -> (r: Self)
        ensures r.bits() == 0x10000,
    {
        AccessFlags(0x10000)
    }


    /// The raw bits of the set.
    pub closed spec fn bits(self) -> u32 { self.0 }

    /// Whether every flag of `other` is in this set.
    pub open spec fn has(self, other: Self) -> bool { self.bits() & other.bits() == other.bits() }

    /// The set with the given raw bits.
    pub closed spec fn with_bits(bits: u32) -> Self { AccessFlags(bits) }

    /// The empty set.
    pub fn empty() -> (r: Self)
        ensures r.bits() == 0,
    {
        AccessFlags(0)
    }

    /// The set of every bit.
    pub fn all() -> (r: Self)
        ensures r.bits() == 0xFFFF_FFFF,
    {
        AccessFlags(0xFFFF_FFFF)
    }

    /// The set with the given raw bits (this library's layout).
    pub fn from_raw(value: u32) -> (r: Self)
        ensures r.bits() == value,
    {
        AccessFlags(value)
    }

    /// The raw bits (this library's layout).
    pub fn as_raw(&self) -> (r: u32)
        ensures r == self.bits(),
    {
        self.0
    }

    /// Whether no flag is set.
    pub fn is_empty(&self) -> (r: bool)
        ensures r == (self.bits() == 0),
    {
        self.0 == 0
    }

    /// Whether every flag of `other` is in this set.
    pub fn check(&self, other: AccessFlags) -> (r: bool)
        ensures r == self.has(other),
    {
        (self.0 & other.0) == other.0
    }

    /// This library's bits for the raw bits of a Vulkan `VkAccessFlags`: each known
    /// Vulkan flag that is set sets its counterpart; other bits are dropped.
    pub open spec fn from_vk_spec(value: u32) -> u32 {
        (if value & 0x1 != 0 { 0x1u32 } else { 0u32 })
            | (if value & 0x2 != 0 { 0x2u32 } else { 0u32 })
            | (if value & 0x4 != 0 { 0x4u32 } else { 0u32 })
            | (if value & 0x8 != 0 { 0x8u32 } else { 0u32 })
            | (if value & 0x10 != 0 { 0x10u32 } else { 0u32 })
            | (if value & 0x20 != 0 { 0x20u32 } else { 0u32 })
            | (if value & 0x40 != 0 { 0x40u32 } else { 0u32 })
            | (if value & 0x80 != 0 { 0x80u32 } else { 0u32 })
            | (if value & 0x100 != 0 { 0x100u32 } else { 0u32 })
            | (if value & 0x800 != 0 { 0x800u32 } else { 0u32 })
            | (if value & 0x1000 != 0 { 0x1000u32 } else { 0u32 })
            | (if value & 0x2000 != 0 { 0x2000u32 } else { 0u32 })
            | (if value & 0x4000 != 0 { 0x4000u32 } else { 0u32 })
            | (if value & 0x8000 != 0 { 0x8000u32 } else { 0u32 })
            | (if value & 0x10000 != 0 { 0x10000u32 } else { 0u32 })
    }

    /// The set for the raw bits of a Vulkan `VkAccessFlags`: each known Vulkan flag
    /// that is set sets its counterpart; other bits are dropped.
    pub fn from_vk(value: u32) -> (r: Self)
        ensures r.bits() == Self::from_vk_spec(value),
    {
        let result: u32 = (if value & 0x1 != 0 { 0x1u32 } else { 0u32 })
            | (if value & 0x2 != 0 { 0x2u32 } else { 0u32 })
            | (if value & 0x4 != 0 { 0x4u32 } else { 0u32 })
            | (if value & 0x8 != 0 { 0x8u32 } else { 0u32 })
            | (if value & 0x10 != 0 { 0x10u32 } else { 0u32 })
            | (if value & 0x20 != 0 { 0x20u32 } else { 0u32 })
            | (if value & 0x40 != 0 { 0x40u32 } else { 0u32 })
            | (if value & 0x80 != 0 { 0x80u32 } else { 0u32 })
            | (if value & 0x100 != 0 { 0x100u32 } else { 0u32 })
            | (if value & 0x800 != 0 { 0x800u32 } else { 0u32 })
            | (if value & 0x1000 != 0 { 0x1000u32 } else { 0u32 })
            | (if value & 0x2000 != 0 { 0x2000u32 } else { 0u32 })
            | (if value & 0x4000 != 0 { 0x4000u32 } else { 0u32 })
            | (if value & 0x8000 != 0 { 0x8000u32 } else { 0u32 })
            | (if value & 0x10000 != 0 { 0x10000u32 } else { 0u32 });
        AccessFlags(result)
    }

    /// The raw bits of the Vulkan `VkAccessFlags` for the raw bits `bits` of this
    /// library: each known flag that is set sets its Vulkan counterpart.
    pub open spec fn to_vk_bits(bits: u32) -> u32 {
        (if bits & 0x1 == 0x1 { 0x1u32 } else { 0u32 })
            | (if bits & 0x2 == 0x2 { 0x2u32 } else { 0u32 })
            | (if bits & 0x4 == 0x4 { 0x4u32 } else { 0u32 })
            | (if bits & 0x8 == 0x8 { 0x8u32 } else { 0u32 })
            | (if bits & 0x10 == 0x10 { 0x10u32 } else { 0u32 })
            | (if bits & 0x20 == 0x20 { 0x20u32 } else { 0u32 })
            | (if bits & 0x40 == 0x40 { 0x40u32 } else { 0u32 })
            | (if bits & 0x80 == 0x80 { 0x80u32 } else { 0u32 })
            | (if bits & 0x100 == 0x100 { 0x100u32 } else { 0u32 })
            | (if bits & 0x800 == 0x800 { 0x800u32 } else { 0u32 })
            | (if bits & 0x1000 == 0x1000 { 0x1000u32 } else { 0u32 })
            | (if bits & 0x2000 == 0x2000 { 0x2000u32 } else { 0u32 })
            | (if bits & 0x4000 == 0x4000 { 0x4000u32 } else { 0u32 })
            | (if bits & 0x8000 == 0x8000 { 0x8000u32 } else { 0u32 })
            | (if bits & 0x10000 == 0x10000 { 0x10000u32 } else { 0u32 })
    }

    /// The raw bits of the Vulkan `VkAccessFlags` for this set: each known flag that
    /// is set sets its Vulkan counterpart.
    pub open spec fn to_vk_spec(self) -> u32 {
        Self::to_vk_bits(self.bits())
    }

    /// The raw bits of the Vulkan `VkAccessFlags` for this set: each known flag that
    /// is set sets its Vulkan counterpart.
    pub fn to_vk(&self) -> (r: u32)
        ensures r == self.to_vk_spec(),
    {
        (if self.0 & 0x1 == 0x1 { 0x1u32 } else { 0u32 })
            | (if self.0 & 0x2 == 0x2 { 0x2u32 } else { 0u32 })
            | (if self.0 & 0x4 == 0x4 { 0x4u32 } else { 0u32 })
            | (if self.0 & 0x8 == 0x8 { 0x8u32 } else { 0u32 })
            | (if self.0 & 0x10 == 0x10 { 0x10u32 } else { 0u32 })
            | (if self.0 & 0x20 == 0x20 { 0x20u32 } else { 0u32 })
            | (if self.0 & 0x40 == 0x40 { 0x40u32 } else { 0u32 })
            | (if self.0 & 0x80 == 0x80 { 0x80u32 } else { 0u32 })
            | (if self.0 & 0x100 == 0x100 { 0x100u32 } else { 0u32 })
            | (if self.0 & 0x800 == 0x800 { 0x800u32 } else { 0u32 })
            | (if self.0 & 0x1000 == 0x1000 { 0x1000u32 } else { 0u32 })
            | (if self.0 & 0x2000 == 0x2000 { 0x2000u32 } else { 0u32 })
            | (if self.0 & 0x4000 == 0x4000 { 0x4000u32 } else { 0u32 })
            | (if self.0 & 0x8000 == 0x8000 { 0x8000u32 } else { 0u32 })
            | (if self.0 & 0x10000 == 0x10000 { 0x10000u32 } else { 0u32 })
    }

    /// Converting to the Vulkan flags and back keeps exactly the flags that
    /// have a Vulkan counterpart (the mask `0x1f9ff`).
    pub proof fn lemma_vk_round_trip(self)
        ensures Self::from_vk_spec(self.to_vk_spec()) == self.bits() & 0x1f9ff,
    {
        let b: u32 = self.bits();
        assert(Self::from_vk_spec(Self::to_vk_bits(b)) == b & 0x1f9ff) by (bit_vector);
    }

    /// Converting Vulkan flags to this set and back keeps exactly the Vulkan
    /// flags that have a counterpart here (the mask `0x1f9ff`).
    pub proof fn lemma_vk_raw_round_trip(value: u32)
        ensures Self::with_bits(Self::from_vk_spec(value)).to_vk_spec() == value & 0x1f9ff,
    {
        assert(Self::to_vk_bits(Self::from_vk_spec(value)) == value & 0x1f9ff) by (bit_vector);
    }
}

impl core::ops::BitOr for AccessFlags {
    type Output = AccessFlags;

    /// The union of both sets.
    fn bitor(self, rhs: AccessFlags) -> (r: AccessFlags)
        ensures r.bits() == self.bits() | rhs.bits(),
    {
        AccessFlags(self.0 | rhs.0)
    }
}

impl vstd::std_specs::ops::BitOrSpecImpl for AccessFlags {
    open spec fn obeys_bitor_spec() -> bool { true }

    open spec fn bitor_req(self, rhs: AccessFlags) -> bool { true }

    open spec fn bitor_spec(self, rhs: AccessFlags) -> AccessFlags { AccessFlags::with_bits(self.bits() | rhs.bits()) }
}

impl core::ops::BitOrAssign for AccessFlags {
    /// Adds the flags of `rhs` to this set.
    fn bitor_assign(&mut self, rhs: AccessFlags)
        ensures final(self).bits() == old(self).bits() | rhs.bits(),
    {
        self.0 = self.0 | rhs.0;
    }
}

/// How a subpass dependency is scoped.
#[derive(Clone, Copy, Debug, PartialEq, Eq, Structural)]
pub struct DependencyFlags(u8);

impl DependencyFlags {
    /// The set with the raw bits `0x1`.
    #[allow(non_snake_case)]
    pub fn FRAMEBUFFER_LOCAL() -> (r: Self)
        ensures r.bits() == 0x1,
    {
        DependencyFlags(0x1)
    }

    /// The set with the raw bits `0x2`.
    #[allow(non_snake_case)]
    pub fn VIEW_LOCAL() -> (r: Self)
        ensures r.bits() == 0x2,
    {
        DependencyFlags(0x2)
    }

    /// The set with the raw bits `0x4`.
    #[allow(non_snake_case)]
    pub fn NOT_DEVICE_LOCAL() -> (r: Self)
        ensures r.bits() == 0x4,
    {
        DependencyFlags(0x4)
    }


    /// The raw bits of the set.
    pub closed spec fn bits(self) -> u8 { self.0 }

    /// Whether every flag of `other` is in this set.
    pub open spec fn has(self, other: Self) -> bool { self.bits() & other.bits() == other.bits() }

    /// The set with the given raw bits.
    pub closed spec fn with_bits(bits: u8) -> Self { DependencyFlags(bits) }

    /// The empty set.
    pub fn empty() -> (r: Self)
        ensures r.bits() == 0,
    {
        DependencyFlags(0)
    }

    /// The set of every bit.
    pub fn all() -> (r: Self)
        ensures r.bits() == 0xFF,
    {
        DependencyFlags(0xFF)
    }

    /// The set with the given raw bits (this library's layout).
    pub fn from_raw(value: u8) -> (r: Self)
        ensures r.bits() == value,
    {
        DependencyFlags(value)
    }

    /// The raw bits (this library's layout).
    pub fn as_raw(&self) -> (r: u8)
        ensures r == self.bits(),
    {
        self.0
    }

    /// Whether no flag is set.
    pub fn is_empty(&self) -> (r: bool)
        ensures r == (self.bits() == 0),
    {
        self.0 == 0
    }

    /// Whether every flag of `other` is in this set.
    pub fn check(&self, other: DependencyFlags) -> (r: bool)
        ensures r == self.has(other),
    {
        (self.0 & other.0) == other.0
    }

    /// This library's bits for the raw bits of a Vulkan `VkDependencyFlags`: each known
    /// Vulkan flag that is set sets its counterpart; other bits are dropped.
    pub open spec fn from_vk_spec(value: u32) -> u8 {
        (if value & 0x1 != 0 { 0x1u8 } else { 0u8 })
            | (if value & 0x2 != 0 { 0x2u8 } else { 0u8 })
            | (if value & 0x4 != 0 { 0x4u8 } else { 0u8 })
    }

    /// The set for the raw bits of a Vulkan `VkDependencyFlags`: each known Vulkan flag
    /// that is set sets its counterpart; other bits are dropped.
    pub fn from_vk(value: u32) -> (r: Self)
        ensures r.bits() == Self::from_vk_spec(value),
    {
        let result: u8 = (if value & 0x1 != 0 { 0x1u8 } else { 0u8 })
            | (if value & 0x2 != 0 { 0x2u8 } else { 0u8 })
            | (if value & 0x4 != 0 { 0x4u8 } else { 0u8 });
        DependencyFlags(result)
    }

    /// The raw bits of the Vulkan `VkDependencyFlags` for the raw bits `bits` of this
    /// library: each known flag that is set sets its Vulkan counterpart.
    pub open spec fn to_vk_bits(bits: u8) -> u32 {
        (if bits & 0x1 == 0x1 { 0x1u32 } else { 0u32 })
            | (if bits & 0x2 == 0x2 { 0x2u32 } else { 0u32 })
            | (if bits & 0x4 == 0x4 { 0x4u32 } else { 0u32 })
    }

    /// The raw bits of the Vulkan `VkDependencyFlags` for this set: each known flag that
    /// is set sets its Vulkan counterpart.
    pub open spec fn to_vk_spec(self) -> u32 {
        Self::to_vk_bits(self.bits())
    }

    /// The raw bits of the Vulkan `VkDependencyFlags` for this set: each known flag that
    /// is set sets its Vulkan counterpart.
    pub fn to_vk(&self) -> (r: u32)
        ensures r == self.to_vk_spec(),
    {
        (if self.0 & 0x1 == 0x1 { 0x1u32 } else { 0u32 })
            | (if self.0 & 0x2 == 0x2 { 0x2u32 } else { 0u32 })
            | (if self.0 & 0x4 == 0x4 { 0x4u32 } else { 0u32 })
    }

    /// Converting to the Vulkan flags and back keeps exactly the flags that
    /// have a Vulkan counterpart (the mask `0x7`).
    pub proof fn lemma_vk_round_trip(self)
        ensures Self::from_vk_spec(self.to_vk_spec()) == self.bits() & 0x7,
    {
        let b: u8 = self.bits();
        assert(Self::from_vk_spec(Self::to_vk_bits(b)) == b & 0x7) by (bit_vector);
    }

    /// Converting Vulkan flags to this set and back keeps exactly the Vulkan
    /// flags that have a counterpart here (the mask `0x7`).
    pub proof fn lemma_vk_raw_round_trip(value: u32)
        ensures Self::with_bits(Self::from_vk_spec(value)).to_vk_spec() == value & 0x7,
    {
        assert(Self::to_vk_bits(Self::from_vk_spec(value)) == value & 0x7) by (bit_vector);
    }
}

impl core::ops::BitOr for DependencyFlags {
    type Output = DependencyFlags;

    /// The union of both sets.
    fn bitor(self, rhs: DependencyFlags) -> (r: DependencyFlags)
        ensures r.bits() == self.bits() | rhs.bits(),
    {
        DependencyFlags(self.0 | rhs.0)
    }
}

impl vstd::std_specs::ops::BitOrSpecImpl for DependencyFlags {
    open spec fn obeys_bitor_spec() -> bool { true }

    open spec fn bitor_req(self, rhs: DependencyFlags) -> bool { true }

    open spec fn bitor_spec(self, rhs: DependencyFlags) -> DependencyFlags { DependencyFlags::with_bits(self.bits() | rhs.bits()) }
}

impl core::ops::BitOrAssign for DependencyFlags {
    /// Adds the flags of `rhs` to this set.
    fn bitor_assign(&mut self, rhs: DependencyFlags)
        ensures final(self).bits() == old(self).bits() | rhs.bits(),
    {
        self.0 = self.0 | rhs.0;
    }
}

/// A set of pipeline stages.
#[derive(Clone, Copy, Debug, PartialEq, Eq, Structural)]
pub struct PipelineStage(u32);

impl PipelineStage {
    /// The set with the raw bits `0x0`.
    #[allow(non_snake_case)]
    pub fn EMPTY() -> (r: Self)
        ensures r.bits() == 0x0,
    {
        PipelineStage(0x0)
    }

    /// The set with the raw bits `0xfffff`.
    #[allow(non_snake_case)]
    pub fn ALL() -> (r: Self)
        ensures r.bits() == 0xfffff,
    {
        PipelineStage(0xfffff)
    }

    /// The set with the raw bits `0x1`.
    #[allow(non_snake_case)]
    pub fn TOP_OF_PIPE() -> (r: Self)
        ensures r.bits() == 0x1,
    {
        PipelineStage(0x1)
    }

    /// The set with the raw bits `0x2`.
    #[allow(non_snake_case)]
    pub fn DRAW_INDIRECT() -> (r: Self)
        ensures r.bits() == 0x2,
    {
        PipelineStage(0x2)
    }

    /// The set with the raw bits `0x4`.
    #[allow(non_snake_case)]
    pub fn VERTEX_INPUT() -> (r: Self)
        ensures r.bits() == 0x4,
    {
        PipelineStage(0x4)
    }

    /// The set with the raw bits `0x8`.
    #[allow(non_snake_case)]
    pub fn VERTEX_SHADER() -> (r: Self)
        ensures r.bits() == 0x8,
    {
        PipelineStage(0x8)
    }

    /// The set with the raw bits `0x10`.
    #[allow(non_snake_case)]
    pub fn TESSELLATION_CONTROL_SHADER() -> (r: Self)
        ensures r.bits() == 0x10,
    {
        PipelineStage(0x10)
    }

    /// The set with the raw bits `0x20`.
    #[allow(non_snake_case)]
    pub fn TESSELLATION_EVALUATION_SHADER() -> (r: Self)
        ensures r.bits() == 0x20,
    {
        PipelineStage(0x20)
    }

    /// The set with the raw bits `0x40`.
    #[allow(non_snake_case)]
    pub fn GEOMETRY_SHADER() -> (r: Self)
        ensures r.bits() == 0x40,
    {
        PipelineStage(0x40)
    }

    /// The set with the raw bits `0x80`.
    #[allow(non_snake_case)]
    pub fn FRAGMENT_SHADER() -> (r: Self)
        ensures r.bits() == 0x80,
    {
        PipelineStage(0x80)
    }

    /// The set with the raw bits `0x100`.
    #[allow(non_snake_case)]
    pub fn EARLY_FRAGMENT_TESTS() -> (r: Self)
        ensures r.bits() == 0x100,
    {
        PipelineStage(0x100)
    }

    /// The set with the raw bits `0x200`.
    #[allow(non_snake_case)]
    pub fn LATE_FRAGMENT_TESTS() -> (r: Self)
        ensures r.bits() == 0x200,
    {
        PipelineStage(0x200)
    }

    /// The set with the raw bits `0x400`.
    #[allow(non_snake_case)]
    pub fn COLOUR_ATTACHMENT_OUTPUT() -> (r: Self)
        ensures r.bits() == 0x400,
    {
        PipelineStage(0x400)
    }

    /// The set with the raw bits `0x800`.
    #[allow(non_snake_case)]
    pub fn COMPUTE_SHADER() -> (r: Self)
        ensures r.bits() == 0x800,
    {
        PipelineStage(0x800)
    }

    /// The set with the raw bits `0x1000`.
    #[allow(non_snake_case)]
    pub fn TRANSFER() -> (r: Self)
        ensures r.bits() == 0x1000,
    {
        PipelineStage(0x1000)
    }

    /// The set with the raw bits `0x2000`.
    #[allow(non_snake_case)]
    pub fn BOTTOM_OF_PIPE() -> (r: Self)
        ensures r.bits() == 0x2000,
    {
        PipelineStage(0x2000)
    }

    /// The set with the raw bits `0x4000`.
    #[allow(non_snake_case)]
    pub fn HOST() -> (r: Self)
        ensures r.bits() == 0x4000,
    {
        PipelineStage(0x4000)
    }

    /// The set with the raw bits `0x8000`.
    #[allow(non_snake_case)]
    pub fn ALL_GRAPHICS() -> (r: Self)
        ensures r.bits() == 0x8000,
    {
        PipelineStage(0x8000)
    }

    /// The set with the raw bits `0x10000`.
    #[allow(non_snake_case)]
    pub fn ALL_COMMANDS() -> (r: Self)
        ensures r.bits() == 0x10000,
    {
        PipelineStage(0x10000)
    }


    /// The raw bits of the set.
    pub closed spec fn bits(self) -> u32 { self.0 }

    /// Whether every flag of `other` is in this set.
    pub open spec fn has(self, other: Self) -> bool { self.bits() & other.bits() == other.bits() }

    /// The set with the given raw bits.
    pub closed spec fn with_bits(bits: u32) -> Self { PipelineStage(bits) }

    /// Whether every flag of `other` is in this set.
    pub fn check(&self, other: PipelineStage) -> (r: bool)
        ensures r == self.has(other),
    {
        (self.0 & other.0) == other.0
    }

    /// This library's bits for the raw bits of a Vulkan `VkPipelineStageFlags`: each known
    /// Vulkan flag that is set sets its counterpart; other bits are dropped.
    pub open spec fn from_vk_spec(value: u32) -> u32 {
        (if value & 0x1 != 0 { 0x1u32 } else { 0u32 })
            | (if value & 0x2 != 0 { 0x2u32 } else { 0u32 })
            | (if value & 0x4 != 0 { 0x4u32 } else { 0u32 })
            | (if value & 0x8 != 0 { 0x8u32 } else { 0u32 })
            | (if value & 0x10 != 0 { 0x10u32 } else { 0u32 })
            | (if value & 0x20 != 0 { 0x20u32 } else { 0u32 })
            | (if value & 0x40 != 0 { 0x40u32 } else { 0u32 })
            | (if value & 0x80 != 0 { 0x80u32 } else { 0u32 })
            | (if value & 0x100 != 0 { 0x100u32 } else { 0u32 })
            | (if value & 0x200 != 0 { 0x200u32 } else { 0u32 })
            | (if value & 0x400 != 0 { 0x400u32 } else { 0u32 })
            | (if value & 0x800 != 0 { 0x800u32 } else { 0u32 })
            | (if value & 0x1000 != 0 { 0x1000u32 } else { 0u32 })
            | (if value & 0x2000 != 0 { 0x2000u32 } else { 0u32 })
            | (if value & 0x4000 != 0 { 0x4000u32 } else { 0u32 })
            | (if value & 0x8000 != 0 { 0x8000u32 } else { 0u32 })
            | (if value & 0x10000 != 0 { 0x10000u32 } else { 0u32 })
    }

    /// The set for the raw bits of a Vulkan `VkPipelineStageFlags`: each known Vulkan flag
    /// that is set sets its counterpart; other bits are dropped.
    pub fn from_vk(value: u32) -> (r: Self)
        ensures r.bits() == Self::from_vk_spec(value),
    {
        let result: u32 = (if value & 0x1 != 0 { 0x1u32 } else { 0u32 })
            | (if value & 0x2 != 0 { 0x2u32 } else { 0u32 })
            | (if value & 0x4 != 0 { 0x4u32 } else { 0u32 })
            | (if value & 0x8 != 0 { 0x8u32 } else { 0u32 })
            | (if value & 0x10 != 0 { 0x10u32 } else { 0u32 })
            | (if value & 0x20 != 0 { 0x20u32 } else { 0u32 })
            | (if value & 0x40 != 0 { 0x40u32 } else { 0u32 })
            | (if value & 0x80 != 0 { 0x80u32 } else { 0u32 })
            | (if value & 0x100 != 0 { 0x100u32 } else { 0u32 })
            | (if value & 0x200 != 0 { 0x200u32 } else { 0u32 })
            | (if value & 0x400 != 0 { 0x400u32 } else { 0u32 })
            | (if value & 0x800 != 0 { 0x800u32 } else { 0u32 })
            | (if value & 0x1000 != 0 { 0x1000u32 } else { 0u32 })
            | (if value & 0x2000 != 0 { 0x2000u32 } else { 0u32 })
            | (if value & 0x4000 != 0 { 0x4000u32 } else { 0u32 })
            | (if value & 0x8000 != 0 { 0x8000u32 } else { 0u32 })
            | (if value & 0x10000 != 0 { 0x10000u32 } else { 0u32 });
        PipelineStage(result)
    }

    /// The raw bits of the Vulkan `VkPipelineStageFlags` for the raw bits `bits` of this
    /// library: each known flag that is set sets its Vulkan counterpart.
    pub open spec fn to_vk_bits(bits: u32) -> u32 {
        (if bits & 0x1 == 0x1 { 0x1u32 } else { 0u32 })
            | (if bits & 0x2 == 0x2 { 0x2u32 } else { 0u32 })
            | (if bits & 0x4 == 0x4 { 0x4u32 } else { 0u32 })
            | (if bits & 0x8 == 0x8 { 0x8u32 } else { 0u32 })
            | (if bits & 0x10 == 0x10 { 0x10u32 } else { 0u32 })
            | (if bits & 0x20 == 0x20 { 0x20u32 } else { 0u32 })
            | (if bits & 0x40 == 0x40 { 0x40u32 } else { 0u32 })
            | (if bits & 0x80 == 0x80 { 0x80u32 } else { 0u32 })
            | (if bits & 0x100 == 0x100 { 0x100u32 } else { 0u32 })
            | (if bits & 0x200 == 0x200 { 0x200u32 } else { 0u32 })
            | (if bits & 0x400 == 0x400 { 0x400u32 } else { 0u32 })
            | (if bits & 0x800 == 0x800 { 0x800u32 } else { 0u32 })
            | (if bits & 0x1000 == 0x1000 { 0x1000u32 } else { 0u32 })
            | (if bits & 0x2000 == 0x2000 { 0x2000u32 } else { 0u32 })
            | (if bits & 0x4000 == 0x4000 { 0x4000u32 } else { 0u32 })
            | (if bits & 0x8000 == 0x8000 { 0x8000u32 } else { 0u32 })
            | (if bits & 0x10000 == 0x10000 { 0x10000u32 } else { 0u32 })
    }

    /// The raw bits of the Vulkan `VkPipelineStageFlags` for this set: each known flag that
    /// is set sets its Vulkan counterpart.
    pub open spec fn to_vk_spec(self) -> u32 {
        Self::to_vk_bits(self.bits())
    }

    /// The raw bits of the Vulkan `VkPipelineStageFlags` for this set: each known flag that
    /// is set sets its Vulkan counterpart.
    pub fn to_vk(&self) -> (r: u32)
        ensures r == self.to_vk_spec(),
    {
        (if self.0 & 0x1 == 0x1 { 0x1u32 } else { 0u32 })
            | (if self.0 & 0x2 == 0x2 { 0x2u32 } else { 0u32 })
            | (if self.0 & 0x4 == 0x4 { 0x4u32 } else { 0u32 })
            | (if self.0 & 0x8 == 0x8 { 0x8u32 } else { 0u32 })
            | (if self.0 & 0x10 == 0x10 { 0x10u32 } else { 0u32 })
            | (if self.0 & 0x20 == 0x20 { 0x20u32 } else { 0u32 })
            | (if self.0 & 0x40 == 0x40 { 0x40u32 } else { 0u32 })
            | (if self.0 & 0x80 == 0x80 { 0x80u32 } else { 0u32 })
            | (if self.0 & 0x100 == 0x100 { 0x100u32 } else { 0u32 })
            | (if self.0 & 0x200 == 0x200 { 0x200u32 } else { 0u32 })
            | (if self.0 & 0x400 == 0x400 { 0x400u32 } else { 0u32 })
            | (if self.0 & 0x800 == 0x800 { 0x800u32 } else { 0u32 })
            | (if self.0 & 0x1000 == 0x1000 { 0x1000u32 } else { 0u32 })
            | (if self.0 & 0x2000 == 0x2000 { 0x2000u32 } else { 0u32 })
            | (if self.0 & 0x4000 == 0x4000 { 0x4000u32 } else { 0u32 })
            | (if self.0 & 0x8000 == 0x8000 { 0x8000u32 } else { 0u32 })
            | (if self.0 & 0x10000 == 0x10000 { 0x10000u32 } else { 0u32 })
    }

    /// Converting to the Vulkan flags and back keeps exactly the flags that
    /// have a Vulkan counterpart (the mask `0x1ffff`).
    pub proof fn lemma_vk_round_trip(self)
        ensures Self::from_vk_spec(self.to_vk_spec()) == self.bits() & 0x1ffff,
    {
        let b: u32 = self.bits();
        assert(Self::from_vk_spec(Self::to_vk_bits(b)) == b & 0x1ffff) by (bit_vector);
    }

    /// Converting Vulkan flags to this set and back keeps exactly the Vulkan
    /// flags that have a counterpart here (the mask `0x1ffff`).
    pub proof fn lemma_vk_raw_round_trip(value: u32)
        ensures Self::with_bits(Self::from_vk_spec(value)).to_vk_spec() == value & 0x1ffff,
    {
        assert(Self::to_vk_bits(Self::from_vk_spec(value)) == value & 0x1ffff) by (bit_vector);
    }
}

impl core::ops::BitOr for PipelineStage {
    type Output = PipelineStage;

    /// The union of both sets.
    fn bitor(self, rhs: PipelineStage) -> (r: PipelineStage)
        ensures r.bits() == self.bits() | rhs.bits(),
    {
        PipelineStage(self.0 | rhs.0)
    }
}

impl vstd::std_specs::ops::BitOrSpecImpl for PipelineStage {
    open spec fn obeys_bitor_spec() -> bool { true }

    open spec fn bitor_req(self, rhs: PipelineStage) -> bool { true }

    open spec fn bitor_spec(self, rhs: PipelineStage) -> PipelineStage { PipelineStage::with_bits(self.bits() | rhs.bits()) }
}

impl core::ops::BitOrAssign for PipelineStage {
    /// Adds the flags of `rhs` to this set.
    fn bitor_assign(&mut self, rhs: PipelineStage)
        ensures final(self).bits() == old(self).bits() | rhs.bits(),
    {
        self.0 = self.0 | rhs.0;
    }
}

/// A set of colour channels.
#[derive(Clone, Copy, Debug, PartialEq, Eq, Structural)]
pub struct ColourComponentFlags(u8);

impl ColourComponentFlags {
    /// The set with the raw bits `0x1`.
    #[allow(non_snake_case)]
    pub fn RED() -> (r: Self)
        ensures r.bits() == 0x1,
    {
        ColourComponentFlags(0x1)
    }

    /// The set with the raw bits `0x2`.
    #[allow(non_snake_case)]
    pub fn GREEN() -> (r: Self)
        ensures r.bits() == 0x2,
    {
        ColourComponentFlags(0x2)
    }

    /// The set with the raw bits `0x4`.
    #[allow(non_snake_case)]
    pub fn BLUE() -> (r: Self)
        ensures r.bits() == 0x4,
    {
        ColourComponentFlags(0x4)
    }

    /// The set with the raw bits `0x8`.
    #[allow(non_snake_case)]
    pub fn ALPHA() -> (r: Self)
        ensures r.bits() == 0x8,
    {
        ColourComponentFlags(0x8)
    }


    /// The raw bits of the set.
    pub closed spec fn bits(self) -> u8 { self.0 }

    /// Whether every flag of `other` is in this set.
    pub open spec fn has(self, other: Self) -> bool { self.bits() & other.bits() == other.bits() }

    /// The set with the given raw bits.
    pub closed spec fn with_bits(bits: u8) -> Self { ColourComponentFlags(bits) }

    /// The empty set.
    pub fn empty() -> (r: Self)
        ensures r.bits() == 0,
    {
        ColourComponentFlags(0)
    }

    /// The set of every bit.
    pub fn all() -> (r: Self)
        ensures r.bits() == 0xFF,
    {
        ColourComponentFlags(0xFF)
    }

    /// The set with the given raw bits (this library's layout).
    pub fn from_raw(value: u8) -> (r: Self)
        ensures r.bits() == value,
    {
        ColourComponentFlags(value)
    }

    /// The raw bits (this library's layout).
    pub fn as_raw(&self) -> (r: u8)
        ensures r == self.bits(),
    {
        self.0
    }

    /// Whether no flag is set.
    pub fn is_empty(&self) -> (r: bool)
        ensures r == (self.bits() == 0),
    {
        self.0 == 0
    }

    /// Whether every flag of `other` is in this set.
    pub fn check(&self, other: ColourComponentFlags) -> (r: bool)
        ensures r == self.has(other),
    {
        (self.0 & other.0) == other.0
    }

    /// This library's bits for the raw bits of a Vulkan `VkColorComponentFlags`: each known
    /// Vulkan flag that is set sets its counterpart; other bits are dropped.
    pub open spec fn from_vk_spec(value: u32) -> u8 {
        (if value & 0x1 != 0 { 0x1u8 } else { 0u8 })
            | (if value & 0x2 != 0 { 0x2u8 } else { 0u8 })
            | (if value & 0x4 != 0 { 0x4u8 } else { 0u8 })
            | (if value & 0x8 != 0 { 0x8u8 } else { 0u8 })
    }

    /// The set for the raw bits of a Vulkan `VkColorComponentFlags`: each known Vulkan flag
    /// that is set sets its counterpart; other bits are dropped.
    pub fn from_vk(value: u32) -> (r: Self)
        ensures r.bits() == Self::from_vk_spec(value),
    {
        let result: u8 = (if value & 0x1 != 0 { 0x1u8 } else { 0u8 })
            | (if value & 0x2 != 0 { 0x2u8 } else { 0u8 })
            | (if value & 0x4 != 0 { 0x4u8 } else { 0u8 })
            | (if value & 0x8 != 0 { 0x8u8 } else { 0u8 });
        ColourComponentFlags(result)
    }

    /// The raw bits of the Vulkan `VkColorComponentFlags` for the raw bits `bits` of this
    /// library: each known flag that is set sets its Vulkan counterpart.
    pub open spec fn to_vk_bits(bits: u8) -> u32 {
        (if bits & 0x1 == 0x1 { 0x1u32 } else { 0u32 })
            | (if bits & 0x2 == 0x2 { 0x2u32 } else { 0u32 })
            | (if bits & 0x4 == 0x4 { 0x4u32 } else { 0u32 })
            | (if bits & 0x8 == 0x8 { 0x8u32 } else { 0u32 })
    }

    /// The raw bits of the Vulkan `VkColorComponentFlags` for this set: each known flag that
    /// is set sets its Vulkan counterpart.
    pub open spec fn to_vk_spec(self) -> u32 {
        Self::to_vk_bits(self.bits())
    }

    /// The raw bits of the Vulkan `VkColorComponentFlags` for this set: each known flag that
    /// is set sets its Vulkan counterpart.
    pub fn to_vk(&self) -> (r: u32)
        ensures r == self.to_vk_spec(),
    {
        (if self.0 & 0x1 == 0x1 { 0x1u32 } else { 0u32 })
            | (if self.0 & 0x2 == 0x2 { 0x2u32 } else { 0u32 })
            | (if self.0 & 0x4 == 0x4 { 0x4u32 } else { 0u32 })
            | (if self.0 & 0x8 == 0x8 { 0x8u32 } else { 0u32 })
    }

    /// Converting to the Vulkan flags and back keeps exactly the flags that
    /// have a Vulkan counterpart (the mask `0xf`).
    pub proof fn lemma_vk_round_trip(self)
        ensures Self::from_vk_spec(self.to_vk_spec()) == self.bits() & 0xf,
    {
        let b: u8 = self.bits();
        assert(Self::from_vk_spec(Self::to_vk_bits(b)) == b & 0xf) by (bit_vector);
    }

    /// Converting Vulkan flags to this set and back keeps exactly the Vulkan
    /// flags that have a counterpart here (the mask `0xf`).
    pub proof fn lemma_vk_raw_round_trip(value: u32)
        ensures Self::with_bits(Self::from_vk_spec(value)).to_vk_spec() == value & 0xf,
    {
        assert(Self::to_vk_bits(Self::from_vk_spec(value)) == value & 0xf) by (bit_vector);
    }
}

impl core::ops::BitOr for ColourComponentFlags {
    type Output = ColourComponentFlags;

    /// The union of both sets.
    fn bitor(self, rhs: ColourComponentFlags) -> (r: ColourComponentFlags)
        ensures r.bits() == self.bits() | rhs.bits(),
    {
        ColourComponentFlags(self.0 | rhs.0)
    }
}

impl vstd::std_specs::ops::BitOrSpecImpl for ColourComponentFlags {
    open spec fn obeys_bitor_spec() -> bool { true }

    open spec fn bitor_req(self, rhs: ColourComponentFlags) -> bool { true }

    open spec fn bitor_spec(self, rhs: ColourComponentFlags) -> ColourComponentFlags { ColourComponentFlags::with_bits(self.bits() | rhs.bits()) }
}

impl core::ops::BitOrAssign for ColourComponentFlags {
    /// Adds the flags of `rhs` to this set.
    fn bitor_assign(&mut self, rhs: ColourComponentFlags)
        ensures final(self).bits() == old(self).bits() | rhs.bits(),
    {
        self.0 = self.0 | rhs.0;
    }
}

/// Properties of a memory type.
#[derive(Clone, Copy, Debug, PartialEq, Eq, Structural)]
pub struct MemoryPropertyFlags(u16);

impl MemoryPropertyFlags {
    /// The set with the raw bits `0x1`.
    #[allow(non_snake_case)]
    pub fn DEVICE_LOCAL() -> (r: Self)
        ensures r.bits() == 0x1,
    {
        MemoryPropertyFlags(0x1)
    }

    /// The set with the raw bits `0x2`.
    #[allow(non_snake_case)]
    pub fn HOST_VISIBLE() -> (r: Self)
        ensures r.bits() == 0x2,
    {
        MemoryPropertyFlags(0x2)
    }

    /// The set with the raw bits `0x4`.
    #[allow(non_snake_case)]
    pub fn HOST_COHERENT() -> (r: Self)
        ensures r.bits() == 0x4,
    {
        MemoryPropertyFlags(0x4)
    }

    /// The set with the raw bits `0x8`.
    #[allow(non_snake_case)]
    pub fn HOST_CACHED() -> (r: Self)
        ensures r.bits() == 0x8,
    {
        MemoryPropertyFlags(0x8)
    }

    /// The set with the raw bits `0x10`.
    #[allow(non_snake_case)]
    pub fn LAZILY_ALLOCATED() -> (r: Self)
        ensures r.bits() == 0x10,
    {
        MemoryPropertyFlags(0x10)
    }

    /// The set with the raw bits `0x20`.
    #[allow(non_snake_case)]
    pub fn PROTECTED() -> (r: Self)
        ensures r.bits() == 0x20,
    {
        MemoryPropertyFlags(0x20)
    }


    /// The raw bits of the set.
    pub closed spec fn bits(self) -> u16 { self.0 }

    /// Whether every flag of `other` is in this set.
    pub open spec fn has(self, other: Self) -> bool { self.bits() & other.bits() == other.bits() }

    /// The set with the given raw bits.
    pub closed spec fn with_bits(bits: u16) -> Self { MemoryPropertyFlags(bits) }

    /// The empty set.
    pub fn empty() -> (r: Self)
        ensures r.bits() == 0,
    {
        MemoryPropertyFlags(0)
    }

    /// The set of every bit.
    pub fn all() -> (r: Self)
        ensures r.bits() == 0xFFFF,
    {
        MemoryPropertyFlags(0xFFFF)
    }

    /// The set with the given raw bits (this library's layout).
    pub fn from_raw(value: u16) -> (r: Self)
        ensures r.bits() == value,
    {
        MemoryPropertyFlags(value)
    }

    /// The raw bits (this library's layout).
    pub fn as_raw(&self) -> (r: u16)
        ensures r == self.bits(),
    {
        self.0
    }

    /// Whether no flag is set.
    pub fn is_empty(&self) -> (r: bool)
        ensures r == (self.bits() == 0),
    {
        self.0 == 0
    }

    /// Whether every flag of `other` is in this set.
    pub fn check(&self, other: MemoryPropertyFlags) -> (r: bool)
        ensures r == self.has(other),
    {
        (self.0 & other.0) == other.0
    }

    /// This library's bits for the raw bits of a Vulkan `VkMemoryPropertyFlags`: each known
    /// Vulkan flag that is set sets its counterpart; other bits are dropped.
    pub open spec fn from_vk_spec(value: u32) -> u16 {
        (if value & 0x1 != 0 { 0x1u16 } else { 0u16 })
            | (if value & 0x2 != 0 { 0x2u16 } else { 0u16 })
            | (if value & 0x4 != 0 { 0x4u16 } else { 0u16 })
            | (if value & 0x8 != 0 { 0x8u16 } else { 0u16 })
            | (if value & 0x10 != 0 { 0x10u16 } else { 0u16 })
            | (if value & 0x20 != 0 { 0x20u16 } else { 0u16 })
    }

    /// The set for the raw bits of a Vulkan `VkMemoryPropertyFlags`: each known Vulkan flag
    /// that is set sets its counterpart; other bits are dropped.
    pub fn from_vk(value: u32) -> (r: Self)
        ensures r.bits() == Self::from_vk_spec(value),
    {
        let result: u16 = (if value & 0x1 != 0 { 0x1u16 } else { 0u16 })
            | (if value & 0x2 != 0 { 0x2u16 } else { 0u16 })
            | (if value & 0x4 != 0 { 0x4u16 } else { 0u16 })
            | (if value & 0x8 != 0 { 0x8u16 } else { 0u16 })
            | (if value & 0x10 != 0 { 0x10u16 } else { 0u16 })
            | (if value & 0x20 != 0 { 0x20u16 } else { 0u16 });
        MemoryPropertyFlags(result)
    }

    /// The raw bits of the Vulkan `VkMemoryPropertyFlags` for the raw bits `bits` of this
    /// library: each known flag that is set sets its Vulkan counterpart.
    pub open spec fn to_vk_bits(bits: u16) -> u32 {
        (if bits & 0x1 == 0x1 { 0x1u32 } else { 0u32 })
            | (if bits & 0x2 == 0x2 { 0x2u32 } else { 0u32 })
            | (if bits & 0x4 == 0x4 { 0x4u32 } else { 0u32 })
            | (if bits & 0x8 == 0x8 { 0x8u32 } else { 0u32 })
            | (if bits & 0x10 == 0x10 { 0x10u32 } else { 0u32 })
            | (if bits & 0x20 == 0x20 { 0x20u32 } else { 0u32 })
    }

    /// The raw bits of the Vulkan `VkMemoryPropertyFlags` for this set: each known flag that
    /// is set sets its Vulkan counterpart.
    pub open spec fn to_vk_spec(self) -> u32 {
        Self::to_vk_bits(self.bits())
    }

    /// The raw bits of the Vulkan `VkMemoryPropertyFlags` for this set: each known flag that
    /// is set sets its Vulkan counterpart.
    pub fn to_vk(&self) -> (r: u32)
        ensures r == self.to_vk_spec(),
    {
        (if self.0 & 0x1 == 0x1 { 0x1u32 } else { 0u32 })
            | (if self.0 & 0x2 == 0x2 { 0x2u32 } else { 0u32 })
            | (if self.0 & 0x4 == 0x4 { 0x4u32 } else { 0u32 })
            | (if self.0 & 0x8 == 0x8 { 0x8u32 } else { 0u32 })
            | (if self.0 & 0x10 == 0x10 { 0x10u32 } else { 0u32 })
            | (if self.0 & 0x20 == 0x20 { 0x20u32 } else { 0u32 })
    }

    /// Converting to the Vulkan flags and back keeps exactly the flags that
    /// have a Vulkan counterpart (the mask `0x3f`).
    pub proof fn lemma_vk_round_trip(self)
        ensures Self::from_vk_spec(self.to_vk_spec()) == self.bits() & 0x3f,
    {
        let b: u16 = self.bits();
        assert(Self::from_vk_spec(Self::to_vk_bits(b)) == b & 0x3f) by (bit_vector);
    }

    /// Converting Vulkan flags to this set and back keeps exactly the Vulkan
    /// flags that have a counterpart here (the mask `0x3f`).
    pub proof fn lemma_vk_raw_round_trip(value: u32)
        ensures Self::with_bits(Self::from_vk_spec(value)).to_vk_spec() == value & 0x3f,
    {
        assert(Self::to_vk_bits(Self::from_vk_spec(value)) == value & 0x3f) by (bit_vector);
    }
}

impl core::ops::BitOr for MemoryPropertyFlags {
    type Output = MemoryPropertyFlags;

    /// The union of both sets.
    fn bitor(self, rhs: MemoryPropertyFlags) -> (r: MemoryPropertyFlags)
        ensures r.bits() == self.bits() | rhs.bits(),
    {
        MemoryPropertyFlags(self.0 | rhs.0)
    }
}

impl vstd::std_specs::ops::BitOrSpecImpl for MemoryPropertyFlags {
    open spec fn obeys_bitor_spec() -> bool { true }

    open spec fn bitor_req(self, rhs: MemoryPropertyFlags) -> bool { true }

    open spec fn bitor_spec(self, rhs: MemoryPropertyFlags) -> MemoryPropertyFlags { MemoryPropertyFlags::with_bits(self.bits() | rhs.bits()) }
}

impl core::ops::BitOrAssign for MemoryPropertyFlags {
    /// Adds the flags of `rhs` to this set.
    fn bitor_assign(&mut self, rhs: MemoryPropertyFlags)
        ensures final(self).bits() == old(self).bits() | rhs.bits(),
    {
        self.0 = self.0 | rhs.0;
    }
}

/// How the command buffers of a pool are used.
#[derive(Clone, Copy, Debug, PartialEq, Eq, Structural)]
pub struct CommandBufferFlags(u8);

impl CommandBufferFlags {
    /// The set with the raw bits `0x1`.
    #[allow(non_snake_case)]
    pub fn TRANSIENT() -> (r: Self)
        ensures r.bits() == 0x1,
    {
        CommandBufferFlags(0x1)
    }

    /// The set with the raw bits `0x2`.
    #[allow(non_snake_case)]
    pub fn ALLOW_RESET() -> (r: Self)
        ensures r.bits() == 0x2,
    {
        CommandBufferFlags(0x2)
    }


    /// The raw bits of the set.
    pub closed spec fn bits(self) -> u8 { self.0 }

    /// Whether every flag of `other` is in this set.
    pub open spec fn has(self, other: Self) -> bool { self.bits() & other.bits() == other.bits() }

    /// The set with the given raw bits.
    pub closed spec fn with_bits(bits: u8) -> Self { CommandBufferFlags(bits) }

    /// The empty set.
    pub fn empty() -> (r: Self)
        ensures r.bits() == 0,
    {
        CommandBufferFlags(0)
    }

    /// The set of every bit.
    pub fn all() -> (r: Self)
        ensures r.bits() == 0xFF,
    {
        CommandBufferFlags(0xFF)
    }

    /// The set with the given raw bits (this library's layout).
    pub fn from_raw(value: u8) -> (r: Self)
        ensures r.bits() == value,
    {
        CommandBufferFlags(value)
    }

    /// The raw bits (this library's layout).
    pub fn as_raw(&self) -> (r: u8)
        ensures r == self.bits(),
    {
        self.0
    }

    /// Whether no flag is set.
    pub fn is_empty(&self) -> (r: bool)
        ensures r == (self.bits() == 0),
    {
        self.0 == 0
    }

    /// Whether every flag of `other` is in this set.
    pub fn check(&self, other: CommandBufferFlags) -> (r: bool)
        ensures r == self.has(other),
    {
        (self.0 & other.0) == other.0
    }

    /// This library's bits for the raw bits of a Vulkan `VkCommandPoolCreateFlags`: each known
    /// Vulkan flag that is set sets its counterpart; other bits are dropped.
    pub open spec fn from_vk_spec(value: u32) -> u8 {
        (if value & 0x1 != 0 { 0x1u8 } else { 0u8 })
            | (if value & 0x2 != 0 { 0x2u8 } else { 0u8 })
    }

    /// The set for the raw bits of a Vulkan `VkCommandPoolCreateFlags`: each known Vulkan flag
    /// that is set sets its counterpart; other bits are dropped.
    pub fn from_vk(value: u32) -> (r: Self)
        ensures r.bits() == Self::from_vk_spec(value),
    {
        let result: u8 = (if value & 0x1 != 0 { 0x1u8 } else { 0u8 })
            | (if value & 0x2 != 0 { 0x2u8 } else { 0u8 });
        CommandBufferFlags(result)
    }

    /// The raw bits of the Vulkan `VkCommandPoolCreateFlags` for the raw bits `bits` of this
    /// library: each known flag that is set sets its Vulkan counterpart.
    pub open spec fn to_vk_bits(bits: u8) -> u32 {
        (if bits & 0x1 == 0x1 { 0x1u32 } else { 0u32 })
            | (if bits & 0x2 == 0x2 { 0x2u32 } else { 0u32 })
    }

    /// The raw bits of the Vulkan `VkCommandPoolCreateFlags` for this set: each known flag that
    /// is set sets its Vulkan counterpart.
    pub open spec fn to_vk_spec(self) -> u32 {
        Self::to_vk_bits(self.bits())
    }

    /// The raw bits of the Vulkan `VkCommandPoolCreateFlags` for this set: each known flag that
    /// is set sets its Vulkan counterpart.
    pub fn to_vk(&self) -> (r: u32)
        ensures r == self.to_vk_spec(),
    {
        (if self.0 & 0x1 == 0x1 { 0x1u32 } else { 0u32 })
            | (if self.0 & 0x2 == 0x2 { 0x2u32 } else { 0u32 })
    }

    /// Converting to the Vulkan flags and back keeps exactly the flags that
    /// have a Vulkan counterpart (the mask `0x3`).
    pub proof fn lemma_vk_round_trip(self)
        ensures Self::from_vk_spec(self.to_vk_spec()) == self.bits() & 0x3,
    {
        let b: u8 = self.bits();
        assert(Self::from_vk_spec(Self::to_vk_bits(b)) == b & 0x3) by (bit_vector);
    }

    /// Converting Vulkan flags to this set and back keeps exactly the Vulkan
    /// flags that have a counterpart here (the mask `0x3`).
    pub proof fn lemma_vk_raw_round_trip(value: u32)
        ensures Self::with_bits(Self::from_vk_spec(value)).to_vk_spec() == value & 0x3,
    {
        assert(Self::to_vk_bits(Self::from_vk_spec(value)) == value & 0x3) by (bit_vector);
    }
}

impl core::ops::BitOr for CommandBufferFlags {
    type Output = CommandBufferFlags;

    /// The union of both sets.
    fn bitor(self, rhs: CommandBufferFlags) -> (r: CommandBufferFlags)
        ensures r.bits() == self.bits() | rhs.bits(),
    {
        CommandBufferFlags(self.0 | rhs.0)
    }
}

impl vstd::std_specs::ops::BitOrSpecImpl for CommandBufferFlags {
    open spec fn obeys_bitor_spec() -> bool { true }

    open spec fn bitor_req(self, rhs: CommandBufferFlags) -> bool { true }

    open spec fn bitor_spec(self, rhs: CommandBufferFlags) -> CommandBufferFlags { CommandBufferFlags::with_bits(self.bits() | rhs.bits()) }
}

impl core::ops::BitOrAssign for CommandBufferFlags {
    /// Adds the flags of `rhs` to this set.
    fn bitor_assign(&mut self, rhs: CommandBufferFlags)
        ensures final(self).bits() == old(self).bits() | rhs.bits(),
    {
        self.0 = self.0 | rhs.0;
    }
}

/// How a command buffer is submitted.
#[derive(Clone, Copy, Debug, PartialEq, Eq, Structural)]
pub struct CommandBufferUsageFlags(u8);

impl CommandBufferUsageFlags {
    /// The set with the raw bits `0x1`.
    #[allow(non_snake_case)]
    pub fn ONE_TIME_SUBMIT() -> (r: Self)
        ensures r.bits() == 0x1,
    {
        CommandBufferUsageFlags(0x1)
    }

    /// The set with the raw bits `0x2`.
    #[allow(non_snake_case)]
    pub fn RENDER_PASS_ONLY() -> (r: Self)
        ensures r.bits() == 0x2,
    {
        CommandBufferUsageFlags(0x2)
    }

    /// The set with the raw bits `0x4`.
    #[allow(non_snake_case)]
    pub fn SIMULTANEOUS_USE() -> (r: Self)
        ensures r.bits() == 0x4,
    {
        CommandBufferUsageFlags(0x4)
    }


    /// The raw bits of the set.
    pub closed spec fn bits(self) -> u8 { self.0 }

    /// Whether every flag of `other` is in this set.
    pub open spec fn has(self, other: Self) -> bool { self.bits() & other.bits() == other.bits() }

    /// The set with the given raw bits.
    pub closed spec fn with_bits(bits: u8) -> Self { CommandBufferUsageFlags(bits) }

    /// The empty set.
    pub fn empty() -> (r: Self)
        ensures r.bits() == 0,
    {
        CommandBufferUsageFlags(0)
    }

    /// The set of every bit.
    pub fn all() -> (r: Self)
        ensures r.bits() == 0xFF,
    {
        CommandBufferUsageFlags(0xFF)
    }

    /// The set with the given raw bits (this library's layout).
    pub fn from_raw(value: u8) -> (r: Self)
        ensures r.bits() == value,
    {
        CommandBufferUsageFlags(value)
    }

    /// The raw bits (this library's layout).
    pub fn as_raw(&self) -> (r: u8)
        ensures r == self.bits(),
    {
        self.0
    }

    /// Whether no flag is set.
    pub fn is_empty(&self) -> (r: bool)
        ensures r == (self.bits() == 0),
    {
        self.0 == 0
    }

    /// Whether every flag of `other` is in this set.
    pub fn check(&self, other: CommandBufferUsageFlags) -> (r: bool)
        ensures r == self.has(other),
    {
        (self.0 & other.0) == other.0
    }

    /// This library's bits for the raw bits of a Vulkan `VkCommandBufferUsageFlags`: each known
    /// Vulkan flag that is set sets its counterpart; other bits are dropped.
    pub open spec fn from_vk_spec(value: u32) -> u8 {
        (if value & 0x1 != 0 { 0x1u8 } else { 0u8 })
            | (if value & 0x2 != 0 { 0x2u8 } else { 0u8 })
            | (if value & 0x4 != 0 { 0x4u8 } else { 0u8 })
    }

    /// The set for the raw bits of a Vulkan `VkCommandBufferUsageFlags`: each known Vulkan flag
    /// that is set sets its counterpart; other bits are dropped.
    pub fn from_vk(value: u32) -> (r: Self)
        ensures r.bits() == Self::from_vk_spec(value),
    {
        let result: u8 = (if value & 0x1 != 0 { 0x1u8 } else { 0u8 })
            | (if value & 0x2 != 0 { 0x2u8 } else { 0u8 })
            | (if value & 0x4 != 0 { 0x4u8 } else { 0u8 });
        CommandBufferUsageFlags(result)
    }

    /// The raw bits of the Vulkan `VkCommandBufferUsageFlags` for the raw bits `bits` of this
    /// library: each known flag that is set sets its Vulkan counterpart.
    pub open spec fn to_vk_bits(bits: u8) -> u32 {
        (if bits & 0x1 == 0x1 { 0x1u32 } else { 0u32 })
            | (if bits & 0x2 == 0x2 { 0x2u32 } else { 0u32 })
            | (if bits & 0x4 == 0x4 { 0x4u32 } else { 0u32 })
    }

    /// The raw bits of the Vulkan `VkCommandBufferUsageFlags` for this set: each known flag that
    /// is set sets its Vulkan counterpart.
    pub open spec fn to_vk_spec(self) -> u32 {
        Self::to_vk_bits(self.bits())
    }

    /// The raw bits of the Vulkan `VkCommandBufferUsageFlags` for this set: each known flag that
    /// is set sets its Vulkan counterpart.
    pub fn to_vk(&self) -> (r: u32)
        ensures r == self.to_vk_spec(),
    {
        (if self.0 & 0x1 == 0x1 { 0x1u32 } else { 0u32 })
            | (if self.0 & 0x2 == 0x2 { 0x2u32 } else { 0u32 })
            | (if self.0 & 0x4 == 0x4 { 0x4u32 } else { 0u32 })
    }

    /// Converting to the Vulkan flags and back keeps exactly the flags that
    /// have a Vulkan counterpart (the mask `0x7`).
    pub proof fn lemma_vk_round_trip(self)
        ensures Self::from_vk_spec(self.to_vk_spec()) == self.bits() & 0x7,
    {
        let b: u8 = self.bits();
        assert(Self::from_vk_spec(Self::to_vk_bits(b)) == b & 0x7) by (bit_vector);
    }

    /// Converting Vulkan flags to this set and back keeps exactly the Vulkan
    /// flags that have a counterpart here (the mask `0x7`).
    pub proof fn lemma_vk_raw_round_trip(value: u32)
        ensures Self::with_bits(Self::from_vk_spec(value)).to_vk_spec() == value & 0x7,
    {
        assert(Self::to_vk_bits(Self::from_vk_spec(value)) == value & 0x7) by (bit_vector);
    }
}

impl core::ops::BitOr for CommandBufferUsageFlags {
    type Output = CommandBufferUsageFlags;

    /// The union of both sets.
    fn bitor(self, rhs: CommandBufferUsageFlags) -> (r: CommandBufferUsageFlags)
        ensures r.bits() == self.bits() | rhs.bits(),
    {
        CommandBufferUsageFlags(self.0 | rhs.0)
    }
}

impl vstd::std_specs::ops::BitOrSpecImpl for CommandBufferUsageFlags {
    open spec fn obeys_bitor_spec() -> bool { true }

    open spec fn bitor_req(self, rhs: CommandBufferUsageFlags) -> bool { true }

    open spec fn bitor_spec(self, rhs: CommandBufferUsageFlags) -> CommandBufferUsageFlags { CommandBufferUsageFlags::with_bits(self.bits() | rhs.bits()) }
}

impl core::ops::BitOrAssign for CommandBufferUsageFlags {
    /// Adds the flags of `rhs` to this set.
    fn bitor_assign(&mut self, rhs: CommandBufferUsageFlags)
        ensures final(self).bits() == old(self).bits() | rhs.bits(),
    {
        self.0 = self.0 | rhs.0;
    }
}

/// A set of device memory type indices, one bit per type.
#[derive(Clone, Copy, Debug, PartialEq, Eq, Structural)]
pub struct DeviceMemoryTypeFlags(u32);

impl DeviceMemoryTypeFlags {
    /// The set with the raw bits `0xffffffff`.
    #[allow(non_snake_case)]
    pub fn ALL() -> (r: Self)
        ensures r.bits() == 0xffffffff,
    {
        DeviceMemoryTypeFlags(0xffffffff)
    }

    /// The set with the raw bits `0x0`.
    #[allow(non_snake_case)]
    pub fn EMPTY() -> (r: Self)
        ensures r.bits() == 0x0,
    {
        DeviceMemoryTypeFlags(0x0)
    }


    /// The raw bits of the set.
    pub closed spec fn bits(self) -> u32 { self.0 }

    /// Whether every flag of `other` is in this set.
    pub open spec fn has(self, other: Self) -> bool { self.bits() & other.bits() == other.bits() }

    /// The set with the given raw bits.
    pub closed spec fn with_bits(bits: u32) -> Self { DeviceMemoryTypeFlags(bits) }

    /// Whether every flag of `other` is in this set.
    pub fn check(&self, other: DeviceMemoryTypeFlags) -> (r: bool)
        ensures r == self.has(other),
    {
        (self.0 & other.0) == other.0
    }
}

impl core::ops::BitOr for DeviceMemoryTypeFlags {
    type Output = DeviceMemoryTypeFlags;

    /// The union of both sets.
    fn bitor(self, rhs: DeviceMemoryTypeFlags) -> (r: DeviceMemoryTypeFlags)
        ensures r.bits() == self.bits() | rhs.bits(),
    {
        DeviceMemoryTypeFlags(self.0 | rhs.0)
    }
}

impl vstd::std_specs::ops::BitOrSpecImpl for DeviceMemoryTypeFlags {
    open spec fn obeys_bitor_spec() -> bool { true }

    open spec fn bitor_req(self, rhs: DeviceMemoryTypeFlags) -> bool { true }

    open spec fn bitor_spec(self, rhs: DeviceMemoryTypeFlags) -> DeviceMemoryTypeFlags { DeviceMemoryTypeFlags::with_bits(self.bits() | rhs.bits()) }
}

impl core::ops::BitOrAssign for DeviceMemoryTypeFlags {
    /// Adds the flags of `rhs` to this set.
    fn bitor_assign(&mut self, rhs: DeviceMemoryTypeFlags)
        ensures final(self).bits() == old(self).bits() | rhs.bits(),
    {
        self.0 = self.0 | rhs.0;
    }
}

/// The ways a buffer may be used.
#[derive(Clone, Copy, Debug, PartialEq, Eq, Structural)]
pub struct BufferUsageFlags(u16);

impl BufferUsageFlags {
    /// The set with the raw bits `0x0`.
    #[allow(non_snake_case)]
    pub fn EMPTY() -> (r: Self)
        ensures r.bits() == 0x0,
    {
        BufferUsageFlags(0x0)
    }

    /// The set with the raw bits `0xffff`.
    #[allow(non_snake_case)]
    pub fn ALL() -> (r: Self)
        ensures r.bits() == 0xffff,
    {
        BufferUsageFlags(0xffff)
    }

    /// The set with the raw bits `0x1`.
    #[allow(non_snake_case)]
    pub fn TRANSFER_SRC() -> (r: Self)
        ensures r.bits() == 0x1,
    {
        BufferUsageFlags(0x1)
    }

    /// The set with the raw bits `0x2`.
    #[allow(non_snake_case)]
    pub fn TRANSFER_DST() -> (r: Self)
        ensures r.bits() == 0x2,
    {
        BufferUsageFlags(0x2)
    }

    /// The set with the raw bits `0x4`.
    #[allow(non_snake_case)]
    pub fn UNIFORM_TEXEL_BUFFER() -> (r: Self)
        ensures r.bits() == 0x4,
    {
        BufferUsageFlags(0x4)
    }

    /// The set with the raw bits `0x8`.
    #[allow(non_snake_case)]
    pub fn STORAGE_TEXEL_BUFFER() -> (r: Self)
        ensures r.bits() == 0x8,
    {
        BufferUsageFlags(0x8)
    }

    /// The set with the raw bits `0x10`.
    #[allow(non_snake_case)]
    pub fn UNIFORM_BUFFER() -> (r: Self)
        ensures r.bits() == 0x10,
    {
        BufferUsageFlags(0x10)
    }

    /// The set with the raw bits `0x20`.
    #[allow(non_snake_case)]
    pub fn STORAGE_BUFFER() -> (r: Self)
        ensures r.bits() == 0x20,
    {
        BufferUsageFlags(0x20)
    }

    /// The set with the raw bits `0x40`.
    #[allow(non_snake_case)]
    pub fn INDEX_BUFFER() -> (r: Self)
        ensures r.bits() == 0x40,
    {
        BufferUsageFlags(0x40)
    }

    /// The set with the raw bits `0x80`.
    #[allow(non_snake_case)]
    pub fn VERTEX_BUFFER() -> (r: Self)
        ensures r.bits() == 0x80,
    {
        BufferUsageFlags(0x80)
    }

    /// The set with the raw bits `0x100`.
    #[allow(non_snake_case)]
    pub fn INDIRECT_BUFFER() -> (r: Self)
        ensures r.bits() == 0x100,
    {
        BufferUsageFlags(0x100)
    }


    /// The raw bits of the set.
    pub closed spec fn bits(self) -> u16 { self.0 }

    /// Whether every flag of `other` is in this set.
    pub open spec fn has(self, other: Self) -> bool { self.bits() & other.bits() == other.bits() }

    /// The set with the given raw bits.
    pub closed spec fn with_bits(bits: u16) -> Self { BufferUsageFlags(bits) }

    /// The set with the given raw bits (this library's layout).
    pub fn raw(value: u16) -> (r: Self)
        ensures r.bits() == value,
    {
        BufferUsageFlags(value)
    }

    /// Whether every flag of `other` is in this set.
    pub fn check(&self, other: BufferUsageFlags) -> (r: bool)
        ensures r == self.has(other),
    {
        (self.0 & other.0) == other.0
    }

    /// This library's bits for the raw bits of a Vulkan `VkBufferUsageFlags`: each known
    /// Vulkan flag that is set sets its counterpart; other bits are dropped.
    pub open spec fn from_vk_spec(value: u32) -> u16 {
        (if value & 0x1 != 0 { 0x1u16 } else { 0u16 })
            | (if value & 0x2 != 0 { 0x2u16 } else { 0u16 })
            | (if value & 0x4 != 0 { 0x4u16 } else { 0u16 })
            | (if value & 0x8 != 0 { 0x8u16 } else { 0u16 })
            | (if value & 0x10 != 0 { 0x10u16 } else { 0u16 })
            | (if value & 0x20 != 0 { 0x20u16 } else { 0u16 })
            | (if value & 0x40 != 0 { 0x40u16 } else { 0u16 })
            | (if value & 0x80 != 0 { 0x80u16 } else { 0u16 })
            | (if value & 0x100 != 0 { 0x100u16 } else { 0u16 })
    }

    /// The set for the raw bits of a Vulkan `VkBufferUsageFlags`: each known Vulkan flag
    /// that is set sets its counterpart; other bits are dropped.
    pub fn from_vk(value: u32) -> (r: Self)
        ensures r.bits() == Self::from_vk_spec(value),
    {
        let result: u16 = (if value & 0x1 != 0 { 0x1u16 } else { 0u16 })
            | (if value & 0x2 != 0 { 0x2u16 } else { 0u16 })
            | (if value & 0x4 != 0 { 0x4u16 } else { 0u16 })
            | (if value & 0x8 != 0 { 0x8u16 } else { 0u16 })
            | (if value & 0x10 != 0 { 0x10u16 } else { 0u16 })
            | (if value & 0x20 != 0 { 0x20u16 } else { 0u16 })
            | (if value & 0x40 != 0 { 0x40u16 } else { 0u16 })
            | (if value & 0x80 != 0 { 0x80u16 } else { 0u16 })
            | (if value & 0x100 != 0 { 0x100u16 } else { 0u16 });
        BufferUsageFlags(result)
    }

    /// The raw bits of the Vulkan `VkBufferUsageFlags` for the raw bits `bits` of this
    /// library: each known flag that is set sets its Vulkan counterpart.
    pub open spec fn to_vk_bits(bits: u16) -> u32 {
        (if bits & 0x1 == 0x1 { 0x1u32 } else { 0u32 })
            | (if bits & 0x2 == 0x2 { 0x2u32 } else { 0u32 })
            | (if bits & 0x4 == 0x4 { 0x4u32 } else { 0u32 })
            | (if bits & 0x8 == 0x8 { 0x8u32 } else { 0u32 })
            | (if bits & 0x10 == 0x10 { 0x10u32 } else { 0u32 })
            | (if bits & 0x20 == 0x20 { 0x20u32 } else { 0u32 })
            | (if bits & 0x40 == 0x40 { 0x40u32 } else { 0u32 })
            | (if bits & 0x80 == 0x80 { 0x80u32 } else { 0u32 })
            | (if bits & 0x100 == 0x100 { 0x100u32 } else { 0u32 })
    }

    /// The raw bits of the Vulkan `VkBufferUsageFlags` for this set: each known flag that
    /// is set sets its Vulkan counterpart.
    pub open spec fn to_vk_spec(self) -> u32 {
        Self::to_vk_bits(self.bits())
    }

    /// The raw bits of the Vulkan `VkBufferUsageFlags` for this set: each known flag that
    /// is set sets its Vulkan counterpart.
    pub fn to_vk(&self) -> (r: u32)
        ensures r == self.to_vk_spec(),
    {
        (if self.0 & 0x1 == 0x1 { 0x1u32 } else { 0u32 })
            | (if self.0 & 0x2 == 0x2 { 0x2u32 } else { 0u32 })
            | (if self.0 & 0x4 == 0x4 { 0x4u32 } else { 0u32 })
            | (if self.0 & 0x8 == 0x8 { 0x8u32 } else { 0u32 })
            | (if self.0 & 0x10 == 0x10 { 0x10u32 } else { 0u32 })
            | (if self.0 & 0x20 == 0x20 { 0x20u32 } else { 0u32 })
            | (if self.0 & 0x40 == 0x40 { 0x40u32 } else { 0u32 })
            | (if self.0 & 0x80 == 0x80 { 0x80u32 } else { 0u32 })
            | (if self.0 & 0x100 == 0x100 { 0x100u32 } else { 0u32 })
    }

    /// Converting to the Vulkan flags and back keeps exactly the flags that
    /// have a Vulkan counterpart (the mask `0x1ff`).
    pub proof fn lemma_vk_round_trip(self)
        ensures Self::from_vk_spec(self.to_vk_spec()) == self.bits() & 0x1ff,
    {
        let b: u16 = self.bits();
        assert(Self::from_vk_spec(Self::to_vk_bits(b)) == b & 0x1ff) by (bit_vector);
    }

    /// Converting Vulkan flags to this set and back keeps exactly the Vulkan
    /// flags that have a counterpart here (the mask `0x1ff`).
    pub proof fn lemma_vk_raw_round_trip(value: u32)
        ensures Self::with_bits(Self::from_vk_spec(value)).to_vk_spec() == value & 0x1ff,
    {
        assert(Self::to_vk_bits(Self::from_vk_spec(value)) == value & 0x1ff) by (bit_vector);
    }
}

impl core::ops::BitOr for BufferUsageFlags {
    type Output = BufferUsageFlags;

    /// The union of both sets.
    fn bitor(self, rhs: BufferUsageFlags) -> (r: BufferUsageFlags)
        ensures r.bits() == self.bits() | rhs.bits(),
    {
        BufferUsageFlags(self.0 | rhs.0)
    }
}

impl vstd::std_specs::ops::BitOrSpecImpl for BufferUsageFlags {
    open spec fn obeys_bitor_spec() -> bool { true }

    open spec fn bitor_req(self, rhs: BufferUsageFlags) -> bool { true }

    open spec fn bitor_spec(self, rhs: BufferUsageFlags) -> BufferUsageFlags { BufferUsageFlags::with_bits(self.bits() | rhs.bits()) }
}

impl core::ops::BitOrAssign for BufferUsageFlags {
    /// Adds the flags of `rhs` to this set.
    fn bitor_assign(&mut self, rhs: BufferUsageFlags)
        ensures final(self).bits() == old(self).bits() | rhs.bits(),
    {
        self.0 = self.0 | rhs.0;
    }
}

/// The colour channels that are written.
#[derive(Clone, Copy, Debug, PartialEq, Eq, Structural)]
pub struct ColourMask(u8);

impl ColourMask {
    /// The set with the raw bits `0xf`.
    #[allow(non_snake_case)]
    pub fn ALL() -> (r: Self)
        ensures r.bits() == 0xf,
    {
        ColourMask(0xf)
    }

    /// The set with the raw bits `0x0`.
    #[allow(non_snake_case)]
    pub fn EMPTY() -> (r: Self)
        ensures r.bits() == 0x0,
    {
        ColourMask(0x0)
    }

    /// The set with the raw bits `0x1`.
    #[allow(non_snake_case)]
    pub fn R() -> (r: Self)
        ensures r.bits() == 0x1,
    {
        ColourMask(0x1)
    }

    /// The set with the raw bits `0x2`.
    #[allow(non_snake_case)]
    pub fn G() -> (r: Self)
        ensures r.bits() == 0x2,
    {
        ColourMask(0x2)
    }

    /// The set with the raw bits `0x4`.
    #[allow(non_snake_case)]
    pub fn B() -> (r: Self)
        ensures r.bits() == 0x4,
    {
        ColourMask(0x4)
    }

    /// The set with the raw bits `0x8`.
    #[allow(non_snake_case)]
    pub fn A() -> (r: Self)
        ensures r.bits() == 0x8,
    {
        ColourMask(0x8)
    }


    /// The raw bits of the set.
    pub closed spec fn bits(self) -> u8 { self.0 }

    /// Whether every flag of `other` is in this set.
    pub open spec fn has(self, other: Self) -> bool { self.bits() & other.bits() == other.bits() }

    /// The set with the given raw bits.
    pub closed spec fn with_bits(bits: u8) -> Self { ColourMask(bits) }

    /// Whether every flag of `other` is in this set.
    pub fn check(&self, other: ColourMask) -> (r: bool)
        ensures r == self.has(other),
    {
        (self.0 & other.0) == other.0
    }

    /// This library's bits for the raw bits of a Vulkan `VkColorComponentFlags`: each known
    /// Vulkan flag that is set sets its counterpart; other bits are dropped.
    pub open spec fn from_vk_spec(value: u32) -> u8 {
        (if value & 0x1 != 0 { 0x1u8 } else { 0u8 })
            | (if value & 0x2 != 0 { 0x2u8 } else { 0u8 })
            | (if value & 0x4 != 0 { 0x4u8 } else { 0u8 })
            | (if value & 0x8 != 0 { 0x8u8 } else { 0u8 })
    }

    /// The set for the raw bits of a Vulkan `VkColorComponentFlags`: each known Vulkan flag
    /// that is set sets its counterpart; other bits are dropped.
    pub fn from_vk(value: u32) -> (r: Self)
        ensures r.bits() == Self::from_vk_spec(value),
    {
        let result: u8 = (if value & 0x1 != 0 { 0x1u8 } else { 0u8 })
            | (if value & 0x2 != 0 { 0x2u8 } else { 0u8 })
            | (if value & 0x4 != 0 { 0x4u8 } else { 0u8 })
            | (if value & 0x8 != 0 { 0x8u8 } else { 0u8 });
        ColourMask(result)
    }

    /// The raw bits of the Vulkan `VkColorComponentFlags` for the raw bits `bits` of this
    /// library: each known flag that is set sets its Vulkan counterpart.
    pub open spec fn to_vk_bits(bits: u8) -> u32 {
        (if bits & 0x1 == 0x1 { 0x1u32 } else { 0u32 })
            | (if bits & 0x2 == 0x2 { 0x2u32 } else { 0u32 })
            | (if bits & 0x4 == 0x4 { 0x4u32 } else { 0u32 })
            | (if bits & 0x8 == 0x8 { 0x8u32 } else { 0u32 })
    }

    /// The raw bits of the Vulkan `VkColorComponentFlags` for this set: each known flag that
    /// is set sets its Vulkan counterpart.
    pub open spec fn to_vk_spec(self) -> u32 {
        Self::to_vk_bits(self.bits())
    }

    /// The raw bits of the Vulkan `VkColorComponentFlags` for this set: each known flag that
    /// is set sets its Vulkan counterpart.
    pub fn to_vk(&self) -> (r: u32)
        ensures r == self.to_vk_spec(),
    {
        (if self.0 & 0x1 == 0x1 { 0x1u32 } else { 0u32 })
            | (if self.0 & 0x2 == 0x2 { 0x2u32 } else { 0u32 })
            | (if self.0 & 0x4 == 0x4 { 0x4u32 } else { 0u32 })
            | (if self.0 & 0x8 == 0x8 { 0x8u32 } else { 0u32 })
    }

    /// Converting to the Vulkan flags and back keeps exactly the flags that
    /// have a Vulkan counterpart (the mask `0xf`).
    pub proof fn lemma_vk_round_trip(self)
        ensures Self::from_vk_spec(self.to_vk_spec()) == self.bits() & 0xf,
    {
        let b: u8 = self.bits();
        assert(Self::from_vk_spec(Self::to_vk_bits(b)) == b & 0xf) by (bit_vector);
    }

    /// Converting Vulkan flags to this set and back keeps exactly the Vulkan
    /// flags that have a counterpart here (the mask `0xf`).
    pub proof fn lemma_vk_raw_round_trip(value: u32)
        ensures Self::with_bits(Self::from_vk_spec(value)).to_vk_spec() == value & 0xf,
    {
        assert(Self::to_vk_bits(Self::from_vk_spec(value)) == value & 0xf) by (bit_vector);
    }
}

impl core::ops::BitOr for ColourMask {
    type Output = ColourMask;

    /// The union of both sets.
    fn bitor(self, rhs: ColourMask) -> (r: ColourMask)
        ensures r.bits() == self.bits() | rhs.bits(),
    {
        ColourMask(self.0 | rhs.0)
    }
}

impl vstd::std_specs::ops::BitOrSpecImpl for ColourMask {
    open spec fn obeys_bitor_spec() -> bool { true }

    open spec fn bitor_req(self, rhs: ColourMask) -> bool { true }

    open spec fn bitor_spec(self, rhs: ColourMask) -> ColourMask { ColourMask::with_bits(self.bits() | rhs.bits()) }
}

impl core::ops::BitOrAssign for ColourMask {
    /// Adds the flags of `rhs` to this set.
    fn bitor_assign(&mut self, rhs: ColourMask)
        ensures final(self).bits() == old(self).bits() | rhs.bits(),
    {
        self.0 = self.0 | rhs.0;
    }
}

/// The index of a device memory type, kept as the single bit it has in a
/// `DeviceMemoryTypeFlags`.
#[derive(Clone, Copy, Debug, PartialEq, Eq, Structural)]
pub struct DeviceMemoryType(u32);

impl DeviceMemoryType {
    /// The raw value.
    pub closed spec fn bits(self) -> u32 { self.0 }

    /// The memory type with the given raw value.
    pub closed spec fn with_bits(bits: u32) -> Self { DeviceMemoryType(bits) }

    /// The raw value.
    pub fn as_raw(&self) -> (r: u32)
        ensures r == self.bits(),
    {
        self.0
    }

    /// The memory type that a set with exactly one bit stands for; that bit is
    /// kept as the raw value.
    pub fn from_flags(value: DeviceMemoryTypeFlags) -> (r: Self)
        requires is_single_bit(value.bits()),
        ensures r.bits() == value.bits(),
    {
        DeviceMemoryType(value.as_raw())
    }
}

/// Whether exactly one bit of `v` is set.
pub open spec fn is_single_bit(v: u32) -> bool {
    exists|k: nat| k < 32 && #[trigger] vstd::arithmetic::power2::pow2(k) == v
}

impl From<u32> for DeviceMemoryType {
    /// The memory type with the raw value `value`.
    fn from(value: u32) -> (r: DeviceMemoryType)
        ensures r.bits() == value,
    {
        DeviceMemoryType(value)
    }
}

impl vstd::std_specs::convert::FromSpecImpl<u32> for DeviceMemoryType {
    open spec fn obeys_from_spec() -> bool { true }

    open spec fn from_spec(v: u32) -> DeviceMemoryType { DeviceMemoryType::with_bits(v) }
}

impl From<DeviceMemoryType> for u32 {
    /// The raw value.
    fn from(value: DeviceMemoryType) -> (r: u32)
        ensures r == value.bits(),
    {
        value.0
    }
}

impl vstd::std_specs::convert::FromSpecImpl<DeviceMemoryType> for u32 {
    open spec fn obeys_from_spec() -> bool { true }

    open spec fn from_spec(v: DeviceMemoryType) -> u32 { v.bits() }
}

impl From<DeviceMemoryType> for DeviceMemoryTypeFlags {
    /// The set with the raw value of the memory type as its bits.
    fn from(value: DeviceMemoryType) -> (r: DeviceMemoryTypeFlags)
        ensures r.bits() == value.bits(),
    {
        DeviceMemoryTypeFlags(value.0)
    }
}

impl vstd::std_specs::convert::FromSpecImpl<DeviceMemoryType> for DeviceMemoryTypeFlags {
    open spec fn obeys_from_spec() -> bool { true }

    open spec fn from_spec(v: DeviceMemoryType) -> DeviceMemoryTypeFlags { DeviceMemoryTypeFlags::with_bits(v.bits()) }
}

impl From<u32> for DeviceMemoryTypeFlags {
    /// The set with the raw bits `value`.
    fn from(value: u32) -> (r: DeviceMemoryTypeFlags)
        ensures r.bits() == value,
    {
        DeviceMemoryTypeFlags(value)
    }
}

impl vstd::std_specs::convert::FromSpecImpl<u32> for DeviceMemoryTypeFlags {
    open spec fn obeys_from_spec() -> bool { true }

    open spec fn from_spec(v: u32) -> DeviceMemoryTypeFlags { DeviceMemoryTypeFlags::with_bits(v) }
}

impl From<DeviceMemoryTypeFlags> for u32 {
    /// The raw bits.
    fn from(value: DeviceMemoryTypeFlags) -> (r: u32)
        ensures r == value.bits(),
    {
        value.0
    }
}

impl vstd::std_specs::convert::FromSpecImpl<DeviceMemoryTypeFlags> for u32 {
    open spec fn obeys_from_spec() -> bool { true }

    open spec fn from_spec(v: DeviceMemoryTypeFlags) -> u32 { v.bits() }
}

impl DeviceMemoryTypeFlags {
    /// The raw bits.
    pub fn as_raw(&self) -> (r: u32)
        ensures r == self.bits(),
    {
        self.0
    }

    /// Whether every bit of the memory type's raw value is in this set.
    pub fn check_type(&self, other: DeviceMemoryType) -> (r: bool)
        ensures r == (self.bits() & other.bits() == other.bits()),
    {
        (self.0 & other.0) == other.0
    }
}

/// The decimal values of the set bits of `raw` below bit `n` (each the
/// memory type it stands for), in order of bit, joined by `", "`.
pub open spec fn type_list(raw: u32, n: nat) -> Seq<char>
    decreases n,
{
    if n == 0 {
        Seq::empty()
    } else {
        let p = type_list(raw, (n - 1) as nat);
        let bit: u32 = 1u32 << (n - 1) as u32;
        if raw & bit != 0 {
            if p.len() == 0 { decimal(bit as u64) } else { p + ", "@ + decimal(bit as u64) }
        } else {
            p
        }
    }
}

impl DeviceMemoryType {
    /// The raw value in decimal.
    pub fn describe(&self) -> (r: String)
        ensures r@ == decimal(self.bits() as u64),
    {
        decimal_string(self.0 as u64)
    }
}

impl DeviceMemoryTypeFlags {
    /// The text shown to users: the memory types in the set (the value of
    /// each set bit, in decimal, as a `DeviceMemoryType` shows it), in order of
    /// bit, joined by `", "`.
    pub fn describe(&self) -> (r: String)
        ensures r@ == type_list(self.bits(), 32),
    {
        let mut result = String::new();
        let mut first = true;
        let mut i: u32 = 0;
        while i < 32
            invariant
                0 <= i <= 32,
                result@ == type_list(self.bits(), i as nat),
                first == (result@.len() == 0),
            decreases 32 - i,
        {
            let bit: u32 = 1u32 << i;
            proof {
                crate::text::lemma_digits_nonempty(bit as nat, 10);
                assert(type_list(self.bits(), (i + 1) as nat) == {
                    let p = type_list(self.bits(), i as nat);
                    if self.bits() & bit != 0 {
                        if p.len() == 0 { decimal(bit as u64) } else { p + ", "@ + decimal(bit as u64) }
                    } else {
                        p
                    }
                });
            }
            if self.0 & bit != 0 {
                if !first {
                    result.append(", ");
                }
                let digits = decimal_string(bit as u64);
                result.append(digits.as_str());
                first = false;
            }
            i = i + 1;
        }
        result
    }
}


/// The names of the table entries whose bit is set in `raw`, joined by
/// `", "`, for the first `n` entries; and whether any was set.
pub open spec fn describe_prefix(raw: u32, bits: Seq<u32>, names: Seq<Seq<char>>, n: int) -> (Seq<char>, bool)
    decreases n,
{
    if n <= 0 {
        (Seq::empty(), false)
    } else {
        let (p, any) = describe_prefix(raw, bits, names, n - 1);
        if raw & bits[n - 1] != 0 {
            (if any { p + ", "@ + names[n - 1] } else { names[n - 1] }, true)
        } else {
            (p, any)
        }
    }
}

/// The names of the table entries whose bit is set in `raw`, joined by `", "`.
pub open spec fn describe_spec(raw: u32, bits: Seq<u32>, names: Seq<Seq<char>>) -> Seq<char> {
    describe_prefix(raw, bits, names, bits.len() as int).0
}

/// The views of a list of names.
pub open spec fn name_views(names: Seq<&str>) -> Seq<Seq<char>> {
    names.map_values(|s: &str| s@)
}

/// The names of the table entries whose bit is set in `raw`, joined by `", "`.
pub fn describe_bits(raw: u32, bits: &Vec<u32>, names: &Vec<&str>) -> (r: String)
    requires bits@.len() == names@.len(),
    ensures r@ == describe_spec(raw, bits@, name_views(names@)),
{
    let mut result = String::new();
    let mut any = false;
    let mut i: usize = 0;
    while i < bits.len()
        invariant
            0 <= i <= bits@.len(),
            bits@.len() == names@.len(),
            (result@, any) == describe_prefix(raw, bits@, name_views(names@), i as int),
            !any ==> result@ == Seq::<char>::empty(),
        decreases bits@.len() - i,
    {
        let ghost old_result = result@;
        let ghost old_any = any;
        proof {
            assert(name_views(names@)[i as int] == names@[i as int]@);
        }
        if raw & bits[i] != 0 {
            if any {
                result.append(", ");
            }
            result.append(names[i]);
            any = true;
            proof {
                if old_any {
                    assert(result@ == old_result + ", "@ + names@[i as int]@);
                } else {
                    assert(result@ =~= names@[i as int]@);
                }
            }
        }
        assert((result@, any) == describe_prefix(raw, bits@, name_views(names@), i + 1));
        i = i + 1;
    }
    result
}

/// The names of a list of shader stages as a sentence: separated by `", "`,
/// with `" and "` before the last.
pub open spec fn stage_sentence(names: Seq<Seq<char>>, n: int) -> Seq<char>
    decreases n,
{
    if n <= 0 {
        Seq::empty()
    } else if n == 1 {
        names[0]
    } else if n == names.len() {
        stage_sentence(names, n - 1) + " and "@ + names[n - 1]
    } else {
        stage_sentence(names, n - 1) + ", "@ + names[n - 1]
    }
}

/// The names of the stages set in a raw shader stage set.
pub open spec fn stage_names(raw: u16, n: int) -> Seq<Seq<char>>
    decreases n,
{
    if n <= 0 {
        Seq::empty()
    } else {
        let p = stage_names(raw, n - 1);
        let bit: u16 = if n == 1 { 0x1 } else if n == 2 { 0x2 } else if n == 3 { 0x4 } else if n == 4 { 0x8 } else if n == 5 { 0x10 } else { 0x20 };
        if raw & bit == bit { p.push(stage_name(n - 1)) } else { p }
    }
}

/// The name of the `i`th shader stage.
pub open spec fn stage_name(i: int) -> Seq<char> {
    if i == 0 { "Vertex"@ }
    else if i == 1 { "Tesselation (control)"@ }
    else if i == 2 { "Tesselation (evaluation)"@ }
    else if i == 3 { "Geometry"@ }
    else if i == 4 { "Fragment"@ }
    else { "Compute"@ }
}

impl ShaderStage {
    /// The stages in the set, as a sentence: `"Vertex, Geometry and Fragment"`.
    pub fn describe(&self) -> (r: String)
        ensures ({
            let names = stage_names(self.bits(), 6);
            r@ == stage_sentence(names, names.len() as int)
        }),
    {
        let mut stages: Vec<&str> = Vec::new();
        if self.check(ShaderStage::VERTEX()) { stages.push("Vertex"); }
        if self.check(ShaderStage::TESSELLATION_CONTROL()) { stages.push("Tesselation (control)"); }
        if self.check(ShaderStage::TESSELLATION_EVALUATION()) { stages.push("Tesselation (evaluation)"); }
        if self.check(ShaderStage::GEOMETRY()) { stages.push("Geometry"); }
        if self.check(ShaderStage::FRAGMENT()) { stages.push("Fragment"); }
        if self.check(ShaderStage::COMPUTE()) { stages.push("Compute"); }
        proof {
            reveal_with_fuel(stage_names, 7);
            assert(name_views(stages@) =~= stage_names(self.bits(), 6));
        }
        let n = stages.len();
        let mut result = String::new();
        let mut i: usize = 0;
        while i < n
            invariant
                0 <= i <= n,
                n == stages@.len(),
                n <= 6,
                result@ == stage_sentence(name_views(stages@), i as int),
            decreases n - i,
        {
            proof {
                assert(name_views(stages@)[i as int] == stages@[i as int]@);
            }
            if i > 0 && i < n - 1 {
                result.append(", ");
            } else if i > 0 {
                result.append(" and ");
            }
            result.append(stages[i]);
            i = i + 1;
        }
        result
    }
}


impl HeapPropertyFlags {
    /// The table of the flags that have a name, in order of bit.
    pub open spec fn name_table() -> (Seq<u32>, Seq<Seq<char>>) {
        (seq![0x1u32, 0x2u32], seq!["DEVICE_LOCAL"@, "MULTI_INSTANCE"@])
    }

    /// The names of the flags in the set, in order of bit, joined by `", "`.
    /// Every flag in the set must have a name.
    pub fn describe(&self) -> (r: String)
        requires self.bits() as u32 & !0x3u32 == 0,
        ensures r@ == describe_spec(self.bits() as u32, Self::name_table().0, Self::name_table().1),
    {
        let bits: Vec<u32> = vec![0x1u32, 0x2u32];
        let names: Vec<&str> = vec!["DEVICE_LOCAL", "MULTI_INSTANCE"];
        proof {
            assert(bits@ =~= Self::name_table().0);
            assert(name_views(names@) =~= Self::name_table().1);
        }
        describe_bits(self.0 as u32, &bits, &names)
    }
}

impl AccessFlags {
    /// The table of the flags that have a name, in order of bit.
    pub open spec fn name_table() -> (Seq<u32>, Seq<Seq<char>>) {
        (seq![0x1u32, 0x2u32, 0x4u32, 0x8u32, 0x10u32, 0x20u32, 0x40u32, 0x80u32, 0x100u32, 0x800u32, 0x1000u32, 0x2000u32, 0x4000u32, 0x8000u32, 0x10000u32], seq!["INDIRECT_COMMAND_READ"@, "INDEX_READ"@, "VERTEX_ATTRIBUTE_READ"@, "UNIFORM_READ"@, "INPUT_ATTACHMENT_READ"@, "SHADER_READ"@, "SHADER_WRITE"@, "COLOUR_ATTACHMENT_READ"@, "COLOUR_ATTACHMENT_WRITE"@, "TRANSFER_READ"@, "TRANSFER_WRITE"@, "HOST_READ"@, "HOST_WRITE"@, "MEMORY_READ"@, "MEMORY_WRITE"@])
    }

    /// The names of the flags in the set, in order of bit, joined by `", "`.
    /// Every flag in the set must have a name.
    pub fn describe(&self) -> (r: String)
        requires self.bits() as u32 & !0x1f9ffu32 == 0,
        ensures r@ == describe_spec(self.bits() as u32, Self::name_table().0, Self::name_table().1),
    {
        let bits: Vec<u32> = vec![0x1u32, 0x2u32, 0x4u32, 0x8u32, 0x10u32, 0x20u32, 0x40u32, 0x80u32, 0x100u32, 0x800u32, 0x1000u32, 0x2000u32, 0x4000u32, 0x8000u32, 0x10000u32];
        let names: Vec<&str> = vec!["INDIRECT_COMMAND_READ", "INDEX_READ", "VERTEX_ATTRIBUTE_READ", "UNIFORM_READ", "INPUT_ATTACHMENT_READ", "SHADER_READ", "SHADER_WRITE", "COLOUR_ATTACHMENT_READ", "COLOUR_ATTACHMENT_WRITE", "TRANSFER_READ", "TRANSFER_WRITE", "HOST_READ", "HOST_WRITE", "MEMORY_READ", "MEMORY_WRITE"];
        proof {
            assert(bits@ =~= Self::name_table().0);
            assert(name_views(names@) =~= Self::name_table().1);
        }
        describe_bits(self.0 as u32, &bits, &names)
    }
}

impl DependencyFlags {
    /// The table of the flags that have a name, in order of bit.
    pub open spec fn name_table() -> (Seq<u32>, Seq<Seq<char>>) {
        (seq![0x1u32, 0x2u32, 0x4u32], seq!["FRAMEBUFFER_LOCAL"@, "VIEW_LOCAL"@, "NOT_DEVICE_LOCAL"@])
    }

    /// The names of the flags in the set, in order of bit, joined by `", "`.
    /// Every flag in the set must have a name.
    pub fn describe(&self) -> (r: String)
        requires self.bits() as u32 & !0x7u32 == 0,
        ensures r@ == describe_spec(self.bits() as u32, Self::name_table().0, Self::name_table().1),
    {
        let bits: Vec<u32> = vec![0x1u32, 0x2u32, 0x4u32];
        let names: Vec<&str> = vec!["FRAMEBUFFER_LOCAL", "VIEW_LOCAL", "NOT_DEVICE_LOCAL"];
        proof {
            assert(bits@ =~= Self::name_table().0);
            assert(name_views(names@) =~= Self::name_table().1);
        }
        describe_bits(self.0 as u32, &bits, &names)
    }
}

impl ColourComponentFlags {
    /// The table of the flags that have a name, in order of bit.
    pub open spec fn name_table() -> (Seq<u32>, Seq<Seq<char>>) {
        (seq![0x1u32, 0x2u32, 0x4u32, 0x8u32], seq!["RED"@, "GREEN"@, "BLUE"@, "ALPHA"@])
    }

    /// The names of the flags in the set, in order of bit, joined by `", "`.
    /// Every flag in the set must have a name.
    pub fn describe(&self) -> (r: String)
        requires self.bits() as u32 & !0xfu32 == 0,
        ensures r@ == describe_spec(self.bits() as u32, Self::name_table().0, Self::name_table().1),
    {
        let bits: Vec<u32> = vec![0x1u32, 0x2u32, 0x4u32, 0x8u32];
        let names: Vec<&str> = vec!["RED", "GREEN", "BLUE", "ALPHA"];
        proof {
            assert(bits@ =~= Self::name_table().0);
            assert(name_views(names@) =~= Self::name_table().1);
        }
        describe_bits(self.0 as u32, &bits, &names)
    }
}

impl MemoryPropertyFlags {
    /// The table of the flags that have a name, in order of bit.
    pub open spec fn name_table() -> (Seq<u32>, Seq<Seq<char>>) {
        (seq![0x1u32, 0x2u32, 0x4u32, 0x8u32, 0x10u32, 0x20u32], seq!["DEVICE_LOCAL"@, "HOST_VISIBLE"@, "HOST_COHERENT"@, "HOST_CACHED"@, "LAZILY_ALLOCATED"@, "PROTECTED"@])
    }

    /// The names of the flags in the set, in order of bit, joined by `", "`.
    /// Every flag in the set must have a name.
    pub fn describe(&self) -> (r: String)
        requires self.bits() as u32 & !0x3fu32 == 0,
        ensures r@ == describe_spec(self.bits() as u32, Self::name_table().0, Self::name_table().1),
    {
        let bits: Vec<u32> = vec![0x1u32, 0x2u32, 0x4u32, 0x8u32, 0x10u32, 0x20u32];
        let names: Vec<&str> = vec!["DEVICE_LOCAL", "HOST_VISIBLE", "HOST_COHERENT", "HOST_CACHED", "LAZILY_ALLOCATED", "PROTECTED"];
        proof {
            assert(bits@ =~= Self::name_table().0);
            assert(name_views(names@) =~= Self::name_table().1);
        }
        describe_bits(self.0 as u32, &bits, &names)
    }
}

impl CommandBufferFlags {
    /// The table of the flags that have a name, in order of bit.
    pub open spec fn name_table() -> (Seq<u32>, Seq<Seq<char>>) {
        (seq![0x1u32, 0x2u32], seq!["TRANSIENT"@, "ALLOW_RESET"@])
    }

    /// The names of the flags in the set, in order of bit, joined by `", "`.
    /// Every flag in the set must have a name.
    pub fn describe(&self) -> (r: String)
        requires self.bits() as u32 & !0x3u32 == 0,
        ensures r@ == describe_spec(self.bits() as u32, Self::name_table().0, Self::name_table().1),
    {
        let bits: Vec<u32> = vec![0x1u32, 0x2u32];
        let names: Vec<&str> = vec!["TRANSIENT", "ALLOW_RESET"];
        proof {
            assert(bits@ =~= Self::name_table().0);
            assert(name_views(names@) =~= Self::name_table().1);
        }
        describe_bits(self.0 as u32, &bits, &names)
    }
}

impl CommandBufferUsageFlags {
    /// The table of the flags that have a name, in order of bit.
    pub open spec fn name_table() -> (Seq<u32>, Seq<Seq<char>>) {
        (seq![0x1u32, 0x2u32, 0x4u32], seq!["ONE_TIME_SUBMIT"@, "RENDER_PASS_ONLY"@, "SIMULTANEOUS_USE"@])
    }

    /// The names of the flags in the set, in order of bit, joined by `", "`.
    /// Every flag in the set must have a name.
    pub fn describe(&self) -> (r: String)
        requires self.bits() as u32 & !0x7u32 == 0,
        ensures r@ == describe_spec(self.bits() as u32, Self::name_table().0, Self::name_table().1),
    {
        let bits: Vec<u32> = vec![0x1u32, 0x2u32, 0x4u32];
        let names: Vec<&str> = vec!["ONE_TIME_SUBMIT", "RENDER_PASS_ONLY", "SIMULTANEOUS_USE"];
        proof {
            assert(bits@ =~= Self::name_table().0);
            assert(name_views(names@) =~= Self::name_table().1);
        }
        describe_bits(self.0 as u32, &bits, &names)
    }
}


/// The subset test on raw bits of 8 bits: every value holds itself and zero,
/// the full value holds every value, and a union holds both its parts.
proof fn lemma_subset_u8(a: u8, b: u8)
    ensures
        a & a == a,
        a & 0u8 == 0u8,
        0xffu8 & a == a,
        (a | b) & a == a,
        (a | b) & b == b,
{
    assert(a & a == a && a & 0u8 == 0u8 && 0xffu8 & a == a && (a | b) & a == a && (a | b) & b == b) by (bit_vector);
}

/// The subset test on raw bits of 16 bits, as `lemma_subset_u8` states it.
proof fn lemma_subset_u16(a: u16, b: u16)
    ensures
        a & a == a,
        a & 0u16 == 0u16,
        0xffffu16 & a == a,
        (a | b) & a == a,
        (a | b) & b == b,
{
    assert(a & a == a && a & 0u16 == 0u16 && 0xffffu16 & a == a && (a | b) & a == a && (a | b) & b == b) by (bit_vector);
}

/// The subset test on raw bits of 32 bits, as `lemma_subset_u8` states it.
proof fn lemma_subset_u32(a: u32, b: u32)
    ensures
        a & a == a,
        a & 0u32 == 0u32,
        0xffff_ffffu32 & a == a,
        (a | b) & a == a,
        (a | b) & b == b,
{
    assert(a & a == a && a & 0u32 == 0u32 && 0xffff_ffffu32 & a == a && (a | b) & a == a && (a | b) & b == b) by (bit_vector);
}

impl HeapPropertyFlags {
    /// `check` is the subset test: every set holds itself and the empty set,
    /// the set of every bit holds every set, and a union holds both its parts.
    pub proof fn lemma_check_laws(a: Self, b: Self)
        ensures
            a.has(a),
            forall|e: Self| #[trigger] e.bits() == 0 ==> a.has(e),
            forall|f: Self| #[trigger] f.bits() == 0xffu8 ==> f.has(a),
            forall|u: Self| #[trigger] u.bits() == a.bits() | b.bits() ==> u.has(a) && u.has(b),
    {
        lemma_subset_u8(a.bits(), b.bits());
    }
}

impl ShaderStage {
    /// `check` is the subset test: every set holds itself and the empty set,
    /// the set of every bit holds every set, and a union holds both its parts.
    pub proof fn lemma_check_laws(a: Self, b: Self)
        ensures
            a.has(a),
            forall|e: Self| #[trigger] e.bits() == 0 ==> a.has(e),
            forall|f: Self| #[trigger] f.bits() == 0xffffu16 ==> f.has(a),
            forall|u: Self| #[trigger] u.bits() == a.bits() | b.bits() ==> u.has(a) && u.has(b),
    {
        lemma_subset_u16(a.bits(), b.bits());
    }
}

impl AccessFlags {
    /// `check` is the subset test: every set holds itself and the empty set,
    /// the set of every bit holds every set, and a union holds both its parts.
    pub proof fn lemma_check_laws(a: Self, b: Self)
        ensures
            a.has(a),
            forall|e: Self| #[trigger] e.bits() == 0 ==> a.has(e),
            forall|f: Self| #[trigger] f.bits() == 0xffff_ffffu32 ==> f.has(a),
            forall|u: Self| #[trigger] u.bits() == a.bits() | b.bits() ==> u.has(a) && u.has(b),
    {
        lemma_subset_u32(a.bits(), b.bits());
    }
}

impl DependencyFlags {
    /// `check` is the subset test: every set holds itself and the empty set,
    /// the set of every bit holds every set, and a union holds both its parts.
    pub proof fn lemma_check_laws(a: Self, b: Self)
        ensures
            a.has(a),
            forall|e: Self| #[trigger] e.bits() == 0 ==> a.has(e),
            forall|f: Self| #[trigger] f.bits() == 0xffu8 ==> f.has(a),
            forall|u: Self| #[trigger] u.bits() == a.bits() | b.bits() ==> u.has(a) && u.has(b),
    {
        lemma_subset_u8(a.bits(), b.bits());
    }
}

impl PipelineStage {
    /// `check` is the subset test: every set holds itself and the empty set,
    /// the set of every bit holds every set, and a union holds both its parts.
    pub proof fn lemma_check_laws(a: Self, b: Self)
        ensures
            a.has(a),
            forall|e: Self| #[trigger] e.bits() == 0 ==> a.has(e),
            forall|f: Self| #[trigger] f.bits() == 0xffff_ffffu32 ==> f.has(a),
            forall|u: Self| #[trigger] u.bits() == a.bits() | b.bits() ==> u.has(a) && u.has(b),
    {
        lemma_subset_u32(a.bits(), b.bits());
    }
}

impl ColourComponentFlags {
    /// `check` is the subset test: every set holds itself and the empty set,
    /// the set of every bit holds every set, and a union holds both its parts.
    pub proof fn lemma_check_laws(a: Self, b: Self)
        ensures
            a.has(a),
            forall|e: Self| #[trigger] e.bits() == 0 ==> a.has(e),
            forall|f: Self| #[trigger] f.bits() == 0xffu8 ==> f.has(a),
            forall|u: Self| #[trigger] u.bits() == a.bits() | b.bits() ==> u.has(a) && u.has(b),
    {
        lemma_subset_u8(a.bits(), b.bits());
    }
}

impl MemoryPropertyFlags {
    /// `check` is the subset test: every set holds itself and the empty set,
    /// the set of every bit holds every set, and a union holds both its parts.
    pub proof fn lemma_check_laws(a: Self, b: Self)
        ensures
            a.has(a),
            forall|e: Self| #[trigger] e.bits() == 0 ==> a.has(e),
            forall|f: Self| #[trigger] f.bits() == 0xffffu16 ==> f.has(a),
            forall|u: Self| #[trigger] u.bits() == a.bits() | b.bits() ==> u.has(a) && u.has(b),
    {
        lemma_subset_u16(a.bits(), b.bits());
    }
}

impl CommandBufferFlags {
    /// `check` is the subset test: every set holds itself and the empty set,
    /// the set of every bit holds every set, and a union holds both its parts.
    pub proof fn lemma_check_laws(a: Self, b: Self)
        ensures
            a.has(a),
            forall|e: Self| #[trigger] e.bits() == 0 ==> a.has(e),
            forall|f: Self| #[trigger] f.bits() == 0xffu8 ==> f.has(a),
            forall|u: Self| #[trigger] u.bits() == a.bits() | b.bits() ==> u.has(a) && u.has(b),
    {
        lemma_subset_u8(a.bits(), b.bits());
    }
}

impl CommandBufferUsageFlags {
    /// `check` is the subset test: every set holds itself and the empty set,
    /// the set of every bit holds every set, and a union holds both its parts.
    pub proof fn lemma_check_laws(a: Self, b: Self)
        ensures
            a.has(a),
            forall|e: Self| #[trigger] e.bits() == 0 ==> a.has(e),
            forall|f: Self| #[trigger] f.bits() == 0xffu8 ==> f.has(a),
            forall|u: Self| #[trigger] u.bits() == a.bits() | b.bits() ==> u.has(a) && u.has(b),
    {
        lemma_subset_u8(a.bits(), b.bits());
    }
}

impl DeviceMemoryTypeFlags {
    /// `check` is the subset test: every set holds itself and the empty set,
    /// the set of every bit holds every set, and a union holds both its parts.
    pub proof fn lemma_check_laws(a: Self, b: Self)
        ensures
            a.has(a),
            forall|e: Self| #[trigger] e.bits() == 0 ==> a.has(e),
            forall|f: Self| #[trigger] f.bits() == 0xffff_ffffu32 ==> f.has(a),
            forall|u: Self| #[trigger] u.bits() == a.bits() | b.bits() ==> u.has(a) && u.has(b),
    {
        lemma_subset_u32(a.bits(), b.bits());
    }
}

impl BufferUsageFlags {
    /// `check` is the subset test: every set holds itself and the empty set,
    /// the set of every bit holds every set, and a union holds both its parts.
    pub proof fn lemma_check_laws(a: Self, b: Self)
        ensures
            a.has(a),
            forall|e: Self| #[trigger] e.bits() == 0 ==> a.has(e),
            forall|f: Self| #[trigger] f.bits() == 0xffffu16 ==> f.has(a),
            forall|u: Self| #[trigger] u.bits() == a.bits() | b.bits() ==> u.has(a) && u.has(b),
    {
        lemma_subset_u16(a.bits(), b.bits());
    }
}

impl ColourMask {
    /// `check` is the subset test: every set holds itself and the empty set,
    /// the set of every bit holds every set, and a union holds both its parts.
    pub proof fn lemma_check_laws(a: Self, b: Self)
        ensures
            a.has(a),
            forall|e: Self| #[trigger] e.bits() == 0 ==> a.has(e),
            forall|f: Self| #[trigger] f.bits() == 0xffu8 ==> f.has(a),
            forall|u: Self| #[trigger] u.bits() == a.bits() | b.bits() ==> u.has(a) && u.has(b),
    {
        lemma_subset_u8(a.bits(), b.bits());
    }
}

} // verus!
