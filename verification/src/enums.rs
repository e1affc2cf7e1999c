//! Enumerations that stand for Vulkan enumerations, with their conversions
//! to and from the raw Vulkan values (`i32` for Vulkan enumerations, `u32` for
//! single Vulkan flag bits), as the Vulkan headers number them.

use vstd::prelude::*;
use crate::errors::AttributeLayoutError;

verus! {

/// The kind of a physical device, ordered by how far it is from the CPU.
#[derive(Clone, Copy, Debug, PartialEq, Eq, Structural)]
pub enum DeviceKind {
    Discrete,
    Integrated,
    Virtual,
    Cpu,
    Other,
}

impl DeviceKind {
    /// The raw value of the Vulkan `VkPhysicalDeviceType` this stands for.
    pub open spec fn to_vk_spec(self) -> i32 {
        match self {
            DeviceKind::Discrete => 2,
            DeviceKind::Integrated => 1,
            DeviceKind::Virtual => 3,
            DeviceKind::Cpu => 4,
            DeviceKind::Other => 0,
        }
    }

    /// The raw value of the Vulkan `VkPhysicalDeviceType` this stands for.
    pub fn to_vk(&self) -> (r: i32)
        ensures r == self.to_vk_spec(),
    {
        match self {
            DeviceKind::Discrete => 2,
            DeviceKind::Integrated => 1,
            DeviceKind::Virtual => 3,
            DeviceKind::Cpu => 4,
            DeviceKind::Other => 0,
        }
    }

    /// The kind a raw Vulkan `VkPhysicalDeviceType` stands for; unknown values are `Other`.
    pub open spec fn from_vk_spec(value: i32) -> Self {
        match value {
            2 => DeviceKind::Discrete,
            1 => DeviceKind::Integrated,
            3 => DeviceKind::Virtual,
            4 => DeviceKind::Cpu,
            _ => DeviceKind::Other,
        }
    }

    /// The kind a raw Vulkan `VkPhysicalDeviceType` stands for; unknown values are `Other`.
    pub fn from_vk(value: i32) -> (r: Self)
        ensures r == Self::from_vk_spec(value),
    {
        match value {
            2 => DeviceKind::Discrete,
            1 => DeviceKind::Integrated,
            3 => DeviceKind::Virtual,
            4 => DeviceKind::Cpu,
            _ => DeviceKind::Other,
        }
    }

    /// Converting to Vulkan and back gives the same kind.
    pub proof fn lemma_vk_round_trip(self)
        ensures Self::from_vk_spec(self.to_vk_spec()) == self,
    {
    }

    /// How far the device is from the CPU: higher is preferred.
    pub open spec fn score_spec(self) -> u32 {
        match self {
            DeviceKind::Discrete => 4,
            DeviceKind::Integrated => 3,
            DeviceKind::Virtual => 2,
            DeviceKind::Cpu => 1,
            DeviceKind::Other => 0,
        }
    }

    /// How far the device is from the CPU: higher is preferred.
    pub fn score(&self) -> (r: u32)
        ensures r == self.score_spec(),
    {
        match self {
            DeviceKind::Discrete => 4,
            DeviceKind::Integrated => 3,
            DeviceKind::Virtual => 2,
            DeviceKind::Cpu => 1,
            DeviceKind::Other => 0,
        }
    }

    /// Orders kinds by their score.
    pub fn cmp_score(&self, other: &Self) -> (r: core::cmp::Ordering)
        ensures
            (r == core::cmp::Ordering::Less) == (self.score_spec() < other.score_spec()),
            (r == core::cmp::Ordering::Equal) == (self.score_spec() == other.score_spec()),
            (r == core::cmp::Ordering::Greater) == (self.score_spec() > other.score_spec()),
    {
        let a = self.score();
        let b = other.score();
        if a < b {
            core::cmp::Ordering::Less
        } else if a == b {
            core::cmp::Ordering::Equal
        } else {
            core::cmp::Ordering::Greater
        }
    }

    /// The name shown to users.
    pub open spec fn name_spec(self) -> &'static str {
        match self {
            DeviceKind::Discrete => "Discrete GPU",
            DeviceKind::Integrated => "Integrated GPU",
            DeviceKind::Virtual => "Virtual GPU",
            DeviceKind::Cpu => "CPU",
            DeviceKind::Other => "Other",
        }
    }

    /// The name shown to users.
    pub fn name(&self) -> (r: &'static str)
        ensures r == self.name_spec(),
    {
        match self {
            DeviceKind::Discrete => "Discrete GPU",
            DeviceKind::Integrated => "Integrated GPU",
            DeviceKind::Virtual => "Virtual GPU",
            DeviceKind::Cpu => "CPU",
            DeviceKind::Other => "Other",
        }
    }
}

/// The order of two scores.
pub open spec fn score_order(a: u32, b: u32) -> core::cmp::Ordering {
    if a < b {
        core::cmp::Ordering::Less
    } else if a == b {
        core::cmp::Ordering::Equal
    } else {
        core::cmp::Ordering::Greater
    }
}

impl PartialOrd for DeviceKind {
    /// Compares the kinds by their score.
    fn partial_cmp(&self, other: &Self) -> (r: Option<core::cmp::Ordering>)
        ensures r == Some(score_order(self.score_spec(), other.score_spec())),
    {
        Some(self.cmp_score(other))
    }
}

impl vstd::std_specs::cmp::PartialOrdSpecImpl for DeviceKind {
    open spec fn obeys_partial_cmp_spec() -> bool { true }

    open spec fn partial_cmp_spec(&self, other: &Self) -> Option<core::cmp::Ordering> {
        Some(score_order(self.score_spec(), other.score_spec()))
    }
}

/// The kind of work a queue is used for.
#[derive(Clone, Copy, Debug, PartialEq, Eq, Structural)]
pub enum QueueKind {
    Graphics,
    Memory,
    Present,
    Compute,
}

impl QueueKind {
}

/// The kind of a descriptor.
#[derive(Clone, Copy, Debug, PartialEq, Eq, Structural)]
pub enum DescriptorKind {
    UniformBuffer,
    StorageBuffer,
    UniformDynamicBuffer,
    StorageDynamicBuffer,
    UniformTexelBuffer,
    StorageTexelBuffer,
    InputAttachment,
    StorageImage,
    SampledImage,
    Sampler,
    CombindImageSampler,
}

impl DescriptorKind {
    /// The raw value of the Vulkan `VkDescriptorType` this stands for.
    pub open spec fn to_vk_spec(self) -> i32 {
        match self {
            DescriptorKind::UniformBuffer => 6,
            DescriptorKind::StorageBuffer => 7,
            DescriptorKind::UniformDynamicBuffer => 8,
            DescriptorKind::StorageDynamicBuffer => 9,
            DescriptorKind::UniformTexelBuffer => 4,
            DescriptorKind::StorageTexelBuffer => 5,
            DescriptorKind::InputAttachment => 10,
            DescriptorKind::StorageImage => 3,
            DescriptorKind::SampledImage => 2,
            DescriptorKind::Sampler => 0,
            DescriptorKind::CombindImageSampler => 1,
        }
    }

    /// The raw value of the Vulkan `VkDescriptorType` this stands for.
    pub fn to_vk(&self) -> (r: i32)
        ensures r == self.to_vk_spec(),
    {
        match self {
            DescriptorKind::UniformBuffer => 6,
            DescriptorKind::StorageBuffer => 7,
            DescriptorKind::UniformDynamicBuffer => 8,
            DescriptorKind::StorageDynamicBuffer => 9,
            DescriptorKind::UniformTexelBuffer => 4,
            DescriptorKind::StorageTexelBuffer => 5,
            DescriptorKind::InputAttachment => 10,
            DescriptorKind::StorageImage => 3,
            DescriptorKind::SampledImage => 2,
            DescriptorKind::Sampler => 0,
            DescriptorKind::CombindImageSampler => 1,
        }
    }

    /// The value a raw Vulkan `VkDescriptorType` stands for, if it is one this library knows.
    pub open spec fn from_vk_spec(value: i32) -> Option<Self> {
        match value {
            6 => Some(DescriptorKind::UniformBuffer),
            7 => Some(DescriptorKind::StorageBuffer),
            8 => Some(DescriptorKind::UniformDynamicBuffer),
            9 => Some(DescriptorKind::StorageDynamicBuffer),
            4 => Some(DescriptorKind::UniformTexelBuffer),
            5 => Some(DescriptorKind::StorageTexelBuffer),
            10 => Some(DescriptorKind::InputAttachment),
            3 => Some(DescriptorKind::StorageImage),
            2 => Some(DescriptorKind::SampledImage),
            0 => Some(DescriptorKind::Sampler),
            1 => Some(DescriptorKind::CombindImageSampler),
            _ => None,
        }
    }

    /// The value a raw Vulkan `VkDescriptorType` stands for; it must be one this library knows.
    pub fn from_vk(value: i32) -> (r: Self)
        requires Self::from_vk_spec(value).is_some(),
        ensures Some(r) == Self::from_vk_spec(value),
    {
        match value {
            6 => DescriptorKind::UniformBuffer,
            7 => DescriptorKind::StorageBuffer,
            8 => DescriptorKind::UniformDynamicBuffer,
            9 => DescriptorKind::StorageDynamicBuffer,
            4 => DescriptorKind::UniformTexelBuffer,
            5 => DescriptorKind::StorageTexelBuffer,
            10 => DescriptorKind::InputAttachment,
            3 => DescriptorKind::StorageImage,
            2 => DescriptorKind::SampledImage,
            0 => DescriptorKind::Sampler,
            1 => DescriptorKind::CombindImageSampler,
            _ => DescriptorKind::UniformBuffer,
        }
    }

    /// The value a raw Vulkan `VkDescriptorType` stands for, if this library knows it.
    pub fn try_from_vk(value: i32) -> (r: Option<Self>)
        ensures r == Self::from_vk_spec(value),
    {
        match value {
            6 => Some(DescriptorKind::UniformBuffer),
            7 => Some(DescriptorKind::StorageBuffer),
            8 => Some(DescriptorKind::UniformDynamicBuffer),
            9 => Some(DescriptorKind::StorageDynamicBuffer),
            4 => Some(DescriptorKind::UniformTexelBuffer),
            5 => Some(DescriptorKind::StorageTexelBuffer),
            10 => Some(DescriptorKind::InputAttachment),
            3 => Some(DescriptorKind::StorageImage),
            2 => Some(DescriptorKind::SampledImage),
            0 => Some(DescriptorKind::Sampler),
            1 => Some(DescriptorKind::CombindImageSampler),
            _ => None,
        }
    }

    /// Converting to Vulkan and back gives the same value.
    pub proof fn lemma_vk_round_trip(self)
        ensures Self::from_vk_spec(self.to_vk_spec()) == Some(self),
    {
    }

    /// Every raw value this library knows converts back to itself.
    pub proof fn lemma_vk_raw_round_trip(value: i32)
        requires Self::from_vk_spec(value).is_some(),
        ensures Self::from_vk_spec(value).unwrap().to_vk_spec() == value,
    {
    }
}

/// What happens to an attachment when a render pass starts.
#[derive(Clone, Copy, Debug, PartialEq, Eq, Structural)]
pub enum AttachmentLoadOp {
    DontCare,
    Clear,
    Load,
}

impl AttachmentLoadOp {
    /// The raw value of the Vulkan `VkAttachmentLoadOp` this stands for.
    pub open spec fn to_vk_spec(self) -> i32 {
        match self {
            AttachmentLoadOp::DontCare => 2,
            AttachmentLoadOp::Clear => 1,
            AttachmentLoadOp::Load => 0,
        }
    }

    /// The raw value of the Vulkan `VkAttachmentLoadOp` this stands for.
    pub fn to_vk(&self) -> (r: i32)
        ensures r == self.to_vk_spec(),
    {
        match self {
            AttachmentLoadOp::DontCare => 2,
            AttachmentLoadOp::Clear => 1,
            AttachmentLoadOp::Load => 0,
        }
    }

    /// The value a raw Vulkan `VkAttachmentLoadOp` stands for, if it is one this library knows.
    pub open spec fn from_vk_spec(value: i32) -> Option<Self> {
        match value {
            2 => Some(AttachmentLoadOp::DontCare),
            1 => Some(AttachmentLoadOp::Clear),
            0 => Some(AttachmentLoadOp::Load),
            _ => None,
        }
    }

    /// The value a raw Vulkan `VkAttachmentLoadOp` stands for; it must be one this library knows.
    pub fn from_vk(value: i32) -> (r: Self)
        requires Self::from_vk_spec(value).is_some(),
        ensures Some(r) == Self::from_vk_spec(value),
    {
        match value {
            2 => AttachmentLoadOp::DontCare,
            1 => AttachmentLoadOp::Clear,
            0 => AttachmentLoadOp::Load,
            _ => AttachmentLoadOp::DontCare,
        }
    }

    /// The value a raw Vulkan `VkAttachmentLoadOp` stands for, if this library knows it.
    pub fn try_from_vk(value: i32) -> (r: Option<Self>)
        ensures r == Self::from_vk_spec(value),
    {
        match value {
            2 => Some(AttachmentLoadOp::DontCare),
            1 => Some(AttachmentLoadOp::Clear),
            0 => Some(AttachmentLoadOp::Load),
            _ => None,
        }
    }

    /// Converting to Vulkan and back gives the same value.
    pub proof fn lemma_vk_round_trip(self)
        ensures Self::from_vk_spec(self.to_vk_spec()) == Some(self),
    {
    }

    /// Every raw value this library knows converts back to itself.
    pub proof fn lemma_vk_raw_round_trip(value: i32)
        requires Self::from_vk_spec(value).is_some(),
        ensures Self::from_vk_spec(value).unwrap().to_vk_spec() == value,
    {
    }
}

/// What happens to an attachment when a render pass ends.
#[derive(Clone, Copy, Debug, PartialEq, Eq, Structural)]
pub enum AttachmentStoreOp {
    DontCare,
    Store,
}

impl AttachmentStoreOp {
    /// The raw value of the Vulkan `VkAttachmentStoreOp` this stands for.
    pub open spec fn to_vk_spec(self) -> i32 {
        match self {
            AttachmentStoreOp::DontCare => 1,
            AttachmentStoreOp::Store => 0,
        }
    }

    /// The raw value of the Vulkan `VkAttachmentStoreOp` this stands for.
    pub fn to_vk(&self) -> (r: i32)
        ensures r == self.to_vk_spec(),
    {
        match self {
            AttachmentStoreOp::DontCare => 1,
            AttachmentStoreOp::Store => 0,
        }
    }

    /// The value a raw Vulkan `VkAttachmentStoreOp` stands for, if it is one this library knows.
    pub open spec fn from_vk_spec(value: i32) -> Option<Self> {
        match value {
            1 => Some(AttachmentStoreOp::DontCare),
            0 => Some(AttachmentStoreOp::Store),
            _ => None,
        }
    }

    /// The value a raw Vulkan `VkAttachmentStoreOp` stands for; it must be one this library knows.
    pub fn from_vk(value: i32) -> (r: Self)
        requires Self::from_vk_spec(value).is_some(),
        ensures Some(r) == Self::from_vk_spec(value),
    {
        match value {
            1 => AttachmentStoreOp::DontCare,
            0 => AttachmentStoreOp::Store,
            _ => AttachmentStoreOp::DontCare,
        }
    }

    /// The value a raw Vulkan `VkAttachmentStoreOp` stands for, if this library knows it.
    pub fn try_from_vk(value: i32) -> (r: Option<Self>)
        ensures r == Self::from_vk_spec(value),
    {
        match value {
            1 => Some(AttachmentStoreOp::DontCare),
            0 => Some(AttachmentStoreOp::Store),
            _ => None,
        }
    }

    /// Converting to Vulkan and back gives the same value.
    pub proof fn lemma_vk_round_trip(self)
        ensures Self::from_vk_spec(self.to_vk_spec()) == Some(self),
    {
    }

    /// Every raw value this library knows converts back to itself.
    pub proof fn lemma_vk_raw_round_trip(value: i32)
        requires Self::from_vk_spec(value).is_some(),
        ensures Self::from_vk_spec(value).unwrap().to_vk_spec() == value,
    {
    }
}

/// The pipeline type a render pass or command binds to.
#[derive(Clone, Copy, Debug, PartialEq, Eq, Structural)]
pub enum BindPoint {
    Graphics,
    Compute,
}

impl BindPoint {
    /// The raw value of the Vulkan `VkPipelineBindPoint` this stands for.
    pub open spec fn to_vk_spec(self) -> i32 {
        match self {
            BindPoint::Graphics => 0,
            BindPoint::Compute => 1,
        }
    }

    /// The raw value of the Vulkan `VkPipelineBindPoint` this stands for.
    pub fn to_vk(&self) -> (r: i32)
        ensures r == self.to_vk_spec(),
    {
        match self {
            BindPoint::Graphics => 0,
            BindPoint::Compute => 1,
        }
    }

    /// The value a raw Vulkan `VkPipelineBindPoint` stands for, if it is one this library knows.
    pub open spec fn from_vk_spec(value: i32) -> Option<Self> {
        match value {
            0 => Some(BindPoint::Graphics),
            1 => Some(BindPoint::Compute),
            _ => None,
        }
    }

    /// The value a raw Vulkan `VkPipelineBindPoint` stands for; it must be one this library knows.
    pub fn from_vk(value: i32) -> (r: Self)
        requires Self::from_vk_spec(value).is_some(),
        ensures Some(r) == Self::from_vk_spec(value),
    {
        match value {
            0 => BindPoint::Graphics,
            1 => BindPoint::Compute,
            _ => BindPoint::Graphics,
        }
    }

    /// The value a raw Vulkan `VkPipelineBindPoint` stands for, if this library knows it.
    pub fn try_from_vk(value: i32) -> (r: Option<Self>)
        ensures r == Self::from_vk_spec(value),
    {
        match value {
            0 => Some(BindPoint::Graphics),
            1 => Some(BindPoint::Compute),
            _ => None,
        }
    }

    /// Converting to Vulkan and back gives the same value.
    pub proof fn lemma_vk_round_trip(self)
        ensures Self::from_vk_spec(self.to_vk_spec()) == Some(self),
    {
    }

    /// Every raw value this library knows converts back to itself.
    pub proof fn lemma_vk_raw_round_trip(value: i32)
        requires Self::from_vk_spec(value).is_some(),
        ensures Self::from_vk_spec(value).unwrap().to_vk_spec() == value,
    {
    }
}

/// The layout of a vertex attribute.
#[derive(Clone, Copy, Debug, PartialEq, Eq, Structural)]
pub enum AttributeLayout {
    Float2,
    Float3,
}

impl AttributeLayout {
    /// The raw value of the Vulkan `VkFormat` this stands for.
    pub open spec fn to_vk_spec(self) -> i32 {
        match self {
            AttributeLayout::Float2 => 103,
            AttributeLayout::Float3 => 106,
        }
    }

    /// The raw value of the Vulkan `VkFormat` this stands for.
    pub fn to_vk(&self) -> (r: i32)
        ensures r == self.to_vk_spec(),
    {
        match self {
            AttributeLayout::Float2 => 103,
            AttributeLayout::Float3 => 106,
        }
    }

    /// The layout a raw Vulkan `VkFormat` stands for, or the error for a
    /// format that is no attribute layout.
    pub open spec fn try_from_vk_spec(value: i32) -> Result<Self, AttributeLayoutError> {
        match value {
            103 => Ok(AttributeLayout::Float2),
            106 => Ok(AttributeLayout::Float3),
            _ => Err(AttributeLayoutError::IllegalFormatValue { value }),
        }
    }

    /// The layout a raw Vulkan `VkFormat` stands for, or the error for a
    /// format that is no attribute layout.
    pub fn try_from_vk(value: i32) -> (r: Result<Self, AttributeLayoutError>)
        ensures r == Self::try_from_vk_spec(value),
    {
        match value {
            103 => Ok(AttributeLayout::Float2),
            106 => Ok(AttributeLayout::Float3),
            _ => Err(AttributeLayoutError::IllegalFormatValue { value }),
        }
    }

    /// Converting to Vulkan and back gives the same layout.
    pub proof fn lemma_vk_round_trip(self)
        ensures Self::try_from_vk_spec(self.to_vk_spec()) == Ok::<Self, AttributeLayoutError>(self),
    {
    }
}

/// Whether vertex attributes advance per vertex or per instance.
#[derive(Clone, Copy, Debug, PartialEq, Eq, Structural)]
pub enum VertexInputRate {
    Vertex,
    Instance,
}

impl VertexInputRate {
    /// The raw value of the Vulkan `VkVertexInputRate` this stands for.
    pub open spec fn to_vk_spec(self) -> i32 {
        match self {
            VertexInputRate::Vertex => 0,
            VertexInputRate::Instance => 1,
        }
    }

    /// The raw value of the Vulkan `VkVertexInputRate` this stands for.
    pub fn to_vk(&self) -> (r: i32)
        ensures r == self.to_vk_spec(),
    {
        match self {
            VertexInputRate::Vertex => 0,
            VertexInputRate::Instance => 1,
        }
    }

    /// The value a raw Vulkan `VkVertexInputRate` stands for, if it is one this library knows.
    pub open spec fn from_vk_spec(value: i32) -> Option<Self> {
        match value {
            0 => Some(VertexInputRate::Vertex),
            1 => Some(VertexInputRate::Instance),
            _ => None,
        }
    }

    /// The value a raw Vulkan `VkVertexInputRate` stands for; it must be one this library knows.
    pub fn from_vk(value: i32) -> (r: Self)
        requires Self::from_vk_spec(value).is_some(),
        ensures Some(r) == Self::from_vk_spec(value),
    {
        match value {
            0 => VertexInputRate::Vertex,
            1 => VertexInputRate::Instance,
            _ => VertexInputRate::Vertex,
        }
    }

    /// The value a raw Vulkan `VkVertexInputRate` stands for, if this library knows it.
    pub fn try_from_vk(value: i32) -> (r: Option<Self>)
        ensures r == Self::from_vk_spec(value),
    {
        match value {
            0 => Some(VertexInputRate::Vertex),
            1 => Some(VertexInputRate::Instance),
            _ => None,
        }
    }

    /// Converting to Vulkan and back gives the same value.
    pub proof fn lemma_vk_round_trip(self)
        ensures Self::from_vk_spec(self.to_vk_spec()) == Some(self),
    {
    }

    /// Every raw value this library knows converts back to itself.
    pub proof fn lemma_vk_raw_round_trip(value: i32)
        requires Self::from_vk_spec(value).is_some(),
        ensures Self::from_vk_spec(value).unwrap().to_vk_spec() == value,
    {
    }
}

/// How vertices are assembled into primitives.
#[derive(Clone, Copy, Debug, PartialEq, Eq, Structural)]
pub enum VertexTopology {
    PointList,
    LineList,
    LineStrip,
    LineListAdjacency,
    LineStripAdjacency,
    TriangleList,
    TriangleStrip,
    TriangleFan,
    TriangleListAdjacency,
    TriangleStripAdjacency,
    PatchList,
}

impl VertexTopology {
    /// The raw value of the Vulkan `VkPrimitiveTopology` this stands for.
    pub open spec fn to_vk_spec(self) -> i32 {
        match self {
            VertexTopology::PointList => 0,
            VertexTopology::LineList => 1,
            VertexTopology::LineStrip => 2,
            VertexTopology::LineListAdjacency => 6,
            VertexTopology::LineStripAdjacency => 7,
            VertexTopology::TriangleList => 3,
            VertexTopology::TriangleStrip => 4,
            VertexTopology::TriangleFan => 5,
            VertexTopology::TriangleListAdjacency => 8,
            VertexTopology::TriangleStripAdjacency => 9,
            VertexTopology::PatchList => 10,
        }
    }

    /// The raw value of the Vulkan `VkPrimitiveTopology` this stands for.
    pub fn to_vk(&self) -> (r: i32)
        ensures r == self.to_vk_spec(),
    {
        match self {
            VertexTopology::PointList => 0,
            VertexTopology::LineList => 1,
            VertexTopology::LineStrip => 2,
            VertexTopology::LineListAdjacency => 6,
            VertexTopology::LineStripAdjacency => 7,
            VertexTopology::TriangleList => 3,
            VertexTopology::TriangleStrip => 4,
            VertexTopology::TriangleFan => 5,
            VertexTopology::TriangleListAdjacency => 8,
            VertexTopology::TriangleStripAdjacency => 9,
            VertexTopology::PatchList => 10,
        }
    }

    /// The value a raw Vulkan `VkPrimitiveTopology` stands for, if it is one this library knows.
    pub open spec fn from_vk_spec(value: i32) -> Option<Self> {
        match value {
            0 => Some(VertexTopology::PointList),
            1 => Some(VertexTopology::LineList),
            2 => Some(VertexTopology::LineStrip),
            6 => Some(VertexTopology::LineListAdjacency),
            7 => Some(VertexTopology::LineStripAdjacency),
            3 => Some(VertexTopology::TriangleList),
            4 => Some(VertexTopology::TriangleStrip),
            5 => Some(VertexTopology::TriangleFan),
            8 => Some(VertexTopology::TriangleListAdjacency),
            9 => Some(VertexTopology::TriangleStripAdjacency),
            10 => Some(VertexTopology::PatchList),
            _ => None,
        }
    }

    /// The value a raw Vulkan `VkPrimitiveTopology` stands for; it must be one this library knows.
    pub fn from_vk(value: i32) -> (r: Self)
        requires Self::from_vk_spec(value).is_some(),
        ensures Some(r) == Self::from_vk_spec(value),
    {
        match value {
            0 => VertexTopology::PointList,
            1 => VertexTopology::LineList,
            2 => VertexTopology::LineStrip,
            6 => VertexTopology::LineListAdjacency,
            7 => VertexTopology::LineStripAdjacency,
            3 => VertexTopology::TriangleList,
            4 => VertexTopology::TriangleStrip,
            5 => VertexTopology::TriangleFan,
            8 => VertexTopology::TriangleListAdjacency,
            9 => VertexTopology::TriangleStripAdjacency,
            10 => VertexTopology::PatchList,
            _ => VertexTopology::PointList,
        }
    }

    /// The value a raw Vulkan `VkPrimitiveTopology` stands for, if this library knows it.
    pub fn try_from_vk(value: i32) -> (r: Option<Self>)
        ensures r == Self::from_vk_spec(value),
    {
        match value {
            0 => Some(VertexTopology::PointList),
            1 => Some(VertexTopology::LineList),
            2 => Some(VertexTopology::LineStrip),
            6 => Some(VertexTopology::LineListAdjacency),
            7 => Some(VertexTopology::LineStripAdjacency),
            3 => Some(VertexTopology::TriangleList),
            4 => Some(VertexTopology::TriangleStrip),
            5 => Some(VertexTopology::TriangleFan),
            8 => Some(VertexTopology::TriangleListAdjacency),
            9 => Some(VertexTopology::TriangleStripAdjacency),
            10 => Some(VertexTopology::PatchList),
            _ => None,
        }
    }

    /// Converting to Vulkan and back gives the same value.
    pub proof fn lemma_vk_round_trip(self)
        ensures Self::from_vk_spec(self.to_vk_spec()) == Some(self),
    {
    }

    /// Every raw value this library knows converts back to itself.
    pub proof fn lemma_vk_raw_round_trip(value: i32)
        requires Self::from_vk_spec(value).is_some(),
        ensures Self::from_vk_spec(value).unwrap().to_vk_spec() == value,
    {
    }
}

/// Which faces are culled.
#[derive(Clone, Copy, Debug, PartialEq, Eq, Structural)]
pub enum CullMode {
    FrontAndBack,
    Front,
    Back,
    Neither,
}

impl CullMode {
    /// The raw value of the Vulkan `VkCullModeFlags` this stands for.
    pub open spec fn to_vk_spec(self) -> u32 {
        match self {
            CullMode::FrontAndBack => 3,
            CullMode::Front => 1,
            CullMode::Back => 2,
            CullMode::Neither => 0,
        }
    }

    /// The raw value of the Vulkan `VkCullModeFlags` this stands for.
    pub fn to_vk(&self) -> (r: u32)
        ensures r == self.to_vk_spec(),
    {
        match self {
            CullMode::FrontAndBack => 3,
            CullMode::Front => 1,
            CullMode::Back => 2,
            CullMode::Neither => 0,
        }
    }

    /// The value a raw Vulkan `VkCullModeFlags` stands for, if it is one this library knows.
    pub open spec fn from_vk_spec(value: u32) -> Option<Self> {
        match value {
            3 => Some(CullMode::FrontAndBack),
            1 => Some(CullMode::Front),
            2 => Some(CullMode::Back),
            0 => Some(CullMode::Neither),
            _ => None,
        }
    }

    /// The value a raw Vulkan `VkCullModeFlags` stands for; it must be one this library knows.
    pub fn from_vk(value: u32) -> (r: Self)
        requires Self::from_vk_spec(value).is_some(),
        ensures Some(r) == Self::from_vk_spec(value),
    {
        match value {
            3 => CullMode::FrontAndBack,
            1 => CullMode::Front,
            2 => CullMode::Back,
            0 => CullMode::Neither,
            _ => CullMode::FrontAndBack,
        }
    }

    /// The value a raw Vulkan `VkCullModeFlags` stands for, if this library knows it.
    pub fn try_from_vk(value: u32) -> (r: Option<Self>)
        ensures r == Self::from_vk_spec(value),
    {
        match value {
            3 => Some(CullMode::FrontAndBack),
            1 => Some(CullMode::Front),
            2 => Some(CullMode::Back),
            0 => Some(CullMode::Neither),
            _ => None,
        }
    }

    /// Converting to Vulkan and back gives the same value.
    pub proof fn lemma_vk_round_trip(self)
        ensures Self::from_vk_spec(self.to_vk_spec()) == Some(self),
    {
    }

    /// Every raw value this library knows converts back to itself.
    pub proof fn lemma_vk_raw_round_trip(value: u32)
        requires Self::from_vk_spec(value).is_some(),
        ensures Self::from_vk_spec(value).unwrap().to_vk_spec() == value,
    {
    }
}

/// Which winding order counts as the front of a face.
#[derive(Clone, Copy, Debug, PartialEq, Eq, Structural)]
pub enum FrontFace {
    Clockwise,
    CounterClockwise,
}

impl FrontFace {
    /// The raw value of the Vulkan `VkFrontFace` this stands for.
    pub open spec fn to_vk_spec(self) -> i32 {
        match self {
            FrontFace::Clockwise => 1,
            FrontFace::CounterClockwise => 0,
        }
    }

    /// The raw value of the Vulkan `VkFrontFace` this stands for.
    pub fn to_vk(&self) -> (r: i32)
        ensures r == self.to_vk_spec(),
    {
        match self {
            FrontFace::Clockwise => 1,
            FrontFace::CounterClockwise => 0,
        }
    }

    /// The value a raw Vulkan `VkFrontFace` stands for, if it is one this library knows.
    pub open spec fn from_vk_spec(value: i32) -> Option<Self> {
        match value {
            1 => Some(FrontFace::Clockwise),
            0 => Some(FrontFace::CounterClockwise),
            _ => None,
        }
    }

    /// The value a raw Vulkan `VkFrontFace` stands for; it must be one this library knows.
    pub fn from_vk(value: i32) -> (r: Self)
        requires Self::from_vk_spec(value).is_some(),
        ensures Some(r) == Self::from_vk_spec(value),
    {
        match value {
            1 => FrontFace::Clockwise,
            0 => FrontFace::CounterClockwise,
            _ => FrontFace::Clockwise,
        }
    }

    /// The value a raw Vulkan `VkFrontFace` stands for, if this library knows it.
    pub fn try_from_vk(value: i32) -> (r: Option<Self>)
        ensures r == Self::from_vk_spec(value),
    {
        match value {
            1 => Some(FrontFace::Clockwise),
            0 => Some(FrontFace::CounterClockwise),
            _ => None,
        }
    }

    /// Converting to Vulkan and back gives the same value.
    pub proof fn lemma_vk_round_trip(self)
        ensures Self::from_vk_spec(self.to_vk_spec()) == Some(self),
    {
    }

    /// Every raw value this library knows converts back to itself.
    pub proof fn lemma_vk_raw_round_trip(value: i32)
        requires Self::from_vk_spec(value).is_some(),
        ensures Self::from_vk_spec(value).unwrap().to_vk_spec() == value,
    {
    }
}

/// How polygons are rasterized.
#[derive(Clone, Copy, Debug, PartialEq, Eq, Structural)]
pub enum DrawMode {
    Point,
    Line,
    Fill,
}

impl DrawMode {
    /// The raw value of the Vulkan `VkPolygonMode` this stands for.
    pub open spec fn to_vk_spec(self) -> i32 {
        match self {
            DrawMode::Point => 2,
            DrawMode::Line => 1,
            DrawMode::Fill => 0,
        }
    }

    /// The raw value of the Vulkan `VkPolygonMode` this stands for.
    pub fn to_vk(&self) -> (r: i32)
        ensures r == self.to_vk_spec(),
    {
        match self {
            DrawMode::Point => 2,
            DrawMode::Line => 1,
            DrawMode::Fill => 0,
        }
    }

    /// The value a raw Vulkan `VkPolygonMode` stands for, if it is one this library knows.
    pub open spec fn from_vk_spec(value: i32) -> Option<Self> {
        match value {
            2 => Some(DrawMode::Point),
            1 => Some(DrawMode::Line),
            0 => Some(DrawMode::Fill),
            _ => None,
        }
    }

    /// The value a raw Vulkan `VkPolygonMode` stands for; it must be one this library knows.
    pub fn from_vk(value: i32) -> (r: Self)
        requires Self::from_vk_spec(value).is_some(),
        ensures Some(r) == Self::from_vk_spec(value),
    {
        match value {
            2 => DrawMode::Point,
            1 => DrawMode::Line,
            0 => DrawMode::Fill,
            _ => DrawMode::Point,
        }
    }

    /// The value a raw Vulkan `VkPolygonMode` stands for, if this library knows it.
    pub fn try_from_vk(value: i32) -> (r: Option<Self>)
        ensures r == Self::from_vk_spec(value),
    {
        match value {
            2 => Some(DrawMode::Point),
            1 => Some(DrawMode::Line),
            0 => Some(DrawMode::Fill),
            _ => None,
        }
    }

    /// Converting to Vulkan and back gives the same value.
    pub proof fn lemma_vk_round_trip(self)
        ensures Self::from_vk_spec(self.to_vk_spec()) == Some(self),
    {
    }

    /// Every raw value this library knows converts back to itself.
    pub proof fn lemma_vk_raw_round_trip(value: i32)
        requires Self::from_vk_spec(value).is_some(),
        ensures Self::from_vk_spec(value).unwrap().to_vk_spec() == value,
    {
    }
}

/// The number of samples per pixel.
#[derive(Clone, Copy, Debug, PartialEq, Eq, Structural)]
pub enum SampleCount {
    One,
    Two,
    Four,
    Eight,
    Sixteen,
    ThirtyTwo,
    SixtyFour,
}

impl SampleCount {
    /// The raw value of the Vulkan `VkSampleCountFlags` this stands for.
    pub open spec fn to_vk_spec(self) -> u32 {
        match self {
            SampleCount::One => 1,
            SampleCount::Two => 2,
            SampleCount::Four => 4,
            SampleCount::Eight => 8,
            SampleCount::Sixteen => 16,
            SampleCount::ThirtyTwo => 32,
            SampleCount::SixtyFour => 64,
        }
    }

    /// The raw value of the Vulkan `VkSampleCountFlags` this stands for.
    pub fn to_vk(&self) -> (r: u32)
        ensures r == self.to_vk_spec(),
    {
        match self {
            SampleCount::One => 1,
            SampleCount::Two => 2,
            SampleCount::Four => 4,
            SampleCount::Eight => 8,
            SampleCount::Sixteen => 16,
            SampleCount::ThirtyTwo => 32,
            SampleCount::SixtyFour => 64,
        }
    }

    /// The value a raw Vulkan `VkSampleCountFlags` stands for, if it is one this library knows.
    pub open spec fn from_vk_spec(value: u32) -> Option<Self> {
        match value {
            1 => Some(SampleCount::One),
            2 => Some(SampleCount::Two),
            4 => Some(SampleCount::Four),
            8 => Some(SampleCount::Eight),
            16 => Some(SampleCount::Sixteen),
            32 => Some(SampleCount::ThirtyTwo),
            64 => Some(SampleCount::SixtyFour),
            _ => None,
        }
    }

    /// The value a raw Vulkan `VkSampleCountFlags` stands for; it must be one this library knows.
    pub fn from_vk(value: u32) -> (r: Self)
        requires Self::from_vk_spec(value).is_some(),
        ensures Some(r) == Self::from_vk_spec(value),
    {
        match value {
            1 => SampleCount::One,
            2 => SampleCount::Two,
            4 => SampleCount::Four,
            8 => SampleCount::Eight,
            16 => SampleCount::Sixteen,
            32 => SampleCount::ThirtyTwo,
            64 => SampleCount::SixtyFour,
            _ => SampleCount::One,
        }
    }

    /// The value a raw Vulkan `VkSampleCountFlags` stands for, if this library knows it.
    pub fn try_from_vk(value: u32) -> (r: Option<Self>)
        ensures r == Self::from_vk_spec(value),
    {
        match value {
            1 => Some(SampleCount::One),
            2 => Some(SampleCount::Two),
            4 => Some(SampleCount::Four),
            8 => Some(SampleCount::Eight),
            16 => Some(SampleCount::Sixteen),
            32 => Some(SampleCount::ThirtyTwo),
            64 => Some(SampleCount::SixtyFour),
            _ => None,
        }
    }

    /// Converting to Vulkan and back gives the same value.
    pub proof fn lemma_vk_round_trip(self)
        ensures Self::from_vk_spec(self.to_vk_spec()) == Some(self),
    {
    }

    /// Every raw value this library knows converts back to itself.
    pub proof fn lemma_vk_raw_round_trip(value: u32)
        requires Self::from_vk_spec(value).is_some(),
        ensures Self::from_vk_spec(value).unwrap().to_vk_spec() == value,
    {
    }
}

/// What happens to a stencil value after a test.
#[derive(Clone, Copy, Debug, PartialEq, Eq, Structural)]
pub enum StencilOp {
    Keep,
    Zero,
    Replace,
    Invert,
    IncrementClamp,
    DecrementClamp,
    IncrementWrap,
    DecrementWrap,
}

impl StencilOp {
    /// The raw value of the Vulkan `VkStencilOp` this stands for.
    pub open spec fn to_vk_spec(self) -> i32 {
        match self {
            StencilOp::Keep => 0,
            StencilOp::Zero => 1,
            StencilOp::Replace => 2,
            StencilOp::Invert => 5,
            StencilOp::IncrementClamp => 3,
            StencilOp::DecrementClamp => 4,
            StencilOp::IncrementWrap => 6,
            StencilOp::DecrementWrap => 7,
        }
    }

    /// The raw value of the Vulkan `VkStencilOp` this stands for.
    pub fn to_vk(&self) -> (r: i32)
        ensures r == self.to_vk_spec(),
    {
        match self {
            StencilOp::Keep => 0,
            StencilOp::Zero => 1,
            StencilOp::Replace => 2,
            StencilOp::Invert => 5,
            StencilOp::IncrementClamp => 3,
            StencilOp::DecrementClamp => 4,
            StencilOp::IncrementWrap => 6,
            StencilOp::DecrementWrap => 7,
        }
    }

    /// The value a raw Vulkan `VkStencilOp` stands for, if it is one this library knows.
    pub open spec fn from_vk_spec(value: i32) -> Option<Self> {
        match value {
            0 => Some(StencilOp::Keep),
            1 => Some(StencilOp::Zero),
            2 => Some(StencilOp::Replace),
            5 => Some(StencilOp::Invert),
            3 => Some(StencilOp::IncrementClamp),
            4 => Some(StencilOp::DecrementClamp),
            6 => Some(StencilOp::IncrementWrap),
            7 => Some(StencilOp::DecrementWrap),
            _ => None,
        }
    }

    /// The value a raw Vulkan `VkStencilOp` stands for; it must be one this library knows.
    pub fn from_vk(value: i32) -> (r: Self)
        requires Self::from_vk_spec(value).is_some(),
        ensures Some(r) == Self::from_vk_spec(value),
    {
        match value {
            0 => StencilOp::Keep,
            1 => StencilOp::Zero,
            2 => StencilOp::Replace,
            5 => StencilOp::Invert,
            3 => StencilOp::IncrementClamp,
            4 => StencilOp::DecrementClamp,
            6 => StencilOp::IncrementWrap,
            7 => StencilOp::DecrementWrap,
            _ => StencilOp::Keep,
        }
    }

    /// The value a raw Vulkan `VkStencilOp` stands for, if this library knows it.
    pub fn try_from_vk(value: i32) -> (r: Option<Self>)
        ensures r == Self::from_vk_spec(value),
    {
        match value {
            0 => Some(StencilOp::Keep),
            1 => Some(StencilOp::Zero),
            2 => Some(StencilOp::Replace),
            5 => Some(StencilOp::Invert),
            3 => Some(StencilOp::IncrementClamp),
            4 => Some(StencilOp::DecrementClamp),
            6 => Some(StencilOp::IncrementWrap),
            7 => Some(StencilOp::DecrementWrap),
            _ => None,
        }
    }

    /// Converting to Vulkan and back gives the same value.
    pub proof fn lemma_vk_round_trip(self)
        ensures Self::from_vk_spec(self.to_vk_spec()) == Some(self),
    {
    }

    /// Every raw value this library knows converts back to itself.
    pub proof fn lemma_vk_raw_round_trip(value: i32)
        requires Self::from_vk_spec(value).is_some(),
        ensures Self::from_vk_spec(value).unwrap().to_vk_spec() == value,
    {
    }
}

/// A comparison for depth and stencil tests.
#[derive(Clone, Copy, Debug, PartialEq, Eq, Structural)]
pub enum CompareOp {
    Always,
    Never,
    Less,
    LessEq,
    Greater,
    GreaterEq,
    Equal,
    NotEqual,
}

impl CompareOp {
    /// The raw value of the Vulkan `VkCompareOp` this stands for.
    pub open spec fn to_vk_spec(self) -> i32 {
        match self {
            CompareOp::Always => 7,
            CompareOp::Never => 0,
            CompareOp::Less => 1,
            CompareOp::LessEq => 3,
            CompareOp::Greater => 4,
            CompareOp::GreaterEq => 6,
            CompareOp::Equal => 2,
            CompareOp::NotEqual => 5,
        }
    }

    /// The raw value of the Vulkan `VkCompareOp` this stands for.
    pub fn to_vk(&self) -> (r: i32)
        ensures r == self.to_vk_spec(),
    {
        match self {
            CompareOp::Always => 7,
            CompareOp::Never => 0,
            CompareOp::Less => 1,
            CompareOp::LessEq => 3,
            CompareOp::Greater => 4,
            CompareOp::GreaterEq => 6,
            CompareOp::Equal => 2,
            CompareOp::NotEqual => 5,
        }
    }

    /// The value a raw Vulkan `VkCompareOp` stands for, if it is one this library knows.
    pub open spec fn from_vk_spec(value: i32) -> Option<Self> {
        match value {
            7 => Some(CompareOp::Always),
            0 => Some(CompareOp::Never),
            1 => Some(CompareOp::Less),
            3 => Some(CompareOp::LessEq),
            4 => Some(CompareOp::Greater),
            6 => Some(CompareOp::GreaterEq),
            2 => Some(CompareOp::Equal),
            5 => Some(CompareOp::NotEqual),
            _ => None,
        }
    }

    /// The value a raw Vulkan `VkCompareOp` stands for; it must be one this library knows.
    pub fn from_vk(value: i32) -> (r: Self)
        requires Self::from_vk_spec(value).is_some(),
        ensures Some(r) == Self::from_vk_spec(value),
    {
        match value {
            7 => CompareOp::Always,
            0 => CompareOp::Never,
            1 => CompareOp::Less,
            3 => CompareOp::LessEq,
            4 => CompareOp::Greater,
            6 => CompareOp::GreaterEq,
            2 => CompareOp::Equal,
            5 => CompareOp::NotEqual,
            _ => CompareOp::Always,
        }
    }

    /// The value a raw Vulkan `VkCompareOp` stands for, if this library knows it.
    pub fn try_from_vk(value: i32) -> (r: Option<Self>)
        ensures r == Self::from_vk_spec(value),
    {
        match value {
            7 => Some(CompareOp::Always),
            0 => Some(CompareOp::Never),
            1 => Some(CompareOp::Less),
            3 => Some(CompareOp::LessEq),
            4 => Some(CompareOp::Greater),
            6 => Some(CompareOp::GreaterEq),
            2 => Some(CompareOp::Equal),
            5 => Some(CompareOp::NotEqual),
            _ => None,
        }
    }

    /// Converting to Vulkan and back gives the same value.
    pub proof fn lemma_vk_round_trip(self)
        ensures Self::from_vk_spec(self.to_vk_spec()) == Some(self),
    {
    }

    /// Every raw value this library knows converts back to itself.
    pub proof fn lemma_vk_raw_round_trip(value: i32)
        requires Self::from_vk_spec(value).is_some(),
        ensures Self::from_vk_spec(value).unwrap().to_vk_spec() == value,
    {
    }
}

/// A logic operation for colour blending.
#[derive(Clone, Copy, Debug, PartialEq, Eq, Structural)]
pub enum LogicOp {
    NoOp,
    Clear,
    SetAll,
    Copy,
    CopyInv,
    Not,
    And,
    AndInv,
    AndRev,
    NAnd,
    Xor,
    NXor,
    Or,
    OrInv,
    OrRev,
    NOr,
}

impl LogicOp {
    /// The raw value of the Vulkan `VkLogicOp` this stands for.
    pub open spec fn to_vk_spec(self) -> i32 {
        match self {
            LogicOp::NoOp => 5,
            LogicOp::Clear => 0,
            LogicOp::SetAll => 15,
            LogicOp::Copy => 3,
            LogicOp::CopyInv => 12,
            LogicOp::Not => 10,
            LogicOp::And => 1,
            LogicOp::AndInv => 4,
            LogicOp::AndRev => 2,
            LogicOp::NAnd => 14,
            LogicOp::Xor => 6,
            LogicOp::NXor => 9,
            LogicOp::Or => 7,
            LogicOp::OrInv => 13,
            LogicOp::OrRev => 11,
            LogicOp::NOr => 8,
        }
    }

    /// The raw value of the Vulkan `VkLogicOp` this stands for.
    pub fn to_vk(&self) -> (r: i32)
        ensures r == self.to_vk_spec(),
    {
        match self {
            LogicOp::NoOp => 5,
            LogicOp::Clear => 0,
            LogicOp::SetAll => 15,
            LogicOp::Copy => 3,
            LogicOp::CopyInv => 12,
            LogicOp::Not => 10,
            LogicOp::And => 1,
            LogicOp::AndInv => 4,
            LogicOp::AndRev => 2,
            LogicOp::NAnd => 14,
            LogicOp::Xor => 6,
            LogicOp::NXor => 9,
            LogicOp::Or => 7,
            LogicOp::OrInv => 13,
            LogicOp::OrRev => 11,
            LogicOp::NOr => 8,
        }
    }

    /// The value a raw Vulkan `VkLogicOp` stands for, if it is one this library knows.
    pub open spec fn from_vk_spec(value: i32) -> Option<Self> {
        match value {
            5 => Some(LogicOp::NoOp),
            0 => Some(LogicOp::Clear),
            15 => Some(LogicOp::SetAll),
            3 => Some(LogicOp::Copy),
            12 => Some(LogicOp::CopyInv),
            10 => Some(LogicOp::Not),
            1 => Some(LogicOp::And),
            4 => Some(LogicOp::AndInv),
            2 => Some(LogicOp::AndRev),
            14 => Some(LogicOp::NAnd),
            6 => Some(LogicOp::Xor),
            9 => Some(LogicOp::NXor),
            7 => Some(LogicOp::Or),
            13 => Some(LogicOp::OrInv),
            11 => Some(LogicOp::OrRev),
            8 => Some(LogicOp::NOr),
            _ => None,
        }
    }

    /// The value a raw Vulkan `VkLogicOp` stands for; it must be one this library knows.
    pub fn from_vk(value: i32) -> (r: Self)
        requires Self::from_vk_spec(value).is_some(),
        ensures Some(r) == Self::from_vk_spec(value),
    {
        match value {
            5 => LogicOp::NoOp,
            0 => LogicOp::Clear,
            15 => LogicOp::SetAll,
            3 => LogicOp::Copy,
            12 => LogicOp::CopyInv,
            10 => LogicOp::Not,
            1 => LogicOp::And,
            4 => LogicOp::AndInv,
            2 => LogicOp::AndRev,
            14 => LogicOp::NAnd,
            6 => LogicOp::Xor,
            9 => LogicOp::NXor,
            7 => LogicOp::Or,
            13 => LogicOp::OrInv,
            11 => LogicOp::OrRev,
            8 => LogicOp::NOr,
            _ => LogicOp::NoOp,
        }
    }

    /// The value a raw Vulkan `VkLogicOp` stands for, if this library knows it.
    pub fn try_from_vk(value: i32) -> (r: Option<Self>)
        ensures r == Self::from_vk_spec(value),
    {
        match value {
            5 => Some(LogicOp::NoOp),
            0 => Some(LogicOp::Clear),
            15 => Some(LogicOp::SetAll),
            3 => Some(LogicOp::Copy),
            12 => Some(LogicOp::CopyInv),
            10 => Some(LogicOp::Not),
            1 => Some(LogicOp::And),
            4 => Some(LogicOp::AndInv),
            2 => Some(LogicOp::AndRev),
            14 => Some(LogicOp::NAnd),
            6 => Some(LogicOp::Xor),
            9 => Some(LogicOp::NXor),
            7 => Some(LogicOp::Or),
            13 => Some(LogicOp::OrInv),
            11 => Some(LogicOp::OrRev),
            8 => Some(LogicOp::NOr),
            _ => None,
        }
    }

    /// Converting to Vulkan and back gives the same value.
    pub proof fn lemma_vk_round_trip(self)
        ensures Self::from_vk_spec(self.to_vk_spec()) == Some(self),
    {
    }

    /// Every raw value this library knows converts back to itself.
    pub proof fn lemma_vk_raw_round_trip(value: i32)
        requires Self::from_vk_spec(value).is_some(),
        ensures Self::from_vk_spec(value).unwrap().to_vk_spec() == value,
    {
    }
}

/// A factor in a blend equation.
#[derive(Clone, Copy, Debug, PartialEq, Eq, Structural)]
pub enum BlendFactor {
    Zero,
    One,
    SrcColour,
    OneMinusSrcColour,
    DstColour,
    OneMinusDstColour,
    SrcAlpha,
    OneMinusSrcAlpha,
    DstAlpha,
    OneMinusDstAlpha,
    ConstColour,
    OneMinusConstColour,
    ConstAlpha,
    OneMinusConstAlpha,
    SrcColour2,
    OneMinusSrcColour2,
    SrcAlpha2,
    OneMinusSrcAlpha2,
    SrcAlphaSaturate,
}

impl BlendFactor {
    /// The raw value of the Vulkan `VkBlendFactor` this stands for.
    pub open spec fn to_vk_spec(self) -> i32 {
        match self {
            BlendFactor::Zero => 0,
            BlendFactor::One => 1,
            BlendFactor::SrcColour => 2,
            BlendFactor::OneMinusSrcColour => 3,
            BlendFactor::DstColour => 4,
            BlendFactor::OneMinusDstColour => 5,
            BlendFactor::SrcAlpha => 6,
            BlendFactor::OneMinusSrcAlpha => 7,
            BlendFactor::DstAlpha => 8,
            BlendFactor::OneMinusDstAlpha => 9,
            BlendFactor::ConstColour => 10,
            BlendFactor::OneMinusConstColour => 11,
            BlendFactor::ConstAlpha => 12,
            BlendFactor::OneMinusConstAlpha => 13,
            BlendFactor::SrcColour2 => 15,
            BlendFactor::OneMinusSrcColour2 => 16,
            BlendFactor::SrcAlpha2 => 17,
            BlendFactor::OneMinusSrcAlpha2 => 18,
            BlendFactor::SrcAlphaSaturate => 14,
        }
    }

    /// The raw value of the Vulkan `VkBlendFactor` this stands for.
    pub fn to_vk(&self) -> (r: i32)
        ensures r == self.to_vk_spec(),
    {
        match self {
            BlendFactor::Zero => 0,
            BlendFactor::One => 1,
            BlendFactor::SrcColour => 2,
            BlendFactor::OneMinusSrcColour => 3,
            BlendFactor::DstColour => 4,
            BlendFactor::OneMinusDstColour => 5,
            BlendFactor::SrcAlpha => 6,
            BlendFactor::OneMinusSrcAlpha => 7,
            BlendFactor::DstAlpha => 8,
            BlendFactor::OneMinusDstAlpha => 9,
            BlendFactor::ConstColour => 10,
            BlendFactor::OneMinusConstColour => 11,
            BlendFactor::ConstAlpha => 12,
            BlendFactor::OneMinusConstAlpha => 13,
            BlendFactor::SrcColour2 => 15,
            BlendFactor::OneMinusSrcColour2 => 16,
            BlendFactor::SrcAlpha2 => 17,
            BlendFactor::OneMinusSrcAlpha2 => 18,
            BlendFactor::SrcAlphaSaturate => 14,
        }
    }

    /// The value a raw Vulkan `VkBlendFactor` stands for, if it is one this library knows.
    pub open spec fn from_vk_spec(value: i32) -> Option<Self> {
        match value {
            0 => Some(BlendFactor::Zero),
            1 => Some(BlendFactor::One),
            2 => Some(BlendFactor::SrcColour),
            3 => Some(BlendFactor::OneMinusSrcColour),
            4 => Some(BlendFactor::DstColour),
            5 => Some(BlendFactor::OneMinusDstColour),
            6 => Some(BlendFactor::SrcAlpha),
            7 => Some(BlendFactor::OneMinusSrcAlpha),
            8 => Some(BlendFactor::DstAlpha),
            9 => Some(BlendFactor::OneMinusDstAlpha),
            10 => Some(BlendFactor::ConstColour),
            11 => Some(BlendFactor::OneMinusConstColour),
            12 => Some(BlendFactor::ConstAlpha),
            13 => Some(BlendFactor::OneMinusConstAlpha),
            15 => Some(BlendFactor::SrcColour2),
            16 => Some(BlendFactor::OneMinusSrcColour2),
            17 => Some(BlendFactor::SrcAlpha2),
            18 => Some(BlendFactor::OneMinusSrcAlpha2),
            14 => Some(BlendFactor::SrcAlphaSaturate),
            _ => None,
        }
    }

    /// The value a raw Vulkan `VkBlendFactor` stands for; it must be one this library knows.
    pub fn from_vk(value: i32) -> (r: Self)
        requires Self::from_vk_spec(value).is_some(),
        ensures Some(r) == Self::from_vk_spec(value),
    {
        match value {
            0 => BlendFactor::Zero,
            1 => BlendFactor::One,
            2 => BlendFactor::SrcColour,
            3 => BlendFactor::OneMinusSrcColour,
            4 => BlendFactor::DstColour,
            5 => BlendFactor::OneMinusDstColour,
            6 => BlendFactor::SrcAlpha,
            7 => BlendFactor::OneMinusSrcAlpha,
            8 => BlendFactor::DstAlpha,
            9 => BlendFactor::OneMinusDstAlpha,
            10 => BlendFactor::ConstColour,
            11 => BlendFactor::OneMinusConstColour,
            12 => BlendFactor::ConstAlpha,
            13 => BlendFactor::OneMinusConstAlpha,
            15 => BlendFactor::SrcColour2,
            16 => BlendFactor::OneMinusSrcColour2,
            17 => BlendFactor::SrcAlpha2,
            18 => BlendFactor::OneMinusSrcAlpha2,
            14 => BlendFactor::SrcAlphaSaturate,
            _ => BlendFactor::Zero,
        }
    }

    /// The value a raw Vulkan `VkBlendFactor` stands for, if this library knows it.
    pub fn try_from_vk(value: i32) -> (r: Option<Self>)
        ensures r == Self::from_vk_spec(value),
    {
        match value {
            0 => Some(BlendFactor::Zero),
            1 => Some(BlendFactor::One),
            2 => Some(BlendFactor::SrcColour),
            3 => Some(BlendFactor::OneMinusSrcColour),
            4 => Some(BlendFactor::DstColour),
            5 => Some(BlendFactor::OneMinusDstColour),
            6 => Some(BlendFactor::SrcAlpha),
            7 => Some(BlendFactor::OneMinusSrcAlpha),
            8 => Some(BlendFactor::DstAlpha),
            9 => Some(BlendFactor::OneMinusDstAlpha),
            10 => Some(BlendFactor::ConstColour),
            11 => Some(BlendFactor::OneMinusConstColour),
            12 => Some(BlendFactor::ConstAlpha),
            13 => Some(BlendFactor::OneMinusConstAlpha),
            15 => Some(BlendFactor::SrcColour2),
            16 => Some(BlendFactor::OneMinusSrcColour2),
            17 => Some(BlendFactor::SrcAlpha2),
            18 => Some(BlendFactor::OneMinusSrcAlpha2),
            14 => Some(BlendFactor::SrcAlphaSaturate),
            _ => None,
        }
    }

    /// Converting to Vulkan and back gives the same value.
    pub proof fn lemma_vk_round_trip(self)
        ensures Self::from_vk_spec(self.to_vk_spec()) == Some(self),
    {
    }

    /// Every raw value this library knows converts back to itself.
    pub proof fn lemma_vk_raw_round_trip(value: i32)
        requires Self::from_vk_spec(value).is_some(),
        ensures Self::from_vk_spec(value).unwrap().to_vk_spec() == value,
    {
    }
}

/// An operation in a blend equation.
#[derive(Clone, Copy, Debug, PartialEq, Eq, Structural)]
pub enum BlendOp {
    Add,
    Sub,
    SubRev,
    Min,
    Max,
}

impl BlendOp {
    /// The raw value of the Vulkan `VkBlendOp` this stands for.
    pub open spec fn to_vk_spec(self) -> i32 {
        match self {
            BlendOp::Add => 0,
            BlendOp::Sub => 1,
            BlendOp::SubRev => 2,
            BlendOp::Min => 3,
            BlendOp::Max => 4,
        }
    }

    /// The raw value of the Vulkan `VkBlendOp` this stands for.
    pub fn to_vk(&self) -> (r: i32)
        ensures r == self.to_vk_spec(),
    {
        match self {
            BlendOp::Add => 0,
            BlendOp::Sub => 1,
            BlendOp::SubRev => 2,
            BlendOp::Min => 3,
            BlendOp::Max => 4,
        }
    }

    /// The value a raw Vulkan `VkBlendOp` stands for, if it is one this library knows.
    pub open spec fn from_vk_spec(value: i32) -> Option<Self> {
        match value {
            0 => Some(BlendOp::Add),
            1 => Some(BlendOp::Sub),
            2 => Some(BlendOp::SubRev),
            3 => Some(BlendOp::Min),
            4 => Some(BlendOp::Max),
            _ => None,
        }
    }

    /// The value a raw Vulkan `VkBlendOp` stands for; it must be one this library knows.
    pub fn from_vk(value: i32) -> (r: Self)
        requires Self::from_vk_spec(value).is_some(),
        ensures Some(r) == Self::from_vk_spec(value),
    {
        match value {
            0 => BlendOp::Add,
            1 => BlendOp::Sub,
            2 => BlendOp::SubRev,
            3 => BlendOp::Min,
            4 => BlendOp::Max,
            _ => BlendOp::Add,
        }
    }

    /// The value a raw Vulkan `VkBlendOp` stands for, if this library knows it.
    pub fn try_from_vk(value: i32) -> (r: Option<Self>)
        ensures r == Self::from_vk_spec(value),
    {
        match value {
            0 => Some(BlendOp::Add),
            1 => Some(BlendOp::Sub),
            2 => Some(BlendOp::SubRev),
            3 => Some(BlendOp::Min),
            4 => Some(BlendOp::Max),
            _ => None,
        }
    }

    /// Converting to Vulkan and back gives the same value.
    pub proof fn lemma_vk_round_trip(self)
        ensures Self::from_vk_spec(self.to_vk_spec()) == Some(self),
    {
    }

    /// Every raw value this library knows converts back to itself.
    pub proof fn lemma_vk_raw_round_trip(value: i32)
        requires Self::from_vk_spec(value).is_some(),
        ensures Self::from_vk_spec(value).unwrap().to_vk_spec() == value,
    {
    }
}

/// The level of a command buffer.
#[derive(Clone, Copy, Debug, PartialEq, Eq, Structural)]
pub enum CommandBufferLevel {
    Primary,
    Secondary,
}

impl CommandBufferLevel {
    /// The raw value of the Vulkan `VkCommandBufferLevel` this stands for.
    pub open spec fn to_vk_spec(self) -> i32 {
        match self {
            CommandBufferLevel::Primary => 0,
            CommandBufferLevel::Secondary => 1,
        }
    }

    /// The raw value of the Vulkan `VkCommandBufferLevel` this stands for.
    pub fn to_vk(&self) -> (r: i32)
        ensures r == self.to_vk_spec(),
    {
        match self {
            CommandBufferLevel::Primary => 0,
            CommandBufferLevel::Secondary => 1,
        }
    }

    /// The value a raw Vulkan `VkCommandBufferLevel` stands for, if it is one this library knows.
    pub open spec fn from_vk_spec(value: i32) -> Option<Self> {
        match value {
            0 => Some(CommandBufferLevel::Primary),
            1 => Some(CommandBufferLevel::Secondary),
            _ => None,
        }
    }

    /// The value a raw Vulkan `VkCommandBufferLevel` stands for; it must be one this library knows.
    pub fn from_vk(value: i32) -> (r: Self)
        requires Self::from_vk_spec(value).is_some(),
        ensures Some(r) == Self::from_vk_spec(value),
    {
        match value {
            0 => CommandBufferLevel::Primary,
            1 => CommandBufferLevel::Secondary,
            _ => CommandBufferLevel::Primary,
        }
    }

    /// The value a raw Vulkan `VkCommandBufferLevel` stands for, if this library knows it.
    pub fn try_from_vk(value: i32) -> (r: Option<Self>)
        ensures r == Self::from_vk_spec(value),
    {
        match value {
            0 => Some(CommandBufferLevel::Primary),
            1 => Some(CommandBufferLevel::Secondary),
            _ => None,
        }
    }

    /// Converting to Vulkan and back gives the same value.
    pub proof fn lemma_vk_round_trip(self)
        ensures Self::from_vk_spec(self.to_vk_spec()) == Some(self),
    {
    }

    /// Every raw value this library knows converts back to itself.
    pub proof fn lemma_vk_raw_round_trip(value: i32)
        requires Self::from_vk_spec(value).is_some(),
        ensures Self::from_vk_spec(value).unwrap().to_vk_spec() == value,
    {
    }
}

/// The dimensionality of an image view.
#[derive(Clone, Copy, Debug, PartialEq, Eq, Structural)]
pub enum ImageViewKind {
    OneD,
    OneDArray,
    TwoD,
    TwoDArray,
    ThreeD,
    Cube,
    CubeArray,
}

impl ImageViewKind {
    /// The raw value of the Vulkan `VkImageViewType` this stands for.
    pub open spec fn to_vk_spec(self) -> i32 {
        match self {
            ImageViewKind::OneD => 0,
            ImageViewKind::OneDArray => 4,
            ImageViewKind::TwoD => 1,
            ImageViewKind::TwoDArray => 5,
            ImageViewKind::ThreeD => 2,
            ImageViewKind::Cube => 3,
            ImageViewKind::CubeArray => 6,
        }
    }

    /// The raw value of the Vulkan `VkImageViewType` this stands for.
    pub fn to_vk(&self) -> (r: i32)
        ensures r == self.to_vk_spec(),
    {
        match self {
            ImageViewKind::OneD => 0,
            ImageViewKind::OneDArray => 4,
            ImageViewKind::TwoD => 1,
            ImageViewKind::TwoDArray => 5,
            ImageViewKind::ThreeD => 2,
            ImageViewKind::Cube => 3,
            ImageViewKind::CubeArray => 6,
        }
    }

    /// The value a raw Vulkan `VkImageViewType` stands for, if it is one this library knows.
    pub open spec fn from_vk_spec(value: i32) -> Option<Self> {
        match value {
            0 => Some(ImageViewKind::OneD),
            4 => Some(ImageViewKind::OneDArray),
            1 => Some(ImageViewKind::TwoD),
            5 => Some(ImageViewKind::TwoDArray),
            2 => Some(ImageViewKind::ThreeD),
            3 => Some(ImageViewKind::Cube),
            6 => Some(ImageViewKind::CubeArray),
            _ => None,
        }
    }

    /// The value a raw Vulkan `VkImageViewType` stands for; it must be one this library knows.
    pub fn from_vk(value: i32) -> (r: Self)
        requires Self::from_vk_spec(value).is_some(),
        ensures Some(r) == Self::from_vk_spec(value),
    {
        match value {
            0 => ImageViewKind::OneD,
            4 => ImageViewKind::OneDArray,
            1 => ImageViewKind::TwoD,
            5 => ImageViewKind::TwoDArray,
            2 => ImageViewKind::ThreeD,
            3 => ImageViewKind::Cube,
            6 => ImageViewKind::CubeArray,
            _ => ImageViewKind::OneD,
        }
    }

    /// The value a raw Vulkan `VkImageViewType` stands for, if this library knows it.
    pub fn try_from_vk(value: i32) -> (r: Option<Self>)
        ensures r == Self::from_vk_spec(value),
    {
        match value {
            0 => Some(ImageViewKind::OneD),
            4 => Some(ImageViewKind::OneDArray),
            1 => Some(ImageViewKind::TwoD),
            5 => Some(ImageViewKind::TwoDArray),
            2 => Some(ImageViewKind::ThreeD),
            3 => Some(ImageViewKind::Cube),
            6 => Some(ImageViewKind::CubeArray),
            _ => None,
        }
    }

    /// Converting to Vulkan and back gives the same value.
    pub proof fn lemma_vk_round_trip(self)
        ensures Self::from_vk_spec(self.to_vk_spec()) == Some(self),
    {
    }

    /// Every raw value this library knows converts back to itself.
    pub proof fn lemma_vk_raw_round_trip(value: i32)
        requires Self::from_vk_spec(value).is_some(),
        ensures Self::from_vk_spec(value).unwrap().to_vk_spec() == value,
    {
    }

    /// The name shown to users.
    pub open spec fn name_spec(self) -> &'static str {
        match self {
            ImageViewKind::OneD => "1D",
            ImageViewKind::OneDArray => "1D (Array)",
            ImageViewKind::TwoD => "2D",
            ImageViewKind::TwoDArray => "2D (Array)",
            ImageViewKind::ThreeD => "3D",
            ImageViewKind::Cube => "Cube",
            ImageViewKind::CubeArray => "Cube (Array)",
        }
    }

    /// The name shown to users.
    pub fn name(&self) -> (r: &'static str)
        ensures r == self.name_spec(),
    {
        match self {
            ImageViewKind::OneD => "1D",
            ImageViewKind::OneDArray => "1D (Array)",
            ImageViewKind::TwoD => "2D",
            ImageViewKind::TwoDArray => "2D (Array)",
            ImageViewKind::ThreeD => "3D",
            ImageViewKind::Cube => "Cube",
            ImageViewKind::CubeArray => "Cube (Array)",
        }
    }
}

impl Default for ImageViewKind {
    /// `TwoD`.
    fn default() -> (r: Self)
        ensures r == ImageViewKind::TwoD,
    {
        ImageViewKind::TwoD
    }
}

/// The layout of an image in memory.
#[derive(Clone, Copy, Debug, PartialEq, Eq, Structural)]
pub enum ImageLayout {
    Undefined,
    Preinitialized,
    General,
    ColourAttachment,
    DepthStencil,
    DepthStencilReadOnly,
    ShaderReadOnly,
    Present,
    TransferSrc,
    TransferDst,
}

impl ImageLayout {
    /// The raw value of the Vulkan `VkImageLayout` this stands for.
    pub open spec fn to_vk_spec(self) -> i32 {
        match self {
            ImageLayout::Undefined => 0,
            ImageLayout::Preinitialized => 8,
            ImageLayout::General => 1,
            ImageLayout::ColourAttachment => 2,
            ImageLayout::DepthStencil => 3,
            ImageLayout::DepthStencilReadOnly => 4,
            ImageLayout::ShaderReadOnly => 5,
            ImageLayout::Present => 1000001002,
            ImageLayout::TransferSrc => 6,
            ImageLayout::TransferDst => 7,
        }
    }

    /// The raw value of the Vulkan `VkImageLayout` this stands for.
    pub fn to_vk(&self) -> (r: i32)
        ensures r == self.to_vk_spec(),
    {
        match self {
            ImageLayout::Undefined => 0,
            ImageLayout::Preinitialized => 8,
            ImageLayout::General => 1,
            ImageLayout::ColourAttachment => 2,
            ImageLayout::DepthStencil => 3,
            ImageLayout::DepthStencilReadOnly => 4,
            ImageLayout::ShaderReadOnly => 5,
            ImageLayout::Present => 1000001002,
            ImageLayout::TransferSrc => 6,
            ImageLayout::TransferDst => 7,
        }
    }

    /// The value a raw Vulkan `VkImageLayout` stands for, if it is one this library knows.
    pub open spec fn from_vk_spec(value: i32) -> Option<Self> {
        match value {
            0 => Some(ImageLayout::Undefined),
            8 => Some(ImageLayout::Preinitialized),
            1 => Some(ImageLayout::General),
            2 => Some(ImageLayout::ColourAttachment),
            3 => Some(ImageLayout::DepthStencil),
            4 => Some(ImageLayout::DepthStencilReadOnly),
            5 => Some(ImageLayout::ShaderReadOnly),
            1000001002 => Some(ImageLayout::Present),
            6 => Some(ImageLayout::TransferSrc),
            7 => Some(ImageLayout::TransferDst),
            _ => None,
        }
    }

    /// The value a raw Vulkan `VkImageLayout` stands for; it must be one this library knows.
    pub fn from_vk(value: i32) -> (r: Self)
        requires Self::from_vk_spec(value).is_some(),
        ensures Some(r) == Self::from_vk_spec(value),
    {
        match value {
            0 => ImageLayout::Undefined,
            8 => ImageLayout::Preinitialized,
            1 => ImageLayout::General,
            2 => ImageLayout::ColourAttachment,
            3 => ImageLayout::DepthStencil,
            4 => ImageLayout::DepthStencilReadOnly,
            5 => ImageLayout::ShaderReadOnly,
            1000001002 => ImageLayout::Present,
            6 => ImageLayout::TransferSrc,
            7 => ImageLayout::TransferDst,
            _ => ImageLayout::Undefined,
        }
    }

    /// The value a raw Vulkan `VkImageLayout` stands for, if this library knows it.
    pub fn try_from_vk(value: i32) -> (r: Option<Self>)
        ensures r == Self::from_vk_spec(value),
    {
        match value {
            0 => Some(ImageLayout::Undefined),
            8 => Some(ImageLayout::Preinitialized),
            1 => Some(ImageLayout::General),
            2 => Some(ImageLayout::ColourAttachment),
            3 => Some(ImageLayout::DepthStencil),
            4 => Some(ImageLayout::DepthStencilReadOnly),
            5 => Some(ImageLayout::ShaderReadOnly),
            1000001002 => Some(ImageLayout::Present),
            6 => Some(ImageLayout::TransferSrc),
            7 => Some(ImageLayout::TransferDst),
            _ => None,
        }
    }

    /// Converting to Vulkan and back gives the same value.
    pub proof fn lemma_vk_round_trip(self)
        ensures Self::from_vk_spec(self.to_vk_spec()) == Some(self),
    {
    }

    /// Every raw value this library knows converts back to itself.
    pub proof fn lemma_vk_raw_round_trip(value: i32)
        requires Self::from_vk_spec(value).is_some(),
        ensures Self::from_vk_spec(value).unwrap().to_vk_spec() == value,
    {
    }
}

/// The aspect of an image a view accesses.
#[derive(Clone, Copy, Debug, PartialEq, Eq, Structural)]
pub enum ImageAspect {
    Colour,
    Depth,
    Stencil,
    Metadata,
}

impl ImageAspect {
    /// The raw value of the Vulkan `VkImageAspectFlags` this stands for.
    pub open spec fn to_vk_spec(self) -> u32 {
        match self {
            ImageAspect::Colour => 1,
            ImageAspect::Depth => 2,
            ImageAspect::Stencil => 4,
            ImageAspect::Metadata => 8,
        }
    }

    /// The raw value of the Vulkan `VkImageAspectFlags` this stands for.
    pub fn to_vk(&self) -> (r: u32)
        ensures r == self.to_vk_spec(),
    {
        match self {
            ImageAspect::Colour => 1,
            ImageAspect::Depth => 2,
            ImageAspect::Stencil => 4,
            ImageAspect::Metadata => 8,
        }
    }

    /// The value a raw Vulkan `VkImageAspectFlags` stands for, if it is one this library knows.
    pub open spec fn from_vk_spec(value: u32) -> Option<Self> {
        match value {
            1 => Some(ImageAspect::Colour),
            2 => Some(ImageAspect::Depth),
            4 => Some(ImageAspect::Stencil),
            8 => Some(ImageAspect::Metadata),
            _ => None,
        }
    }

    /// The value a raw Vulkan `VkImageAspectFlags` stands for; it must be one this library knows.
    pub fn from_vk(value: u32) -> (r: Self)
        requires Self::from_vk_spec(value).is_some(),
        ensures Some(r) == Self::from_vk_spec(value),
    {
        match value {
            1 => ImageAspect::Colour,
            2 => ImageAspect::Depth,
            4 => ImageAspect::Stencil,
            8 => ImageAspect::Metadata,
            _ => ImageAspect::Colour,
        }
    }

    /// The value a raw Vulkan `VkImageAspectFlags` stands for, if this library knows it.
    pub fn try_from_vk(value: u32) -> (r: Option<Self>)
        ensures r == Self::from_vk_spec(value),
    {
        match value {
            1 => Some(ImageAspect::Colour),
            2 => Some(ImageAspect::Depth),
            4 => Some(ImageAspect::Stencil),
            8 => Some(ImageAspect::Metadata),
            _ => None,
        }
    }

    /// Converting to Vulkan and back gives the same value.
    pub proof fn lemma_vk_round_trip(self)
        ensures Self::from_vk_spec(self.to_vk_spec()) == Some(self),
    {
    }

    /// Every raw value this library knows converts back to itself.
    pub proof fn lemma_vk_raw_round_trip(value: u32)
        requires Self::from_vk_spec(value).is_some(),
        ensures Self::from_vk_spec(value).unwrap().to_vk_spec() == value,
    {
    }

    /// The name shown to users.
    pub open spec fn name_spec(self) -> &'static str {
        match self {
            ImageAspect::Colour => "Colour",
            ImageAspect::Depth => "Depth",
            ImageAspect::Stencil => "Stencil",
            ImageAspect::Metadata => "Metadata",
        }
    }

    /// The name shown to users.
    pub fn name(&self) -> (r: &'static str)
        ensures r == self.name_spec(),
    {
        match self {
            ImageAspect::Colour => "Colour",
            ImageAspect::Depth => "Depth",
            ImageAspect::Stencil => "Stencil",
            ImageAspect::Metadata => "Metadata",
        }
    }
}

impl Default for ImageAspect {
    /// `Colour`.
    fn default() -> (r: Self)
        ensures r == ImageAspect::Colour,
    {
        ImageAspect::Colour
    }
}

/// A piece of pipeline state that is set when recording.
#[derive(Clone, Copy, Debug, PartialEq, Eq, Structural)]
pub enum DynamicState {
    Viewport,
    Scissor,
    LineWidth,
    DepthBias,
    DepthBounds,
    StencilCompareMask,
    StencilWriteMask,
    StencilReference,
    BlendConstants,
}

impl DynamicState {
    /// The raw value of the Vulkan `VkDynamicState` this stands for.
    pub open spec fn to_vk_spec(self) -> i32 {
        match self {
            DynamicState::Viewport => 0,
            DynamicState::Scissor => 1,
            DynamicState::LineWidth => 2,
            DynamicState::DepthBias => 3,
            DynamicState::DepthBounds => 5,
            DynamicState::StencilCompareMask => 6,
            DynamicState::StencilWriteMask => 7,
            DynamicState::StencilReference => 8,
            DynamicState::BlendConstants => 4,
        }
    }

    /// The raw value of the Vulkan `VkDynamicState` this stands for.
    pub fn to_vk(&self) -> (r: i32)
        ensures r == self.to_vk_spec(),
    {
        match self {
            DynamicState::Viewport => 0,
            DynamicState::Scissor => 1,
            DynamicState::LineWidth => 2,
            DynamicState::DepthBias => 3,
            DynamicState::DepthBounds => 5,
            DynamicState::StencilCompareMask => 6,
            DynamicState::StencilWriteMask => 7,
            DynamicState::StencilReference => 8,
            DynamicState::BlendConstants => 4,
        }
    }

    /// The value a raw Vulkan `VkDynamicState` stands for, if it is one this library knows.
    pub open spec fn from_vk_spec(value: i32) -> Option<Self> {
        match value {
            0 => Some(DynamicState::Viewport),
            1 => Some(DynamicState::Scissor),
            2 => Some(DynamicState::LineWidth),
            3 => Some(DynamicState::DepthBias),
            5 => Some(DynamicState::DepthBounds),
            6 => Some(DynamicState::StencilCompareMask),
            7 => Some(DynamicState::StencilWriteMask),
            8 => Some(DynamicState::StencilReference),
            4 => Some(DynamicState::BlendConstants),
            _ => None,
        }
    }

    /// The value a raw Vulkan `VkDynamicState` stands for; it must be one this library knows.
    pub fn from_vk(value: i32) -> (r: Self)
        requires Self::from_vk_spec(value).is_some(),
        ensures Some(r) == Self::from_vk_spec(value),
    {
        match value {
            0 => DynamicState::Viewport,
            1 => DynamicState::Scissor,
            2 => DynamicState::LineWidth,
            3 => DynamicState::DepthBias,
            5 => DynamicState::DepthBounds,
            6 => DynamicState::StencilCompareMask,
            7 => DynamicState::StencilWriteMask,
            8 => DynamicState::StencilReference,
            4 => DynamicState::BlendConstants,
            _ => DynamicState::Viewport,
        }
    }

    /// The value a raw Vulkan `VkDynamicState` stands for, if this library knows it.
    pub fn try_from_vk(value: i32) -> (r: Option<Self>)
        ensures r == Self::from_vk_spec(value),
    {
        match value {
            0 => Some(DynamicState::Viewport),
            1 => Some(DynamicState::Scissor),
            2 => Some(DynamicState::LineWidth),
            3 => Some(DynamicState::DepthBias),
            5 => Some(DynamicState::DepthBounds),
            6 => Some(DynamicState::StencilCompareMask),
            7 => Some(DynamicState::StencilWriteMask),
            8 => Some(DynamicState::StencilReference),
            4 => Some(DynamicState::BlendConstants),
            _ => None,
        }
    }

    /// Converting to Vulkan and back gives the same value.
    pub proof fn lemma_vk_round_trip(self)
        ensures Self::from_vk_spec(self.to_vk_spec()) == Some(self),
    {
    }

    /// Every raw value this library knows converts back to itself.
    pub proof fn lemma_vk_raw_round_trip(value: i32)
        requires Self::from_vk_spec(value).is_some(),
        ensures Self::from_vk_spec(value).unwrap().to_vk_spec() == value,
    {
    }
}

/// The format of an image or vertex attribute.
#[derive(Clone, Copy, Debug, PartialEq, Eq, Structural)]
pub enum Format {
    Undefined,
    R4G4UNormPack8,
    R4G4B4A4UNormPack16,
    B4G4R4A4UNormPack16,
    R5G6B5UNormPack16,
    B5G6R5UNormPack16,
    R5G5B5A1UNormPack16,
    B5G5R5A1UNormPack16,
    A1R5G5B5UNormPack16,
    R8UNorm,
    R8SNorm,
    R8UScaled,
    R8SScaled,
    R8UInt,
    R8SInt,
    R8SRgb,
    R8G8UNorm,
    R8G8SNorm,
    R8G8UScaled,
    R8G8SScaled,
    R8G8UInt,
    R8G8SInt,
    R8G8SRgb,
    R8G8B8UNorm,
    R8G8B8SNorm,
    R8G8B8UScaled,
    R8G8B8SScaled,
    R8G8B8UInt,
    R8G8B8SInt,
    R8G8B8SRgb,
    B8G8R8UNorm,
    B8G8R8SNorm,
    B8G8R8UScaled,
    B8G8R8SScaled,
    B8G8R8UInt,
    B8G8R8SInt,
    B8G8R8SRgb,
    R8G8B8A8UNorm,
    R8G8B8A8SNorm,
    R8G8B8A8UScaled,
    R8G8B8A8SScaled,
    R8G8B8A8UInt,
    R8G8B8A8SInt,
    R8G8B8A8SRgb,
    B8G8R8A8UNorm,
    B8G8R8A8SNorm,
    B8G8R8A8UScaled,
    B8G8R8A8SScaled,
    B8G8R8A8UInt,
    B8G8R8A8SInt,
    B8G8R8A8SRgb,
    A8B8G8R8UNormPack32,
    A8B8G8R8SNormPack32,
    A8B8G8R8UScaledPack32,
    A8B8G8R8SScaledPack32,
    A8B8G8R8UIntPack32,
    A8B8G8R8SIntPack32,
    A8B8G8R8SRgbPack32,
    A2R10G10B10UNormPack32,
    A2R10G10B10SNormPack32,
    A2R10G10B10UScaledPack32,
    A2R10G10B10SScaledPack32,
    A2R10G10B10UIntPack32,
    A2R10G10B10SIntPack32,
    A2B10G10R10UNormPack32,
    A2B10G10R10SNormPack32,
    A2B10G10R10UScaledPack32,
    A2B10G10R10SScaledPack32,
    A2B10G10R10UIntPack32,
    A2B10G10R10SIntPack32,
    R16UNorm,
    R16SNorm,
    R16UScaled,
    R16SScaled,
    R16UInt,
    R16SInt,
    R16SFloat,
    R16G16UNorm,
    R16G16SNorm,
    R16G16UScaled,
    R16G16SScaled,
    R16G16UInt,
    R16G16SInt,
    R16G16SFloat,
    R16G16B16UNorm,
    R16G16B16SNorm,
    R16G16B16UScaled,
    R16G16B16SScaled,
    R16G16B16UInt,
    R16G16B16SInt,
    R16G16B16SFloat,
    R16G16B16A16UNorm,
    R16G16B16A16SNorm,
    R16G16B16A16UScaled,
    R16G16B16A16SScaled,
    R16G16B16A16UInt,
    R16G16B16A16SInt,
    R16G16B16A16SFloat,
    R32UInt,
    R32SInt,
    R32SFloat,
    R32G32UInt,
    R32G32SInt,
    R32G32SFloat,
    R32G32B32UInt,
    R32G32B32SInt,
    R32G32B32SFloat,
    R32G32B32A32UInt,
    R32G32B32A32SInt,
    R32G32B32A32SFloat,
    R64UInt,
    R64SInt,
    R64SFloat,
    R64G64UInt,
    R64G64SInt,
    R64G64SFloat,
    R64G64B64UInt,
    R64G64B64SInt,
    R64G64B64SFloat,
    R64G64B64A64UInt,
    R64G64B64A64SInt,
    R64G64B64A64SFloat,
    B10G11R11UFloatPack32,
    E5B9G9R9UFloatPack32,
    D16UNorm,
    X8D24UNormPack32,
    D32SFloat,
    S8UInt,
    D16UNormS8UInt,
    D24UNormS8UInt,
    D32SFloatS8UInt,
    BC1RGBUNormBlock,
    BC1RGBSRgbBlock,
    BC1RGBAUNormBlock,
    BC1RGBASRgbBlock,
    BC2UNormBlock,
    BC2SRgbBlock,
    BC3UNormBlock,
    BC3SRgbBlock,
    BC4UNormBlock,
    BC4SNormBlock,
    BC5UNormBlock,
    BC5SNormBlock,
    BC6HUFloatBlock,
    BC6HSFloatBlock,
    BC7UNormBlock,
    BC7SRgbBlock,
    ETC2R8G8B8UNormBlock,
    ETC2R8G8B8SRgbBlock,
    ETC2R8G8B8A1UNormBlock,
    ETC2R8G8B8A1SRgbBlock,
    ETC2R8G8B8A8UNormBlock,
    ETC2R8G8B8A8SRgbBlock,
    EACR11UNormBlock,
    EACR11SNormBlock,
    EACR11G11UNormBlock,
    EACR11G11SNormBlock,
    ASTC4X4UNormBlock,
    ASTC4X4SRgbBlock,
    ASTC5X4UNormBlock,
    ASTC5X4SRgbBlock,
    ASTC5X5UNormBlock,
    ASTC5X5SRgbBlock,
    ASTC6X5UNormBlock,
    ASTC6X5SRgbBlock,
    ASTC6X6UNormBlock,
    ASTC6X6SRgbBlock,
    ASTC8X5UNormBlock,
    ASTC8X5SRgbBlock,
    ASTC8X6UNormBlock,
    ASTC8X6SRgbBlock,
    ASTC8X8UNormBlock,
    ASTC8X8SRgbBlock,
    ASTC10X5UNormBlock,
    ASTC10X5SRgbBlock,
    ASTC10X6UNormBlock,
    ASTC10X6SRgbBlock,
    ASTC10X8UNormBlock,
    ASTC10X8SRgbBlock,
    ASTC10X10UNormBlock,
    ASTC10X10SRgbBlock,
    ASTC12X10UNormBlock,
    ASTC12X10SRgbBlock,
    ASTC12X12UNormBlock,
    ASTC12X12SRgbBlock,
}

impl Format {
    /// The raw value of the Vulkan `VkFormat` this stands for.
    pub open spec fn to_vk_spec(self) -> i32 {
        match self {
            Format::Undefined => 0,
            Format::R4G4UNormPack8 => 1,
            Format::R4G4B4A4UNormPack16 => 2,
            Format::B4G4R4A4UNormPack16 => 3,
            Format::R5G6B5UNormPack16 => 4,
            Format::B5G6R5UNormPack16 => 5,
            Format::R5G5B5A1UNormPack16 => 6,
            Format::B5G5R5A1UNormPack16 => 7,
            Format::A1R5G5B5UNormPack16 => 8,
            Format::R8UNorm => 9,
            Format::R8SNorm => 10,
            Format::R8UScaled => 11,
            Format::R8SScaled => 12,
            Format::R8UInt => 13,
            Format::R8SInt => 14,
            Format::R8SRgb => 15,
            Format::R8G8UNorm => 16,
            Format::R8G8SNorm => 17,
            Format::R8G8UScaled => 18,
            Format::R8G8SScaled => 19,
            Format::R8G8UInt => 20,
            Format::R8G8SInt => 21,
            Format::R8G8SRgb => 22,
            Format::R8G8B8UNorm => 23,
            Format::R8G8B8SNorm => 24,
            Format::R8G8B8UScaled => 25,
            Format::R8G8B8SScaled => 26,
            Format::R8G8B8UInt => 27,
            Format::R8G8B8SInt => 28,
            Format::R8G8B8SRgb => 29,
            Format::B8G8R8UNorm => 30,
            Format::B8G8R8SNorm => 31,
            Format::B8G8R8UScaled => 32,
            Format::B8G8R8SScaled => 33,
            Format::B8G8R8UInt => 34,
            Format::B8G8R8SInt => 35,
            Format::B8G8R8SRgb => 36,
            Format::R8G8B8A8UNorm => 37,
            Format::R8G8B8A8SNorm => 38,
            Format::R8G8B8A8UScaled => 39,
            Format::R8G8B8A8SScaled => 40,
            Format::R8G8B8A8UInt => 41,
            Format::R8G8B8A8SInt => 42,
            Format::R8G8B8A8SRgb => 43,
            Format::B8G8R8A8UNorm => 44,
            Format::B8G8R8A8SNorm => 45,
            Format::B8G8R8A8UScaled => 46,
            Format::B8G8R8A8SScaled => 47,
            Format::B8G8R8A8UInt => 48,
            Format::B8G8R8A8SInt => 49,
            Format::B8G8R8A8SRgb => 50,
            Format::A8B8G8R8UNormPack32 => 51,
            Format::A8B8G8R8SNormPack32 => 52,
            Format::A8B8G8R8UScaledPack32 => 53,
            Format::A8B8G8R8SScaledPack32 => 54,
            Format::A8B8G8R8UIntPack32 => 55,
            Format::A8B8G8R8SIntPack32 => 56,
            Format::A8B8G8R8SRgbPack32 => 57,
            Format::A2R10G10B10UNormPack32 => 58,
            Format::A2R10G10B10SNormPack32 => 59,
            Format::A2R10G10B10UScaledPack32 => 60,
            Format::A2R10G10B10SScaledPack32 => 61,
            Format::A2R10G10B10UIntPack32 => 62,
            Format::A2R10G10B10SIntPack32 => 63,
            Format::A2B10G10R10UNormPack32 => 64,
            Format::A2B10G10R10SNormPack32 => 65,
            Format::A2B10G10R10UScaledPack32 => 66,
            Format::A2B10G10R10SScaledPack32 => 67,
            Format::A2B10G10R10UIntPack32 => 68,
            Format::A2B10G10R10SIntPack32 => 69,
            Format::R16UNorm => 70,
            Format::R16SNorm => 71,
            Format::R16UScaled => 72,
            Format::R16SScaled => 73,
            Format::R16UInt => 74,
            Format::R16SInt => 75,
            Format::R16SFloat => 76,
            Format::R16G16UNorm => 77,
            Format::R16G16SNorm => 78,
            Format::R16G16UScaled => 79,
            Format::R16G16SScaled => 80,
            Format::R16G16UInt => 81,
            Format::R16G16SInt => 82,
            Format::R16G16SFloat => 83,
            Format::R16G16B16UNorm => 84,
            Format::R16G16B16SNorm => 85,
            Format::R16G16B16UScaled => 86,
            Format::R16G16B16SScaled => 87,
            Format::R16G16B16UInt => 88,
            Format::R16G16B16SInt => 89,
            Format::R16G16B16SFloat => 90,
            Format::R16G16B16A16UNorm => 91,
            Format::R16G16B16A16SNorm => 92,
            Format::R16G16B16A16UScaled => 93,
            Format::R16G16B16A16SScaled => 94,
            Format::R16G16B16A16UInt => 95,
            Format::R16G16B16A16SInt => 96,
            Format::R16G16B16A16SFloat => 97,
            Format::R32UInt => 98,
            Format::R32SInt => 99,
            Format::R32SFloat => 100,
            Format::R32G32UInt => 101,
            Format::R32G32SInt => 102,
            Format::R32G32SFloat => 103,
            Format::R32G32B32UInt => 104,
            Format::R32G32B32SInt => 105,
            Format::R32G32B32SFloat => 106,
            Format::R32G32B32A32UInt => 107,
            Format::R32G32B32A32SInt => 108,
            Format::R32G32B32A32SFloat => 109,
            Format::R64UInt => 110,
            Format::R64SInt => 111,
            Format::R64SFloat => 112,
            Format::R64G64UInt => 113,
            Format::R64G64SInt => 114,
            Format::R64G64SFloat => 115,
            Format::R64G64B64UInt => 116,
            Format::R64G64B64SInt => 117,
            Format::R64G64B64SFloat => 118,
            Format::R64G64B64A64UInt => 119,
            Format::R64G64B64A64SInt => 120,
            Format::R64G64B64A64SFloat => 121,
            Format::B10G11R11UFloatPack32 => 122,
            Format::E5B9G9R9UFloatPack32 => 123,
            Format::D16UNorm => 124,
            Format::X8D24UNormPack32 => 125,
            Format::D32SFloat => 126,
            Format::S8UInt => 127,
            Format::D16UNormS8UInt => 128,
            Format::D24UNormS8UInt => 129,
            Format::D32SFloatS8UInt => 130,
            Format::BC1RGBUNormBlock => 131,
            Format::BC1RGBSRgbBlock => 132,
            Format::BC1RGBAUNormBlock => 133,
            Format::BC1RGBASRgbBlock => 134,
            Format::BC2UNormBlock => 135,
            Format::BC2SRgbBlock => 136,
            Format::BC3UNormBlock => 137,
            Format::BC3SRgbBlock => 138,
            Format::BC4UNormBlock => 139,
            Format::BC4SNormBlock => 140,
            Format::BC5UNormBlock => 141,
            Format::BC5SNormBlock => 142,
            Format::BC6HUFloatBlock => 143,
            Format::BC6HSFloatBlock => 144,
            Format::BC7UNormBlock => 145,
            Format::BC7SRgbBlock => 146,
            Format::ETC2R8G8B8UNormBlock => 147,
            Format::ETC2R8G8B8SRgbBlock => 148,
            Format::ETC2R8G8B8A1UNormBlock => 149,
            Format::ETC2R8G8B8A1SRgbBlock => 150,
            Format::ETC2R8G8B8A8UNormBlock => 151,
            Format::ETC2R8G8B8A8SRgbBlock => 152,
            Format::EACR11UNormBlock => 153,
            Format::EACR11SNormBlock => 154,
            Format::EACR11G11UNormBlock => 155,
            Format::EACR11G11SNormBlock => 156,
            Format::ASTC4X4UNormBlock => 157,
            Format::ASTC4X4SRgbBlock => 158,
            Format::ASTC5X4UNormBlock => 159,
            Format::ASTC5X4SRgbBlock => 160,
            Format::ASTC5X5UNormBlock => 161,
            Format::ASTC5X5SRgbBlock => 162,
            Format::ASTC6X5UNormBlock => 163,
            Format::ASTC6X5SRgbBlock => 164,
            Format::ASTC6X6UNormBlock => 165,
            Format::ASTC6X6SRgbBlock => 166,
            Format::ASTC8X5UNormBlock => 167,
            Format::ASTC8X5SRgbBlock => 168,
            Format::ASTC8X6UNormBlock => 169,
            Format::ASTC8X6SRgbBlock => 170,
            Format::ASTC8X8UNormBlock => 171,
            Format::ASTC8X8SRgbBlock => 172,
            Format::ASTC10X5UNormBlock => 173,
            Format::ASTC10X5SRgbBlock => 174,
            Format::ASTC10X6UNormBlock => 175,
            Format::ASTC10X6SRgbBlock => 176,
            Format::ASTC10X8UNormBlock => 177,
            Format::ASTC10X8SRgbBlock => 178,
            Format::ASTC10X10UNormBlock => 179,
            Format::ASTC10X10SRgbBlock => 180,
            Format::ASTC12X10UNormBlock => 181,
            Format::ASTC12X10SRgbBlock => 182,
            Format::ASTC12X12UNormBlock => 183,
            Format::ASTC12X12SRgbBlock => 184,
        }
    }

    /// The raw value of the Vulkan `VkFormat` this stands for.
    pub fn to_vk(&self) -> (r: i32)
        ensures r == self.to_vk_spec(),
    {
        match self {
            Format::Undefined => 0,
            Format::R4G4UNormPack8 => 1,
            Format::R4G4B4A4UNormPack16 => 2,
            Format::B4G4R4A4UNormPack16 => 3,
            Format::R5G6B5UNormPack16 => 4,
            Format::B5G6R5UNormPack16 => 5,
            Format::R5G5B5A1UNormPack16 => 6,
            Format::B5G5R5A1UNormPack16 => 7,
            Format::A1R5G5B5UNormPack16 => 8,
            Format::R8UNorm => 9,
            Format::R8SNorm => 10,
            Format::R8UScaled => 11,
            Format::R8SScaled => 12,
            Format::R8UInt => 13,
            Format::R8SInt => 14,
            Format::R8SRgb => 15,
            Format::R8G8UNorm => 16,
            Format::R8G8SNorm => 17,
            Format::R8G8UScaled => 18,
            Format::R8G8SScaled => 19,
            Format::R8G8UInt => 20,
            Format::R8G8SInt => 21,
            Format::R8G8SRgb => 22,
            Format::R8G8B8UNorm => 23,
            Format::R8G8B8SNorm => 24,
            Format::R8G8B8UScaled => 25,
            Format::R8G8B8SScaled => 26,
            Format::R8G8B8UInt => 27,
            Format::R8G8B8SInt => 28,
            Format::R8G8B8SRgb => 29,
            Format::B8G8R8UNorm => 30,
            Format::B8G8R8SNorm => 31,
            Format::B8G8R8UScaled => 32,
            Format::B8G8R8SScaled => 33,
            Format::B8G8R8UInt => 34,
            Format::B8G8R8SInt => 35,
            Format::B8G8R8SRgb => 36,
            Format::R8G8B8A8UNorm => 37,
            Format::R8G8B8A8SNorm => 38,
            Format::R8G8B8A8UScaled => 39,
            Format::R8G8B8A8SScaled => 40,
            Format::R8G8B8A8UInt => 41,
            Format::R8G8B8A8SInt => 42,
            Format::R8G8B8A8SRgb => 43,
            Format::B8G8R8A8UNorm => 44,
            Format::B8G8R8A8SNorm => 45,
            Format::B8G8R8A8UScaled => 46,
            Format::B8G8R8A8SScaled => 47,
            Format::B8G8R8A8UInt => 48,
            Format::B8G8R8A8SInt => 49,
            Format::B8G8R8A8SRgb => 50,
            Format::A8B8G8R8UNormPack32 => 51,
            Format::A8B8G8R8SNormPack32 => 52,
            Format::A8B8G8R8UScaledPack32 => 53,
            Format::A8B8G8R8SScaledPack32 => 54,
            Format::A8B8G8R8UIntPack32 => 55,
            Format::A8B8G8R8SIntPack32 => 56,
            Format::A8B8G8R8SRgbPack32 => 57,
            Format::A2R10G10B10UNormPack32 => 58,
            Format::A2R10G10B10SNormPack32 => 59,
            Format::A2R10G10B10UScaledPack32 => 60,
            Format::A2R10G10B10SScaledPack32 => 61,
            Format::A2R10G10B10UIntPack32 => 62,
            Format::A2R10G10B10SIntPack32 => 63,
            Format::A2B10G10R10UNormPack32 => 64,
            Format::A2B10G10R10SNormPack32 => 65,
            Format::A2B10G10R10UScaledPack32 => 66,
            Format::A2B10G10R10SScaledPack32 => 67,
            Format::A2B10G10R10UIntPack32 => 68,
            Format::A2B10G10R10SIntPack32 => 69,
            Format::R16UNorm => 70,
            Format::R16SNorm => 71,
            Format::R16UScaled => 72,
            Format::R16SScaled => 73,
            Format::R16UInt => 74,
            Format::R16SInt => 75,
            Format::R16SFloat => 76,
            Format::R16G16UNorm => 77,
            Format::R16G16SNorm => 78,
            Format::R16G16UScaled => 79,
            Format::R16G16SScaled => 80,
            Format::R16G16UInt => 81,
            Format::R16G16SInt => 82,
            Format::R16G16SFloat => 83,
            Format::R16G16B16UNorm => 84,
            Format::R16G16B16SNorm => 85,
            Format::R16G16B16UScaled => 86,
            Format::R16G16B16SScaled => 87,
            Format::R16G16B16UInt => 88,
            Format::R16G16B16SInt => 89,
            Format::R16G16B16SFloat => 90,
            Format::R16G16B16A16UNorm => 91,
            Format::R16G16B16A16SNorm => 92,
            Format::R16G16B16A16UScaled => 93,
            Format::R16G16B16A16SScaled => 94,
            Format::R16G16B16A16UInt => 95,
            Format::R16G16B16A16SInt => 96,
            Format::R16G16B16A16SFloat => 97,
            Format::R32UInt => 98,
            Format::R32SInt => 99,
            Format::R32SFloat => 100,
            Format::R32G32UInt => 101,
            Format::R32G32SInt => 102,
            Format::R32G32SFloat => 103,
            Format::R32G32B32UInt => 104,
            Format::R32G32B32SInt => 105,
            Format::R32G32B32SFloat => 106,
            Format::R32G32B32A32UInt => 107,
            Format::R32G32B32A32SInt => 108,
            Format::R32G32B32A32SFloat => 109,
            Format::R64UInt => 110,
            Format::R64SInt => 111,
            Format::R64SFloat => 112,
            Format::R64G64UInt => 113,
            Format::R64G64SInt => 114,
            Format::R64G64SFloat => 115,
            Format::R64G64B64UInt => 116,
            Format::R64G64B64SInt => 117,
            Format::R64G64B64SFloat => 118,
            Format::R64G64B64A64UInt => 119,
            Format::R64G64B64A64SInt => 120,
            Format::R64G64B64A64SFloat => 121,
            Format::B10G11R11UFloatPack32 => 122,
            Format::E5B9G9R9UFloatPack32 => 123,
            Format::D16UNorm => 124,
            Format::X8D24UNormPack32 => 125,
            Format::D32SFloat => 126,
            Format::S8UInt => 127,
            Format::D16UNormS8UInt => 128,
            Format::D24UNormS8UInt => 129,
            Format::D32SFloatS8UInt => 130,
            Format::BC1RGBUNormBlock => 131,
            Format::BC1RGBSRgbBlock => 132,
            Format::BC1RGBAUNormBlock => 133,
            Format::BC1RGBASRgbBlock => 134,
            Format::BC2UNormBlock => 135,
            Format::BC2SRgbBlock => 136,
            Format::BC3UNormBlock => 137,
            Format::BC3SRgbBlock => 138,
            Format::BC4UNormBlock => 139,
            Format::BC4SNormBlock => 140,
            Format::BC5UNormBlock => 141,
            Format::BC5SNormBlock => 142,
            Format::BC6HUFloatBlock => 143,
            Format::BC6HSFloatBlock => 144,
            Format::BC7UNormBlock => 145,
            Format::BC7SRgbBlock => 146,
            Format::ETC2R8G8B8UNormBlock => 147,
            Format::ETC2R8G8B8SRgbBlock => 148,
            Format::ETC2R8G8B8A1UNormBlock => 149,
            Format::ETC2R8G8B8A1SRgbBlock => 150,
            Format::ETC2R8G8B8A8UNormBlock => 151,
            Format::ETC2R8G8B8A8SRgbBlock => 152,
            Format::EACR11UNormBlock => 153,
            Format::EACR11SNormBlock => 154,
            Format::EACR11G11UNormBlock => 155,
            Format::EACR11G11SNormBlock => 156,
            Format::ASTC4X4UNormBlock => 157,
            Format::ASTC4X4SRgbBlock => 158,
            Format::ASTC5X4UNormBlock => 159,
            Format::ASTC5X4SRgbBlock => 160,
            Format::ASTC5X5UNormBlock => 161,
            Format::ASTC5X5SRgbBlock => 162,
            Format::ASTC6X5UNormBlock => 163,
            Format::ASTC6X5SRgbBlock => 164,
            Format::ASTC6X6UNormBlock => 165,
            Format::ASTC6X6SRgbBlock => 166,
            Format::ASTC8X5UNormBlock => 167,
            Format::ASTC8X5SRgbBlock => 168,
            Format::ASTC8X6UNormBlock => 169,
            Format::ASTC8X6SRgbBlock => 170,
            Format::ASTC8X8UNormBlock => 171,
            Format::ASTC8X8SRgbBlock => 172,
            Format::ASTC10X5UNormBlock => 173,
            Format::ASTC10X5SRgbBlock => 174,
            Format::ASTC10X6UNormBlock => 175,
            Format::ASTC10X6SRgbBlock => 176,
            Format::ASTC10X8UNormBlock => 177,
            Format::ASTC10X8SRgbBlock => 178,
            Format::ASTC10X10UNormBlock => 179,
            Format::ASTC10X10SRgbBlock => 180,
            Format::ASTC12X10UNormBlock => 181,
            Format::ASTC12X10SRgbBlock => 182,
            Format::ASTC12X12UNormBlock => 183,
            Format::ASTC12X12SRgbBlock => 184,
        }
    }

    /// The value a raw Vulkan `VkFormat` stands for, if it is one this library knows.
    pub open spec fn from_vk_spec(value: i32) -> Option<Self> {
        match value {
            0 => Some(Format::Undefined),
            1 => Some(Format::R4G4UNormPack8),
            2 => Some(Format::R4G4B4A4UNormPack16),
            3 => Some(Format::B4G4R4A4UNormPack16),
            4 => Some(Format::R5G6B5UNormPack16),
            5 => Some(Format::B5G6R5UNormPack16),
            6 => Some(Format::R5G5B5A1UNormPack16),
            7 => Some(Format::B5G5R5A1UNormPack16),
            8 => Some(Format::A1R5G5B5UNormPack16),
            9 => Some(Format::R8UNorm),
            10 => Some(Format::R8SNorm),
            11 => Some(Format::R8UScaled),
            12 => Some(Format::R8SScaled),
            13 => Some(Format::R8UInt),
            14 => Some(Format::R8SInt),
            15 => Some(Format::R8SRgb),
            16 => Some(Format::R8G8UNorm),
            17 => Some(Format::R8G8SNorm),
            18 => Some(Format::R8G8UScaled),
            19 => Some(Format::R8G8SScaled),
            20 => Some(Format::R8G8UInt),
            21 => Some(Format::R8G8SInt),
            22 => Some(Format::R8G8SRgb),
            23 => Some(Format::R8G8B8UNorm),
            24 => Some(Format::R8G8B8SNorm),
            25 => Some(Format::R8G8B8UScaled),
            26 => Some(Format::R8G8B8SScaled),
            27 => Some(Format::R8G8B8UInt),
            28 => Some(Format::R8G8B8SInt),
            29 => Some(Format::R8G8B8SRgb),
            30 => Some(Format::B8G8R8UNorm),
            31 => Some(Format::B8G8R8SNorm),
            32 => Some(Format::B8G8R8UScaled),
            33 => Some(Format::B8G8R8SScaled),
            34 => Some(Format::B8G8R8UInt),
            35 => Some(Format::B8G8R8SInt),
            36 => Some(Format::B8G8R8SRgb),
            37 => Some(Format::R8G8B8A8UNorm),
            38 => Some(Format::R8G8B8A8SNorm),
            39 => Some(Format::R8G8B8A8UScaled),
            40 => Some(Format::R8G8B8A8SScaled),
            41 => Some(Format::R8G8B8A8UInt),
            42 => Some(Format::R8G8B8A8SInt),
            43 => Some(Format::R8G8B8A8SRgb),
            44 => Some(Format::B8G8R8A8UNorm),
            45 => Some(Format::B8G8R8A8SNorm),
            46 => Some(Format::B8G8R8A8UScaled),
            47 => Some(Format::B8G8R8A8SScaled),
            48 => Some(Format::B8G8R8A8UInt),
            49 => Some(Format::B8G8R8A8SInt),
            50 => Some(Format::B8G8R8A8SRgb),
            51 => Some(Format::A8B8G8R8UNormPack32),
            52 => Some(Format::A8B8G8R8SNormPack32),
            53 => Some(Format::A8B8G8R8UScaledPack32),
            54 => Some(Format::A8B8G8R8SScaledPack32),
            55 => Some(Format::A8B8G8R8UIntPack32),
            56 => Some(Format::A8B8G8R8SIntPack32),
            57 => Some(Format::A8B8G8R8SRgbPack32),
            58 => Some(Format::A2R10G10B10UNormPack32),
            59 => Some(Format::A2R10G10B10SNormPack32),
            60 => Some(Format::A2R10G10B10UScaledPack32),
            61 => Some(Format::A2R10G10B10SScaledPack32),
            62 => Some(Format::A2R10G10B10UIntPack32),
            63 => Some(Format::A2R10G10B10SIntPack32),
            64 => Some(Format::A2B10G10R10UNormPack32),
            65 => Some(Format::A2B10G10R10SNormPack32),
            66 => Some(Format::A2B10G10R10UScaledPack32),
            67 => Some(Format::A2B10G10R10SScaledPack32),
            68 => Some(Format::A2B10G10R10UIntPack32),
            69 => Some(Format::A2B10G10R10SIntPack32),
            70 => Some(Format::R16UNorm),
            71 => Some(Format::R16SNorm),
            72 => Some(Format::R16UScaled),
            73 => Some(Format::R16SScaled),
            74 => Some(Format::R16UInt),
            75 => Some(Format::R16SInt),
            76 => Some(Format::R16SFloat),
            77 => Some(Format::R16G16UNorm),
            78 => Some(Format::R16G16SNorm),
            79 => Some(Format::R16G16UScaled),
            80 => Some(Format::R16G16SScaled),
            81 => Some(Format::R16G16UInt),
            82 => Some(Format::R16G16SInt),
            83 => Some(Format::R16G16SFloat),
            84 => Some(Format::R16G16B16UNorm),
            85 => Some(Format::R16G16B16SNorm),
            86 => Some(Format::R16G16B16UScaled),
            87 => Some(Format::R16G16B16SScaled),
            88 => Some(Format::R16G16B16UInt),
            89 => Some(Format::R16G16B16SInt),
            90 => Some(Format::R16G16B16SFloat),
            91 => Some(Format::R16G16B16A16UNorm),
            92 => Some(Format::R16G16B16A16SNorm),
            93 => Some(Format::R16G16B16A16UScaled),
            94 => Some(Format::R16G16B16A16SScaled),
            95 => Some(Format::R16G16B16A16UInt),
            96 => Some(Format::R16G16B16A16SInt),
            97 => Some(Format::R16G16B16A16SFloat),
            98 => Some(Format::R32UInt),
            99 => Some(Format::R32SInt),
            100 => Some(Format::R32SFloat),
            101 => Some(Format::R32G32UInt),
            102 => Some(Format::R32G32SInt),
            103 => Some(Format::R32G32SFloat),
            104 => Some(Format::R32G32B32UInt),
            105 => Some(Format::R32G32B32SInt),
            106 => Some(Format::R32G32B32SFloat),
            107 => Some(Format::R32G32B32A32UInt),
            108 => Some(Format::R32G32B32A32SInt),
            109 => Some(Format::R32G32B32A32SFloat),
            110 => Some(Format::R64UInt),
            111 => Some(Format::R64SInt),
            112 => Some(Format::R64SFloat),
            113 => Some(Format::R64G64UInt),
            114 => Some(Format::R64G64SInt),
            115 => Some(Format::R64G64SFloat),
            116 => Some(Format::R64G64B64UInt),
            117 => Some(Format::R64G64B64SInt),
            118 => Some(Format::R64G64B64SFloat),
            119 => Some(Format::R64G64B64A64UInt),
            120 => Some(Format::R64G64B64A64SInt),
            121 => Some(Format::R64G64B64A64SFloat),
            122 => Some(Format::B10G11R11UFloatPack32),
            123 => Some(Format::E5B9G9R9UFloatPack32),
            124 => Some(Format::D16UNorm),
            125 => Some(Format::X8D24UNormPack32),
            126 => Some(Format::D32SFloat),
            127 => Some(Format::S8UInt),
            128 => Some(Format::D16UNormS8UInt),
            129 => Some(Format::D24UNormS8UInt),
            130 => Some(Format::D32SFloatS8UInt),
            131 => Some(Format::BC1RGBUNormBlock),
            132 => Some(Format::BC1RGBSRgbBlock),
            133 => Some(Format::BC1RGBAUNormBlock),
            134 => Some(Format::BC1RGBASRgbBlock),
            135 => Some(Format::BC2UNormBlock),
            136 => Some(Format::BC2SRgbBlock),
            137 => Some(Format::BC3UNormBlock),
            138 => Some(Format::BC3SRgbBlock),
            139 => Some(Format::BC4UNormBlock),
            140 => Some(Format::BC4SNormBlock),
            141 => Some(Format::BC5UNormBlock),
            142 => Some(Format::BC5SNormBlock),
            143 => Some(Format::BC6HUFloatBlock),
            144 => Some(Format::BC6HSFloatBlock),
            145 => Some(Format::BC7UNormBlock),
            146 => Some(Format::BC7SRgbBlock),
            147 => Some(Format::ETC2R8G8B8UNormBlock),
            148 => Some(Format::ETC2R8G8B8SRgbBlock),
            149 => Some(Format::ETC2R8G8B8A1UNormBlock),
            150 => Some(Format::ETC2R8G8B8A1SRgbBlock),
            151 => Some(Format::ETC2R8G8B8A8UNormBlock),
            152 => Some(Format::ETC2R8G8B8A8SRgbBlock),
            153 => Some(Format::EACR11UNormBlock),
            154 => Some(Format::EACR11SNormBlock),
            155 => Some(Format::EACR11G11UNormBlock),
            156 => Some(Format::EACR11G11SNormBlock),
            157 => Some(Format::ASTC4X4UNormBlock),
            158 => Some(Format::ASTC4X4SRgbBlock),
            159 => Some(Format::ASTC5X4UNormBlock),
            160 => Some(Format::ASTC5X4SRgbBlock),
            161 => Some(Format::ASTC5X5UNormBlock),
            162 => Some(Format::ASTC5X5SRgbBlock),
            163 => Some(Format::ASTC6X5UNormBlock),
            164 => Some(Format::ASTC6X5SRgbBlock),
            165 => Some(Format::ASTC6X6UNormBlock),
            166 => Some(Format::ASTC6X6SRgbBlock),
            167 => Some(Format::ASTC8X5UNormBlock),
            168 => Some(Format::ASTC8X5SRgbBlock),
            169 => Some(Format::ASTC8X6UNormBlock),
            170 => Some(Format::ASTC8X6SRgbBlock),
            171 => Some(Format::ASTC8X8UNormBlock),
            172 => Some(Format::ASTC8X8SRgbBlock),
            173 => Some(Format::ASTC10X5UNormBlock),
            174 => Some(Format::ASTC10X5SRgbBlock),
            175 => Some(Format::ASTC10X6UNormBlock),
            176 => Some(Format::ASTC10X6SRgbBlock),
            177 => Some(Format::ASTC10X8UNormBlock),
            178 => Some(Format::ASTC10X8SRgbBlock),
            179 => Some(Format::ASTC10X10UNormBlock),
            180 => Some(Format::ASTC10X10SRgbBlock),
            181 => Some(Format::ASTC12X10UNormBlock),
            182 => Some(Format::ASTC12X10SRgbBlock),
            183 => Some(Format::ASTC12X12UNormBlock),
            184 => Some(Format::ASTC12X12SRgbBlock),
            _ => None,
        }
    }

    /// The value a raw Vulkan `VkFormat` stands for; it must be one this library knows.
    pub fn from_vk(value: i32) -> (r: Self)
        requires Self::from_vk_spec(value).is_some(),
        ensures Some(r) == Self::from_vk_spec(value),
    {
        match value {
            0 => Format::Undefined,
            1 => Format::R4G4UNormPack8,
            2 => Format::R4G4B4A4UNormPack16,
            3 => Format::B4G4R4A4UNormPack16,
            4 => Format::R5G6B5UNormPack16,
            5 => Format::B5G6R5UNormPack16,
            6 => Format::R5G5B5A1UNormPack16,
            7 => Format::B5G5R5A1UNormPack16,
            8 => Format::A1R5G5B5UNormPack16,
            9 => Format::R8UNorm,
            10 => Format::R8SNorm,
            11 => Format::R8UScaled,
            12 => Format::R8SScaled,
            13 => Format::R8UInt,
            14 => Format::R8SInt,
            15 => Format::R8SRgb,
            16 => Format::R8G8UNorm,
            17 => Format::R8G8SNorm,
            18 => Format::R8G8UScaled,
            19 => Format::R8G8SScaled,
            20 => Format::R8G8UInt,
            21 => Format::R8G8SInt,
            22 => Format::R8G8SRgb,
            23 => Format::R8G8B8UNorm,
            24 => Format::R8G8B8SNorm,
            25 => Format::R8G8B8UScaled,
            26 => Format::R8G8B8SScaled,
            27 => Format::R8G8B8UInt,
            28 => Format::R8G8B8SInt,
            29 => Format::R8G8B8SRgb,
            30 => Format::B8G8R8UNorm,
            31 => Format::B8G8R8SNorm,
            32 => Format::B8G8R8UScaled,
            33 => Format::B8G8R8SScaled,
            34 => Format::B8G8R8UInt,
            35 => Format::B8G8R8SInt,
            36 => Format::B8G8R8SRgb,
            37 => Format::R8G8B8A8UNorm,
            38 => Format::R8G8B8A8SNorm,
            39 => Format::R8G8B8A8UScaled,
            40 => Format::R8G8B8A8SScaled,
            41 => Format::R8G8B8A8UInt,
            42 => Format::R8G8B8A8SInt,
            43 => Format::R8G8B8A8SRgb,
            44 => Format::B8G8R8A8UNorm,
            45 => Format::B8G8R8A8SNorm,
            46 => Format::B8G8R8A8UScaled,
            47 => Format::B8G8R8A8SScaled,
            48 => Format::B8G8R8A8UInt,
            49 => Format::B8G8R8A8SInt,
            50 => Format::B8G8R8A8SRgb,
            51 => Format::A8B8G8R8UNormPack32,
            52 => Format::A8B8G8R8SNormPack32,
            53 => Format::A8B8G8R8UScaledPack32,
            54 => Format::A8B8G8R8SScaledPack32,
            55 => Format::A8B8G8R8UIntPack32,
            56 => Format::A8B8G8R8SIntPack32,
            57 => Format::A8B8G8R8SRgbPack32,
            58 => Format::A2R10G10B10UNormPack32,
            59 => Format::A2R10G10B10SNormPack32,
            60 => Format::A2R10G10B10UScaledPack32,
            61 => Format::A2R10G10B10SScaledPack32,
            62 => Format::A2R10G10B10UIntPack32,
            63 => Format::A2R10G10B10SIntPack32,
            64 => Format::A2B10G10R10UNormPack32,
            65 => Format::A2B10G10R10SNormPack32,
            66 => Format::A2B10G10R10UScaledPack32,
            67 => Format::A2B10G10R10SScaledPack32,
            68 => Format::A2B10G10R10UIntPack32,
            69 => Format::A2B10G10R10SIntPack32,
            70 => Format::R16UNorm,
            71 => Format::R16SNorm,
            72 => Format::R16UScaled,
            73 => Format::R16SScaled,
            74 => Format::R16UInt,
            75 => Format::R16SInt,
            76 => Format::R16SFloat,
            77 => Format::R16G16UNorm,
            78 => Format::R16G16SNorm,
            79 => Format::R16G16UScaled,
            80 => Format::R16G16SScaled,
            81 => Format::R16G16UInt,
            82 => Format::R16G16SInt,
            83 => Format::R16G16SFloat,
            84 => Format::R16G16B16UNorm,
            85 => Format::R16G16B16SNorm,
            86 => Format::R16G16B16UScaled,
            87 => Format::R16G16B16SScaled,
            88 => Format::R16G16B16UInt,
            89 => Format::R16G16B16SInt,
            90 => Format::R16G16B16SFloat,
            91 => Format::R16G16B16A16UNorm,
            92 => Format::R16G16B16A16SNorm,
            93 => Format::R16G16B16A16UScaled,
            94 => Format::R16G16B16A16SScaled,
            95 => Format::R16G16B16A16UInt,
            96 => Format::R16G16B16A16SInt,
            97 => Format::R16G16B16A16SFloat,
            98 => Format::R32UInt,
            99 => Format::R32SInt,
            100 => Format::R32SFloat,
            101 => Format::R32G32UInt,
            102 => Format::R32G32SInt,
            103 => Format::R32G32SFloat,
            104 => Format::R32G32B32UInt,
            105 => Format::R32G32B32SInt,
            106 => Format::R32G32B32SFloat,
            107 => Format::R32G32B32A32UInt,
            108 => Format::R32G32B32A32SInt,
            109 => Format::R32G32B32A32SFloat,
            110 => Format::R64UInt,
            111 => Format::R64SInt,
            112 => Format::R64SFloat,
            113 => Format::R64G64UInt,
            114 => Format::R64G64SInt,
            115 => Format::R64G64SFloat,
            116 => Format::R64G64B64UInt,
            117 => Format::R64G64B64SInt,
            118 => Format::R64G64B64SFloat,
            119 => Format::R64G64B64A64UInt,
            120 => Format::R64G64B64A64SInt,
            121 => Format::R64G64B64A64SFloat,
            122 => Format::B10G11R11UFloatPack32,
            123 => Format::E5B9G9R9UFloatPack32,
            124 => Format::D16UNorm,
            125 => Format::X8D24UNormPack32,
            126 => Format::D32SFloat,
            127 => Format::S8UInt,
            128 => Format::D16UNormS8UInt,
            129 => Format::D24UNormS8UInt,
            130 => Format::D32SFloatS8UInt,
            131 => Format::BC1RGBUNormBlock,
            132 => Format::BC1RGBSRgbBlock,
            133 => Format::BC1RGBAUNormBlock,
            134 => Format::BC1RGBASRgbBlock,
            135 => Format::BC2UNormBlock,
            136 => Format::BC2SRgbBlock,
            137 => Format::BC3UNormBlock,
            138 => Format::BC3SRgbBlock,
            139 => Format::BC4UNormBlock,
            140 => Format::BC4SNormBlock,
            141 => Format::BC5UNormBlock,
            142 => Format::BC5SNormBlock,
            143 => Format::BC6HUFloatBlock,
            144 => Format::BC6HSFloatBlock,
            145 => Format::BC7UNormBlock,
            146 => Format::BC7SRgbBlock,
            147 => Format::ETC2R8G8B8UNormBlock,
            148 => Format::ETC2R8G8B8SRgbBlock,
            149 => Format::ETC2R8G8B8A1UNormBlock,
            150 => Format::ETC2R8G8B8A1SRgbBlock,
            151 => Format::ETC2R8G8B8A8UNormBlock,
            152 => Format::ETC2R8G8B8A8SRgbBlock,
            153 => Format::EACR11UNormBlock,
            154 => Format::EACR11SNormBlock,
            155 => Format::EACR11G11UNormBlock,
            156 => Format::EACR11G11SNormBlock,
            157 => Format::ASTC4X4UNormBlock,
            158 => Format::ASTC4X4SRgbBlock,
            159 => Format::ASTC5X4UNormBlock,
            160 => Format::ASTC5X4SRgbBlock,
            161 => Format::ASTC5X5UNormBlock,
            162 => Format::ASTC5X5SRgbBlock,
            163 => Format::ASTC6X5UNormBlock,
            164 => Format::ASTC6X5SRgbBlock,
            165 => Format::ASTC6X6UNormBlock,
            166 => Format::ASTC6X6SRgbBlock,
            167 => Format::ASTC8X5UNormBlock,
            168 => Format::ASTC8X5SRgbBlock,
            169 => Format::ASTC8X6UNormBlock,
            170 => Format::ASTC8X6SRgbBlock,
            171 => Format::ASTC8X8UNormBlock,
            172 => Format::ASTC8X8SRgbBlock,
            173 => Format::ASTC10X5UNormBlock,
            174 => Format::ASTC10X5SRgbBlock,
            175 => Format::ASTC10X6UNormBlock,
            176 => Format::ASTC10X6SRgbBlock,
            177 => Format::ASTC10X8UNormBlock,
            178 => Format::ASTC10X8SRgbBlock,
            179 => Format::ASTC10X10UNormBlock,
            180 => Format::ASTC10X10SRgbBlock,
            181 => Format::ASTC12X10UNormBlock,
            182 => Format::ASTC12X10SRgbBlock,
            183 => Format::ASTC12X12UNormBlock,
            184 => Format::ASTC12X12SRgbBlock,
            _ => Format::Undefined,
        }
    }

    /// The value a raw Vulkan `VkFormat` stands for, if this library knows it.
    pub fn try_from_vk(value: i32) -> (r: Option<Self>)
        ensures r == Self::from_vk_spec(value),
    {
        match value {
            0 => Some(Format::Undefined),
            1 => Some(Format::R4G4UNormPack8),
            2 => Some(Format::R4G4B4A4UNormPack16),
            3 => Some(Format::B4G4R4A4UNormPack16),
            4 => Some(Format::R5G6B5UNormPack16),
            5 => Some(Format::B5G6R5UNormPack16),
            6 => Some(Format::R5G5B5A1UNormPack16),
            7 => Some(Format::B5G5R5A1UNormPack16),
            8 => Some(Format::A1R5G5B5UNormPack16),
            9 => Some(Format::R8UNorm),
            10 => Some(Format::R8SNorm),
            11 => Some(Format::R8UScaled),
            12 => Some(Format::R8SScaled),
            13 => Some(Format::R8UInt),
            14 => Some(Format::R8SInt),
            15 => Some(Format::R8SRgb),
            16 => Some(Format::R8G8UNorm),
            17 => Some(Format::R8G8SNorm),
            18 => Some(Format::R8G8UScaled),
            19 => Some(Format::R8G8SScaled),
            20 => Some(Format::R8G8UInt),
            21 => Some(Format::R8G8SInt),
            22 => Some(Format::R8G8SRgb),
            23 => Some(Format::R8G8B8UNorm),
            24 => Some(Format::R8G8B8SNorm),
            25 => Some(Format::R8G8B8UScaled),
            26 => Some(Format::R8G8B8SScaled),
            27 => Some(Format::R8G8B8UInt),
            28 => Some(Format::R8G8B8SInt),
            29 => Some(Format::R8G8B8SRgb),
            30 => Some(Format::B8G8R8UNorm),
            31 => Some(Format::B8G8R8SNorm),
            32 => Some(Format::B8G8R8UScaled),
            33 => Some(Format::B8G8R8SScaled),
            34 => Some(Format::B8G8R8UInt),
            35 => Some(Format::B8G8R8SInt),
            36 => Some(Format::B8G8R8SRgb),
            37 => Some(Format::R8G8B8A8UNorm),
            38 => Some(Format::R8G8B8A8SNorm),
            39 => Some(Format::R8G8B8A8UScaled),
            40 => Some(Format::R8G8B8A8SScaled),
            41 => Some(Format::R8G8B8A8UInt),
            42 => Some(Format::R8G8B8A8SInt),
            43 => Some(Format::R8G8B8A8SRgb),
            44 => Some(Format::B8G8R8A8UNorm),
            45 => Some(Format::B8G8R8A8SNorm),
            46 => Some(Format::B8G8R8A8UScaled),
            47 => Some(Format::B8G8R8A8SScaled),
            48 => Some(Format::B8G8R8A8UInt),
            49 => Some(Format::B8G8R8A8SInt),
            50 => Some(Format::B8G8R8A8SRgb),
            51 => Some(Format::A8B8G8R8UNormPack32),
            52 => Some(Format::A8B8G8R8SNormPack32),
            53 => Some(Format::A8B8G8R8UScaledPack32),
            54 => Some(Format::A8B8G8R8SScaledPack32),
            55 => Some(Format::A8B8G8R8UIntPack32),
            56 => Some(Format::A8B8G8R8SIntPack32),
            57 => Some(Format::A8B8G8R8SRgbPack32),
            58 => Some(Format::A2R10G10B10UNormPack32),
            59 => Some(Format::A2R10G10B10SNormPack32),
            60 => Some(Format::A2R10G10B10UScaledPack32),
            61 => Some(Format::A2R10G10B10SScaledPack32),
            62 => Some(Format::A2R10G10B10UIntPack32),
            63 => Some(Format::A2R10G10B10SIntPack32),
            64 => Some(Format::A2B10G10R10UNormPack32),
            65 => Some(Format::A2B10G10R10SNormPack32),
            66 => Some(Format::A2B10G10R10UScaledPack32),
            67 => Some(Format::A2B10G10R10SScaledPack32),
            68 => Some(Format::A2B10G10R10UIntPack32),
            69 => Some(Format::A2B10G10R10SIntPack32),
            70 => Some(Format::R16UNorm),
            71 => Some(Format::R16SNorm),
            72 => Some(Format::R16UScaled),
            73 => Some(Format::R16SScaled),
            74 => Some(Format::R16UInt),
            75 => Some(Format::R16SInt),
            76 => Some(Format::R16SFloat),
            77 => Some(Format::R16G16UNorm),
            78 => Some(Format::R16G16SNorm),
            79 => Some(Format::R16G16UScaled),
            80 => Some(Format::R16G16SScaled),
            81 => Some(Format::R16G16UInt),
            82 => Some(Format::R16G16SInt),
            83 => Some(Format::R16G16SFloat),
            84 => Some(Format::R16G16B16UNorm),
            85 => Some(Format::R16G16B16SNorm),
            86 => Some(Format::R16G16B16UScaled),
            87 => Some(Format::R16G16B16SScaled),
            88 => Some(Format::R16G16B16UInt),
            89 => Some(Format::R16G16B16SInt),
            90 => Some(Format::R16G16B16SFloat),
            91 => Some(Format::R16G16B16A16UNorm),
            92 => Some(Format::R16G16B16A16SNorm),
            93 => Some(Format::R16G16B16A16UScaled),
            94 => Some(Format::R16G16B16A16SScaled),
            95 => Some(Format::R16G16B16A16UInt),
            96 => Some(Format::R16G16B16A16SInt),
            97 => Some(Format::R16G16B16A16SFloat),
            98 => Some(Format::R32UInt),
            99 => Some(Format::R32SInt),
            100 => Some(Format::R32SFloat),
            101 => Some(Format::R32G32UInt),
            102 => Some(Format::R32G32SInt),
            103 => Some(Format::R32G32SFloat),
            104 => Some(Format::R32G32B32UInt),
            105 => Some(Format::R32G32B32SInt),
            106 => Some(Format::R32G32B32SFloat),
            107 => Some(Format::R32G32B32A32UInt),
            108 => Some(Format::R32G32B32A32SInt),
            109 => Some(Format::R32G32B32A32SFloat),
            110 => Some(Format::R64UInt),
            111 => Some(Format::R64SInt),
            112 => Some(Format::R64SFloat),
            113 => Some(Format::R64G64UInt),
            114 => Some(Format::R64G64SInt),
            115 => Some(Format::R64G64SFloat),
            116 => Some(Format::R64G64B64UInt),
            117 => Some(Format::R64G64B64SInt),
            118 => Some(Format::R64G64B64SFloat),
            119 => Some(Format::R64G64B64A64UInt),
            120 => Some(Format::R64G64B64A64SInt),
            121 => Some(Format::R64G64B64A64SFloat),
            122 => Some(Format::B10G11R11UFloatPack32),
            123 => Some(Format::E5B9G9R9UFloatPack32),
            124 => Some(Format::D16UNorm),
            125 => Some(Format::X8D24UNormPack32),
            126 => Some(Format::D32SFloat),
            127 => Some(Format::S8UInt),
            128 => Some(Format::D16UNormS8UInt),
            129 => Some(Format::D24UNormS8UInt),
            130 => Some(Format::D32SFloatS8UInt),
            131 => Some(Format::BC1RGBUNormBlock),
            132 => Some(Format::BC1RGBSRgbBlock),
            133 => Some(Format::BC1RGBAUNormBlock),
            134 => Some(Format::BC1RGBASRgbBlock),
            135 => Some(Format::BC2UNormBlock),
            136 => Some(Format::BC2SRgbBlock),
            137 => Some(Format::BC3UNormBlock),
            138 => Some(Format::BC3SRgbBlock),
            139 => Some(Format::BC4UNormBlock),
            140 => Some(Format::BC4SNormBlock),
            141 => Some(Format::BC5UNormBlock),
            142 => Some(Format::BC5SNormBlock),
            143 => Some(Format::BC6HUFloatBlock),
            144 => Some(Format::BC6HSFloatBlock),
            145 => Some(Format::BC7UNormBlock),
            146 => Some(Format::BC7SRgbBlock),
            147 => Some(Format::ETC2R8G8B8UNormBlock),
            148 => Some(Format::ETC2R8G8B8SRgbBlock),
            149 => Some(Format::ETC2R8G8B8A1UNormBlock),
            150 => Some(Format::ETC2R8G8B8A1SRgbBlock),
            151 => Some(Format::ETC2R8G8B8A8UNormBlock),
            152 => Some(Format::ETC2R8G8B8A8SRgbBlock),
            153 => Some(Format::EACR11UNormBlock),
            154 => Some(Format::EACR11SNormBlock),
            155 => Some(Format::EACR11G11UNormBlock),
            156 => Some(Format::EACR11G11SNormBlock),
            157 => Some(Format::ASTC4X4UNormBlock),
            158 => Some(Format::ASTC4X4SRgbBlock),
            159 => Some(Format::ASTC5X4UNormBlock),
            160 => Some(Format::ASTC5X4SRgbBlock),
            161 => Some(Format::ASTC5X5UNormBlock),
            162 => Some(Format::ASTC5X5SRgbBlock),
            163 => Some(Format::ASTC6X5UNormBlock),
            164 => Some(Format::ASTC6X5SRgbBlock),
            165 => Some(Format::ASTC6X6UNormBlock),
            166 => Some(Format::ASTC6X6SRgbBlock),
            167 => Some(Format::ASTC8X5UNormBlock),
            168 => Some(Format::ASTC8X5SRgbBlock),
            169 => Some(Format::ASTC8X6UNormBlock),
            170 => Some(Format::ASTC8X6SRgbBlock),
            171 => Some(Format::ASTC8X8UNormBlock),
            172 => Some(Format::ASTC8X8SRgbBlock),
            173 => Some(Format::ASTC10X5UNormBlock),
            174 => Some(Format::ASTC10X5SRgbBlock),
            175 => Some(Format::ASTC10X6UNormBlock),
            176 => Some(Format::ASTC10X6SRgbBlock),
            177 => Some(Format::ASTC10X8UNormBlock),
            178 => Some(Format::ASTC10X8SRgbBlock),
            179 => Some(Format::ASTC10X10UNormBlock),
            180 => Some(Format::ASTC10X10SRgbBlock),
            181 => Some(Format::ASTC12X10UNormBlock),
            182 => Some(Format::ASTC12X10SRgbBlock),
            183 => Some(Format::ASTC12X12UNormBlock),
            184 => Some(Format::ASTC12X12SRgbBlock),
            _ => None,
        }
    }

    /// Converting to Vulkan and back gives the same value.
    pub proof fn lemma_vk_round_trip(self)
        ensures Self::from_vk_spec(self.to_vk_spec()) == Some(self),
    {
    }

    /// Every raw value this library knows converts back to itself.
    pub proof fn lemma_vk_raw_round_trip(value: i32)
        requires Self::from_vk_spec(value).is_some(),
        ensures Self::from_vk_spec(value).unwrap().to_vk_spec() == value,
    {
    }

    /// The name shown to users.
    pub open spec fn name_spec(self) -> &'static str {
        match self {
            Format::Undefined => "Undefined",
            Format::R4G4UNormPack8 => "R4G4UNormPack8",
            Format::R4G4B4A4UNormPack16 => "R4G4B4A4UNormPack16",
            Format::B4G4R4A4UNormPack16 => "B4G4R4A4UNormPack16",
            Format::R5G6B5UNormPack16 => "R5G6B5UNormPack16",
            Format::B5G6R5UNormPack16 => "B5G6R5UNormPack16",
            Format::R5G5B5A1UNormPack16 => "R5G5B5A1UNormPack16",
            Format::B5G5R5A1UNormPack16 => "B5G5R5A1UNormPack16",
            Format::A1R5G5B5UNormPack16 => "A1R5G5B5UNormPack16",
            Format::R8UNorm => "R8UNorm",
            Format::R8SNorm => "R8SNorm",
            Format::R8UScaled => "R8UScaled",
            Format::R8SScaled => "R8SScaled",
            Format::R8UInt => "R8UInt",
            Format::R8SInt => "R8SInt",
            Format::R8SRgb => "R8SRgb",
            Format::R8G8UNorm => "R8G8UNorm",
            Format::R8G8SNorm => "R8G8SNorm",
            Format::R8G8UScaled => "R8G8UScaled",
            Format::R8G8SScaled => "R8G8SScaled",
            Format::R8G8UInt => "R8G8UInt",
            Format::R8G8SInt => "R8G8SInt",
            Format::R8G8SRgb => "R8G8SRgb",
            Format::R8G8B8UNorm => "R8G8B8UNorm",
            Format::R8G8B8SNorm => "R8G8B8SNorm",
            Format::R8G8B8UScaled => "R8G8B8UScaled",
            Format::R8G8B8SScaled => "R8G8B8SScaled",
            Format::R8G8B8UInt => "R8G8B8UInt",
            Format::R8G8B8SInt => "R8G8B8SInt",
            Format::R8G8B8SRgb => "R8G8B8SRgb",
            Format::B8G8R8UNorm => "B8G8R8UNorm",
            Format::B8G8R8SNorm => "B8G8R8SNorm",
            Format::B8G8R8UScaled => "B8G8R8UScaled",
            Format::B8G8R8SScaled => "B8G8R8SScaled",
            Format::B8G8R8UInt => "B8G8R8UInt",
            Format::B8G8R8SInt => "B8G8R8SInt",
            Format::B8G8R8SRgb => "B8G8R8SRgb",
            Format::R8G8B8A8UNorm => "R8G8B8A8UNorm",
            Format::R8G8B8A8SNorm => "R8G8B8A8SNorm",
            Format::R8G8B8A8UScaled => "R8G8B8A8UScaled",
            Format::R8G8B8A8SScaled => "R8G8B8A8SScaled",
            Format::R8G8B8A8UInt => "R8G8B8A8UInt",
            Format::R8G8B8A8SInt => "R8G8B8A8SInt",
            Format::R8G8B8A8SRgb => "R8G8B8A8SRgb",
            Format::B8G8R8A8UNorm => "B8G8R8A8UNorm",
            Format::B8G8R8A8SNorm => "B8G8R8A8SNorm",
            Format::B8G8R8A8UScaled => "B8G8R8A8UScaled",
            Format::B8G8R8A8SScaled => "B8G8R8A8SScaled",
            Format::B8G8R8A8UInt => "B8G8R8A8UInt",
            Format::B8G8R8A8SInt => "B8G8R8A8SInt",
            Format::B8G8R8A8SRgb => "B8G8R8A8SRgb",
            Format::A8B8G8R8UNormPack32 => "A8B8G8R8UNormPack32",
            Format::A8B8G8R8SNormPack32 => "A8B8G8R8SNormPack32",
            Format::A8B8G8R8UScaledPack32 => "A8B8G8R8UScaledPack32",
            Format::A8B8G8R8SScaledPack32 => "A8B8G8R8SScaledPack32",
            Format::A8B8G8R8UIntPack32 => "A8B8G8R8UIntPack32",
            Format::A8B8G8R8SIntPack32 => "A8B8G8R8SIntPack32",
            Format::A8B8G8R8SRgbPack32 => "A8B8G8R8SRgbPack32",
            Format::A2R10G10B10UNormPack32 => "A2R10G10B10UNormPack32",
            Format::A2R10G10B10SNormPack32 => "A2R10G10B10SNormPack32",
            Format::A2R10G10B10UScaledPack32 => "A2R10G10B10UScaledPack32",
            Format::A2R10G10B10SScaledPack32 => "A2R10G10B10SScaledPack32",
            Format::A2R10G10B10UIntPack32 => "A2R10G10B10UIntPack32",
            Format::A2R10G10B10SIntPack32 => "A2R10G10B10SIntPack32",
            Format::A2B10G10R10UNormPack32 => "A2B10G10R10UNormPack32",
            Format::A2B10G10R10SNormPack32 => "A2B10G10R10SNormPack32",
            Format::A2B10G10R10UScaledPack32 => "A2B10G10R10UScaledPack32",
            Format::A2B10G10R10SScaledPack32 => "A2B10G10R10SScaledPack32",
            Format::A2B10G10R10UIntPack32 => "A2B10G10R10UIntPack32",
            Format::A2B10G10R10SIntPack32 => "A2B10G10R10SIntPack32",
            Format::R16UNorm => "R16UNorm",
            Format::R16SNorm => "R16SNorm",
            Format::R16UScaled => "R16UScaled",
            Format::R16SScaled => "R16SScaled",
            Format::R16UInt => "R16UInt",
            Format::R16SInt => "R16SInt",
            Format::R16SFloat => "R16SFloat",
            Format::R16G16UNorm => "R16G16UNorm",
            Format::R16G16SNorm => "R16G16SNorm",
            Format::R16G16UScaled => "R16G16UScaled",
            Format::R16G16SScaled => "R16G16SScaled",
            Format::R16G16UInt => "R16G16UInt",
            Format::R16G16SInt => "R16G16SInt",
            Format::R16G16SFloat => "R16G16SFloat",
            Format::R16G16B16UNorm => "R16G16B16UNorm",
            Format::R16G16B16SNorm => "R16G16B16SNorm",
            Format::R16G16B16UScaled => "R16G16B16UScaled",
            Format::R16G16B16SScaled => "R16G16B16SScaled",
            Format::R16G16B16UInt => "R16G16B16UInt",
            Format::R16G16B16SInt => "R16G16B16SInt",
            Format::R16G16B16SFloat => "R16G16B16SFloat",
            Format::R16G16B16A16UNorm => "R16G16B16A16UNorm",
            Format::R16G16B16A16SNorm => "R16G16B16A16SNorm",
            Format::R16G16B16A16UScaled => "R16G16B16A16UScaled",
            Format::R16G16B16A16SScaled => "R16G16B16A16SScaled",
            Format::R16G16B16A16UInt => "R16G16B16A16UInt",
            Format::R16G16B16A16SInt => "R16G16B16A16SInt",
            Format::R16G16B16A16SFloat => "R16G16B16A16SFloat",
            Format::R32UInt => "R32UInt",
            Format::R32SInt => "R32SInt",
            Format::R32SFloat => "R32SFloat",
            Format::R32G32UInt => "R32G32UInt",
            Format::R32G32SInt => "R32G32SInt",
            Format::R32G32SFloat => "R32G32SFloat",
            Format::R32G32B32UInt => "R32G32B32UInt",
            Format::R32G32B32SInt => "R32G32B32SInt",
            Format::R32G32B32SFloat => "R32G32B32SFloat",
            Format::R32G32B32A32UInt => "R32G32B32A32UInt",
            Format::R32G32B32A32SInt => "R32G32B32A32SInt",
            Format::R32G32B32A32SFloat => "R32G32B32A32SFloat",
            Format::R64UInt => "R64UInt",
            Format::R64SInt => "R64SInt",
            Format::R64SFloat => "R64SFloat",
            Format::R64G64UInt => "R64G64UInt",
            Format::R64G64SInt => "R64G64SInt",
            Format::R64G64SFloat => "R64G64SFloat",
            Format::R64G64B64UInt => "R64G64B64UInt",
            Format::R64G64B64SInt => "R64G64B64SInt",
            Format::R64G64B64SFloat => "R64G64B64SFloat",
            Format::R64G64B64A64UInt => "R64G64B64A64UInt",
            Format::R64G64B64A64SInt => "R64G64B64A64SInt",
            Format::R64G64B64A64SFloat => "R64G64B64A64SFloat",
            Format::B10G11R11UFloatPack32 => "B10G11R11UFloatPack32",
            Format::E5B9G9R9UFloatPack32 => "E5B9G9R9UFloatPack32",
            Format::D16UNorm => "D16UNorm",
            Format::X8D24UNormPack32 => "X8D24UNormPack32",
            Format::D32SFloat => "D32SFloat",
            Format::S8UInt => "S8UInt",
            Format::D16UNormS8UInt => "D16UNormS8UInt",
            Format::D24UNormS8UInt => "D24UNormS8UInt",
            Format::D32SFloatS8UInt => "D32SFloatS8UInt",
            Format::BC1RGBUNormBlock => "BC1RGBUNormBlock",
            Format::BC1RGBSRgbBlock => "BC1RGBSRgbBlock",
            Format::BC1RGBAUNormBlock => "BC1RGBAUNormBlock",
            Format::BC1RGBASRgbBlock => "BC1RGBASRgbBlock",
            Format::BC2UNormBlock => "BC2UNormBlock",
            Format::BC2SRgbBlock => "BC2SRgbBlock",
            Format::BC3UNormBlock => "BC3UNormBlock",
            Format::BC3SRgbBlock => "BC3SRgbBlock",
            Format::BC4UNormBlock => "BC4UNormBlock",
            Format::BC4SNormBlock => "BC4SNormBlock",
            Format::BC5UNormBlock => "BC5UNormBlock",
            Format::BC5SNormBlock => "BC5SNormBlock",
            Format::BC6HUFloatBlock => "BC6HUFloatBlock",
            Format::BC6HSFloatBlock => "BC6HSFloatBlock",
            Format::BC7UNormBlock => "BC7UNormBlock",
            Format::BC7SRgbBlock => "BC7SRgbBlock",
            Format::ETC2R8G8B8UNormBlock => "ETC2R8G8B8UNormBlock",
            Format::ETC2R8G8B8SRgbBlock => "ETC2R8G8B8SRgbBlock",
            Format::ETC2R8G8B8A1UNormBlock => "ETC2R8G8B8A1UNormBlock",
            Format::ETC2R8G8B8A1SRgbBlock => "ETC2R8G8B8A1SRgbBlock",
            Format::ETC2R8G8B8A8UNormBlock => "ETC2R8G8B8A8UNormBlock",
            Format::ETC2R8G8B8A8SRgbBlock => "ETC2R8G8B8A8SRgbBlock",
            Format::EACR11UNormBlock => "EACR11UNormBlock",
            Format::EACR11SNormBlock => "EACR11SNormBlock",
            Format::EACR11G11UNormBlock => "EACR11G11UNormBlock",
            Format::EACR11G11SNormBlock => "EACR11G11SNormBlock",
            Format::ASTC4X4UNormBlock => "ASTC4X4UNormBlock",
            Format::ASTC4X4SRgbBlock => "ASTC4X4SRgbBlock",
            Format::ASTC5X4UNormBlock => "ASTC5X4UNormBlock",
            Format::ASTC5X4SRgbBlock => "ASTC5X4SRgbBlock",
            Format::ASTC5X5UNormBlock => "ASTC5X5UNormBlock",
            Format::ASTC5X5SRgbBlock => "ASTC5X5SRgbBlock",
            Format::ASTC6X5UNormBlock => "ASTC6X5UNormBlock",
            Format::ASTC6X5SRgbBlock => "ASTC6X5SRgbBlock",
            Format::ASTC6X6UNormBlock => "ASTC6X6UNormBlock",
            Format::ASTC6X6SRgbBlock => "ASTC6X6SRgbBlock",
            Format::ASTC8X5UNormBlock => "ASTC8X5UNormBlock",
            Format::ASTC8X5SRgbBlock => "ASTC8X5SRgbBlock",
            Format::ASTC8X6UNormBlock => "ASTC8X6UNormBlock",
            Format::ASTC8X6SRgbBlock => "ASTC8X6SRgbBlock",
            Format::ASTC8X8UNormBlock => "ASTC8X8UNormBlock",
            Format::ASTC8X8SRgbBlock => "ASTC8X8SRgbBlock",
            Format::ASTC10X5UNormBlock => "ASTC10X5UNormBlock",
            Format::ASTC10X5SRgbBlock => "ASTC10X5SRgbBlock",
            Format::ASTC10X6UNormBlock => "ASTC10X6UNormBlock",
            Format::ASTC10X6SRgbBlock => "ASTC10X6SRgbBlock",
            Format::ASTC10X8UNormBlock => "ASTC10X8UNormBlock",
            Format::ASTC10X8SRgbBlock => "ASTC10X8SRgbBlock",
            Format::ASTC10X10UNormBlock => "ASTC10X10UNormBlock",
            Format::ASTC10X10SRgbBlock => "ASTC10X10SRgbBlock",
            Format::ASTC12X10UNormBlock => "ASTC12X10UNormBlock",
            Format::ASTC12X10SRgbBlock => "ASTC12X10SRgbBlock",
            Format::ASTC12X12UNormBlock => "ASTC12X12UNormBlock",
            Format::ASTC12X12SRgbBlock => "ASTC12X12SRgbBlock",
        }
    }

    /// The name shown to users.
    pub fn name(&self) -> (r: &'static str)
        ensures r == self.name_spec(),
    {
        match self {
            Format::Undefined => "Undefined",
            Format::R4G4UNormPack8 => "R4G4UNormPack8",
            Format::R4G4B4A4UNormPack16 => "R4G4B4A4UNormPack16",
            Format::B4G4R4A4UNormPack16 => "B4G4R4A4UNormPack16",
            Format::R5G6B5UNormPack16 => "R5G6B5UNormPack16",
            Format::B5G6R5UNormPack16 => "B5G6R5UNormPack16",
            Format::R5G5B5A1UNormPack16 => "R5G5B5A1UNormPack16",
            Format::B5G5R5A1UNormPack16 => "B5G5R5A1UNormPack16",
            Format::A1R5G5B5UNormPack16 => "A1R5G5B5UNormPack16",
            Format::R8UNorm => "R8UNorm",
            Format::R8SNorm => "R8SNorm",
            Format::R8UScaled => "R8UScaled",
            Format::R8SScaled => "R8SScaled",
            Format::R8UInt => "R8UInt",
            Format::R8SInt => "R8SInt",
            Format::R8SRgb => "R8SRgb",
            Format::R8G8UNorm => "R8G8UNorm",
            Format::R8G8SNorm => "R8G8SNorm",
            Format::R8G8UScaled => "R8G8UScaled",
            Format::R8G8SScaled => "R8G8SScaled",
            Format::R8G8UInt => "R8G8UInt",
            Format::R8G8SInt => "R8G8SInt",
            Format::R8G8SRgb => "R8G8SRgb",
            Format::R8G8B8UNorm => "R8G8B8UNorm",
            Format::R8G8B8SNorm => "R8G8B8SNorm",
            Format::R8G8B8UScaled => "R8G8B8UScaled",
            Format::R8G8B8SScaled => "R8G8B8SScaled",
            Format::R8G8B8UInt => "R8G8B8UInt",
            Format::R8G8B8SInt => "R8G8B8SInt",
            Format::R8G8B8SRgb => "R8G8B8SRgb",
            Format::B8G8R8UNorm => "B8G8R8UNorm",
            Format::B8G8R8SNorm => "B8G8R8SNorm",
            Format::B8G8R8UScaled => "B8G8R8UScaled",
            Format::B8G8R8SScaled => "B8G8R8SScaled",
            Format::B8G8R8UInt => "B8G8R8UInt",
            Format::B8G8R8SInt => "B8G8R8SInt",
            Format::B8G8R8SRgb => "B8G8R8SRgb",
            Format::R8G8B8A8UNorm => "R8G8B8A8UNorm",
            Format::R8G8B8A8SNorm => "R8G8B8A8SNorm",
            Format::R8G8B8A8UScaled => "R8G8B8A8UScaled",
            Format::R8G8B8A8SScaled => "R8G8B8A8SScaled",
            Format::R8G8B8A8UInt => "R8G8B8A8UInt",
            Format::R8G8B8A8SInt => "R8G8B8A8SInt",
            Format::R8G8B8A8SRgb => "R8G8B8A8SRgb",
            Format::B8G8R8A8UNorm => "B8G8R8A8UNorm",
            Format::B8G8R8A8SNorm => "B8G8R8A8SNorm",
            Format::B8G8R8A8UScaled => "B8G8R8A8UScaled",
            Format::B8G8R8A8SScaled => "B8G8R8A8SScaled",
            Format::B8G8R8A8UInt => "B8G8R8A8UInt",
            Format::B8G8R8A8SInt => "B8G8R8A8SInt",
            Format::B8G8R8A8SRgb => "B8G8R8A8SRgb",
            Format::A8B8G8R8UNormPack32 => "A8B8G8R8UNormPack32",
            Format::A8B8G8R8SNormPack32 => "A8B8G8R8SNormPack32",
            Format::A8B8G8R8UScaledPack32 => "A8B8G8R8UScaledPack32",
            Format::A8B8G8R8SScaledPack32 => "A8B8G8R8SScaledPack32",
            Format::A8B8G8R8UIntPack32 => "A8B8G8R8UIntPack32",
            Format::A8B8G8R8SIntPack32 => "A8B8G8R8SIntPack32",
            Format::A8B8G8R8SRgbPack32 => "A8B8G8R8SRgbPack32",
            Format::A2R10G10B10UNormPack32 => "A2R10G10B10UNormPack32",
            Format::A2R10G10B10SNormPack32 => "A2R10G10B10SNormPack32",
            Format::A2R10G10B10UScaledPack32 => "A2R10G10B10UScaledPack32",
            Format::A2R10G10B10SScaledPack32 => "A2R10G10B10SScaledPack32",
            Format::A2R10G10B10UIntPack32 => "A2R10G10B10UIntPack32",
            Format::A2R10G10B10SIntPack32 => "A2R10G10B10SIntPack32",
            Format::A2B10G10R10UNormPack32 => "A2B10G10R10UNormPack32",
            Format::A2B10G10R10SNormPack32 => "A2B10G10R10SNormPack32",
            Format::A2B10G10R10UScaledPack32 => "A2B10G10R10UScaledPack32",
            Format::A2B10G10R10SScaledPack32 => "A2B10G10R10SScaledPack32",
            Format::A2B10G10R10UIntPack32 => "A2B10G10R10UIntPack32",
            Format::A2B10G10R10SIntPack32 => "A2B10G10R10SIntPack32",
            Format::R16UNorm => "R16UNorm",
            Format::R16SNorm => "R16SNorm",
            Format::R16UScaled => "R16UScaled",
            Format::R16SScaled => "R16SScaled",
            Format::R16UInt => "R16UInt",
            Format::R16SInt => "R16SInt",
            Format::R16SFloat => "R16SFloat",
            Format::R16G16UNorm => "R16G16UNorm",
            Format::R16G16SNorm => "R16G16SNorm",
            Format::R16G16UScaled => "R16G16UScaled",
            Format::R16G16SScaled => "R16G16SScaled",
            Format::R16G16UInt => "R16G16UInt",
            Format::R16G16SInt => "R16G16SInt",
            Format::R16G16SFloat => "R16G16SFloat",
            Format::R16G16B16UNorm => "R16G16B16UNorm",
            Format::R16G16B16SNorm => "R16G16B16SNorm",
            Format::R16G16B16UScaled => "R16G16B16UScaled",
            Format::R16G16B16SScaled => "R16G16B16SScaled",
            Format::R16G16B16UInt => "R16G16B16UInt",
            Format::R16G16B16SInt => "R16G16B16SInt",
            Format::R16G16B16SFloat => "R16G16B16SFloat",
            Format::R16G16B16A16UNorm => "R16G16B16A16UNorm",
            Format::R16G16B16A16SNorm => "R16G16B16A16SNorm",
            Format::R16G16B16A16UScaled => "R16G16B16A16UScaled",
            Format::R16G16B16A16SScaled => "R16G16B16A16SScaled",
            Format::R16G16B16A16UInt => "R16G16B16A16UInt",
            Format::R16G16B16A16SInt => "R16G16B16A16SInt",
            Format::R16G16B16A16SFloat => "R16G16B16A16SFloat",
            Format::R32UInt => "R32UInt",
            Format::R32SInt => "R32SInt",
            Format::R32SFloat => "R32SFloat",
            Format::R32G32UInt => "R32G32UInt",
            Format::R32G32SInt => "R32G32SInt",
            Format::R32G32SFloat => "R32G32SFloat",
            Format::R32G32B32UInt => "R32G32B32UInt",
            Format::R32G32B32SInt => "R32G32B32SInt",
            Format::R32G32B32SFloat => "R32G32B32SFloat",
            Format::R32G32B32A32UInt => "R32G32B32A32UInt",
            Format::R32G32B32A32SInt => "R32G32B32A32SInt",
            Format::R32G32B32A32SFloat => "R32G32B32A32SFloat",
            Format::R64UInt => "R64UInt",
            Format::R64SInt => "R64SInt",
            Format::R64SFloat => "R64SFloat",
            Format::R64G64UInt => "R64G64UInt",
            Format::R64G64SInt => "R64G64SInt",
            Format::R64G64SFloat => "R64G64SFloat",
            Format::R64G64B64UInt => "R64G64B64UInt",
            Format::R64G64B64SInt => "R64G64B64SInt",
            Format::R64G64B64SFloat => "R64G64B64SFloat",
            Format::R64G64B64A64UInt => "R64G64B64A64UInt",
            Format::R64G64B64A64SInt => "R64G64B64A64SInt",
            Format::R64G64B64A64SFloat => "R64G64B64A64SFloat",
            Format::B10G11R11UFloatPack32 => "B10G11R11UFloatPack32",
            Format::E5B9G9R9UFloatPack32 => "E5B9G9R9UFloatPack32",
            Format::D16UNorm => "D16UNorm",
            Format::X8D24UNormPack32 => "X8D24UNormPack32",
            Format::D32SFloat => "D32SFloat",
            Format::S8UInt => "S8UInt",
            Format::D16UNormS8UInt => "D16UNormS8UInt",
            Format::D24UNormS8UInt => "D24UNormS8UInt",
            Format::D32SFloatS8UInt => "D32SFloatS8UInt",
            Format::BC1RGBUNormBlock => "BC1RGBUNormBlock",
            Format::BC1RGBSRgbBlock => "BC1RGBSRgbBlock",
            Format::BC1RGBAUNormBlock => "BC1RGBAUNormBlock",
            Format::BC1RGBASRgbBlock => "BC1RGBASRgbBlock",
            Format::BC2UNormBlock => "BC2UNormBlock",
            Format::BC2SRgbBlock => "BC2SRgbBlock",
            Format::BC3UNormBlock => "BC3UNormBlock",
            Format::BC3SRgbBlock => "BC3SRgbBlock",
            Format::BC4UNormBlock => "BC4UNormBlock",
            Format::BC4SNormBlock => "BC4SNormBlock",
            Format::BC5UNormBlock => "BC5UNormBlock",
            Format::BC5SNormBlock => "BC5SNormBlock",
            Format::BC6HUFloatBlock => "BC6HUFloatBlock",
            Format::BC6HSFloatBlock => "BC6HSFloatBlock",
            Format::BC7UNormBlock => "BC7UNormBlock",
            Format::BC7SRgbBlock => "BC7SRgbBlock",
            Format::ETC2R8G8B8UNormBlock => "ETC2R8G8B8UNormBlock",
            Format::ETC2R8G8B8SRgbBlock => "ETC2R8G8B8SRgbBlock",
            Format::ETC2R8G8B8A1UNormBlock => "ETC2R8G8B8A1UNormBlock",
            Format::ETC2R8G8B8A1SRgbBlock => "ETC2R8G8B8A1SRgbBlock",
            Format::ETC2R8G8B8A8UNormBlock => "ETC2R8G8B8A8UNormBlock",
            Format::ETC2R8G8B8A8SRgbBlock => "ETC2R8G8B8A8SRgbBlock",
            Format::EACR11UNormBlock => "EACR11UNormBlock",
            Format::EACR11SNormBlock => "EACR11SNormBlock",
            Format::EACR11G11UNormBlock => "EACR11G11UNormBlock",
            Format::EACR11G11SNormBlock => "EACR11G11SNormBlock",
            Format::ASTC4X4UNormBlock => "ASTC4X4UNormBlock",
            Format::ASTC4X4SRgbBlock => "ASTC4X4SRgbBlock",
            Format::ASTC5X4UNormBlock => "ASTC5X4UNormBlock",
            Format::ASTC5X4SRgbBlock => "ASTC5X4SRgbBlock",
            Format::ASTC5X5UNormBlock => "ASTC5X5UNormBlock",
            Format::ASTC5X5SRgbBlock => "ASTC5X5SRgbBlock",
            Format::ASTC6X5UNormBlock => "ASTC6X5UNormBlock",
            Format::ASTC6X5SRgbBlock => "ASTC6X5SRgbBlock",
            Format::ASTC6X6UNormBlock => "ASTC6X6UNormBlock",
            Format::ASTC6X6SRgbBlock => "ASTC6X6SRgbBlock",
            Format::ASTC8X5UNormBlock => "ASTC8X5UNormBlock",
            Format::ASTC8X5SRgbBlock => "ASTC8X5SRgbBlock",
            Format::ASTC8X6UNormBlock => "ASTC8X6UNormBlock",
            Format::ASTC8X6SRgbBlock => "ASTC8X6SRgbBlock",
            Format::ASTC8X8UNormBlock => "ASTC8X8UNormBlock",
            Format::ASTC8X8SRgbBlock => "ASTC8X8SRgbBlock",
            Format::ASTC10X5UNormBlock => "ASTC10X5UNormBlock",
            Format::ASTC10X5SRgbBlock => "ASTC10X5SRgbBlock",
            Format::ASTC10X6UNormBlock => "ASTC10X6UNormBlock",
            Format::ASTC10X6SRgbBlock => "ASTC10X6SRgbBlock",
            Format::ASTC10X8UNormBlock => "ASTC10X8UNormBlock",
            Format::ASTC10X8SRgbBlock => "ASTC10X8SRgbBlock",
            Format::ASTC10X10UNormBlock => "ASTC10X10UNormBlock",
            Format::ASTC10X10SRgbBlock => "ASTC10X10SRgbBlock",
            Format::ASTC12X10UNormBlock => "ASTC12X10UNormBlock",
            Format::ASTC12X10SRgbBlock => "ASTC12X10SRgbBlock",
            Format::ASTC12X12UNormBlock => "ASTC12X12UNormBlock",
            Format::ASTC12X12SRgbBlock => "ASTC12X12SRgbBlock",
        }
    }
}

impl Default for Format {
    /// `B8G8R8A8SRgb`.
    fn default() -> (r: Self)
        ensures r == Format::B8G8R8A8SRgb,
    {
        Format::B8G8R8A8SRgb
    }
}

/// The name `ImageFormat` of `Format`.
pub type ImageFormat = Format;

} // verus!
