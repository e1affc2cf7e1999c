//! The plain-value parts of pipeline state, with their conversions to and
//! from the raw fields of the Vulkan structures they stand for.

use vstd::prelude::*;
use crate::enums::{
    AttributeLayout, BlendFactor, BlendOp, CompareOp, DescriptorKind, StencilOp, VertexInputRate,
    VertexTopology,
};
use crate::errors::AttributeLayoutError;
use crate::flags::{ColourMask, ShaderStage};

verus! {

/// A binding in a descriptor set layout.
#[derive(Clone, Copy, Debug, PartialEq, Eq, Structural)]
pub struct DescriptorBinding {
    /// The binding number.
    pub binding: u32,
    /// The kind of descriptor.
    pub kind: DescriptorKind,
    /// The shader stages that see it.
    pub stage: ShaderStage,
    /// The number of descriptors.
    pub count: u32,
}

impl DescriptorBinding {
    /// The binding of a Vulkan `VkDescriptorSetLayoutBinding` with these raw
    /// fields; the descriptor type must be one this library knows.
    pub fn from_vk(binding: u32, descriptor_type: i32, stage_flags: u32, descriptor_count: u32) -> (r: Self)
        requires DescriptorKind::from_vk_spec(descriptor_type) is Some,
        ensures
            r.binding == binding,
            Some(r.kind) == DescriptorKind::from_vk_spec(descriptor_type),
            r.stage.bits() == ShaderStage::from_vk_spec(stage_flags),
            r.count == descriptor_count,
    {
        DescriptorBinding {
            binding,
            kind: DescriptorKind::from_vk(descriptor_type),
            stage: ShaderStage::from_vk(stage_flags),
            count: descriptor_count,
        }
    }

    /// The raw binding, descriptor type, stage flags and count of the Vulkan
    /// `VkDescriptorSetLayoutBinding` (which has no immutable samplers).
    pub fn to_vk(&self) -> (r: (u32, i32, u32, u32))
        ensures r == (self.binding, self.kind.to_vk_spec(), self.stage.to_vk_spec(), self.count),
    {
        (self.binding, self.kind.to_vk(), self.stage.to_vk(), self.count)
    }
}

/// An attribute of the incoming vertices.
#[derive(Clone, Copy, Debug, PartialEq, Eq, Structural)]
pub struct VertexAttribute {
    /// The shader location.
    pub location: u32,
    /// The vertex buffer binding it comes from.
    pub binding: u32,
    /// Its layout.
    pub layout: AttributeLayout,
    /// Its offset in the vertex.
    pub offset: usize,
}

impl VertexAttribute {
    /// The attribute of a Vulkan `VkVertexInputAttributeDescription` with these
    /// raw fields; the format must be an attribute layout.
    pub fn from_vk(location: u32, binding: u32, format: i32, offset: u32) -> (r: Self)
        requires AttributeLayout::try_from_vk_spec(format) is Ok,
        ensures
            r.location == location,
            r.binding == binding,
            AttributeLayout::try_from_vk_spec(format) == Ok::<AttributeLayout, AttributeLayoutError>(r.layout),
            r.offset == offset as usize,
    {
        let layout = match AttributeLayout::try_from_vk(format) {
            Ok(layout) => layout,
            Err(_) => AttributeLayout::Float2,
        };
        VertexAttribute { location, binding, layout, offset: offset as usize }
    }

    /// The raw location, binding, format and offset (truncated to 32 bits) of
    /// the Vulkan `VkVertexInputAttributeDescription`.
    pub fn to_vk(&self) -> (r: (u32, u32, i32, u32))
        ensures r == (self.location, self.binding, self.layout.to_vk_spec(), self.offset as u32),
    {
        (self.location, self.binding, self.layout.to_vk(), self.offset as u32)
    }
}

/// A vertex buffer binding.
#[derive(Clone, Copy, Debug, PartialEq, Eq, Structural)]
pub struct VertexBinding {
    /// The binding number.
    pub binding: u32,
    /// The distance between consecutive vertices.
    pub stride: usize,
    /// Whether it advances per vertex or per instance.
    pub rate: VertexInputRate,
}

impl VertexBinding {
    /// The binding of a Vulkan `VkVertexInputBindingDescription` with these raw
    /// fields; the input rate must be one this library knows.
    pub fn from_vk(binding: u32, stride: u32, input_rate: i32) -> (r: Self)
        requires VertexInputRate::from_vk_spec(input_rate) is Some,
        ensures
            r.binding == binding,
            r.stride == stride as usize,
            Some(r.rate) == VertexInputRate::from_vk_spec(input_rate),
    {
        VertexBinding { binding, stride: stride as usize, rate: VertexInputRate::from_vk(input_rate) }
    }

    /// The raw binding, stride (truncated to 32 bits) and input rate of the
    /// Vulkan `VkVertexInputBindingDescription`.
    pub fn to_vk(&self) -> (r: (u32, u32, i32))
        ensures r == (self.binding, self.stride as u32, self.rate.to_vk_spec()),
    {
        (self.binding, self.stride as u32, self.rate.to_vk())
    }
}

/// The layout of the incoming vertices.
#[derive(Clone, Debug, PartialEq, Eq)]
pub struct VertexInputState {
    /// The attributes of each vertex.
    pub attributes: Vec<VertexAttribute>,
    /// The vertex buffer bindings.
    pub bindings: Vec<VertexBinding>,
}

impl VertexInputState {
    /// The raw Vulkan attribute and binding descriptions, in order.
    pub fn to_vk(&self) -> (r: (Vec<(u32, u32, i32, u32)>, Vec<(u32, u32, i32)>))
        ensures
            r.0@.len() == self.attributes@.len(),
            forall|i: int| 0 <= i < r.0@.len() ==> r.0@[i] == (
                self.attributes@[i].location,
                self.attributes@[i].binding,
                self.attributes@[i].layout.to_vk_spec(),
                self.attributes@[i].offset as u32,
            ),
            r.1@.len() == self.bindings@.len(),
            forall|i: int| 0 <= i < r.1@.len() ==> r.1@[i] == (
                self.bindings@[i].binding,
                self.bindings@[i].stride as u32,
                self.bindings@[i].rate.to_vk_spec(),
            ),
    {
        let mut attributes: Vec<(u32, u32, i32, u32)> = Vec::new();
        let mut i: usize = 0;
        while i < self.attributes.len()
            invariant
                0 <= i <= self.attributes@.len(),
                attributes@.len() == i,
                forall|j: int| 0 <= j < i ==> attributes@[j] == (
                    self.attributes@[j].location,
                    self.attributes@[j].binding,
                    self.attributes@[j].layout.to_vk_spec(),
                    self.attributes@[j].offset as u32,
                ),
            decreases self.attributes@.len() - i,
        {
            attributes.push(self.attributes[i].to_vk());
            i = i + 1;
        }
        let mut bindings: Vec<(u32, u32, i32)> = Vec::new();
        let mut k: usize = 0;
        while k < self.bindings.len()
            invariant
                0 <= k <= self.bindings@.len(),
                bindings@.len() == k,
                forall|j: int| 0 <= j < k ==> bindings@[j] == (
                    self.bindings@[j].binding,
                    self.bindings@[j].stride as u32,
                    self.bindings@[j].rate.to_vk_spec(),
                ),
            decreases self.bindings@.len() - k,
        {
            bindings.push(self.bindings[k].to_vk());
            k = k + 1;
        }
        (attributes, bindings)
    }
}

/// How vertices are assembled into primitives.
#[derive(Clone, Copy, Debug, PartialEq, Eq, Structural)]
pub struct VertexAssemblyState {
    /// The primitive topology.
    pub topology: VertexTopology,
    /// Whether a special index restarts strips and fans.
    pub restart_primitive: bool,
}

impl VertexAssemblyState {
    /// The state of a Vulkan `VkPipelineInputAssemblyStateCreateInfo` with these
    /// raw fields; the topology must be one this library knows.
    pub fn from_vk(topology: i32, primitive_restart_enable: u32) -> (r: Self)
        requires VertexTopology::from_vk_spec(topology) is Some,
        ensures
            Some(r.topology) == VertexTopology::from_vk_spec(topology),
            r.restart_primitive == (primitive_restart_enable != 0),
    {
        VertexAssemblyState {
            topology: VertexTopology::from_vk(topology),
            restart_primitive: primitive_restart_enable != 0,
        }
    }

    /// The raw topology and primitive restart flag (1 or 0).
    pub fn to_vk(&self) -> (r: (i32, u32))
        ensures r == (self.topology.to_vk_spec(), if self.restart_primitive { 1u32 } else { 0u32 }),
    {
        (self.topology.to_vk(), if self.restart_primitive { 1 } else { 0 })
    }
}

/// Multisampling state; it has no options yet (one sample per pixel).
#[derive(Clone, Copy, Debug, PartialEq, Eq, Structural)]
pub struct MultisampleState {}

/// What happens in a stencil test.
#[derive(Clone, Copy, Debug, PartialEq, Eq, Structural)]
pub struct StencilOpState {
    /// The operation when the stencil test fails.
    pub on_stencil_fail: StencilOp,
    /// The operation when the stencil test passes but the depth test fails.
    pub on_depth_fail: StencilOp,
    /// The operation when both tests pass.
    pub on_success: StencilOp,
    /// The stencil comparison.
    pub compare_op: CompareOp,
    /// The bits of the stencil values compared.
    pub compare_mask: u32,
    /// The bits of the stencil value written.
    pub write_mask: u32,
    /// The reference value.
    pub reference: u32,
}

impl StencilOpState {
    /// The state of a Vulkan `VkStencilOpState` with these raw fields; each
    /// operation must be one this library knows.
    pub fn from_vk(fail_op: i32, depth_fail_op: i32, pass_op: i32, compare_op: i32, compare_mask: u32, write_mask: u32, reference: u32) -> (r: Self)
        requires
            StencilOp::from_vk_spec(fail_op) is Some,
            StencilOp::from_vk_spec(depth_fail_op) is Some,
            StencilOp::from_vk_spec(pass_op) is Some,
            CompareOp::from_vk_spec(compare_op) is Some,
        ensures
            Some(r.on_stencil_fail) == StencilOp::from_vk_spec(fail_op),
            Some(r.on_depth_fail) == StencilOp::from_vk_spec(depth_fail_op),
            Some(r.on_success) == StencilOp::from_vk_spec(pass_op),
            Some(r.compare_op) == CompareOp::from_vk_spec(compare_op),
            r.compare_mask == compare_mask,
            r.write_mask == write_mask,
            r.reference == reference,
    {
        StencilOpState {
            on_stencil_fail: StencilOp::from_vk(fail_op),
            on_depth_fail: StencilOp::from_vk(depth_fail_op),
            on_success: StencilOp::from_vk(pass_op),
            compare_op: CompareOp::from_vk(compare_op),
            compare_mask,
            write_mask,
            reference,
        }
    }

    /// The raw fields of the Vulkan `VkStencilOpState`.
    pub fn to_vk(&self) -> (r: (i32, i32, i32, i32, u32, u32, u32))
        ensures r == (
            self.on_stencil_fail.to_vk_spec(),
            self.on_depth_fail.to_vk_spec(),
            self.on_success.to_vk_spec(),
            self.compare_op.to_vk_spec(),
            self.compare_mask,
            self.write_mask,
            self.reference,
        ),
    {
        (
            self.on_stencil_fail.to_vk(),
            self.on_depth_fail.to_vk(),
            self.on_success.to_vk(),
            self.compare_op.to_vk(),
            self.compare_mask,
            self.write_mask,
            self.reference,
        )
    }
}

/// How the output of one colour attachment is blended.
#[derive(Clone, Copy, Debug, PartialEq, Eq, Structural)]
pub struct AttachmentBlendState {
    /// Whether blending is on.
    pub enable_blend: bool,
    /// The factor of the new colour.
    pub src_colour: BlendFactor,
    /// The factor of the old colour.
    pub dst_colour: BlendFactor,
    /// How the colours are combined.
    pub colour_op: BlendOp,
    /// The factor of the new alpha.
    pub src_alpha: BlendFactor,
    /// The factor of the old alpha.
    pub dst_alpha: BlendFactor,
    /// How the alphas are combined.
    pub alpha_op: BlendOp,
    /// The channels written.
    pub write_mask: ColourMask,
}

impl AttachmentBlendState {
    /// The state of a Vulkan `VkPipelineColorBlendAttachmentState` with these
    /// raw fields; each factor and operation must be one this library knows.
    pub fn from_vk(
        blend_enable: u32,
        src_color_blend_factor: i32,
        dst_color_blend_factor: i32,
        color_blend_op: i32,
        src_alpha_blend_factor: i32,
        dst_alpha_blend_factor: i32,
        alpha_blend_op: i32,
        color_write_mask: u32,
    ) -> (r: Self)
        requires
            BlendFactor::from_vk_spec(src_color_blend_factor) is Some,
            BlendFactor::from_vk_spec(dst_color_blend_factor) is Some,
            BlendOp::from_vk_spec(color_blend_op) is Some,
            BlendFactor::from_vk_spec(src_alpha_blend_factor) is Some,
            BlendFactor::from_vk_spec(dst_alpha_blend_factor) is Some,
            BlendOp::from_vk_spec(alpha_blend_op) is Some,
        ensures
            r.enable_blend == (blend_enable != 0),
            Some(r.src_colour) == BlendFactor::from_vk_spec(src_color_blend_factor),
            Some(r.dst_colour) == BlendFactor::from_vk_spec(dst_color_blend_factor),
            Some(r.colour_op) == BlendOp::from_vk_spec(color_blend_op),
            Some(r.src_alpha) == BlendFactor::from_vk_spec(src_alpha_blend_factor),
            Some(r.dst_alpha) == BlendFactor::from_vk_spec(dst_alpha_blend_factor),
            Some(r.alpha_op) == BlendOp::from_vk_spec(alpha_blend_op),
            r.write_mask.bits() == ColourMask::from_vk_spec(color_write_mask),
    {
        AttachmentBlendState {
            enable_blend: blend_enable != 0,
            src_colour: BlendFactor::from_vk(src_color_blend_factor),
            dst_colour: BlendFactor::from_vk(dst_color_blend_factor),
            colour_op: BlendOp::from_vk(color_blend_op),
            src_alpha: BlendFactor::from_vk(src_alpha_blend_factor),
            dst_alpha: BlendFactor::from_vk(dst_alpha_blend_factor),
            alpha_op: BlendOp::from_vk(alpha_blend_op),
            write_mask: ColourMask::from_vk(color_write_mask),
        }
    }

    /// The raw fields of the Vulkan `VkPipelineColorBlendAttachmentState`
    /// (blending on as 1, off as 0).
    pub fn to_vk(&self) -> (r: (u32, i32, i32, i32, i32, i32, i32, u32))
        ensures r == (
            if self.enable_blend { 1u32 } else { 0u32 },
            self.src_colour.to_vk_spec(),
            self.dst_colour.to_vk_spec(),
            self.colour_op.to_vk_spec(),
            self.src_alpha.to_vk_spec(),
            self.dst_alpha.to_vk_spec(),
            self.alpha_op.to_vk_spec(),
            self.write_mask.to_vk_spec(),
        ),
    {
        (
            if self.enable_blend { 1 } else { 0 },
            self.src_colour.to_vk(),
            self.dst_colour.to_vk(),
            self.colour_op.to_vk(),
            self.src_alpha.to_vk(),
            self.dst_alpha.to_vk(),
            self.alpha_op.to_vk(),
            self.write_mask.to_vk(),
        )
    }
}

/// A cache of pipelines; it holds nothing yet.
#[derive(Clone, Copy, Debug, PartialEq, Eq, Structural)]
pub struct PipelineCache {}

/// A pipeline; it holds nothing yet.
#[derive(Clone, Copy, Debug, PartialEq, Eq, Structural)]
pub struct Pipeline {}

impl Pipeline {
    /// An empty pipeline.
    pub fn new() -> (r: Self)
        ensures r == (Pipeline {}),
    {
        Pipeline {}
    }
}

} // verus!
