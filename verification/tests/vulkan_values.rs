//! The conversions of enumerations and flags agree with the Vulkan values ash defines.

use ash::vk;
use game_vk::enums::{AttachmentLoadOp, AttachmentStoreOp, AttributeLayout, BindPoint, BlendFactor, BlendOp, CommandBufferLevel, CompareOp, CullMode, DescriptorKind, DeviceKind, DrawMode, DynamicState, Format, FrontFace, ImageAspect, ImageLayout, ImageViewKind, LogicOp, SampleCount, StencilOp, VertexInputRate, VertexTopology};
use game_vk::flags::{AccessFlags, BufferUsageFlags, ColourComponentFlags, ColourMask, CommandBufferFlags, CommandBufferUsageFlags, DependencyFlags, HeapPropertyFlags, MemoryPropertyFlags, PipelineStage, ShaderStage};

#[test]
fn device_kind_matches_ash() {
    assert_eq!(DeviceKind::Discrete.to_vk(), vk::PhysicalDeviceType::DISCRETE_GPU.as_raw());
    assert_eq!(DeviceKind::Integrated.to_vk(), vk::PhysicalDeviceType::INTEGRATED_GPU.as_raw());
    assert_eq!(DeviceKind::Virtual.to_vk(), vk::PhysicalDeviceType::VIRTUAL_GPU.as_raw());
    assert_eq!(DeviceKind::Cpu.to_vk(), vk::PhysicalDeviceType::CPU.as_raw());
    assert_eq!(DeviceKind::Other.to_vk(), vk::PhysicalDeviceType::OTHER.as_raw());
    assert_eq!(DeviceKind::from_vk(vk::PhysicalDeviceType::DISCRETE_GPU.as_raw()), DeviceKind::Discrete);
    assert_eq!(DeviceKind::from_vk(vk::PhysicalDeviceType::INTEGRATED_GPU.as_raw()), DeviceKind::Integrated);
    assert_eq!(DeviceKind::from_vk(vk::PhysicalDeviceType::VIRTUAL_GPU.as_raw()), DeviceKind::Virtual);
    assert_eq!(DeviceKind::from_vk(vk::PhysicalDeviceType::CPU.as_raw()), DeviceKind::Cpu);
}

#[test]
fn descriptor_kind_matches_ash() {
    assert_eq!(DescriptorKind::UniformBuffer.to_vk(), vk::DescriptorType::UNIFORM_BUFFER.as_raw());
    assert_eq!(DescriptorKind::StorageBuffer.to_vk(), vk::DescriptorType::STORAGE_BUFFER.as_raw());
    assert_eq!(DescriptorKind::UniformDynamicBuffer.to_vk(), vk::DescriptorType::UNIFORM_BUFFER_DYNAMIC.as_raw());
    assert_eq!(DescriptorKind::StorageDynamicBuffer.to_vk(), vk::DescriptorType::STORAGE_BUFFER_DYNAMIC.as_raw());
    assert_eq!(DescriptorKind::UniformTexelBuffer.to_vk(), vk::DescriptorType::UNIFORM_TEXEL_BUFFER.as_raw());
    assert_eq!(DescriptorKind::StorageTexelBuffer.to_vk(), vk::DescriptorType::STORAGE_TEXEL_BUFFER.as_raw());
    assert_eq!(DescriptorKind::InputAttachment.to_vk(), vk::DescriptorType::INPUT_ATTACHMENT.as_raw());
    assert_eq!(DescriptorKind::StorageImage.to_vk(), vk::DescriptorType::STORAGE_IMAGE.as_raw());
    assert_eq!(DescriptorKind::SampledImage.to_vk(), vk::DescriptorType::SAMPLED_IMAGE.as_raw());
    assert_eq!(DescriptorKind::Sampler.to_vk(), vk::DescriptorType::SAMPLER.as_raw());
    assert_eq!(DescriptorKind::CombindImageSampler.to_vk(), vk::DescriptorType::COMBINED_IMAGE_SAMPLER.as_raw());
    assert_eq!(DescriptorKind::from_vk(vk::DescriptorType::UNIFORM_BUFFER.as_raw()), DescriptorKind::UniformBuffer);
    assert_eq!(DescriptorKind::from_vk(vk::DescriptorType::STORAGE_BUFFER.as_raw()), DescriptorKind::StorageBuffer);
    assert_eq!(DescriptorKind::from_vk(vk::DescriptorType::UNIFORM_BUFFER_DYNAMIC.as_raw()), DescriptorKind::UniformDynamicBuffer);
    assert_eq!(DescriptorKind::from_vk(vk::DescriptorType::STORAGE_BUFFER_DYNAMIC.as_raw()), DescriptorKind::StorageDynamicBuffer);
    assert_eq!(DescriptorKind::from_vk(vk::DescriptorType::UNIFORM_TEXEL_BUFFER.as_raw()), DescriptorKind::UniformTexelBuffer);
    assert_eq!(DescriptorKind::from_vk(vk::DescriptorType::STORAGE_TEXEL_BUFFER.as_raw()), DescriptorKind::StorageTexelBuffer);
    assert_eq!(DescriptorKind::from_vk(vk::DescriptorType::INPUT_ATTACHMENT.as_raw()), DescriptorKind::InputAttachment);
    assert_eq!(DescriptorKind::from_vk(vk::DescriptorType::STORAGE_IMAGE.as_raw()), DescriptorKind::StorageImage);
    assert_eq!(DescriptorKind::from_vk(vk::DescriptorType::SAMPLED_IMAGE.as_raw()), DescriptorKind::SampledImage);
    assert_eq!(DescriptorKind::from_vk(vk::DescriptorType::SAMPLER.as_raw()), DescriptorKind::Sampler);
    assert_eq!(DescriptorKind::from_vk(vk::DescriptorType::COMBINED_IMAGE_SAMPLER.as_raw()), DescriptorKind::CombindImageSampler);
}

#[test]
fn attachment_load_op_matches_ash() {
    assert_eq!(AttachmentLoadOp::DontCare.to_vk(), vk::AttachmentLoadOp::DONT_CARE.as_raw());
    assert_eq!(AttachmentLoadOp::Clear.to_vk(), vk::AttachmentLoadOp::CLEAR.as_raw());
    assert_eq!(AttachmentLoadOp::Load.to_vk(), vk::AttachmentLoadOp::LOAD.as_raw());
    assert_eq!(AttachmentLoadOp::from_vk(vk::AttachmentLoadOp::DONT_CARE.as_raw()), AttachmentLoadOp::DontCare);
    assert_eq!(AttachmentLoadOp::from_vk(vk::AttachmentLoadOp::CLEAR.as_raw()), AttachmentLoadOp::Clear);
    assert_eq!(AttachmentLoadOp::from_vk(vk::AttachmentLoadOp::LOAD.as_raw()), AttachmentLoadOp::Load);
}

#[test]
fn attachment_store_op_matches_ash() {
    assert_eq!(AttachmentStoreOp::DontCare.to_vk(), vk::AttachmentStoreOp::DONT_CARE.as_raw());
    assert_eq!(AttachmentStoreOp::Store.to_vk(), vk::AttachmentStoreOp::STORE.as_raw());
    assert_eq!(AttachmentStoreOp::from_vk(vk::AttachmentStoreOp::DONT_CARE.as_raw()), AttachmentStoreOp::DontCare);
    assert_eq!(AttachmentStoreOp::from_vk(vk::AttachmentStoreOp::STORE.as_raw()), AttachmentStoreOp::Store);
}

#[test]
fn bind_point_matches_ash() {
    assert_eq!(BindPoint::Graphics.to_vk(), vk::PipelineBindPoint::GRAPHICS.as_raw());
    assert_eq!(BindPoint::Compute.to_vk(), vk::PipelineBindPoint::COMPUTE.as_raw());
    assert_eq!(BindPoint::from_vk(vk::PipelineBindPoint::GRAPHICS.as_raw()), BindPoint::Graphics);
    assert_eq!(BindPoint::from_vk(vk::PipelineBindPoint::COMPUTE.as_raw()), BindPoint::Compute);
}

#[test]
fn attribute_layout_matches_ash() {
    assert_eq!(AttributeLayout::Float2.to_vk(), vk::Format::R32G32_SFLOAT.as_raw());
    assert_eq!(AttributeLayout::Float3.to_vk(), vk::Format::R32G32B32_SFLOAT.as_raw());
}

#[test]
fn vertex_input_rate_matches_ash() {
    assert_eq!(VertexInputRate::Vertex.to_vk(), vk::VertexInputRate::VERTEX.as_raw());
    assert_eq!(VertexInputRate::Instance.to_vk(), vk::VertexInputRate::INSTANCE.as_raw());
    assert_eq!(VertexInputRate::from_vk(vk::VertexInputRate::VERTEX.as_raw()), VertexInputRate::Vertex);
    assert_eq!(VertexInputRate::from_vk(vk::VertexInputRate::INSTANCE.as_raw()), VertexInputRate::Instance);
}

#[test]
fn vertex_topology_matches_ash() {
    assert_eq!(VertexTopology::PointList.to_vk(), vk::PrimitiveTopology::POINT_LIST.as_raw());
    assert_eq!(VertexTopology::LineList.to_vk(), vk::PrimitiveTopology::LINE_LIST.as_raw());
    assert_eq!(VertexTopology::LineStrip.to_vk(), vk::PrimitiveTopology::LINE_STRIP.as_raw());
    assert_eq!(VertexTopology::LineListAdjacency.to_vk(), vk::PrimitiveTopology::LINE_LIST_WITH_ADJACENCY.as_raw());
    assert_eq!(VertexTopology::LineStripAdjacency.to_vk(), vk::PrimitiveTopology::LINE_STRIP_WITH_ADJACENCY.as_raw());
    assert_eq!(VertexTopology::TriangleList.to_vk(), vk::PrimitiveTopology::TRIANGLE_LIST.as_raw());
    assert_eq!(VertexTopology::TriangleStrip.to_vk(), vk::PrimitiveTopology::TRIANGLE_STRIP.as_raw());
    assert_eq!(VertexTopology::TriangleFan.to_vk(), vk::PrimitiveTopology::TRIANGLE_FAN.as_raw());
    assert_eq!(VertexTopology::TriangleListAdjacency.to_vk(), vk::PrimitiveTopology::TRIANGLE_LIST_WITH_ADJACENCY.as_raw());
    assert_eq!(VertexTopology::TriangleStripAdjacency.to_vk(), vk::PrimitiveTopology::TRIANGLE_STRIP_WITH_ADJACENCY.as_raw());
    assert_eq!(VertexTopology::PatchList.to_vk(), vk::PrimitiveTopology::PATCH_LIST.as_raw());
    assert_eq!(VertexTopology::from_vk(vk::PrimitiveTopology::POINT_LIST.as_raw()), VertexTopology::PointList);
    assert_eq!(VertexTopology::from_vk(vk::PrimitiveTopology::LINE_LIST.as_raw()), VertexTopology::LineList);
    assert_eq!(VertexTopology::from_vk(vk::PrimitiveTopology::LINE_STRIP.as_raw()), VertexTopology::LineStrip);
    assert_eq!(VertexTopology::from_vk(vk::PrimitiveTopology::LINE_LIST_WITH_ADJACENCY.as_raw()), VertexTopology::LineListAdjacency);
    assert_eq!(VertexTopology::from_vk(vk::PrimitiveTopology::LINE_STRIP_WITH_ADJACENCY.as_raw()), VertexTopology::LineStripAdjacency);
    assert_eq!(VertexTopology::from_vk(vk::PrimitiveTopology::TRIANGLE_LIST.as_raw()), VertexTopology::TriangleList);
    assert_eq!(VertexTopology::from_vk(vk::PrimitiveTopology::TRIANGLE_STRIP.as_raw()), VertexTopology::TriangleStrip);
    assert_eq!(VertexTopology::from_vk(vk::PrimitiveTopology::TRIANGLE_FAN.as_raw()), VertexTopology::TriangleFan);
    assert_eq!(VertexTopology::from_vk(vk::PrimitiveTopology::TRIANGLE_LIST_WITH_ADJACENCY.as_raw()), VertexTopology::TriangleListAdjacency);
    assert_eq!(VertexTopology::from_vk(vk::PrimitiveTopology::TRIANGLE_STRIP_WITH_ADJACENCY.as_raw()), VertexTopology::TriangleStripAdjacency);
    assert_eq!(VertexTopology::from_vk(vk::PrimitiveTopology::PATCH_LIST.as_raw()), VertexTopology::PatchList);
}

#[test]
fn cull_mode_matches_ash() {
    assert_eq!(CullMode::FrontAndBack.to_vk(), vk::CullModeFlags::FRONT_AND_BACK.as_raw());
    assert_eq!(CullMode::Front.to_vk(), vk::CullModeFlags::FRONT.as_raw());
    assert_eq!(CullMode::Back.to_vk(), vk::CullModeFlags::BACK.as_raw());
    assert_eq!(CullMode::Neither.to_vk(), vk::CullModeFlags::NONE.as_raw());
    assert_eq!(CullMode::from_vk(vk::CullModeFlags::FRONT_AND_BACK.as_raw()), CullMode::FrontAndBack);
    assert_eq!(CullMode::from_vk(vk::CullModeFlags::FRONT.as_raw()), CullMode::Front);
    assert_eq!(CullMode::from_vk(vk::CullModeFlags::BACK.as_raw()), CullMode::Back);
    assert_eq!(CullMode::from_vk(vk::CullModeFlags::NONE.as_raw()), CullMode::Neither);
}

#[test]
fn front_face_matches_ash() {
    assert_eq!(FrontFace::Clockwise.to_vk(), vk::FrontFace::CLOCKWISE.as_raw());
    assert_eq!(FrontFace::CounterClockwise.to_vk(), vk::FrontFace::COUNTER_CLOCKWISE.as_raw());
    assert_eq!(FrontFace::from_vk(vk::FrontFace::CLOCKWISE.as_raw()), FrontFace::Clockwise);
    assert_eq!(FrontFace::from_vk(vk::FrontFace::COUNTER_CLOCKWISE.as_raw()), FrontFace::CounterClockwise);
}

#[test]
fn draw_mode_matches_ash() {
    assert_eq!(DrawMode::Point.to_vk(), vk::PolygonMode::POINT.as_raw());
    assert_eq!(DrawMode::Line.to_vk(), vk::PolygonMode::LINE.as_raw());
    assert_eq!(DrawMode::Fill.to_vk(), vk::PolygonMode::FILL.as_raw());
    assert_eq!(DrawMode::from_vk(vk::PolygonMode::POINT.as_raw()), DrawMode::Point);
    assert_eq!(DrawMode::from_vk(vk::PolygonMode::LINE.as_raw()), DrawMode::Line);
    assert_eq!(DrawMode::from_vk(vk::PolygonMode::FILL.as_raw()), DrawMode::Fill);
}

#[test]
fn sample_count_matches_ash() {
    assert_eq!(SampleCount::One.to_vk(), vk::SampleCountFlags::TYPE_1.as_raw());
    assert_eq!(SampleCount::Two.to_vk(), vk::SampleCountFlags::TYPE_2.as_raw());
    assert_eq!(SampleCount::Four.to_vk(), vk::SampleCountFlags::TYPE_4.as_raw());
    assert_eq!(SampleCount::Eight.to_vk(), vk::SampleCountFlags::TYPE_8.as_raw());
    assert_eq!(SampleCount::Sixteen.to_vk(), vk::SampleCountFlags::TYPE_16.as_raw());
    assert_eq!(SampleCount::ThirtyTwo.to_vk(), vk::SampleCountFlags::TYPE_32.as_raw());
    assert_eq!(SampleCount::SixtyFour.to_vk(), vk::SampleCountFlags::TYPE_64.as_raw());
    assert_eq!(SampleCount::from_vk(vk::SampleCountFlags::TYPE_1.as_raw()), SampleCount::One);
    assert_eq!(SampleCount::from_vk(vk::SampleCountFlags::TYPE_2.as_raw()), SampleCount::Two);
    assert_eq!(SampleCount::from_vk(vk::SampleCountFlags::TYPE_4.as_raw()), SampleCount::Four);
    assert_eq!(SampleCount::from_vk(vk::SampleCountFlags::TYPE_8.as_raw()), SampleCount::Eight);
    assert_eq!(SampleCount::from_vk(vk::SampleCountFlags::TYPE_16.as_raw()), SampleCount::Sixteen);
    assert_eq!(SampleCount::from_vk(vk::SampleCountFlags::TYPE_32.as_raw()), SampleCount::ThirtyTwo);
    assert_eq!(SampleCount::from_vk(vk::SampleCountFlags::TYPE_64.as_raw()), SampleCount::SixtyFour);
}

#[test]
fn stencil_op_matches_ash() {
    assert_eq!(StencilOp::Keep.to_vk(), vk::StencilOp::KEEP.as_raw());
    assert_eq!(StencilOp::Zero.to_vk(), vk::StencilOp::ZERO.as_raw());
    assert_eq!(StencilOp::Replace.to_vk(), vk::StencilOp::REPLACE.as_raw());
    assert_eq!(StencilOp::Invert.to_vk(), vk::StencilOp::INVERT.as_raw());
    assert_eq!(StencilOp::IncrementClamp.to_vk(), vk::StencilOp::INCREMENT_AND_CLAMP.as_raw());
    assert_eq!(StencilOp::DecrementClamp.to_vk(), vk::StencilOp::DECREMENT_AND_CLAMP.as_raw());
    assert_eq!(StencilOp::IncrementWrap.to_vk(), vk::StencilOp::INCREMENT_AND_WRAP.as_raw());
    assert_eq!(StencilOp::DecrementWrap.to_vk(), vk::StencilOp::DECREMENT_AND_WRAP.as_raw());
    assert_eq!(StencilOp::from_vk(vk::StencilOp::KEEP.as_raw()), StencilOp::Keep);
    assert_eq!(StencilOp::from_vk(vk::StencilOp::ZERO.as_raw()), StencilOp::Zero);
    assert_eq!(StencilOp::from_vk(vk::StencilOp::REPLACE.as_raw()), StencilOp::Replace);
    assert_eq!(StencilOp::from_vk(vk::StencilOp::INVERT.as_raw()), StencilOp::Invert);
    assert_eq!(StencilOp::from_vk(vk::StencilOp::INCREMENT_AND_CLAMP.as_raw()), StencilOp::IncrementClamp);
    assert_eq!(StencilOp::from_vk(vk::StencilOp::DECREMENT_AND_CLAMP.as_raw()), StencilOp::DecrementClamp);
    assert_eq!(StencilOp::from_vk(vk::StencilOp::INCREMENT_AND_WRAP.as_raw()), StencilOp::IncrementWrap);
    assert_eq!(StencilOp::from_vk(vk::StencilOp::DECREMENT_AND_WRAP.as_raw()), StencilOp::DecrementWrap);
}

#[test]
fn compare_op_matches_ash() {
    assert_eq!(CompareOp::Always.to_vk(), vk::CompareOp::ALWAYS.as_raw());
    assert_eq!(CompareOp::Never.to_vk(), vk::CompareOp::NEVER.as_raw());
    assert_eq!(CompareOp::Less.to_vk(), vk::CompareOp::LESS.as_raw());
    assert_eq!(CompareOp::LessEq.to_vk(), vk::CompareOp::LESS_OR_EQUAL.as_raw());
    assert_eq!(CompareOp::Greater.to_vk(), vk::CompareOp::GREATER.as_raw());
    assert_eq!(CompareOp::GreaterEq.to_vk(), vk::CompareOp::GREATER_OR_EQUAL.as_raw());
    assert_eq!(CompareOp::Equal.to_vk(), vk::CompareOp::EQUAL.as_raw());
    assert_eq!(CompareOp::NotEqual.to_vk(), vk::CompareOp::NOT_EQUAL.as_raw());
    assert_eq!(CompareOp::from_vk(vk::CompareOp::ALWAYS.as_raw()), CompareOp::Always);
    assert_eq!(CompareOp::from_vk(vk::CompareOp::NEVER.as_raw()), CompareOp::Never);
    assert_eq!(CompareOp::from_vk(vk::CompareOp::LESS.as_raw()), CompareOp::Less);
    assert_eq!(CompareOp::from_vk(vk::CompareOp::LESS_OR_EQUAL.as_raw()), CompareOp::LessEq);
    assert_eq!(CompareOp::from_vk(vk::CompareOp::GREATER.as_raw()), CompareOp::Greater);
    assert_eq!(CompareOp::from_vk(vk::CompareOp::GREATER_OR_EQUAL.as_raw()), CompareOp::GreaterEq);
    assert_eq!(CompareOp::from_vk(vk::CompareOp::EQUAL.as_raw()), CompareOp::Equal);
    assert_eq!(CompareOp::from_vk(vk::CompareOp::NOT_EQUAL.as_raw()), CompareOp::NotEqual);
}

#[test]
fn logic_op_matches_ash() {
    assert_eq!(LogicOp::NoOp.to_vk(), vk::LogicOp::NO_OP.as_raw());
    assert_eq!(LogicOp::Clear.to_vk(), vk::LogicOp::CLEAR.as_raw());
    assert_eq!(LogicOp::SetAll.to_vk(), vk::LogicOp::SET.as_raw());
    assert_eq!(LogicOp::Copy.to_vk(), vk::LogicOp::COPY.as_raw());
    assert_eq!(LogicOp::CopyInv.to_vk(), vk::LogicOp::COPY_INVERTED.as_raw());
    assert_eq!(LogicOp::Not.to_vk(), vk::LogicOp::INVERT.as_raw());
    assert_eq!(LogicOp::And.to_vk(), vk::LogicOp::AND.as_raw());
    assert_eq!(LogicOp::AndInv.to_vk(), vk::LogicOp::AND_INVERTED.as_raw());
    assert_eq!(LogicOp::AndRev.to_vk(), vk::LogicOp::AND_REVERSE.as_raw());
    assert_eq!(LogicOp::NAnd.to_vk(), vk::LogicOp::NAND.as_raw());
    assert_eq!(LogicOp::Xor.to_vk(), vk::LogicOp::XOR.as_raw());
    assert_eq!(LogicOp::NXor.to_vk(), vk::LogicOp::EQUIVALENT.as_raw());
    assert_eq!(LogicOp::Or.to_vk(), vk::LogicOp::OR.as_raw());
    assert_eq!(LogicOp::OrInv.to_vk(), vk::LogicOp::OR_INVERTED.as_raw());
    assert_eq!(LogicOp::OrRev.to_vk(), vk::LogicOp::OR_REVERSE.as_raw());
    assert_eq!(LogicOp::NOr.to_vk(), vk::LogicOp::NOR.as_raw());
    assert_eq!(LogicOp::from_vk(vk::LogicOp::NO_OP.as_raw()), LogicOp::NoOp);
    assert_eq!(LogicOp::from_vk(vk::LogicOp::CLEAR.as_raw()), LogicOp::Clear);
    assert_eq!(LogicOp::from_vk(vk::LogicOp::SET.as_raw()), LogicOp::SetAll);
    assert_eq!(LogicOp::from_vk(vk::LogicOp::COPY.as_raw()), LogicOp::Copy);
    assert_eq!(LogicOp::from_vk(vk::LogicOp::COPY_INVERTED.as_raw()), LogicOp::CopyInv);
    assert_eq!(LogicOp::from_vk(vk::LogicOp::INVERT.as_raw()), LogicOp::Not);
    assert_eq!(LogicOp::from_vk(vk::LogicOp::AND.as_raw()), LogicOp::And);
    assert_eq!(LogicOp::from_vk(vk::LogicOp::AND_INVERTED.as_raw()), LogicOp::AndInv);
    assert_eq!(LogicOp::from_vk(vk::LogicOp::AND_REVERSE.as_raw()), LogicOp::AndRev);
    assert_eq!(LogicOp::from_vk(vk::LogicOp::NAND.as_raw()), LogicOp::NAnd);
    assert_eq!(LogicOp::from_vk(vk::LogicOp::XOR.as_raw()), LogicOp::Xor);
    assert_eq!(LogicOp::from_vk(vk::LogicOp::EQUIVALENT.as_raw()), LogicOp::NXor);
    assert_eq!(LogicOp::from_vk(vk::LogicOp::OR.as_raw()), LogicOp::Or);
    assert_eq!(LogicOp::from_vk(vk::LogicOp::OR_INVERTED.as_raw()), LogicOp::OrInv);
    assert_eq!(LogicOp::from_vk(vk::LogicOp::OR_REVERSE.as_raw()), LogicOp::OrRev);
    assert_eq!(LogicOp::from_vk(vk::LogicOp::NOR.as_raw()), LogicOp::NOr);
}

#[test]
fn blend_factor_matches_ash() {
    assert_eq!(BlendFactor::Zero.to_vk(), vk::BlendFactor::ZERO.as_raw());
    assert_eq!(BlendFactor::One.to_vk(), vk::BlendFactor::ONE.as_raw());
    assert_eq!(BlendFactor::SrcColour.to_vk(), vk::BlendFactor::SRC_COLOR.as_raw());
    assert_eq!(BlendFactor::OneMinusSrcColour.to_vk(), vk::BlendFactor::ONE_MINUS_SRC_COLOR.as_raw());
    assert_eq!(BlendFactor::DstColour.to_vk(), vk::BlendFactor::DST_COLOR.as_raw());
    assert_eq!(BlendFactor::OneMinusDstColour.to_vk(), vk::BlendFactor::ONE_MINUS_DST_COLOR.as_raw());
    assert_eq!(BlendFactor::SrcAlpha.to_vk(), vk::BlendFactor::SRC_ALPHA.as_raw());
    assert_eq!(BlendFactor::OneMinusSrcAlpha.to_vk(), vk::BlendFactor::ONE_MINUS_SRC_ALPHA.as_raw());
    assert_eq!(BlendFactor::DstAlpha.to_vk(), vk::BlendFactor::DST_ALPHA.as_raw());
    assert_eq!(BlendFactor::OneMinusDstAlpha.to_vk(), vk::BlendFactor::ONE_MINUS_DST_ALPHA.as_raw());
    assert_eq!(BlendFactor::ConstColour.to_vk(), vk::BlendFactor::CONSTANT_COLOR.as_raw());
    assert_eq!(BlendFactor::OneMinusConstColour.to_vk(), vk::BlendFactor::ONE_MINUS_CONSTANT_COLOR.as_raw());
    assert_eq!(BlendFactor::ConstAlpha.to_vk(), vk::BlendFactor::CONSTANT_ALPHA.as_raw());
    assert_eq!(BlendFactor::OneMinusConstAlpha.to_vk(), vk::BlendFactor::ONE_MINUS_CONSTANT_ALPHA.as_raw());
    assert_eq!(BlendFactor::SrcColour2.to_vk(), vk::BlendFactor::SRC1_COLOR.as_raw());
    assert_eq!(BlendFactor::OneMinusSrcColour2.to_vk(), vk::BlendFactor::ONE_MINUS_SRC1_COLOR.as_raw());
    assert_eq!(BlendFactor::SrcAlpha2.to_vk(), vk::BlendFactor::SRC1_ALPHA.as_raw());
    assert_eq!(BlendFactor::OneMinusSrcAlpha2.to_vk(), vk::BlendFactor::ONE_MINUS_SRC1_ALPHA.as_raw());
    assert_eq!(BlendFactor::SrcAlphaSaturate.to_vk(), vk::BlendFactor::SRC_ALPHA_SATURATE.as_raw());
    assert_eq!(BlendFactor::from_vk(vk::BlendFactor::ZERO.as_raw()), BlendFactor::Zero);
    assert_eq!(BlendFactor::from_vk(vk::BlendFactor::ONE.as_raw()), BlendFactor::One);
    assert_eq!(BlendFactor::from_vk(vk::BlendFactor::SRC_COLOR.as_raw()), BlendFactor::SrcColour);
    assert_eq!(BlendFactor::from_vk(vk::BlendFactor::ONE_MINUS_SRC_COLOR.as_raw()), BlendFactor::OneMinusSrcColour);
    assert_eq!(BlendFactor::from_vk(vk::BlendFactor::DST_COLOR.as_raw()), BlendFactor::DstColour);
    assert_eq!(BlendFactor::from_vk(vk::BlendFactor::ONE_MINUS_DST_COLOR.as_raw()), BlendFactor::OneMinusDstColour);
    assert_eq!(BlendFactor::from_vk(vk::BlendFactor::SRC_ALPHA.as_raw()), BlendFactor::SrcAlpha);
    assert_eq!(BlendFactor::from_vk(vk::BlendFactor::ONE_MINUS_SRC_ALPHA.as_raw()), BlendFactor::OneMinusSrcAlpha);
    assert_eq!(BlendFactor::from_vk(vk::BlendFactor::DST_ALPHA.as_raw()), BlendFactor::DstAlpha);
    assert_eq!(BlendFactor::from_vk(vk::BlendFactor::ONE_MINUS_DST_ALPHA.as_raw()), BlendFactor::OneMinusDstAlpha);
    assert_eq!(BlendFactor::from_vk(vk::BlendFactor::CONSTANT_COLOR.as_raw()), BlendFactor::ConstColour);
    assert_eq!(BlendFactor::from_vk(vk::BlendFactor::ONE_MINUS_CONSTANT_COLOR.as_raw()), BlendFactor::OneMinusConstColour);
    assert_eq!(BlendFactor::from_vk(vk::BlendFactor::CONSTANT_ALPHA.as_raw()), BlendFactor::ConstAlpha);
    assert_eq!(BlendFactor::from_vk(vk::BlendFactor::ONE_MINUS_CONSTANT_ALPHA.as_raw()), BlendFactor::OneMinusConstAlpha);
    assert_eq!(BlendFactor::from_vk(vk::BlendFactor::SRC1_COLOR.as_raw()), BlendFactor::SrcColour2);
    assert_eq!(BlendFactor::from_vk(vk::BlendFactor::ONE_MINUS_SRC1_COLOR.as_raw()), BlendFactor::OneMinusSrcColour2);
    assert_eq!(BlendFactor::from_vk(vk::BlendFactor::SRC1_ALPHA.as_raw()), BlendFactor::SrcAlpha2);
    assert_eq!(BlendFactor::from_vk(vk::BlendFactor::ONE_MINUS_SRC1_ALPHA.as_raw()), BlendFactor::OneMinusSrcAlpha2);
    assert_eq!(BlendFactor::from_vk(vk::BlendFactor::SRC_ALPHA_SATURATE.as_raw()), BlendFactor::SrcAlphaSaturate);
}

#[test]
fn blend_op_matches_ash() {
    assert_eq!(BlendOp::Add.to_vk(), vk::BlendOp::ADD.as_raw());
    assert_eq!(BlendOp::Sub.to_vk(), vk::BlendOp::SUBTRACT.as_raw());
    assert_eq!(BlendOp::SubRev.to_vk(), vk::BlendOp::REVERSE_SUBTRACT.as_raw());
    assert_eq!(BlendOp::Min.to_vk(), vk::BlendOp::MIN.as_raw());
    assert_eq!(BlendOp::Max.to_vk(), vk::BlendOp::MAX.as_raw());
    assert_eq!(BlendOp::from_vk(vk::BlendOp::ADD.as_raw()), BlendOp::Add);
    assert_eq!(BlendOp::from_vk(vk::BlendOp::SUBTRACT.as_raw()), BlendOp::Sub);
    assert_eq!(BlendOp::from_vk(vk::BlendOp::REVERSE_SUBTRACT.as_raw()), BlendOp::SubRev);
    assert_eq!(BlendOp::from_vk(vk::BlendOp::MIN.as_raw()), BlendOp::Min);
    assert_eq!(BlendOp::from_vk(vk::BlendOp::MAX.as_raw()), BlendOp::Max);
}

#[test]
fn command_buffer_level_matches_ash() {
    assert_eq!(CommandBufferLevel::Primary.to_vk(), vk::CommandBufferLevel::PRIMARY.as_raw());
    assert_eq!(CommandBufferLevel::Secondary.to_vk(), vk::CommandBufferLevel::SECONDARY.as_raw());
    assert_eq!(CommandBufferLevel::from_vk(vk::CommandBufferLevel::PRIMARY.as_raw()), CommandBufferLevel::Primary);
    assert_eq!(CommandBufferLevel::from_vk(vk::CommandBufferLevel::SECONDARY.as_raw()), CommandBufferLevel::Secondary);
}

#[test]
fn image_view_kind_matches_ash() {
    assert_eq!(ImageViewKind::OneD.to_vk(), vk::ImageViewType::TYPE_1D.as_raw());
    assert_eq!(ImageViewKind::OneDArray.to_vk(), vk::ImageViewType::TYPE_1D_ARRAY.as_raw());
    assert_eq!(ImageViewKind::TwoD.to_vk(), vk::ImageViewType::TYPE_2D.as_raw());
    assert_eq!(ImageViewKind::TwoDArray.to_vk(), vk::ImageViewType::TYPE_2D_ARRAY.as_raw());
    assert_eq!(ImageViewKind::ThreeD.to_vk(), vk::ImageViewType::TYPE_3D.as_raw());
    assert_eq!(ImageViewKind::Cube.to_vk(), vk::ImageViewType::CUBE.as_raw());
    assert_eq!(ImageViewKind::CubeArray.to_vk(), vk::ImageViewType::CUBE_ARRAY.as_raw());
    assert_eq!(ImageViewKind::from_vk(vk::ImageViewType::TYPE_1D.as_raw()), ImageViewKind::OneD);
    assert_eq!(ImageViewKind::from_vk(vk::ImageViewType::TYPE_1D_ARRAY.as_raw()), ImageViewKind::OneDArray);
    assert_eq!(ImageViewKind::from_vk(vk::ImageViewType::TYPE_2D.as_raw()), ImageViewKind::TwoD);
    assert_eq!(ImageViewKind::from_vk(vk::ImageViewType::TYPE_2D_ARRAY.as_raw()), ImageViewKind::TwoDArray);
    assert_eq!(ImageViewKind::from_vk(vk::ImageViewType::TYPE_3D.as_raw()), ImageViewKind::ThreeD);
    assert_eq!(ImageViewKind::from_vk(vk::ImageViewType::CUBE.as_raw()), ImageViewKind::Cube);
    assert_eq!(ImageViewKind::from_vk(vk::ImageViewType::CUBE_ARRAY.as_raw()), ImageViewKind::CubeArray);
}

#[test]
fn image_layout_matches_ash() {
    assert_eq!(ImageLayout::Undefined.to_vk(), vk::ImageLayout::UNDEFINED.as_raw());
    assert_eq!(ImageLayout::Preinitialized.to_vk(), vk::ImageLayout::PREINITIALIZED.as_raw());
    assert_eq!(ImageLayout::General.to_vk(), vk::ImageLayout::GENERAL.as_raw());
    assert_eq!(ImageLayout::ColourAttachment.to_vk(), vk::ImageLayout::COLOR_ATTACHMENT_OPTIMAL.as_raw());
    assert_eq!(ImageLayout::DepthStencil.to_vk(), vk::ImageLayout::DEPTH_STENCIL_ATTACHMENT_OPTIMAL.as_raw());
    assert_eq!(ImageLayout::DepthStencilReadOnly.to_vk(), vk::ImageLayout::DEPTH_STENCIL_READ_ONLY_OPTIMAL.as_raw());
    assert_eq!(ImageLayout::ShaderReadOnly.to_vk(), vk::ImageLayout::SHADER_READ_ONLY_OPTIMAL.as_raw());
    assert_eq!(ImageLayout::Present.to_vk(), vk::ImageLayout::PRESENT_SRC_KHR.as_raw());
    assert_eq!(ImageLayout::TransferSrc.to_vk(), vk::ImageLayout::TRANSFER_SRC_OPTIMAL.as_raw());
    assert_eq!(ImageLayout::TransferDst.to_vk(), vk::ImageLayout::TRANSFER_DST_OPTIMAL.as_raw());
    assert_eq!(ImageLayout::from_vk(vk::ImageLayout::UNDEFINED.as_raw()), ImageLayout::Undefined);
    assert_eq!(ImageLayout::from_vk(vk::ImageLayout::PREINITIALIZED.as_raw()), ImageLayout::Preinitialized);
    assert_eq!(ImageLayout::from_vk(vk::ImageLayout::GENERAL.as_raw()), ImageLayout::General);
    assert_eq!(ImageLayout::from_vk(vk::ImageLayout::COLOR_ATTACHMENT_OPTIMAL.as_raw()), ImageLayout::ColourAttachment);
    assert_eq!(ImageLayout::from_vk(vk::ImageLayout::DEPTH_STENCIL_ATTACHMENT_OPTIMAL.as_raw()), ImageLayout::DepthStencil);
    assert_eq!(ImageLayout::from_vk(vk::ImageLayout::DEPTH_STENCIL_READ_ONLY_OPTIMAL.as_raw()), ImageLayout::DepthStencilReadOnly);
    assert_eq!(ImageLayout::from_vk(vk::ImageLayout::SHADER_READ_ONLY_OPTIMAL.as_raw()), ImageLayout::ShaderReadOnly);
    assert_eq!(ImageLayout::from_vk(vk::ImageLayout::PRESENT_SRC_KHR.as_raw()), ImageLayout::Present);
    assert_eq!(ImageLayout::from_vk(vk::ImageLayout::TRANSFER_SRC_OPTIMAL.as_raw()), ImageLayout::TransferSrc);
    assert_eq!(ImageLayout::from_vk(vk::ImageLayout::TRANSFER_DST_OPTIMAL.as_raw()), ImageLayout::TransferDst);
}

#[test]
fn image_aspect_matches_ash() {
    assert_eq!(ImageAspect::Colour.to_vk(), vk::ImageAspectFlags::COLOR.as_raw());
    assert_eq!(ImageAspect::Depth.to_vk(), vk::ImageAspectFlags::DEPTH.as_raw());
    assert_eq!(ImageAspect::Stencil.to_vk(), vk::ImageAspectFlags::STENCIL.as_raw());
    assert_eq!(ImageAspect::Metadata.to_vk(), vk::ImageAspectFlags::METADATA.as_raw());
    assert_eq!(ImageAspect::from_vk(vk::ImageAspectFlags::COLOR.as_raw()), ImageAspect::Colour);
    assert_eq!(ImageAspect::from_vk(vk::ImageAspectFlags::DEPTH.as_raw()), ImageAspect::Depth);
    assert_eq!(ImageAspect::from_vk(vk::ImageAspectFlags::STENCIL.as_raw()), ImageAspect::Stencil);
    assert_eq!(ImageAspect::from_vk(vk::ImageAspectFlags::METADATA.as_raw()), ImageAspect::Metadata);
}

#[test]
fn dynamic_state_matches_ash() {
    assert_eq!(DynamicState::Viewport.to_vk(), vk::DynamicState::VIEWPORT.as_raw());
    assert_eq!(DynamicState::Scissor.to_vk(), vk::DynamicState::SCISSOR.as_raw());
    assert_eq!(DynamicState::LineWidth.to_vk(), vk::DynamicState::LINE_WIDTH.as_raw());
    assert_eq!(DynamicState::DepthBias.to_vk(), vk::DynamicState::DEPTH_BIAS.as_raw());
    assert_eq!(DynamicState::DepthBounds.to_vk(), vk::DynamicState::DEPTH_BOUNDS.as_raw());
    assert_eq!(DynamicState::StencilCompareMask.to_vk(), vk::DynamicState::STENCIL_COMPARE_MASK.as_raw());
    assert_eq!(DynamicState::StencilWriteMask.to_vk(), vk::DynamicState::STENCIL_WRITE_MASK.as_raw());
    assert_eq!(DynamicState::StencilReference.to_vk(), vk::DynamicState::STENCIL_REFERENCE.as_raw());
    assert_eq!(DynamicState::BlendConstants.to_vk(), vk::DynamicState::BLEND_CONSTANTS.as_raw());
    assert_eq!(DynamicState::from_vk(vk::DynamicState::VIEWPORT.as_raw()), DynamicState::Viewport);
    assert_eq!(DynamicState::from_vk(vk::DynamicState::SCISSOR.as_raw()), DynamicState::Scissor);
    assert_eq!(DynamicState::from_vk(vk::DynamicState::LINE_WIDTH.as_raw()), DynamicState::LineWidth);
    assert_eq!(DynamicState::from_vk(vk::DynamicState::DEPTH_BIAS.as_raw()), DynamicState::DepthBias);
    assert_eq!(DynamicState::from_vk(vk::DynamicState::DEPTH_BOUNDS.as_raw()), DynamicState::DepthBounds);
    assert_eq!(DynamicState::from_vk(vk::DynamicState::STENCIL_COMPARE_MASK.as_raw()), DynamicState::StencilCompareMask);
    assert_eq!(DynamicState::from_vk(vk::DynamicState::STENCIL_WRITE_MASK.as_raw()), DynamicState::StencilWriteMask);
    assert_eq!(DynamicState::from_vk(vk::DynamicState::STENCIL_REFERENCE.as_raw()), DynamicState::StencilReference);
    assert_eq!(DynamicState::from_vk(vk::DynamicState::BLEND_CONSTANTS.as_raw()), DynamicState::BlendConstants);
}

#[test]
fn format_matches_ash() {
    assert_eq!(Format::Undefined.to_vk(), vk::Format::UNDEFINED.as_raw());
    assert_eq!(Format::R4G4UNormPack8.to_vk(), vk::Format::R4G4_UNORM_PACK8.as_raw());
    assert_eq!(Format::R4G4B4A4UNormPack16.to_vk(), vk::Format::R4G4B4A4_UNORM_PACK16.as_raw());
    assert_eq!(Format::B4G4R4A4UNormPack16.to_vk(), vk::Format::B4G4R4A4_UNORM_PACK16.as_raw());
    assert_eq!(Format::R5G6B5UNormPack16.to_vk(), vk::Format::R5G6B5_UNORM_PACK16.as_raw());
    assert_eq!(Format::B5G6R5UNormPack16.to_vk(), vk::Format::B5G6R5_UNORM_PACK16.as_raw());
    assert_eq!(Format::R5G5B5A1UNormPack16.to_vk(), vk::Format::R5G5B5A1_UNORM_PACK16.as_raw());
    assert_eq!(Format::B5G5R5A1UNormPack16.to_vk(), vk::Format::B5G5R5A1_UNORM_PACK16.as_raw());
    assert_eq!(Format::A1R5G5B5UNormPack16.to_vk(), vk::Format::A1R5G5B5_UNORM_PACK16.as_raw());
    assert_eq!(Format::R8UNorm.to_vk(), vk::Format::R8_UNORM.as_raw());
    assert_eq!(Format::R8SNorm.to_vk(), vk::Format::R8_SNORM.as_raw());
    assert_eq!(Format::R8UScaled.to_vk(), vk::Format::R8_USCALED.as_raw());
    assert_eq!(Format::R8SScaled.to_vk(), vk::Format::R8_SSCALED.as_raw());
    assert_eq!(Format::R8UInt.to_vk(), vk::Format::R8_UINT.as_raw());
    assert_eq!(Format::R8SInt.to_vk(), vk::Format::R8_SINT.as_raw());
    assert_eq!(Format::R8SRgb.to_vk(), vk::Format::R8_SRGB.as_raw());
    assert_eq!(Format::R8G8UNorm.to_vk(), vk::Format::R8G8_UNORM.as_raw());
    assert_eq!(Format::R8G8SNorm.to_vk(), vk::Format::R8G8_SNORM.as_raw());
    assert_eq!(Format::R8G8UScaled.to_vk(), vk::Format::R8G8_USCALED.as_raw());
    assert_eq!(Format::R8G8SScaled.to_vk(), vk::Format::R8G8_SSCALED.as_raw());
    assert_eq!(Format::R8G8UInt.to_vk(), vk::Format::R8G8_UINT.as_raw());
    assert_eq!(Format::R8G8SInt.to_vk(), vk::Format::R8G8_SINT.as_raw());
    assert_eq!(Format::R8G8SRgb.to_vk(), vk::Format::R8G8_SRGB.as_raw());
    assert_eq!(Format::R8G8B8UNorm.to_vk(), vk::Format::R8G8B8_UNORM.as_raw());
    assert_eq!(Format::R8G8B8SNorm.to_vk(), vk::Format::R8G8B8_SNORM.as_raw());
    assert_eq!(Format::R8G8B8UScaled.to_vk(), vk::Format::R8G8B8_USCALED.as_raw());
    assert_eq!(Format::R8G8B8SScaled.to_vk(), vk::Format::R8G8B8_SSCALED.as_raw());
    assert_eq!(Format::R8G8B8UInt.to_vk(), vk::Format::R8G8B8_UINT.as_raw());
    assert_eq!(Format::R8G8B8SInt.to_vk(), vk::Format::R8G8B8_SINT.as_raw());
    assert_eq!(Format::R8G8B8SRgb.to_vk(), vk::Format::R8G8B8_SRGB.as_raw());
    assert_eq!(Format::B8G8R8UNorm.to_vk(), vk::Format::B8G8R8_UNORM.as_raw());
    assert_eq!(Format::B8G8R8SNorm.to_vk(), vk::Format::B8G8R8_SNORM.as_raw());
    assert_eq!(Format::B8G8R8UScaled.to_vk(), vk::Format::B8G8R8_USCALED.as_raw());
    assert_eq!(Format::B8G8R8SScaled.to_vk(), vk::Format::B8G8R8_SSCALED.as_raw());
    assert_eq!(Format::B8G8R8UInt.to_vk(), vk::Format::B8G8R8_UINT.as_raw());
    assert_eq!(Format::B8G8R8SInt.to_vk(), vk::Format::B8G8R8_SINT.as_raw());
    assert_eq!(Format::B8G8R8SRgb.to_vk(), vk::Format::B8G8R8_SRGB.as_raw());
    assert_eq!(Format::R8G8B8A8UNorm.to_vk(), vk::Format::R8G8B8A8_UNORM.as_raw());
    assert_eq!(Format::R8G8B8A8SNorm.to_vk(), vk::Format::R8G8B8A8_SNORM.as_raw());
    assert_eq!(Format::R8G8B8A8UScaled.to_vk(), vk::Format::R8G8B8A8_USCALED.as_raw());
    assert_eq!(Format::R8G8B8A8SScaled.to_vk(), vk::Format::R8G8B8A8_SSCALED.as_raw());
    assert_eq!(Format::R8G8B8A8UInt.to_vk(), vk::Format::R8G8B8A8_UINT.as_raw());
    assert_eq!(Format::R8G8B8A8SInt.to_vk(), vk::Format::R8G8B8A8_SINT.as_raw());
    assert_eq!(Format::R8G8B8A8SRgb.to_vk(), vk::Format::R8G8B8A8_SRGB.as_raw());
    assert_eq!(Format::B8G8R8A8UNorm.to_vk(), vk::Format::B8G8R8A8_UNORM.as_raw());
    assert_eq!(Format::B8G8R8A8SNorm.to_vk(), vk::Format::B8G8R8A8_SNORM.as_raw());
    assert_eq!(Format::B8G8R8A8UScaled.to_vk(), vk::Format::B8G8R8A8_USCALED.as_raw());
    assert_eq!(Format::B8G8R8A8SScaled.to_vk(), vk::Format::B8G8R8A8_SSCALED.as_raw());
    assert_eq!(Format::B8G8R8A8UInt.to_vk(), vk::Format::B8G8R8A8_UINT.as_raw());
    assert_eq!(Format::B8G8R8A8SInt.to_vk(), vk::Format::B8G8R8A8_SINT.as_raw());
    assert_eq!(Format::B8G8R8A8SRgb.to_vk(), vk::Format::B8G8R8A8_SRGB.as_raw());
    assert_eq!(Format::A8B8G8R8UNormPack32.to_vk(), vk::Format::A8B8G8R8_UNORM_PACK32.as_raw());
    assert_eq!(Format::A8B8G8R8SNormPack32.to_vk(), vk::Format::A8B8G8R8_SNORM_PACK32.as_raw());
    assert_eq!(Format::A8B8G8R8UScaledPack32.to_vk(), vk::Format::A8B8G8R8_USCALED_PACK32.as_raw());
    assert_eq!(Format::A8B8G8R8SScaledPack32.to_vk(), vk::Format::A8B8G8R8_SSCALED_PACK32.as_raw());
    assert_eq!(Format::A8B8G8R8UIntPack32.to_vk(), vk::Format::A8B8G8R8_UINT_PACK32.as_raw());
    assert_eq!(Format::A8B8G8R8SIntPack32.to_vk(), vk::Format::A8B8G8R8_SINT_PACK32.as_raw());
    assert_eq!(Format::A8B8G8R8SRgbPack32.to_vk(), vk::Format::A8B8G8R8_SRGB_PACK32.as_raw());
    assert_eq!(Format::A2R10G10B10UNormPack32.to_vk(), vk::Format::A2R10G10B10_UNORM_PACK32.as_raw());
    assert_eq!(Format::A2R10G10B10SNormPack32.to_vk(), vk::Format::A2R10G10B10_SNORM_PACK32.as_raw());
    assert_eq!(Format::A2R10G10B10UScaledPack32.to_vk(), vk::Format::A2R10G10B10_USCALED_PACK32.as_raw());
    assert_eq!(Format::A2R10G10B10SScaledPack32.to_vk(), vk::Format::A2R10G10B10_SSCALED_PACK32.as_raw());
    assert_eq!(Format::A2R10G10B10UIntPack32.to_vk(), vk::Format::A2R10G10B10_UINT_PACK32.as_raw());
    assert_eq!(Format::A2R10G10B10SIntPack32.to_vk(), vk::Format::A2R10G10B10_SINT_PACK32.as_raw());
    assert_eq!(Format::A2B10G10R10UNormPack32.to_vk(), vk::Format::A2B10G10R10_UNORM_PACK32.as_raw());
    assert_eq!(Format::A2B10G10R10SNormPack32.to_vk(), vk::Format::A2B10G10R10_SNORM_PACK32.as_raw());
    assert_eq!(Format::A2B10G10R10UScaledPack32.to_vk(), vk::Format::A2B10G10R10_USCALED_PACK32.as_raw());
    assert_eq!(Format::A2B10G10R10SScaledPack32.to_vk(), vk::Format::A2B10G10R10_SSCALED_PACK32.as_raw());
    assert_eq!(Format::A2B10G10R10UIntPack32.to_vk(), vk::Format::A2B10G10R10_UINT_PACK32.as_raw());
    assert_eq!(Format::A2B10G10R10SIntPack32.to_vk(), vk::Format::A2B10G10R10_SINT_PACK32.as_raw());
    assert_eq!(Format::R16UNorm.to_vk(), vk::Format::R16_UNORM.as_raw());
    assert_eq!(Format::R16SNorm.to_vk(), vk::Format::R16_SNORM.as_raw());
    assert_eq!(Format::R16UScaled.to_vk(), vk::Format::R16_USCALED.as_raw());
    assert_eq!(Format::R16SScaled.to_vk(), vk::Format::R16_SSCALED.as_raw());
    assert_eq!(Format::R16UInt.to_vk(), vk::Format::R16_UINT.as_raw());
    assert_eq!(Format::R16SInt.to_vk(), vk::Format::R16_SINT.as_raw());
    assert_eq!(Format::R16SFloat.to_vk(), vk::Format::R16_SFLOAT.as_raw());
    assert_eq!(Format::R16G16UNorm.to_vk(), vk::Format::R16G16_UNORM.as_raw());
    assert_eq!(Format::R16G16SNorm.to_vk(), vk::Format::R16G16_SNORM.as_raw());
    assert_eq!(Format::R16G16UScaled.to_vk(), vk::Format::R16G16_USCALED.as_raw());
    assert_eq!(Format::R16G16SScaled.to_vk(), vk::Format::R16G16_SSCALED.as_raw());
    assert_eq!(Format::R16G16UInt.to_vk(), vk::Format::R16G16_UINT.as_raw());
    assert_eq!(Format::R16G16SInt.to_vk(), vk::Format::R16G16_SINT.as_raw());
    assert_eq!(Format::R16G16SFloat.to_vk(), vk::Format::R16G16_SFLOAT.as_raw());
    assert_eq!(Format::R16G16B16UNorm.to_vk(), vk::Format::R16G16B16_UNORM.as_raw());
    assert_eq!(Format::R16G16B16SNorm.to_vk(), vk::Format::R16G16B16_SNORM.as_raw());
    assert_eq!(Format::R16G16B16UScaled.to_vk(), vk::Format::R16G16B16_USCALED.as_raw());
    assert_eq!(Format::R16G16B16SScaled.to_vk(), vk::Format::R16G16B16_SSCALED.as_raw());
    assert_eq!(Format::R16G16B16UInt.to_vk(), vk::Format::R16G16B16_UINT.as_raw());
    assert_eq!(Format::R16G16B16SInt.to_vk(), vk::Format::R16G16B16_SINT.as_raw());
    assert_eq!(Format::R16G16B16SFloat.to_vk(), vk::Format::R16G16B16_SFLOAT.as_raw());
    assert_eq!(Format::R16G16B16A16UNorm.to_vk(), vk::Format::R16G16B16A16_UNORM.as_raw());
    assert_eq!(Format::R16G16B16A16SNorm.to_vk(), vk::Format::R16G16B16A16_SNORM.as_raw());
    assert_eq!(Format::R16G16B16A16UScaled.to_vk(), vk::Format::R16G16B16A16_USCALED.as_raw());
    assert_eq!(Format::R16G16B16A16SScaled.to_vk(), vk::Format::R16G16B16A16_SSCALED.as_raw());
    assert_eq!(Format::R16G16B16A16UInt.to_vk(), vk::Format::R16G16B16A16_UINT.as_raw());
    assert_eq!(Format::R16G16B16A16SInt.to_vk(), vk::Format::R16G16B16A16_SINT.as_raw());
    assert_eq!(Format::R16G16B16A16SFloat.to_vk(), vk::Format::R16G16B16A16_SFLOAT.as_raw());
    assert_eq!(Format::R32UInt.to_vk(), vk::Format::R32_UINT.as_raw());
    assert_eq!(Format::R32SInt.to_vk(), vk::Format::R32_SINT.as_raw());
    assert_eq!(Format::R32SFloat.to_vk(), vk::Format::R32_SFLOAT.as_raw());
    assert_eq!(Format::R32G32UInt.to_vk(), vk::Format::R32G32_UINT.as_raw());
    assert_eq!(Format::R32G32SInt.to_vk(), vk::Format::R32G32_SINT.as_raw());
    assert_eq!(Format::R32G32SFloat.to_vk(), vk::Format::R32G32_SFLOAT.as_raw());
    assert_eq!(Format::R32G32B32UInt.to_vk(), vk::Format::R32G32B32_UINT.as_raw());
    assert_eq!(Format::R32G32B32SInt.to_vk(), vk::Format::R32G32B32_SINT.as_raw());
    assert_eq!(Format::R32G32B32SFloat.to_vk(), vk::Format::R32G32B32_SFLOAT.as_raw());
    assert_eq!(Format::R32G32B32A32UInt.to_vk(), vk::Format::R32G32B32A32_UINT.as_raw());
    assert_eq!(Format::R32G32B32A32SInt.to_vk(), vk::Format::R32G32B32A32_SINT.as_raw());
    assert_eq!(Format::R32G32B32A32SFloat.to_vk(), vk::Format::R32G32B32A32_SFLOAT.as_raw());
    assert_eq!(Format::R64UInt.to_vk(), vk::Format::R64_UINT.as_raw());
    assert_eq!(Format::R64SInt.to_vk(), vk::Format::R64_SINT.as_raw());
    assert_eq!(Format::R64SFloat.to_vk(), vk::Format::R64_SFLOAT.as_raw());
    assert_eq!(Format::R64G64UInt.to_vk(), vk::Format::R64G64_UINT.as_raw());
    assert_eq!(Format::R64G64SInt.to_vk(), vk::Format::R64G64_SINT.as_raw());
    assert_eq!(Format::R64G64SFloat.to_vk(), vk::Format::R64G64_SFLOAT.as_raw());
    assert_eq!(Format::R64G64B64UInt.to_vk(), vk::Format::R64G64B64_UINT.as_raw());
    assert_eq!(Format::R64G64B64SInt.to_vk(), vk::Format::R64G64B64_SINT.as_raw());
    assert_eq!(Format::R64G64B64SFloat.to_vk(), vk::Format::R64G64B64_SFLOAT.as_raw());
    assert_eq!(Format::R64G64B64A64UInt.to_vk(), vk::Format::R64G64B64A64_UINT.as_raw());
    assert_eq!(Format::R64G64B64A64SInt.to_vk(), vk::Format::R64G64B64A64_SINT.as_raw());
    assert_eq!(Format::R64G64B64A64SFloat.to_vk(), vk::Format::R64G64B64A64_SFLOAT.as_raw());
    assert_eq!(Format::B10G11R11UFloatPack32.to_vk(), vk::Format::B10G11R11_UFLOAT_PACK32.as_raw());
    assert_eq!(Format::E5B9G9R9UFloatPack32.to_vk(), vk::Format::E5B9G9R9_UFLOAT_PACK32.as_raw());
    assert_eq!(Format::D16UNorm.to_vk(), vk::Format::D16_UNORM.as_raw());
    assert_eq!(Format::X8D24UNormPack32.to_vk(), vk::Format::X8_D24_UNORM_PACK32.as_raw());
    assert_eq!(Format::D32SFloat.to_vk(), vk::Format::D32_SFLOAT.as_raw());
    assert_eq!(Format::S8UInt.to_vk(), vk::Format::S8_UINT.as_raw());
    assert_eq!(Format::D16UNormS8UInt.to_vk(), vk::Format::D16_UNORM_S8_UINT.as_raw());
    assert_eq!(Format::D24UNormS8UInt.to_vk(), vk::Format::D24_UNORM_S8_UINT.as_raw());
    assert_eq!(Format::D32SFloatS8UInt.to_vk(), vk::Format::D32_SFLOAT_S8_UINT.as_raw());
    assert_eq!(Format::BC1RGBUNormBlock.to_vk(), vk::Format::BC1_RGB_UNORM_BLOCK.as_raw());
    assert_eq!(Format::BC1RGBSRgbBlock.to_vk(), vk::Format::BC1_RGB_SRGB_BLOCK.as_raw());
    assert_eq!(Format::BC1RGBAUNormBlock.to_vk(), vk::Format::BC1_RGBA_UNORM_BLOCK.as_raw());
    assert_eq!(Format::BC1RGBASRgbBlock.to_vk(), vk::Format::BC1_RGBA_SRGB_BLOCK.as_raw());
    assert_eq!(Format::BC2UNormBlock.to_vk(), vk::Format::BC2_UNORM_BLOCK.as_raw());
    assert_eq!(Format::BC2SRgbBlock.to_vk(), vk::Format::BC2_SRGB_BLOCK.as_raw());
    assert_eq!(Format::BC3UNormBlock.to_vk(), vk::Format::BC3_UNORM_BLOCK.as_raw());
    assert_eq!(Format::BC3SRgbBlock.to_vk(), vk::Format::BC3_SRGB_BLOCK.as_raw());
    assert_eq!(Format::BC4UNormBlock.to_vk(), vk::Format::BC4_UNORM_BLOCK.as_raw());
    assert_eq!(Format::BC4SNormBlock.to_vk(), vk::Format::BC4_SNORM_BLOCK.as_raw());
    assert_eq!(Format::BC5UNormBlock.to_vk(), vk::Format::BC5_UNORM_BLOCK.as_raw());
    assert_eq!(Format::BC5SNormBlock.to_vk(), vk::Format::BC5_SNORM_BLOCK.as_raw());
    assert_eq!(Format::BC6HUFloatBlock.to_vk(), vk::Format::BC6H_UFLOAT_BLOCK.as_raw());
    assert_eq!(Format::BC6HSFloatBlock.to_vk(), vk::Format::BC6H_SFLOAT_BLOCK.as_raw());
    assert_eq!(Format::BC7UNormBlock.to_vk(), vk::Format::BC7_UNORM_BLOCK.as_raw());
    assert_eq!(Format::BC7SRgbBlock.to_vk(), vk::Format::BC7_SRGB_BLOCK.as_raw());
    assert_eq!(Format::ETC2R8G8B8UNormBlock.to_vk(), vk::Format::ETC2_R8G8B8_UNORM_BLOCK.as_raw());
    assert_eq!(Format::ETC2R8G8B8SRgbBlock.to_vk(), vk::Format::ETC2_R8G8B8_SRGB_BLOCK.as_raw());
    assert_eq!(Format::ETC2R8G8B8A1UNormBlock.to_vk(), vk::Format::ETC2_R8G8B8A1_UNORM_BLOCK.as_raw());
    assert_eq!(Format::ETC2R8G8B8A1SRgbBlock.to_vk(), vk::Format::ETC2_R8G8B8A1_SRGB_BLOCK.as_raw());
    assert_eq!(Format::ETC2R8G8B8A8UNormBlock.to_vk(), vk::Format::ETC2_R8G8B8A8_UNORM_BLOCK.as_raw());
    assert_eq!(Format::ETC2R8G8B8A8SRgbBlock.to_vk(), vk::Format::ETC2_R8G8B8A8_SRGB_BLOCK.as_raw());
    assert_eq!(Format::EACR11UNormBlock.to_vk(), vk::Format::EAC_R11_UNORM_BLOCK.as_raw());
    assert_eq!(Format::EACR11SNormBlock.to_vk(), vk::Format::EAC_R11_SNORM_BLOCK.as_raw());
    assert_eq!(Format::EACR11G11UNormBlock.to_vk(), vk::Format::EAC_R11G11_UNORM_BLOCK.as_raw());
    assert_eq!(Format::EACR11G11SNormBlock.to_vk(), vk::Format::EAC_R11G11_SNORM_BLOCK.as_raw());
    assert_eq!(Format::ASTC4X4UNormBlock.to_vk(), vk::Format::ASTC_4X4_UNORM_BLOCK.as_raw());
    assert_eq!(Format::ASTC4X4SRgbBlock.to_vk(), vk::Format::ASTC_4X4_SRGB_BLOCK.as_raw());
    assert_eq!(Format::ASTC5X4UNormBlock.to_vk(), vk::Format::ASTC_5X4_UNORM_BLOCK.as_raw());
    assert_eq!(Format::ASTC5X4SRgbBlock.to_vk(), vk::Format::ASTC_5X4_SRGB_BLOCK.as_raw());
    assert_eq!(Format::ASTC5X5UNormBlock.to_vk(), vk::Format::ASTC_5X5_UNORM_BLOCK.as_raw());
    assert_eq!(Format::ASTC5X5SRgbBlock.to_vk(), vk::Format::ASTC_5X5_SRGB_BLOCK.as_raw());
    assert_eq!(Format::ASTC6X5UNormBlock.to_vk(), vk::Format::ASTC_6X5_UNORM_BLOCK.as_raw());
    assert_eq!(Format::ASTC6X5SRgbBlock.to_vk(), vk::Format::ASTC_6X5_SRGB_BLOCK.as_raw());
    assert_eq!(Format::ASTC6X6UNormBlock.to_vk(), vk::Format::ASTC_6X6_UNORM_BLOCK.as_raw());
    assert_eq!(Format::ASTC6X6SRgbBlock.to_vk(), vk::Format::ASTC_6X6_SRGB_BLOCK.as_raw());
    assert_eq!(Format::ASTC8X5UNormBlock.to_vk(), vk::Format::ASTC_8X5_UNORM_BLOCK.as_raw());
    assert_eq!(Format::ASTC8X5SRgbBlock.to_vk(), vk::Format::ASTC_8X5_SRGB_BLOCK.as_raw());
    assert_eq!(Format::ASTC8X6UNormBlock.to_vk(), vk::Format::ASTC_8X6_UNORM_BLOCK.as_raw());
    assert_eq!(Format::ASTC8X6SRgbBlock.to_vk(), vk::Format::ASTC_8X6_SRGB_BLOCK.as_raw());
    assert_eq!(Format::ASTC8X8UNormBlock.to_vk(), vk::Format::ASTC_8X8_UNORM_BLOCK.as_raw());
    assert_eq!(Format::ASTC8X8SRgbBlock.to_vk(), vk::Format::ASTC_8X8_SRGB_BLOCK.as_raw());
    assert_eq!(Format::ASTC10X5UNormBlock.to_vk(), vk::Format::ASTC_10X5_UNORM_BLOCK.as_raw());
    assert_eq!(Format::ASTC10X5SRgbBlock.to_vk(), vk::Format::ASTC_10X5_SRGB_BLOCK.as_raw());
    assert_eq!(Format::ASTC10X6UNormBlock.to_vk(), vk::Format::ASTC_10X6_UNORM_BLOCK.as_raw());
    assert_eq!(Format::ASTC10X6SRgbBlock.to_vk(), vk::Format::ASTC_10X6_SRGB_BLOCK.as_raw());
    assert_eq!(Format::ASTC10X8UNormBlock.to_vk(), vk::Format::ASTC_10X8_UNORM_BLOCK.as_raw());
    assert_eq!(Format::ASTC10X8SRgbBlock.to_vk(), vk::Format::ASTC_10X8_SRGB_BLOCK.as_raw());
    assert_eq!(Format::ASTC10X10UNormBlock.to_vk(), vk::Format::ASTC_10X10_UNORM_BLOCK.as_raw());
    assert_eq!(Format::ASTC10X10SRgbBlock.to_vk(), vk::Format::ASTC_10X10_SRGB_BLOCK.as_raw());
    assert_eq!(Format::ASTC12X10UNormBlock.to_vk(), vk::Format::ASTC_12X10_UNORM_BLOCK.as_raw());
    assert_eq!(Format::ASTC12X10SRgbBlock.to_vk(), vk::Format::ASTC_12X10_SRGB_BLOCK.as_raw());
    assert_eq!(Format::ASTC12X12UNormBlock.to_vk(), vk::Format::ASTC_12X12_UNORM_BLOCK.as_raw());
    assert_eq!(Format::ASTC12X12SRgbBlock.to_vk(), vk::Format::ASTC_12X12_SRGB_BLOCK.as_raw());
    assert_eq!(Format::from_vk(vk::Format::UNDEFINED.as_raw()), Format::Undefined);
    assert_eq!(Format::from_vk(vk::Format::R4G4_UNORM_PACK8.as_raw()), Format::R4G4UNormPack8);
    assert_eq!(Format::from_vk(vk::Format::R4G4B4A4_UNORM_PACK16.as_raw()), Format::R4G4B4A4UNormPack16);
    assert_eq!(Format::from_vk(vk::Format::B4G4R4A4_UNORM_PACK16.as_raw()), Format::B4G4R4A4UNormPack16);
    assert_eq!(Format::from_vk(vk::Format::R5G6B5_UNORM_PACK16.as_raw()), Format::R5G6B5UNormPack16);
    assert_eq!(Format::from_vk(vk::Format::B5G6R5_UNORM_PACK16.as_raw()), Format::B5G6R5UNormPack16);
    assert_eq!(Format::from_vk(vk::Format::R5G5B5A1_UNORM_PACK16.as_raw()), Format::R5G5B5A1UNormPack16);
    assert_eq!(Format::from_vk(vk::Format::B5G5R5A1_UNORM_PACK16.as_raw()), Format::B5G5R5A1UNormPack16);
    assert_eq!(Format::from_vk(vk::Format::A1R5G5B5_UNORM_PACK16.as_raw()), Format::A1R5G5B5UNormPack16);
    assert_eq!(Format::from_vk(vk::Format::R8_UNORM.as_raw()), Format::R8UNorm);
    assert_eq!(Format::from_vk(vk::Format::R8_SNORM.as_raw()), Format::R8SNorm);
    assert_eq!(Format::from_vk(vk::Format::R8_USCALED.as_raw()), Format::R8UScaled);
    assert_eq!(Format::from_vk(vk::Format::R8_SSCALED.as_raw()), Format::R8SScaled);
    assert_eq!(Format::from_vk(vk::Format::R8_UINT.as_raw()), Format::R8UInt);
    assert_eq!(Format::from_vk(vk::Format::R8_SINT.as_raw()), Format::R8SInt);
    assert_eq!(Format::from_vk(vk::Format::R8_SRGB.as_raw()), Format::R8SRgb);
    assert_eq!(Format::from_vk(vk::Format::R8G8_UNORM.as_raw()), Format::R8G8UNorm);
    assert_eq!(Format::from_vk(vk::Format::R8G8_SNORM.as_raw()), Format::R8G8SNorm);
    assert_eq!(Format::from_vk(vk::Format::R8G8_USCALED.as_raw()), Format::R8G8UScaled);
    assert_eq!(Format::from_vk(vk::Format::R8G8_SSCALED.as_raw()), Format::R8G8SScaled);
    assert_eq!(Format::from_vk(vk::Format::R8G8_UINT.as_raw()), Format::R8G8UInt);
    assert_eq!(Format::from_vk(vk::Format::R8G8_SINT.as_raw()), Format::R8G8SInt);
    assert_eq!(Format::from_vk(vk::Format::R8G8_SRGB.as_raw()), Format::R8G8SRgb);
    assert_eq!(Format::from_vk(vk::Format::R8G8B8_UNORM.as_raw()), Format::R8G8B8UNorm);
    assert_eq!(Format::from_vk(vk::Format::R8G8B8_SNORM.as_raw()), Format::R8G8B8SNorm);
    assert_eq!(Format::from_vk(vk::Format::R8G8B8_USCALED.as_raw()), Format::R8G8B8UScaled);
    assert_eq!(Format::from_vk(vk::Format::R8G8B8_SSCALED.as_raw()), Format::R8G8B8SScaled);
    assert_eq!(Format::from_vk(vk::Format::R8G8B8_UINT.as_raw()), Format::R8G8B8UInt);
    assert_eq!(Format::from_vk(vk::Format::R8G8B8_SINT.as_raw()), Format::R8G8B8SInt);
    assert_eq!(Format::from_vk(vk::Format::R8G8B8_SRGB.as_raw()), Format::R8G8B8SRgb);
    assert_eq!(Format::from_vk(vk::Format::B8G8R8_UNORM.as_raw()), Format::B8G8R8UNorm);
    assert_eq!(Format::from_vk(vk::Format::B8G8R8_SNORM.as_raw()), Format::B8G8R8SNorm);
    assert_eq!(Format::from_vk(vk::Format::B8G8R8_USCALED.as_raw()), Format::B8G8R8UScaled);
    assert_eq!(Format::from_vk(vk::Format::B8G8R8_SSCALED.as_raw()), Format::B8G8R8SScaled);
    assert_eq!(Format::from_vk(vk::Format::B8G8R8_UINT.as_raw()), Format::B8G8R8UInt);
    assert_eq!(Format::from_vk(vk::Format::B8G8R8_SINT.as_raw()), Format::B8G8R8SInt);
    assert_eq!(Format::from_vk(vk::Format::B8G8R8_SRGB.as_raw()), Format::B8G8R8SRgb);
    assert_eq!(Format::from_vk(vk::Format::R8G8B8A8_UNORM.as_raw()), Format::R8G8B8A8UNorm);
    assert_eq!(Format::from_vk(vk::Format::R8G8B8A8_SNORM.as_raw()), Format::R8G8B8A8SNorm);
    assert_eq!(Format::from_vk(vk::Format::R8G8B8A8_USCALED.as_raw()), Format::R8G8B8A8UScaled);
    assert_eq!(Format::from_vk(vk::Format::R8G8B8A8_SSCALED.as_raw()), Format::R8G8B8A8SScaled);
    assert_eq!(Format::from_vk(vk::Format::R8G8B8A8_UINT.as_raw()), Format::R8G8B8A8UInt);
    assert_eq!(Format::from_vk(vk::Format::R8G8B8A8_SINT.as_raw()), Format::R8G8B8A8SInt);
    assert_eq!(Format::from_vk(vk::Format::R8G8B8A8_SRGB.as_raw()), Format::R8G8B8A8SRgb);
    assert_eq!(Format::from_vk(vk::Format::B8G8R8A8_UNORM.as_raw()), Format::B8G8R8A8UNorm);
    assert_eq!(Format::from_vk(vk::Format::B8G8R8A8_SNORM.as_raw()), Format::B8G8R8A8SNorm);
    assert_eq!(Format::from_vk(vk::Format::B8G8R8A8_USCALED.as_raw()), Format::B8G8R8A8UScaled);
    assert_eq!(Format::from_vk(vk::Format::B8G8R8A8_SSCALED.as_raw()), Format::B8G8R8A8SScaled);
    assert_eq!(Format::from_vk(vk::Format::B8G8R8A8_UINT.as_raw()), Format::B8G8R8A8UInt);
    assert_eq!(Format::from_vk(vk::Format::B8G8R8A8_SINT.as_raw()), Format::B8G8R8A8SInt);
    assert_eq!(Format::from_vk(vk::Format::B8G8R8A8_SRGB.as_raw()), Format::B8G8R8A8SRgb);
    assert_eq!(Format::from_vk(vk::Format::A8B8G8R8_UNORM_PACK32.as_raw()), Format::A8B8G8R8UNormPack32);
    assert_eq!(Format::from_vk(vk::Format::A8B8G8R8_SNORM_PACK32.as_raw()), Format::A8B8G8R8SNormPack32);
    assert_eq!(Format::from_vk(vk::Format::A8B8G8R8_USCALED_PACK32.as_raw()), Format::A8B8G8R8UScaledPack32);
    assert_eq!(Format::from_vk(vk::Format::A8B8G8R8_SSCALED_PACK32.as_raw()), Format::A8B8G8R8SScaledPack32);
    assert_eq!(Format::from_vk(vk::Format::A8B8G8R8_UINT_PACK32.as_raw()), Format::A8B8G8R8UIntPack32);
    assert_eq!(Format::from_vk(vk::Format::A8B8G8R8_SINT_PACK32.as_raw()), Format::A8B8G8R8SIntPack32);
    assert_eq!(Format::from_vk(vk::Format::A8B8G8R8_SRGB_PACK32.as_raw()), Format::A8B8G8R8SRgbPack32);
    assert_eq!(Format::from_vk(vk::Format::A2R10G10B10_UNORM_PACK32.as_raw()), Format::A2R10G10B10UNormPack32);
    assert_eq!(Format::from_vk(vk::Format::A2R10G10B10_SNORM_PACK32.as_raw()), Format::A2R10G10B10SNormPack32);
    assert_eq!(Format::from_vk(vk::Format::A2R10G10B10_USCALED_PACK32.as_raw()), Format::A2R10G10B10UScaledPack32);
    assert_eq!(Format::from_vk(vk::Format::A2R10G10B10_SSCALED_PACK32.as_raw()), Format::A2R10G10B10SScaledPack32);
    assert_eq!(Format::from_vk(vk::Format::A2R10G10B10_UINT_PACK32.as_raw()), Format::A2R10G10B10UIntPack32);
    assert_eq!(Format::from_vk(vk::Format::A2R10G10B10_SINT_PACK32.as_raw()), Format::A2R10G10B10SIntPack32);
    assert_eq!(Format::from_vk(vk::Format::A2B10G10R10_UNORM_PACK32.as_raw()), Format::A2B10G10R10UNormPack32);
    assert_eq!(Format::from_vk(vk::Format::A2B10G10R10_SNORM_PACK32.as_raw()), Format::A2B10G10R10SNormPack32);
    assert_eq!(Format::from_vk(vk::Format::A2B10G10R10_USCALED_PACK32.as_raw()), Format::A2B10G10R10UScaledPack32);
    assert_eq!(Format::from_vk(vk::Format::A2B10G10R10_SSCALED_PACK32.as_raw()), Format::A2B10G10R10SScaledPack32);
    assert_eq!(Format::from_vk(vk::Format::A2B10G10R10_UINT_PACK32.as_raw()), Format::A2B10G10R10UIntPack32);
    assert_eq!(Format::from_vk(vk::Format::A2B10G10R10_SINT_PACK32.as_raw()), Format::A2B10G10R10SIntPack32);
    assert_eq!(Format::from_vk(vk::Format::R16_UNORM.as_raw()), Format::R16UNorm);
    assert_eq!(Format::from_vk(vk::Format::R16_SNORM.as_raw()), Format::R16SNorm);
    assert_eq!(Format::from_vk(vk::Format::R16_USCALED.as_raw()), Format::R16UScaled);
    assert_eq!(Format::from_vk(vk::Format::R16_SSCALED.as_raw()), Format::R16SScaled);
    assert_eq!(Format::from_vk(vk::Format::R16_UINT.as_raw()), Format::R16UInt);
    assert_eq!(Format::from_vk(vk::Format::R16_SINT.as_raw()), Format::R16SInt);
    assert_eq!(Format::from_vk(vk::Format::R16_SFLOAT.as_raw()), Format::R16SFloat);
    assert_eq!(Format::from_vk(vk::Format::R16G16_UNORM.as_raw()), Format::R16G16UNorm);
    assert_eq!(Format::from_vk(vk::Format::R16G16_SNORM.as_raw()), Format::R16G16SNorm);
    assert_eq!(Format::from_vk(vk::Format::R16G16_USCALED.as_raw()), Format::R16G16UScaled);
    assert_eq!(Format::from_vk(vk::Format::R16G16_SSCALED.as_raw()), Format::R16G16SScaled);
    assert_eq!(Format::from_vk(vk::Format::R16G16_UINT.as_raw()), Format::R16G16UInt);
    assert_eq!(Format::from_vk(vk::Format::R16G16_SINT.as_raw()), Format::R16G16SInt);
    assert_eq!(Format::from_vk(vk::Format::R16G16_SFLOAT.as_raw()), Format::R16G16SFloat);
    assert_eq!(Format::from_vk(vk::Format::R16G16B16_UNORM.as_raw()), Format::R16G16B16UNorm);
    assert_eq!(Format::from_vk(vk::Format::R16G16B16_SNORM.as_raw()), Format::R16G16B16SNorm);
    assert_eq!(Format::from_vk(vk::Format::R16G16B16_USCALED.as_raw()), Format::R16G16B16UScaled);
    assert_eq!(Format::from_vk(vk::Format::R16G16B16_SSCALED.as_raw()), Format::R16G16B16SScaled);
    assert_eq!(Format::from_vk(vk::Format::R16G16B16_UINT.as_raw()), Format::R16G16B16UInt);
    assert_eq!(Format::from_vk(vk::Format::R16G16B16_SINT.as_raw()), Format::R16G16B16SInt);
    assert_eq!(Format::from_vk(vk::Format::R16G16B16_SFLOAT.as_raw()), Format::R16G16B16SFloat);
    assert_eq!(Format::from_vk(vk::Format::R16G16B16A16_UNORM.as_raw()), Format::R16G16B16A16UNorm);
    assert_eq!(Format::from_vk(vk::Format::R16G16B16A16_SNORM.as_raw()), Format::R16G16B16A16SNorm);
    assert_eq!(Format::from_vk(vk::Format::R16G16B16A16_USCALED.as_raw()), Format::R16G16B16A16UScaled);
    assert_eq!(Format::from_vk(vk::Format::R16G16B16A16_SSCALED.as_raw()), Format::R16G16B16A16SScaled);
    assert_eq!(Format::from_vk(vk::Format::R16G16B16A16_UINT.as_raw()), Format::R16G16B16A16UInt);
    assert_eq!(Format::from_vk(vk::Format::R16G16B16A16_SINT.as_raw()), Format::R16G16B16A16SInt);
    assert_eq!(Format::from_vk(vk::Format::R16G16B16A16_SFLOAT.as_raw()), Format::R16G16B16A16SFloat);
    assert_eq!(Format::from_vk(vk::Format::R32_UINT.as_raw()), Format::R32UInt);
    assert_eq!(Format::from_vk(vk::Format::R32_SINT.as_raw()), Format::R32SInt);
    assert_eq!(Format::from_vk(vk::Format::R32_SFLOAT.as_raw()), Format::R32SFloat);
    assert_eq!(Format::from_vk(vk::Format::R32G32_UINT.as_raw()), Format::R32G32UInt);
    assert_eq!(Format::from_vk(vk::Format::R32G32_SINT.as_raw()), Format::R32G32SInt);
    assert_eq!(Format::from_vk(vk::Format::R32G32_SFLOAT.as_raw()), Format::R32G32SFloat);
    assert_eq!(Format::from_vk(vk::Format::R32G32B32_UINT.as_raw()), Format::R32G32B32UInt);
    assert_eq!(Format::from_vk(vk::Format::R32G32B32_SINT.as_raw()), Format::R32G32B32SInt);
    assert_eq!(Format::from_vk(vk::Format::R32G32B32_SFLOAT.as_raw()), Format::R32G32B32SFloat);
    assert_eq!(Format::from_vk(vk::Format::R32G32B32A32_UINT.as_raw()), Format::R32G32B32A32UInt);
    assert_eq!(Format::from_vk(vk::Format::R32G32B32A32_SINT.as_raw()), Format::R32G32B32A32SInt);
    assert_eq!(Format::from_vk(vk::Format::R32G32B32A32_SFLOAT.as_raw()), Format::R32G32B32A32SFloat);
    assert_eq!(Format::from_vk(vk::Format::R64_UINT.as_raw()), Format::R64UInt);
    assert_eq!(Format::from_vk(vk::Format::R64_SINT.as_raw()), Format::R64SInt);
    assert_eq!(Format::from_vk(vk::Format::R64_SFLOAT.as_raw()), Format::R64SFloat);
    assert_eq!(Format::from_vk(vk::Format::R64G64_UINT.as_raw()), Format::R64G64UInt);
    assert_eq!(Format::from_vk(vk::Format::R64G64_SINT.as_raw()), Format::R64G64SInt);
    assert_eq!(Format::from_vk(vk::Format::R64G64_SFLOAT.as_raw()), Format::R64G64SFloat);
    assert_eq!(Format::from_vk(vk::Format::R64G64B64_UINT.as_raw()), Format::R64G64B64UInt);
    assert_eq!(Format::from_vk(vk::Format::R64G64B64_SINT.as_raw()), Format::R64G64B64SInt);
    assert_eq!(Format::from_vk(vk::Format::R64G64B64_SFLOAT.as_raw()), Format::R64G64B64SFloat);
    assert_eq!(Format::from_vk(vk::Format::R64G64B64A64_UINT.as_raw()), Format::R64G64B64A64UInt);
    assert_eq!(Format::from_vk(vk::Format::R64G64B64A64_SINT.as_raw()), Format::R64G64B64A64SInt);
    assert_eq!(Format::from_vk(vk::Format::R64G64B64A64_SFLOAT.as_raw()), Format::R64G64B64A64SFloat);
    assert_eq!(Format::from_vk(vk::Format::B10G11R11_UFLOAT_PACK32.as_raw()), Format::B10G11R11UFloatPack32);
    assert_eq!(Format::from_vk(vk::Format::E5B9G9R9_UFLOAT_PACK32.as_raw()), Format::E5B9G9R9UFloatPack32);
    assert_eq!(Format::from_vk(vk::Format::D16_UNORM.as_raw()), Format::D16UNorm);
    assert_eq!(Format::from_vk(vk::Format::X8_D24_UNORM_PACK32.as_raw()), Format::X8D24UNormPack32);
    assert_eq!(Format::from_vk(vk::Format::D32_SFLOAT.as_raw()), Format::D32SFloat);
    assert_eq!(Format::from_vk(vk::Format::S8_UINT.as_raw()), Format::S8UInt);
    assert_eq!(Format::from_vk(vk::Format::D16_UNORM_S8_UINT.as_raw()), Format::D16UNormS8UInt);
    assert_eq!(Format::from_vk(vk::Format::D24_UNORM_S8_UINT.as_raw()), Format::D24UNormS8UInt);
    assert_eq!(Format::from_vk(vk::Format::D32_SFLOAT_S8_UINT.as_raw()), Format::D32SFloatS8UInt);
    assert_eq!(Format::from_vk(vk::Format::BC1_RGB_UNORM_BLOCK.as_raw()), Format::BC1RGBUNormBlock);
    assert_eq!(Format::from_vk(vk::Format::BC1_RGB_SRGB_BLOCK.as_raw()), Format::BC1RGBSRgbBlock);
    assert_eq!(Format::from_vk(vk::Format::BC1_RGBA_UNORM_BLOCK.as_raw()), Format::BC1RGBAUNormBlock);
    assert_eq!(Format::from_vk(vk::Format::BC1_RGBA_SRGB_BLOCK.as_raw()), Format::BC1RGBASRgbBlock);
    assert_eq!(Format::from_vk(vk::Format::BC2_UNORM_BLOCK.as_raw()), Format::BC2UNormBlock);
    assert_eq!(Format::from_vk(vk::Format::BC2_SRGB_BLOCK.as_raw()), Format::BC2SRgbBlock);
    assert_eq!(Format::from_vk(vk::Format::BC3_UNORM_BLOCK.as_raw()), Format::BC3UNormBlock);
    assert_eq!(Format::from_vk(vk::Format::BC3_SRGB_BLOCK.as_raw()), Format::BC3SRgbBlock);
    assert_eq!(Format::from_vk(vk::Format::BC4_UNORM_BLOCK.as_raw()), Format::BC4UNormBlock);
    assert_eq!(Format::from_vk(vk::Format::BC4_SNORM_BLOCK.as_raw()), Format::BC4SNormBlock);
    assert_eq!(Format::from_vk(vk::Format::BC5_UNORM_BLOCK.as_raw()), Format::BC5UNormBlock);
    assert_eq!(Format::from_vk(vk::Format::BC5_SNORM_BLOCK.as_raw()), Format::BC5SNormBlock);
    assert_eq!(Format::from_vk(vk::Format::BC6H_UFLOAT_BLOCK.as_raw()), Format::BC6HUFloatBlock);
    assert_eq!(Format::from_vk(vk::Format::BC6H_SFLOAT_BLOCK.as_raw()), Format::BC6HSFloatBlock);
    assert_eq!(Format::from_vk(vk::Format::BC7_UNORM_BLOCK.as_raw()), Format::BC7UNormBlock);
    assert_eq!(Format::from_vk(vk::Format::BC7_SRGB_BLOCK.as_raw()), Format::BC7SRgbBlock);
    assert_eq!(Format::from_vk(vk::Format::ETC2_R8G8B8_UNORM_BLOCK.as_raw()), Format::ETC2R8G8B8UNormBlock);
    assert_eq!(Format::from_vk(vk::Format::ETC2_R8G8B8_SRGB_BLOCK.as_raw()), Format::ETC2R8G8B8SRgbBlock);
    assert_eq!(Format::from_vk(vk::Format::ETC2_R8G8B8A1_UNORM_BLOCK.as_raw()), Format::ETC2R8G8B8A1UNormBlock);
    assert_eq!(Format::from_vk(vk::Format::ETC2_R8G8B8A1_SRGB_BLOCK.as_raw()), Format::ETC2R8G8B8A1SRgbBlock);
    assert_eq!(Format::from_vk(vk::Format::ETC2_R8G8B8A8_UNORM_BLOCK.as_raw()), Format::ETC2R8G8B8A8UNormBlock);
    assert_eq!(Format::from_vk(vk::Format::ETC2_R8G8B8A8_SRGB_BLOCK.as_raw()), Format::ETC2R8G8B8A8SRgbBlock);
    assert_eq!(Format::from_vk(vk::Format::EAC_R11_UNORM_BLOCK.as_raw()), Format::EACR11UNormBlock);
    assert_eq!(Format::from_vk(vk::Format::EAC_R11_SNORM_BLOCK.as_raw()), Format::EACR11SNormBlock);
    assert_eq!(Format::from_vk(vk::Format::EAC_R11G11_UNORM_BLOCK.as_raw()), Format::EACR11G11UNormBlock);
    assert_eq!(Format::from_vk(vk::Format::EAC_R11G11_SNORM_BLOCK.as_raw()), Format::EACR11G11SNormBlock);
    assert_eq!(Format::from_vk(vk::Format::ASTC_4X4_UNORM_BLOCK.as_raw()), Format::ASTC4X4UNormBlock);
    assert_eq!(Format::from_vk(vk::Format::ASTC_4X4_SRGB_BLOCK.as_raw()), Format::ASTC4X4SRgbBlock);
    assert_eq!(Format::from_vk(vk::Format::ASTC_5X4_UNORM_BLOCK.as_raw()), Format::ASTC5X4UNormBlock);
    assert_eq!(Format::from_vk(vk::Format::ASTC_5X4_SRGB_BLOCK.as_raw()), Format::ASTC5X4SRgbBlock);
    assert_eq!(Format::from_vk(vk::Format::ASTC_5X5_UNORM_BLOCK.as_raw()), Format::ASTC5X5UNormBlock);
    assert_eq!(Format::from_vk(vk::Format::ASTC_5X5_SRGB_BLOCK.as_raw()), Format::ASTC5X5SRgbBlock);
    assert_eq!(Format::from_vk(vk::Format::ASTC_6X5_UNORM_BLOCK.as_raw()), Format::ASTC6X5UNormBlock);
    assert_eq!(Format::from_vk(vk::Format::ASTC_6X5_SRGB_BLOCK.as_raw()), Format::ASTC6X5SRgbBlock);
    assert_eq!(Format::from_vk(vk::Format::ASTC_6X6_UNORM_BLOCK.as_raw()), Format::ASTC6X6UNormBlock);
    assert_eq!(Format::from_vk(vk::Format::ASTC_6X6_SRGB_BLOCK.as_raw()), Format::ASTC6X6SRgbBlock);
    assert_eq!(Format::from_vk(vk::Format::ASTC_8X5_UNORM_BLOCK.as_raw()), Format::ASTC8X5UNormBlock);
    assert_eq!(Format::from_vk(vk::Format::ASTC_8X5_SRGB_BLOCK.as_raw()), Format::ASTC8X5SRgbBlock);
    assert_eq!(Format::from_vk(vk::Format::ASTC_8X6_UNORM_BLOCK.as_raw()), Format::ASTC8X6UNormBlock);
    assert_eq!(Format::from_vk(vk::Format::ASTC_8X6_SRGB_BLOCK.as_raw()), Format::ASTC8X6SRgbBlock);
    assert_eq!(Format::from_vk(vk::Format::ASTC_8X8_UNORM_BLOCK.as_raw()), Format::ASTC8X8UNormBlock);
    assert_eq!(Format::from_vk(vk::Format::ASTC_8X8_SRGB_BLOCK.as_raw()), Format::ASTC8X8SRgbBlock);
    assert_eq!(Format::from_vk(vk::Format::ASTC_10X5_UNORM_BLOCK.as_raw()), Format::ASTC10X5UNormBlock);
    assert_eq!(Format::from_vk(vk::Format::ASTC_10X5_SRGB_BLOCK.as_raw()), Format::ASTC10X5SRgbBlock);
    assert_eq!(Format::from_vk(vk::Format::ASTC_10X6_UNORM_BLOCK.as_raw()), Format::ASTC10X6UNormBlock);
    assert_eq!(Format::from_vk(vk::Format::ASTC_10X6_SRGB_BLOCK.as_raw()), Format::ASTC10X6SRgbBlock);
    assert_eq!(Format::from_vk(vk::Format::ASTC_10X8_UNORM_BLOCK.as_raw()), Format::ASTC10X8UNormBlock);
    assert_eq!(Format::from_vk(vk::Format::ASTC_10X8_SRGB_BLOCK.as_raw()), Format::ASTC10X8SRgbBlock);
    assert_eq!(Format::from_vk(vk::Format::ASTC_10X10_UNORM_BLOCK.as_raw()), Format::ASTC10X10UNormBlock);
    assert_eq!(Format::from_vk(vk::Format::ASTC_10X10_SRGB_BLOCK.as_raw()), Format::ASTC10X10SRgbBlock);
    assert_eq!(Format::from_vk(vk::Format::ASTC_12X10_UNORM_BLOCK.as_raw()), Format::ASTC12X10UNormBlock);
    assert_eq!(Format::from_vk(vk::Format::ASTC_12X10_SRGB_BLOCK.as_raw()), Format::ASTC12X10SRgbBlock);
    assert_eq!(Format::from_vk(vk::Format::ASTC_12X12_UNORM_BLOCK.as_raw()), Format::ASTC12X12UNormBlock);
    assert_eq!(Format::from_vk(vk::Format::ASTC_12X12_SRGB_BLOCK.as_raw()), Format::ASTC12X12SRgbBlock);
}

#[test]
fn heap_property_flags_flags_match_ash() {
    assert_eq!(HeapPropertyFlags::DEVICE_LOCAL().to_vk(), vk::MemoryHeapFlags::DEVICE_LOCAL.as_raw());
    assert_eq!(HeapPropertyFlags::MULTI_INSTANCE().to_vk(), vk::MemoryHeapFlags::MULTI_INSTANCE.as_raw());
    assert_eq!(HeapPropertyFlags::MULTI_INSTANCE().to_vk(), vk::MemoryHeapFlags::MULTI_INSTANCE_KHR.as_raw());
    assert_eq!(HeapPropertyFlags::from_vk(vk::MemoryHeapFlags::DEVICE_LOCAL.as_raw()), HeapPropertyFlags::DEVICE_LOCAL());
    assert_eq!(HeapPropertyFlags::from_vk(vk::MemoryHeapFlags::MULTI_INSTANCE.as_raw()), HeapPropertyFlags::MULTI_INSTANCE());
    assert_eq!(HeapPropertyFlags::from_vk(vk::MemoryHeapFlags::MULTI_INSTANCE_KHR.as_raw()), HeapPropertyFlags::MULTI_INSTANCE());
}

#[test]
fn shader_stage_flags_match_ash() {
    assert_eq!(ShaderStage::VERTEX().to_vk(), vk::ShaderStageFlags::VERTEX.as_raw());
    assert_eq!(ShaderStage::TESSELLATION_CONTROL().to_vk(), vk::ShaderStageFlags::TESSELLATION_CONTROL.as_raw());
    assert_eq!(ShaderStage::TESSELLATION_EVALUATION().to_vk(), vk::ShaderStageFlags::TESSELLATION_EVALUATION.as_raw());
    assert_eq!(ShaderStage::GEOMETRY().to_vk(), vk::ShaderStageFlags::GEOMETRY.as_raw());
    assert_eq!(ShaderStage::FRAGMENT().to_vk(), vk::ShaderStageFlags::FRAGMENT.as_raw());
    assert_eq!(ShaderStage::COMPUTE().to_vk(), vk::ShaderStageFlags::COMPUTE.as_raw());
    assert_eq!(ShaderStage::from_vk(vk::ShaderStageFlags::VERTEX.as_raw()), ShaderStage::VERTEX());
    assert_eq!(ShaderStage::from_vk(vk::ShaderStageFlags::TESSELLATION_CONTROL.as_raw()), ShaderStage::TESSELLATION_CONTROL());
    assert_eq!(ShaderStage::from_vk(vk::ShaderStageFlags::TESSELLATION_EVALUATION.as_raw()), ShaderStage::TESSELLATION_EVALUATION());
    assert_eq!(ShaderStage::from_vk(vk::ShaderStageFlags::GEOMETRY.as_raw()), ShaderStage::GEOMETRY());
    assert_eq!(ShaderStage::from_vk(vk::ShaderStageFlags::FRAGMENT.as_raw()), ShaderStage::FRAGMENT());
    assert_eq!(ShaderStage::from_vk(vk::ShaderStageFlags::COMPUTE.as_raw()), ShaderStage::COMPUTE());
}

#[test]
fn access_flags_flags_match_ash() {
    assert_eq!(AccessFlags::INDIRECT_COMMAND_READ().to_vk(), vk::AccessFlags::INDIRECT_COMMAND_READ.as_raw());
    assert_eq!(AccessFlags::INDEX_READ().to_vk(), vk::AccessFlags::INDEX_READ.as_raw());
    assert_eq!(AccessFlags::VERTEX_ATTRIBUTE_READ().to_vk(), vk::AccessFlags::VERTEX_ATTRIBUTE_READ.as_raw());
    assert_eq!(AccessFlags::UNIFORM_READ().to_vk(), vk::AccessFlags::UNIFORM_READ.as_raw());
    assert_eq!(AccessFlags::INPUT_ATTACHMENT_READ().to_vk(), vk::AccessFlags::INPUT_ATTACHMENT_READ.as_raw());
    assert_eq!(AccessFlags::SHADER_READ().to_vk(), vk::AccessFlags::SHADER_READ.as_raw());
    assert_eq!(AccessFlags::SHADER_WRITE().to_vk(), vk::AccessFlags::SHADER_WRITE.as_raw());
    assert_eq!(AccessFlags::COLOUR_ATTACHMENT_READ().to_vk(), vk::AccessFlags::COLOR_ATTACHMENT_READ.as_raw());
    assert_eq!(AccessFlags::COLOUR_ATTACHMENT_WRITE().to_vk(), vk::AccessFlags::COLOR_ATTACHMENT_WRITE.as_raw());
    assert_eq!(AccessFlags::TRANSFER_READ().to_vk(), vk::AccessFlags::TRANSFER_READ.as_raw());
    assert_eq!(AccessFlags::TRANSFER_WRITE().to_vk(), vk::AccessFlags::TRANSFER_WRITE.as_raw());
    assert_eq!(AccessFlags::HOST_READ().to_vk(), vk::AccessFlags::HOST_READ.as_raw());
    assert_eq!(AccessFlags::HOST_WRITE().to_vk(), vk::AccessFlags::HOST_WRITE.as_raw());
    assert_eq!(AccessFlags::MEMORY_READ().to_vk(), vk::AccessFlags::MEMORY_READ.as_raw());
    assert_eq!(AccessFlags::MEMORY_WRITE().to_vk(), vk::AccessFlags::MEMORY_WRITE.as_raw());
    assert_eq!(AccessFlags::from_vk(vk::AccessFlags::INDIRECT_COMMAND_READ.as_raw()), AccessFlags::INDIRECT_COMMAND_READ());
    assert_eq!(AccessFlags::from_vk(vk::AccessFlags::INDEX_READ.as_raw()), AccessFlags::INDEX_READ());
    assert_eq!(AccessFlags::from_vk(vk::AccessFlags::VERTEX_ATTRIBUTE_READ.as_raw()), AccessFlags::VERTEX_ATTRIBUTE_READ());
    assert_eq!(AccessFlags::from_vk(vk::AccessFlags::UNIFORM_READ.as_raw()), AccessFlags::UNIFORM_READ());
    assert_eq!(AccessFlags::from_vk(vk::AccessFlags::INPUT_ATTACHMENT_READ.as_raw()), AccessFlags::INPUT_ATTACHMENT_READ());
    assert_eq!(AccessFlags::from_vk(vk::AccessFlags::SHADER_READ.as_raw()), AccessFlags::SHADER_READ());
    assert_eq!(AccessFlags::from_vk(vk::AccessFlags::SHADER_WRITE.as_raw()), AccessFlags::SHADER_WRITE());
    assert_eq!(AccessFlags::from_vk(vk::AccessFlags::COLOR_ATTACHMENT_READ.as_raw()), AccessFlags::COLOUR_ATTACHMENT_READ());
    assert_eq!(AccessFlags::from_vk(vk::AccessFlags::COLOR_ATTACHMENT_WRITE.as_raw()), AccessFlags::COLOUR_ATTACHMENT_WRITE());
    assert_eq!(AccessFlags::from_vk(vk::AccessFlags::TRANSFER_READ.as_raw()), AccessFlags::TRANSFER_READ());
    assert_eq!(AccessFlags::from_vk(vk::AccessFlags::TRANSFER_WRITE.as_raw()), AccessFlags::TRANSFER_WRITE());
    assert_eq!(AccessFlags::from_vk(vk::AccessFlags::HOST_READ.as_raw()), AccessFlags::HOST_READ());
    assert_eq!(AccessFlags::from_vk(vk::AccessFlags::HOST_WRITE.as_raw()), AccessFlags::HOST_WRITE());
    assert_eq!(AccessFlags::from_vk(vk::AccessFlags::MEMORY_READ.as_raw()), AccessFlags::MEMORY_READ());
    assert_eq!(AccessFlags::from_vk(vk::AccessFlags::MEMORY_WRITE.as_raw()), AccessFlags::MEMORY_WRITE());
}

#[test]
fn dependency_flags_flags_match_ash() {
    assert_eq!(DependencyFlags::FRAMEBUFFER_LOCAL().to_vk(), vk::DependencyFlags::BY_REGION.as_raw());
    assert_eq!(DependencyFlags::VIEW_LOCAL().to_vk(), vk::DependencyFlags::VIEW_LOCAL.as_raw());
    assert_eq!(DependencyFlags::NOT_DEVICE_LOCAL().to_vk(), vk::DependencyFlags::DEVICE_GROUP.as_raw());
    assert_eq!(DependencyFlags::from_vk(vk::DependencyFlags::BY_REGION.as_raw()), DependencyFlags::FRAMEBUFFER_LOCAL());
    assert_eq!(DependencyFlags::from_vk(vk::DependencyFlags::VIEW_LOCAL.as_raw()), DependencyFlags::VIEW_LOCAL());
    assert_eq!(DependencyFlags::from_vk(vk::DependencyFlags::DEVICE_GROUP.as_raw()), DependencyFlags::NOT_DEVICE_LOCAL());
}

#[test]
fn pipeline_stage_flags_match_ash() {
    assert_eq!(PipelineStage::TOP_OF_PIPE().to_vk(), vk::PipelineStageFlags::TOP_OF_PIPE.as_raw());
    assert_eq!(PipelineStage::DRAW_INDIRECT().to_vk(), vk::PipelineStageFlags::DRAW_INDIRECT.as_raw());
    assert_eq!(PipelineStage::VERTEX_INPUT().to_vk(), vk::PipelineStageFlags::VERTEX_INPUT.as_raw());
    assert_eq!(PipelineStage::VERTEX_SHADER().to_vk(), vk::PipelineStageFlags::VERTEX_SHADER.as_raw());
    assert_eq!(PipelineStage::TESSELLATION_CONTROL_SHADER().to_vk(), vk::PipelineStageFlags::TESSELLATION_CONTROL_SHADER.as_raw());
    assert_eq!(PipelineStage::TESSELLATION_EVALUATION_SHADER().to_vk(), vk::PipelineStageFlags::TESSELLATION_EVALUATION_SHADER.as_raw());
    assert_eq!(PipelineStage::GEOMETRY_SHADER().to_vk(), vk::PipelineStageFlags::GEOMETRY_SHADER.as_raw());
    assert_eq!(PipelineStage::FRAGMENT_SHADER().to_vk(), vk::PipelineStageFlags::FRAGMENT_SHADER.as_raw());
    assert_eq!(PipelineStage::EARLY_FRAGMENT_TESTS().to_vk(), vk::PipelineStageFlags::EARLY_FRAGMENT_TESTS.as_raw());
    assert_eq!(PipelineStage::LATE_FRAGMENT_TESTS().to_vk(), vk::PipelineStageFlags::LATE_FRAGMENT_TESTS.as_raw());
    assert_eq!(PipelineStage::COLOUR_ATTACHMENT_OUTPUT().to_vk(), vk::PipelineStageFlags::COLOR_ATTACHMENT_OUTPUT.as_raw());
    assert_eq!(PipelineStage::COMPUTE_SHADER().to_vk(), vk::PipelineStageFlags::COMPUTE_SHADER.as_raw());
    assert_eq!(PipelineStage::TRANSFER().to_vk(), vk::PipelineStageFlags::TRANSFER.as_raw());
    assert_eq!(PipelineStage::BOTTOM_OF_PIPE().to_vk(), vk::PipelineStageFlags::BOTTOM_OF_PIPE.as_raw());
    assert_eq!(PipelineStage::HOST().to_vk(), vk::PipelineStageFlags::HOST.as_raw());
    assert_eq!(PipelineStage::ALL_GRAPHICS().to_vk(), vk::PipelineStageFlags::ALL_GRAPHICS.as_raw());
    assert_eq!(PipelineStage::ALL_COMMANDS().to_vk(), vk::PipelineStageFlags::ALL_COMMANDS.as_raw());
    assert_eq!(PipelineStage::from_vk(vk::PipelineStageFlags::TOP_OF_PIPE.as_raw()), PipelineStage::TOP_OF_PIPE());
    assert_eq!(PipelineStage::from_vk(vk::PipelineStageFlags::DRAW_INDIRECT.as_raw()), PipelineStage::DRAW_INDIRECT());
    assert_eq!(PipelineStage::from_vk(vk::PipelineStageFlags::VERTEX_INPUT.as_raw()), PipelineStage::VERTEX_INPUT());
    assert_eq!(PipelineStage::from_vk(vk::PipelineStageFlags::VERTEX_SHADER.as_raw()), PipelineStage::VERTEX_SHADER());
    assert_eq!(PipelineStage::from_vk(vk::PipelineStageFlags::TESSELLATION_CONTROL_SHADER.as_raw()), PipelineStage::TESSELLATION_CONTROL_SHADER());
    assert_eq!(PipelineStage::from_vk(vk::PipelineStageFlags::TESSELLATION_EVALUATION_SHADER.as_raw()), PipelineStage::TESSELLATION_EVALUATION_SHADER());
    assert_eq!(PipelineStage::from_vk(vk::PipelineStageFlags::GEOMETRY_SHADER.as_raw()), PipelineStage::GEOMETRY_SHADER());
    assert_eq!(PipelineStage::from_vk(vk::PipelineStageFlags::FRAGMENT_SHADER.as_raw()), PipelineStage::FRAGMENT_SHADER());
    assert_eq!(PipelineStage::from_vk(vk::PipelineStageFlags::EARLY_FRAGMENT_TESTS.as_raw()), PipelineStage::EARLY_FRAGMENT_TESTS());
    assert_eq!(PipelineStage::from_vk(vk::PipelineStageFlags::LATE_FRAGMENT_TESTS.as_raw()), PipelineStage::LATE_FRAGMENT_TESTS());
    assert_eq!(PipelineStage::from_vk(vk::PipelineStageFlags::COLOR_ATTACHMENT_OUTPUT.as_raw()), PipelineStage::COLOUR_ATTACHMENT_OUTPUT());
    assert_eq!(PipelineStage::from_vk(vk::PipelineStageFlags::COMPUTE_SHADER.as_raw()), PipelineStage::COMPUTE_SHADER());
    assert_eq!(PipelineStage::from_vk(vk::PipelineStageFlags::TRANSFER.as_raw()), PipelineStage::TRANSFER());
    assert_eq!(PipelineStage::from_vk(vk::PipelineStageFlags::BOTTOM_OF_PIPE.as_raw()), PipelineStage::BOTTOM_OF_PIPE());
    assert_eq!(PipelineStage::from_vk(vk::PipelineStageFlags::HOST.as_raw()), PipelineStage::HOST());
    assert_eq!(PipelineStage::from_vk(vk::PipelineStageFlags::ALL_GRAPHICS.as_raw()), PipelineStage::ALL_GRAPHICS());
    assert_eq!(PipelineStage::from_vk(vk::PipelineStageFlags::ALL_COMMANDS.as_raw()), PipelineStage::ALL_COMMANDS());
}

#[test]
fn colour_component_flags_flags_match_ash() {
    assert_eq!(ColourComponentFlags::RED().to_vk(), vk::ColorComponentFlags::R.as_raw());
    assert_eq!(ColourComponentFlags::GREEN().to_vk(), vk::ColorComponentFlags::G.as_raw());
    assert_eq!(ColourComponentFlags::BLUE().to_vk(), vk::ColorComponentFlags::B.as_raw());
    assert_eq!(ColourComponentFlags::ALPHA().to_vk(), vk::ColorComponentFlags::A.as_raw());
    assert_eq!(ColourComponentFlags::from_vk(vk::ColorComponentFlags::R.as_raw()), ColourComponentFlags::RED());
    assert_eq!(ColourComponentFlags::from_vk(vk::ColorComponentFlags::G.as_raw()), ColourComponentFlags::GREEN());
    assert_eq!(ColourComponentFlags::from_vk(vk::ColorComponentFlags::B.as_raw()), ColourComponentFlags::BLUE());
    assert_eq!(ColourComponentFlags::from_vk(vk::ColorComponentFlags::A.as_raw()), ColourComponentFlags::ALPHA());
}

#[test]
fn memory_property_flags_flags_match_ash() {
    assert_eq!(MemoryPropertyFlags::DEVICE_LOCAL().to_vk(), vk::MemoryPropertyFlags::DEVICE_LOCAL.as_raw());
    assert_eq!(MemoryPropertyFlags::HOST_VISIBLE().to_vk(), vk::MemoryPropertyFlags::HOST_VISIBLE.as_raw());
    assert_eq!(MemoryPropertyFlags::HOST_COHERENT().to_vk(), vk::MemoryPropertyFlags::HOST_COHERENT.as_raw());
    assert_eq!(MemoryPropertyFlags::HOST_CACHED().to_vk(), vk::MemoryPropertyFlags::HOST_CACHED.as_raw());
    assert_eq!(MemoryPropertyFlags::LAZILY_ALLOCATED().to_vk(), vk::MemoryPropertyFlags::LAZILY_ALLOCATED.as_raw());
    assert_eq!(MemoryPropertyFlags::PROTECTED().to_vk(), vk::MemoryPropertyFlags::PROTECTED.as_raw());
    assert_eq!(MemoryPropertyFlags::from_vk(vk::MemoryPropertyFlags::DEVICE_LOCAL.as_raw()), MemoryPropertyFlags::DEVICE_LOCAL());
    assert_eq!(MemoryPropertyFlags::from_vk(vk::MemoryPropertyFlags::HOST_VISIBLE.as_raw()), MemoryPropertyFlags::HOST_VISIBLE());
    assert_eq!(MemoryPropertyFlags::from_vk(vk::MemoryPropertyFlags::HOST_COHERENT.as_raw()), MemoryPropertyFlags::HOST_COHERENT());
    assert_eq!(MemoryPropertyFlags::from_vk(vk::MemoryPropertyFlags::HOST_CACHED.as_raw()), MemoryPropertyFlags::HOST_CACHED());
    assert_eq!(MemoryPropertyFlags::from_vk(vk::MemoryPropertyFlags::LAZILY_ALLOCATED.as_raw()), MemoryPropertyFlags::LAZILY_ALLOCATED());
    assert_eq!(MemoryPropertyFlags::from_vk(vk::MemoryPropertyFlags::PROTECTED.as_raw()), MemoryPropertyFlags::PROTECTED());
}

#[test]
fn command_buffer_flags_flags_match_ash() {
    assert_eq!(CommandBufferFlags::TRANSIENT().to_vk(), vk::CommandPoolCreateFlags::TRANSIENT.as_raw());
    assert_eq!(CommandBufferFlags::ALLOW_RESET().to_vk(), vk::CommandPoolCreateFlags::RESET_COMMAND_BUFFER.as_raw());
    assert_eq!(CommandBufferFlags::from_vk(vk::CommandPoolCreateFlags::TRANSIENT.as_raw()), CommandBufferFlags::TRANSIENT());
    assert_eq!(CommandBufferFlags::from_vk(vk::CommandPoolCreateFlags::RESET_COMMAND_BUFFER.as_raw()), CommandBufferFlags::ALLOW_RESET());
}

#[test]
fn command_buffer_usage_flags_flags_match_ash() {
    assert_eq!(CommandBufferUsageFlags::ONE_TIME_SUBMIT().to_vk(), vk::CommandBufferUsageFlags::ONE_TIME_SUBMIT.as_raw());
    assert_eq!(CommandBufferUsageFlags::RENDER_PASS_ONLY().to_vk(), vk::CommandBufferUsageFlags::RENDER_PASS_CONTINUE.as_raw());
    assert_eq!(CommandBufferUsageFlags::SIMULTANEOUS_USE().to_vk(), vk::CommandBufferUsageFlags::SIMULTANEOUS_USE.as_raw());
    assert_eq!(CommandBufferUsageFlags::from_vk(vk::CommandBufferUsageFlags::ONE_TIME_SUBMIT.as_raw()), CommandBufferUsageFlags::ONE_TIME_SUBMIT());
    assert_eq!(CommandBufferUsageFlags::from_vk(vk::CommandBufferUsageFlags::RENDER_PASS_CONTINUE.as_raw()), CommandBufferUsageFlags::RENDER_PASS_ONLY());
    assert_eq!(CommandBufferUsageFlags::from_vk(vk::CommandBufferUsageFlags::SIMULTANEOUS_USE.as_raw()), CommandBufferUsageFlags::SIMULTANEOUS_USE());
}

#[test]
fn buffer_usage_flags_flags_match_ash() {
    assert_eq!(BufferUsageFlags::TRANSFER_SRC().to_vk(), vk::BufferUsageFlags::TRANSFER_SRC.as_raw());
    assert_eq!(BufferUsageFlags::TRANSFER_DST().to_vk(), vk::BufferUsageFlags::TRANSFER_DST.as_raw());
    assert_eq!(BufferUsageFlags::UNIFORM_TEXEL_BUFFER().to_vk(), vk::BufferUsageFlags::UNIFORM_TEXEL_BUFFER.as_raw());
    assert_eq!(BufferUsageFlags::STORAGE_TEXEL_BUFFER().to_vk(), vk::BufferUsageFlags::STORAGE_TEXEL_BUFFER.as_raw());
    assert_eq!(BufferUsageFlags::UNIFORM_BUFFER().to_vk(), vk::BufferUsageFlags::UNIFORM_BUFFER.as_raw());
    assert_eq!(BufferUsageFlags::STORAGE_BUFFER().to_vk(), vk::BufferUsageFlags::STORAGE_BUFFER.as_raw());
    assert_eq!(BufferUsageFlags::INDEX_BUFFER().to_vk(), vk::BufferUsageFlags::INDEX_BUFFER.as_raw());
    assert_eq!(BufferUsageFlags::VERTEX_BUFFER().to_vk(), vk::BufferUsageFlags::VERTEX_BUFFER.as_raw());
    assert_eq!(BufferUsageFlags::INDIRECT_BUFFER().to_vk(), vk::BufferUsageFlags::INDIRECT_BUFFER.as_raw());
    assert_eq!(BufferUsageFlags::from_vk(vk::BufferUsageFlags::TRANSFER_SRC.as_raw()), BufferUsageFlags::TRANSFER_SRC());
    assert_eq!(BufferUsageFlags::from_vk(vk::BufferUsageFlags::TRANSFER_DST.as_raw()), BufferUsageFlags::TRANSFER_DST());
    assert_eq!(BufferUsageFlags::from_vk(vk::BufferUsageFlags::UNIFORM_TEXEL_BUFFER.as_raw()), BufferUsageFlags::UNIFORM_TEXEL_BUFFER());
    assert_eq!(BufferUsageFlags::from_vk(vk::BufferUsageFlags::STORAGE_TEXEL_BUFFER.as_raw()), BufferUsageFlags::STORAGE_TEXEL_BUFFER());
    assert_eq!(BufferUsageFlags::from_vk(vk::BufferUsageFlags::UNIFORM_BUFFER.as_raw()), BufferUsageFlags::UNIFORM_BUFFER());
    assert_eq!(BufferUsageFlags::from_vk(vk::BufferUsageFlags::STORAGE_BUFFER.as_raw()), BufferUsageFlags::STORAGE_BUFFER());
}

#[test]
fn colour_mask_flags_match_ash() {
    assert_eq!(ColourMask::R().to_vk(), vk::ColorComponentFlags::R.as_raw());
    assert_eq!(ColourMask::G().to_vk(), vk::ColorComponentFlags::G.as_raw());
    assert_eq!(ColourMask::B().to_vk(), vk::ColorComponentFlags::B.as_raw());
    assert_eq!(ColourMask::A().to_vk(), vk::ColorComponentFlags::A.as_raw());
    assert_eq!(ColourMask::from_vk(vk::ColorComponentFlags::R.as_raw()), ColourMask::R());
    assert_eq!(ColourMask::from_vk(vk::ColorComponentFlags::G.as_raw()), ColourMask::G());
    assert_eq!(ColourMask::from_vk(vk::ColorComponentFlags::B.as_raw()), ColourMask::B());
    assert_eq!(ColourMask::from_vk(vk::ColorComponentFlags::A.as_raw()), ColourMask::A());
}
