//! The choices made when creating a swapchain: its format, its extent and
//! the number of its images, from what the surface supports.

use vstd::prelude::*;
use crate::enums::Format;
use crate::errors::SwapchainError;

verus! {

/// The raw Vulkan `VK_COLOR_SPACE_SRGB_NONLINEAR_KHR`.
pub const COLOUR_SPACE_SRGB_NONLINEAR: i32 = 0;

/// A format a surface supports: the raw Vulkan `VkFormat` and
/// `VkColorSpaceKHR`.
#[derive(Clone, Copy, Debug, PartialEq, Eq, Structural)]
pub struct SurfaceFormat {
    /// The raw `VkFormat`.
    pub format: i32,
    /// The raw `VkColorSpaceKHR`.
    pub colour_space: i32,
}

/// The format a swapchain prefers: B8G8R8A8 sRGB in the non-linear sRGB
/// colour space.
pub open spec fn is_preferred(f: SurfaceFormat) -> bool {
    f.format == Format::B8G8R8A8SRgb.to_vk_spec() && f.colour_space == COLOUR_SPACE_SRGB_NONLINEAR
}

/// Chooses the swapchain format among those the surface supports: the first
/// preferred one if there is one, else the first one; fails where the
/// surface supports none.
pub fn choose_format(formats: &Vec<SurfaceFormat>) -> (r: Result<SurfaceFormat, SwapchainError>)
    ensures
        formats@.len() == 0 ==> r == Err::<SurfaceFormat, SwapchainError>(SwapchainError::NoFormatFound),
        (exists|i: int| 0 <= i < formats@.len() && #[trigger] is_preferred(formats@[i])) ==> exists|i: int|
            0 <= i < formats@.len() && #[trigger] is_preferred(formats@[i])
            && r == Ok::<SurfaceFormat, SwapchainError>(formats@[i])
            && forall|j: int| 0 <= j < i ==> !is_preferred(#[trigger] formats@[j]),
        formats@.len() > 0 && (forall|i: int| 0 <= i < formats@.len() ==> !is_preferred(#[trigger] formats@[i]))
            ==> r == Ok::<SurfaceFormat, SwapchainError>(formats@[0]),
{
    let preferred = Format::B8G8R8A8SRgb.to_vk();
    let mut i: usize = 0;
    while i < formats.len()
        invariant
            i <= formats.len(),
            preferred == Format::B8G8R8A8SRgb.to_vk_spec(),
            forall|j: int| 0 <= j < i ==> !is_preferred(#[trigger] formats@[j]),
        decreases formats.len() - i,
    {
        let f = formats[i];
        if f.format == preferred && f.colour_space == COLOUR_SPACE_SRGB_NONLINEAR {
            assert(is_preferred(formats@[i as int]));
            return Ok(f);
        }
        i = i + 1;
    }
    if formats.len() == 0 {
        Err(SwapchainError::NoFormatFound)
    } else {
        Ok(formats[0])
    }
}

/// `value` brought into `[min, max]`: raised to `min` where below it, else
/// lowered to `max` where above it (so `min` wins where `min > max`).
pub open spec fn clamp_spec(value: u32, min: u32, max: u32) -> u32 {
    if value < min {
        min
    } else if value > max {
        max
    } else {
        value
    }
}

/// `value` brought into `[min, max]`, as `clamp_spec` says.
pub fn clamp(value: u32, min: u32, max: u32) -> (r: u32)
    ensures r == clamp_spec(value, min, max),
{
    if value < min {
        min
    } else if value > max {
        max
    } else {
        value
    }
}

/// What a surface allows of a swapchain's images.
#[derive(Clone, Copy, Debug, PartialEq, Eq, Structural)]
pub struct SurfaceLimits {
    /// The smallest image width.
    pub min_width: u32,
    /// The smallest image height.
    pub min_height: u32,
    /// The largest image width.
    pub max_width: u32,
    /// The largest image height.
    pub max_height: u32,
    /// The fewest images.
    pub min_image_count: u32,
    /// The most images.
    pub max_image_count: u32,
}

/// The extent of the swapchain's images: the requested width and height,
/// each brought into the range the surface allows.
pub fn choose_extent(limits: &SurfaceLimits, width: u32, height: u32) -> (r: (u32, u32))
    ensures
        r.0 == clamp_spec(width, limits.min_width, limits.max_width),
        r.1 == clamp_spec(height, limits.min_height, limits.max_height),
{
    (clamp(width, limits.min_width, limits.max_width), clamp(height, limits.min_height, limits.max_height))
}

/// The number of swapchain images for a request of `count`: at least
/// `min`, and at most `max` where the surface sets a maximum (a `max` of zero
/// sets none).
pub open spec fn image_count_spec(count: u32, min: u32, max: u32) -> u32 {
    if max == 0 {
        if count < min { min } else { count }
    } else {
        clamp_spec(count, min, max)
    }
}

/// The number of swapchain images: the requested count brought into the
/// range the surface allows, where a maximum of zero means no upper limit.
pub fn choose_image_count(limits: &SurfaceLimits, image_count: u32) -> (r: u32)
    ensures r == image_count_spec(image_count, limits.min_image_count, limits.max_image_count),
{
    if limits.max_image_count == 0 {
        if image_count < limits.min_image_count { limits.min_image_count } else { image_count }
    } else {
        clamp(image_count, limits.min_image_count, limits.max_image_count)
    }
}

/// Where the surface's limits are consistent (no maximum, or a maximum not
/// below the minimum), the chosen image count is never below the minimum nor
/// above the maximum; a request already within the range is kept.
pub proof fn lemma_image_count_within(count: u32, min: u32, max: u32)
    ensures
        max == 0 || min <= max ==> image_count_spec(count, min, max) >= min,
        max != 0 && min <= max ==> image_count_spec(count, min, max) <= max,
        max == 0 && count >= min ==> image_count_spec(count, min, max) == count,
        min <= count && (max == 0 || count <= max) ==> image_count_spec(count, min, max) == count,
{
}

/// The raw Vulkan `VK_PRESENT_MODE_FIFO_KHR`.
pub const PRESENT_MODE_FIFO: i32 = 2;

/// The present mode of the swapchain: FIFO, which every surface supports.
pub fn choose_present_mode() -> (r: i32)
    ensures r == PRESENT_MODE_FIFO,
{
    PRESENT_MODE_FIFO
}

/// A clamped value lies within the range wherever the range is not empty,
/// and a value already inside it is kept.
pub proof fn lemma_clamp_within(value: u32, min: u32, max: u32)
    requires
        min <= max,
    ensures
        min <= clamp_spec(value, min, max) <= max,
        min <= value <= max ==> clamp_spec(value, min, max) == value,
{
}

} // verus!
