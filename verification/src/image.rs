//! How the channels of an image are read through a view.

use vstd::prelude::*;

verus! {

/// The raw Vulkan `VK_COMPONENT_SWIZZLE_IDENTITY`: a channel reads itself.
pub const COMPONENT_SWIZZLE_IDENTITY: i32 = 0;

/// Where each channel of a view reads from (raw Vulkan `VkComponentSwizzle`
/// values).
#[derive(Clone, Copy, Debug, PartialEq, Eq, Structural)]
pub struct ComponentSwizzle {
    /// The source of the red channel.
    pub red: i32,
    /// The source of the green channel.
    pub green: i32,
    /// The source of the blue channel.
    pub blue: i32,
    /// The source of the alpha channel.
    pub alpha: i32,
}

impl Default for ComponentSwizzle {
    /// Every channel reads itself.
    fn default() -> (r: Self)
        ensures
            r.red == COMPONENT_SWIZZLE_IDENTITY,
            r.green == COMPONENT_SWIZZLE_IDENTITY,
            r.blue == COMPONENT_SWIZZLE_IDENTITY,
            r.alpha == COMPONENT_SWIZZLE_IDENTITY,
    {
        ComponentSwizzle {
            red: COMPONENT_SWIZZLE_IDENTITY,
            green: COMPONENT_SWIZZLE_IDENTITY,
            blue: COMPONENT_SWIZZLE_IDENTITY,
            alpha: COMPONENT_SWIZZLE_IDENTITY,
        }
    }
}

impl ComponentSwizzle {
    /// The swizzle of a Vulkan `VkComponentMapping`, given as its `r`, `g`, `b`
    /// and `a` members.
    pub fn from_vk(r: i32, g: i32, b: i32, a: i32) -> (s: Self)
        ensures s == (ComponentSwizzle { red: r, green: g, blue: b, alpha: a }),
    {
        ComponentSwizzle { red: r, green: g, blue: b, alpha: a }
    }

    /// The members `r`, `g`, `b` and `a` of the Vulkan `VkComponentMapping`.
    pub fn to_vk(&self) -> (r: (i32, i32, i32, i32))
        ensures r == (self.red, self.green, self.blue, self.alpha),
    {
        (self.red, self.green, self.blue, self.alpha)
    }
}

} // verus!
