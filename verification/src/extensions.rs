//! The extensions and layers the library knows, by their Vulkan names.

use vstd::prelude::*;
use vstd::string::StringExecFns;
use crate::errors::ExtensionError;

verus! {

/// Whether two strings are equal (`<str as PartialEq>::eq`).
#[verifier::external_body]
fn str_eq(a: &str, b: &str) -> (r: bool)
    ensures r == (a@ == b@),
{
    a == b
}

/// An extension of the Vulkan instance.
#[derive(Clone, Copy, Debug, PartialEq, Eq, Structural)]
pub enum InstanceExtension {
    Dummy,
}

impl InstanceExtension {
    /// The Vulkan name.
    pub open spec fn as_str_spec(self) -> &'static str {
        match self {
            InstanceExtension::Dummy => "dummy",
        }
    }

    /// The Vulkan name.
    pub fn as_str(&self) -> (r: &'static str)
        ensures r == self.as_str_spec(),
    {
        match self {
            InstanceExtension::Dummy => "dummy",
        }
    }

    /// The value with the given Vulkan name, or the error naming what was given.
    pub fn from_str(value: &str) -> (r: Result<Self, ExtensionError>)
        ensures
            value@ == InstanceExtension::Dummy.as_str_spec()@ ==> r == Ok::<Self, ExtensionError>(InstanceExtension::Dummy),
            value@ != InstanceExtension::Dummy.as_str_spec()@ ==> (r matches Err(ExtensionError::UnknownInstanceExtension { got }) && got@ == value@),
    {
        if str_eq(value, InstanceExtension::Dummy.as_str()) {
            return Ok(InstanceExtension::Dummy);
        }
        Err(ExtensionError::UnknownInstanceExtension { got: String::from_str(value) })
    }
}

/// A layer of the Vulkan instance.
#[derive(Clone, Copy, Debug, PartialEq, Eq, Structural)]
pub enum InstanceLayer {
    KhronosValidation,
}

impl InstanceLayer {
    /// The Vulkan name.
    pub open spec fn as_str_spec(self) -> &'static str {
        match self {
            InstanceLayer::KhronosValidation => "VK_LAYER_KHRONOS_validation",
        }
    }

    /// The Vulkan name.
    pub fn as_str(&self) -> (r: &'static str)
        ensures r == self.as_str_spec(),
    {
        match self {
            InstanceLayer::KhronosValidation => "VK_LAYER_KHRONOS_validation",
        }
    }

    /// The value with the given Vulkan name, or the error naming what was given.
    pub fn from_str(value: &str) -> (r: Result<Self, ExtensionError>)
        ensures
            value@ == InstanceLayer::KhronosValidation.as_str_spec()@ ==> r == Ok::<Self, ExtensionError>(InstanceLayer::KhronosValidation),
            value@ != InstanceLayer::KhronosValidation.as_str_spec()@ ==> (r matches Err(ExtensionError::UnknownInstanceLayer { got }) && got@ == value@),
    {
        if str_eq(value, InstanceLayer::KhronosValidation.as_str()) {
            return Ok(InstanceLayer::KhronosValidation);
        }
        Err(ExtensionError::UnknownInstanceLayer { got: String::from_str(value) })
    }
}

/// An extension of a Vulkan device.
#[derive(Clone, Copy, Debug, PartialEq, Eq, Structural)]
pub enum DeviceExtension {
    Swapchain,
}

impl DeviceExtension {
    /// The Vulkan name.
    pub open spec fn as_str_spec(self) -> &'static str {
        match self {
            DeviceExtension::Swapchain => "VK_KHR_swapchain",
        }
    }

    /// The Vulkan name.
    pub fn as_str(&self) -> (r: &'static str)
        ensures r == self.as_str_spec(),
    {
        match self {
            DeviceExtension::Swapchain => "VK_KHR_swapchain",
        }
    }

    /// The value with the given Vulkan name, or the error naming what was given.
    pub fn from_str(value: &str) -> (r: Result<Self, ExtensionError>)
        ensures
            value@ == DeviceExtension::Swapchain.as_str_spec()@ ==> r == Ok::<Self, ExtensionError>(DeviceExtension::Swapchain),
            value@ != DeviceExtension::Swapchain.as_str_spec()@ ==> (r matches Err(ExtensionError::UnknownDeviceExtension { got }) && got@ == value@),
    {
        if str_eq(value, DeviceExtension::Swapchain.as_str()) {
            return Ok(DeviceExtension::Swapchain);
        }
        Err(ExtensionError::UnknownDeviceExtension { got: String::from_str(value) })
    }
}

/// A layer of a Vulkan device.
#[derive(Clone, Copy, Debug, PartialEq, Eq, Structural)]
pub enum DeviceLayer {
    Dummy,
}

impl DeviceLayer {
    /// The Vulkan name.
    pub open spec fn as_str_spec(self) -> &'static str {
        match self {
            DeviceLayer::Dummy => "dummy",
        }
    }

    /// The Vulkan name.
    pub fn as_str(&self) -> (r: &'static str)
        ensures r == self.as_str_spec(),
    {
        match self {
            DeviceLayer::Dummy => "dummy",
        }
    }

    /// The value with the given Vulkan name, or the error naming what was given.
    pub fn from_str(value: &str) -> (r: Result<Self, ExtensionError>)
        ensures
            value@ == DeviceLayer::Dummy.as_str_spec()@ ==> r == Ok::<Self, ExtensionError>(DeviceLayer::Dummy),
            value@ != DeviceLayer::Dummy.as_str_spec()@ ==> (r matches Err(ExtensionError::UnknownDeviceLayer { got }) && got@ == value@),
    {
        if str_eq(value, DeviceLayer::Dummy.as_str()) {
            return Ok(DeviceLayer::Dummy);
        }
        Err(ExtensionError::UnknownDeviceLayer { got: String::from_str(value) })
    }
}

} // verus!
