//! Errors of the library.

use vstd::prelude::*;
use vstd::string::StringExecFns;
use crate::text::{decimal, decimal_string, escape_ascii, escape_ascii_string, queue_flags_text, queue_flags_string};

verus! {

/// Errors of the memory allocators and pools.
#[derive(Clone, Copy, Debug, PartialEq, Eq, Structural)]
pub enum MemoryPoolError {
    /// No free range is large enough for a request of `req_size` bytes.
    OutOfMemoryError { req_size: usize },
    /// The pointer does not start any allocated block.
    UnknownPointer { ptr: usize },
}

/// Errors in choosing queue families.
#[derive(Clone, Debug, PartialEq, Eq)]
pub enum QueueError {
    /// The physical device (by index and name) has no queue family with queues
    /// that support `operation` (a raw Vulkan queue flag).
    OperationUnsupported { index: usize, name: String, operation: u32 },
}

/// Errors in converting a Vulkan format to a vertex attribute layout.
#[derive(Clone, Copy, Debug, PartialEq, Eq, Structural)]
pub enum AttributeLayoutError {
    /// The raw Vulkan `VkFormat` is no attribute layout.
    IllegalFormatValue { value: i32 },
}

/// Errors in parsing the names of extensions and layers.
#[derive(Clone, Debug, PartialEq, Eq)]
pub enum ExtensionError {
    /// No instance extension has this name.
    UnknownInstanceExtension { got: String },
    /// No instance layer has this name.
    UnknownInstanceLayer { got: String },
    /// No device extension has this name.
    UnknownDeviceExtension { got: String },
    /// No device layer has this name.
    UnknownDeviceLayer { got: String },
}

/// Errors in choosing and checking a physical device.
#[derive(Clone, Debug, PartialEq, Eq)]
pub enum DeviceError {
    /// The device (by index and name) lacks a required device extension.
    UnsupportedDeviceExtension { index: usize, name: String, extension: String },
    /// The device (by index and name) lacks a required device layer.
    UnsupportedDeviceLayer { index: usize, name: String, layer: String },
    /// The device (by index and name) lacks a requested feature (by its Vulkan name).
    UnsupportedFeature { index: usize, name: String, feature: &'static str },
    /// No physical device has the given index.
    PhysicalDeviceNotFound { index: usize },
    /// None of the devices supports what the application needs.
    NoSupportedPhysicalDevices,
}

/// Errors in choosing the properties of a swapchain.
#[derive(Clone, Copy, Debug, PartialEq, Eq, Structural)]
pub enum SwapchainError {
    /// The surface offers no format at all.
    NoFormatFound,
}

/// Errors of images.
#[derive(Clone, Copy, Debug, PartialEq, Eq, Structural)]
pub enum ImageError {
    /// A placeholder.
    Temp,
}

/// Errors in building a render pass.
#[derive(Clone, Copy, Debug, PartialEq, Eq, Structural)]
pub enum RenderPassError {
    /// Vulkan refused to create the render pass, with the raw `VkResult`.
    RenderPassCreateError { err: i32 },
}

/// `"Physical device <index> (<name>) does not "` followed by `what`.
pub open spec fn device_prefix(index: usize, name: Seq<char>) -> Seq<char> {
    "Physical device "@ + decimal(index as u64) + " ("@ + name + ") does not "@
}

/// Appends `"Physical device <index> (<name>) does not "` to `s`.
fn push_device_prefix(s: &mut String, index: usize, name: &String)
    ensures final(s)@ == old(s)@ + device_prefix(index, name@),
{
    s.append("Physical device ");
    let digits = decimal_string(index as u64);
    s.append(digits.as_str());
    s.append(" (");
    s.append(name.as_str());
    s.append(") does not ");
}

impl QueueError {
    /// The message shown to users.
    pub fn describe(&self) -> (r: String)
        ensures
            match self {
                QueueError::OperationUnsupported { index, name, operation } => r@ == device_prefix(*index, name@)
                    + "have queues that support '"@ + queue_flags_text(*operation) + "'; choose another device"@,
            },
    {
        match self {
            QueueError::OperationUnsupported { index, name, operation } => {
                let mut s = String::new();
                push_device_prefix(&mut s, *index, name);
                s.append("have queues that support '");
                let flags = queue_flags_string(*operation);
                s.append(flags.as_str());
                s.append("'; choose another device");
                s
            },
        }
    }
}

impl DeviceError {
    /// The message shown to users.
    pub fn describe(&self) -> (r: String)
        ensures
            match self {
                DeviceError::UnsupportedDeviceExtension { index, name, extension } => r@ == device_prefix(*index, name@)
                    + "support extension '\""@ + escape_ascii(extension@) + "\"'; choose another device"@,
                DeviceError::UnsupportedDeviceLayer { index, name, layer } => r@ == device_prefix(*index, name@)
                    + "support layer '\""@ + escape_ascii(layer@) + "\"'; choose another device"@,
                DeviceError::UnsupportedFeature { index, name, feature } => r@ == device_prefix(*index, name@)
                    + "support feature '"@ + feature@ + "'; choose another device"@,
                DeviceError::PhysicalDeviceNotFound { index } => r@ == "Could not find physical device '"@
                    + decimal(*index as u64) + "'; see the list of available devices by running 'list'"@,
                DeviceError::NoSupportedPhysicalDevices => r@ == "No device found that supports this application"@,
            },
    {
        match self {
            DeviceError::UnsupportedDeviceExtension { index, name, extension } => {
                let mut s = String::new();
                push_device_prefix(&mut s, *index, name);
                s.append("support extension '\"");
                let q = escape_ascii_string(extension.as_str());
                s.append(q.as_str());
                s.append("\"'; choose another device");
                s
            },
            DeviceError::UnsupportedDeviceLayer { index, name, layer } => {
                let mut s = String::new();
                push_device_prefix(&mut s, *index, name);
                s.append("support layer '\"");
                let q = escape_ascii_string(layer.as_str());
                s.append(q.as_str());
                s.append("\"'; choose another device");
                s
            },
            DeviceError::UnsupportedFeature { index, name, feature } => {
                let mut s = String::new();
                push_device_prefix(&mut s, *index, name);
                s.append("support feature '");
                s.append(feature);
                s.append("'; choose another device");
                s
            },
            DeviceError::PhysicalDeviceNotFound { index } => {
                let mut s = String::from_str("Could not find physical device '");
                let digits = decimal_string(*index as u64);
                s.append(digits.as_str());
                s.append("'; see the list of available devices by running 'list'");
                s
            },
            DeviceError::NoSupportedPhysicalDevices => String::from_str("No device found that supports this application"),
        }
    }
}

impl SwapchainError {
    /// The message shown to users.
    pub fn describe(&self) -> (r: String)
        ensures
            match self {
                SwapchainError::NoFormatFound => r@ == "No suitable formats found for swapchain; try choosing another device."@,
            },
    {
        match self {
            SwapchainError::NoFormatFound => String::from_str("No suitable formats found for swapchain; try choosing another device."),
        }
    }
}

impl ImageError {
    /// The message shown to users.
    pub fn describe(&self) -> (r: String)
        ensures
            match self {
                ImageError::Temp => r@ == "<TEMP>"@,
            },
    {
        match self {
            ImageError::Temp => String::from_str("<TEMP>"),
        }
    }
}

} // verus!
