//! Tests of device selection, the swapchain choices and the memory pool's
//! decisions.

use game_vk::allocators::{DenseAllocator, LinearAllocator, MemoryAllocatorKind};
use game_vk::enums::{DeviceKind, Format};
use game_vk::errors::{DeviceError, ImageError, MemoryPoolError, QueueError, SwapchainError};
use game_vk::flags::{DeviceMemoryType, DeviceMemoryTypeFlags, MemoryPropertyFlags};
use game_vk::memory_pool::{
    add_new_block, allocate_existing_in, block_sizes, find_suitable_type, memory_types, new_block, BlockAllocator, DeviceBlock, MemoryType,
};
use game_vk::selection::{
    contains_name, feature_name, find_device, find_missing, find_missing_feature, select_device, supports, DeviceCandidate,
    N_FEATURES,
};
use game_vk::swapchain::{
    choose_extent, choose_format, choose_image_count, choose_present_mode, clamp, SurfaceFormat, SurfaceLimits,
    COLOUR_SPACE_SRGB_NONLINEAR, PRESENT_MODE_FIFO,
};

fn names(xs: &[&str]) -> Vec<String> {
    xs.iter().map(|x| x.to_string()).collect()
}

#[test]
fn names_are_found_exactly() {
    let avail = names(&["VK_KHR_swapchain", "VK_KHR_maintenance1"]);
    assert!(contains_name(&avail, &"VK_KHR_swapchain".to_string()));
    assert!(!contains_name(&avail, &"VK_KHR_swap".to_string()));
    assert_eq!(find_missing(&names(&["VK_KHR_maintenance1"]), &avail), None);
    assert_eq!(find_missing(&names(&["VK_KHR_maintenance1", "a", "b"]), &avail), Some(1));
    assert_eq!(find_missing(&names(&[]), &names(&[])), None);
    assert_eq!(find_missing_feature(&vec![false, true], &vec![true, true]), None);
    assert_eq!(find_missing_feature(&vec![false, true, true], &vec![true, true]), Some(2));
}

#[test]
fn supports_reports_the_first_missing_extension_then_layer() {
    let name = "GPU".to_string();
    let exts = names(&["VK_KHR_swapchain"]);
    let layers = names(&["VK_LAYER_KHRONOS_validation"]);
    assert_eq!(supports(3, &name, &exts, &exts, &layers, &layers, &vec![true, false], &vec![true, true]), Ok(()));
    assert_eq!(
        supports(3, &name, &names(&["x", "y"]), &exts, &names(&["z"]), &layers, &vec![true], &vec![false]),
        Err(DeviceError::UnsupportedDeviceExtension { index: 3, name: "GPU".to_string(), extension: "x".to_string() })
    );
    assert_eq!(
        supports(0, &name, &exts, &exts, &names(&["VK_LAYER_KHRONOS_validation", "z"]), &layers, &vec![true], &vec![false]),
        Err(DeviceError::UnsupportedDeviceLayer { index: 0, name: "GPU".to_string(), layer: "z".to_string() })
    );
}

#[test]
fn supports_reports_the_first_missing_feature() {
    let name = "GPU".to_string();
    let none: Vec<String> = vec![];
    let available = vec![true, false, true, false];
    assert_eq!(supports(2, &name, &none, &none, &none, &none, &vec![true, false, true], &available), Ok(()));
    assert_eq!(
        supports(2, &name, &none, &none, &none, &none, &vec![false, true, false, true], &available),
        Err(DeviceError::UnsupportedFeature { index: 2, name: "GPU".to_string(), feature: "fullDrawIndexUint32" })
    );
    // A feature the device does not list is not available.
    assert_eq!(
        supports(2, &name, &none, &none, &none, &none, &vec![false, false, false, false, true], &available),
        Err(DeviceError::UnsupportedFeature { index: 2, name: "GPU".to_string(), feature: "geometryShader" })
    );
    // Layers are reported before features.
    assert_eq!(
        supports(2, &name, &none, &none, &names(&["L"]), &none, &vec![false, true], &available),
        Err(DeviceError::UnsupportedDeviceLayer { index: 2, name: "GPU".to_string(), layer: "L".to_string() })
    );
    assert_eq!(feature_name(0), "robustBufferAccess");
    assert_eq!(feature_name(N_FEATURES - 1), "inheritedQueries");
    assert_eq!(feature_name(N_FEATURES), "unknown");
    assert_eq!(
        DeviceError::UnsupportedFeature { index: 1, name: "G".to_string(), feature: "wideLines" }.describe(),
        "Physical device 1 (G) does not support feature 'wideLines'; choose another device"
    );
}

#[test]
fn the_most_discrete_supported_device_is_selected() {
    let d = |supported: bool, kind: DeviceKind| DeviceCandidate { supported, kind };
    assert_eq!(select_device(&vec![]), Err(DeviceError::NoSupportedPhysicalDevices));
    assert_eq!(
        select_device(&vec![d(false, DeviceKind::Discrete), d(false, DeviceKind::Cpu)]),
        Err(DeviceError::NoSupportedPhysicalDevices)
    );
    assert_eq!(
        select_device(&vec![d(true, DeviceKind::Cpu), d(false, DeviceKind::Discrete), d(true, DeviceKind::Integrated)]),
        Ok(2)
    );
    // Of equal scores the first wins.
    assert_eq!(
        select_device(&vec![d(true, DeviceKind::Virtual), d(true, DeviceKind::Virtual)]),
        Ok(0)
    );
    // A device of unknown kind is still picked where it is the only one.
    assert_eq!(select_device(&vec![d(false, DeviceKind::Cpu), d(true, DeviceKind::Other)]), Ok(1));
    assert_eq!(DeviceKind::from_vk(4), DeviceKind::Cpu);
}

#[test]
fn a_device_index_must_exist() {
    assert_eq!(find_device(1, 2), Ok(1));
    assert_eq!(find_device(2, 2), Err(DeviceError::PhysicalDeviceNotFound { index: 2 }));
}

#[test]
fn the_preferred_surface_format_wins() {
    let srgb = SurfaceFormat { format: Format::B8G8R8A8SRgb.to_vk(), colour_space: COLOUR_SPACE_SRGB_NONLINEAR };
    let other = SurfaceFormat { format: Format::R8G8B8A8UNorm.to_vk(), colour_space: COLOUR_SPACE_SRGB_NONLINEAR };
    let wrong_space = SurfaceFormat { format: Format::B8G8R8A8SRgb.to_vk(), colour_space: 1000104001 };
    assert_eq!(srgb.format, 50);
    assert_eq!(choose_format(&vec![]), Err(SwapchainError::NoFormatFound));
    assert_eq!(choose_format(&vec![other, wrong_space, srgb]), Ok(srgb));
    assert_eq!(choose_format(&vec![wrong_space, other]), Ok(wrong_space));
}

#[test]
fn extents_and_image_counts_are_clamped() {
    let limits = SurfaceLimits {
        min_width: 100,
        min_height: 50,
        max_width: 800,
        max_height: 600,
        min_image_count: 2,
        max_image_count: 3,
    };
    assert_eq!(choose_extent(&limits, 1024, 768), (800, 600));
    assert_eq!(choose_extent(&limits, 10, 10), (100, 50));
    assert_eq!(choose_extent(&limits, 640, 480), (640, 480));
    assert_eq!(choose_image_count(&limits, 1), 2);
    assert_eq!(choose_image_count(&limits, 5), 3);
    assert_eq!(choose_image_count(&limits, 3), 3);
    // Where the surface sets no maximum (zero), only the minimum applies.
    let unbounded = SurfaceLimits { max_image_count: 0, ..limits };
    assert_eq!(choose_image_count(&unbounded, 3), 3);
    assert_eq!(choose_image_count(&unbounded, 100), 100);
    assert_eq!(choose_image_count(&unbounded, 1), 2);
    assert_eq!(clamp(7, 9, 4), 9);
    assert_eq!(choose_present_mode(), PRESENT_MODE_FIFO);
    assert_eq!(PRESENT_MODE_FIFO, 2);
}

#[test]
fn new_blocks_are_tried_from_the_preferred_size_down() {
    assert_eq!(block_sizes(1024, 100), vec![1024, 512, 256, 128, 100]);
    assert_eq!(block_sizes(1024, 300), vec![1024, 512, 300]);
    assert_eq!(block_sizes(64, 100), vec![100]);
    assert_eq!(block_sizes(0, 0), vec![0, 0, 0, 0, 0]);
}

#[test]
fn a_new_block_serves_the_request_from_its_start() {
    let (block, r) = new_block(77, 256, MemoryAllocatorKind::Dense, 16, 100);
    assert_eq!(r, Ok(0));
    assert_eq!(block.mem(), 77);
    assert_eq!(block.allocator.size(), 100);
    assert_eq!(block.allocator.capacity(), 256);
    assert_eq!(block.allocator.kind(), MemoryAllocatorKind::Dense);
    let (block, r) = new_block(5, 64, MemoryAllocatorKind::Linear(9), 0, 100);
    assert_eq!(r, Err(MemoryPoolError::OutOfMemoryError { req_size: 100 }));
    assert_eq!(block.allocator.kind(), MemoryAllocatorKind::Linear(9));
    assert_eq!(block.allocator.size(), 0);
}

#[test]
fn existing_blocks_are_searched_in_order() {
    let host = MemoryPropertyFlags::HOST_VISIBLE() | MemoryPropertyFlags::HOST_COHERENT();
    let mut t = MemoryType::new(DeviceMemoryType::from(4u32), host);
    assert_eq!(t.allocate_existing(0, 10, MemoryAllocatorKind::Dense), None);
    t.add(DeviceBlock::new(1, BlockAllocator::Linear(LinearAllocator::new(3, 64))));
    t.add(DeviceBlock::new(2, BlockAllocator::Dense(DenseAllocator::new(32))));
    t.add(DeviceBlock::new(3, BlockAllocator::Dense(DenseAllocator::new(128))));
    assert_eq!(t.n_blocks(), 3);
    // The linear block has the wrong kind; the first dense block is too small.
    assert_eq!(t.allocate_existing(16, 40, MemoryAllocatorKind::Dense), Some((3, 0)));
    assert_eq!(t.allocate_existing(16, 40, MemoryAllocatorKind::Dense), Some((3, 48)));
    assert_eq!(t.allocate_existing(0, 20, MemoryAllocatorKind::Dense), Some((2, 0)));
    assert_eq!(t.allocate_existing(8, 8, MemoryAllocatorKind::Linear(3)), Some((1, 0)));
    assert_eq!(t.allocate_existing(8, 8, MemoryAllocatorKind::Linear(3)), Some((1, 8)));
    assert_eq!(t.allocate_existing(0, 100, MemoryAllocatorKind::Linear(4)), None);
    assert_eq!(t.allocate_existing(0, 200, MemoryAllocatorKind::Dense), None);
    assert!(t.suits(DeviceMemoryTypeFlags::from(0b100u32), MemoryPropertyFlags::HOST_VISIBLE()));
    assert!(!t.suits(DeviceMemoryTypeFlags::from(0b011u32), MemoryPropertyFlags::HOST_VISIBLE()));
    assert!(!t.suits(DeviceMemoryTypeFlags::from(0b100u32), MemoryPropertyFlags::DEVICE_LOCAL()));
    assert_eq!(t.mtype(), DeviceMemoryType::from(4u32));
    assert_eq!(t.mprops(), host);
}

#[test]
fn errors_describe_themselves() {
    let e = QueueError::OperationUnsupported { index: 2, name: "GPU".to_string(), operation: 1 };
    assert_eq!(e.describe(), "Physical device 2 (GPU) does not have queues that support 'GRAPHICS'; choose another device");
    let e = QueueError::OperationUnsupported { index: 0, name: "X".to_string(), operation: 6 };
    assert_eq!(e.describe(), "Physical device 0 (X) does not have queues that support 'COMPUTE | TRANSFER'; choose another device");
    let e = DeviceError::UnsupportedDeviceExtension { index: 1, name: "GPU".to_string(), extension: "VK_KHR_swapchain".to_string() };
    assert_eq!(e.describe(), "Physical device 1 (GPU) does not support extension '\"VK_KHR_swapchain\"'; choose another device");
    let e = DeviceError::UnsupportedDeviceLayer { index: 1, name: "GPU".to_string(), layer: "L".to_string() };
    assert_eq!(e.describe(), "Physical device 1 (GPU) does not support layer '\"L\"'; choose another device");
    assert_eq!(
        DeviceError::PhysicalDeviceNotFound { index: 12 }.describe(),
        "Could not find physical device '12'; see the list of available devices by running 'list'"
    );
    assert_eq!(DeviceError::NoSupportedPhysicalDevices.describe(), "No device found that supports this application");
    assert_eq!(SwapchainError::NoFormatFound.describe(), "No suitable formats found for swapchain; try choosing another device.");
    assert_eq!(ImageError::Temp.describe(), "<TEMP>");
}

#[test]
fn instance_versions_are_packed_as_vulkan_packs_them() {
    let (app, engine, api) = game_vk::instance::instance_versions((1, 2, 3), (0, 10, 4095));
    assert_eq!(app, (1 << 22) | (2 << 12) | 3);
    assert_eq!(app, ash::vk::make_api_version(0, 1, 2, 3));
    assert_eq!(engine, ash::vk::make_api_version(0, 0, 10, 4095));
    assert_eq!(api, ash::vk::API_VERSION_1_1);
    assert_eq!(api, 0x401000);
}

#[test]
fn memory_is_found_type_by_type() {
    let host = MemoryPropertyFlags::HOST_VISIBLE() | MemoryPropertyFlags::HOST_COHERENT();
    let local = MemoryPropertyFlags::DEVICE_LOCAL();
    let mut types = memory_types(&vec![0b1, 0b10, 0b100], &vec![local, host, host]);
    assert_eq!(types.len(), 3);
    assert_eq!(types[1].mtype(), DeviceMemoryType::from(0b10u32));
    assert_eq!(types[2].mprops(), host);
    assert_eq!(types[0].n_blocks(), 0);
    let any = DeviceMemoryTypeFlags::from(0b111u32);
    // No blocks yet: the first suitable type is named, with nothing found.
    assert_eq!(allocate_existing_in(&mut types, 0, 16, 0, any, host, MemoryAllocatorKind::Dense), Some((1, None)));
    assert_eq!(allocate_existing_in(&mut types, 2, 16, 0, any, host, MemoryAllocatorKind::Dense), Some((2, None)));
    assert_eq!(allocate_existing_in(&mut types, 3, 16, 0, any, host, MemoryAllocatorKind::Dense), None);
    assert_eq!(allocate_existing_in(&mut types, 0, 16, 0, DeviceMemoryTypeFlags::from(0b1u32), host, MemoryAllocatorKind::Dense), None);
    // A new block of type 1 serves the request from its start and stays with the type.
    assert_eq!(add_new_block(&mut types[1], 9, 64, MemoryAllocatorKind::Dense, 16, 16), Ok(0));
    assert_eq!(types[1].n_blocks(), 1);
    assert_eq!(allocate_existing_in(&mut types, 0, 16, 16, any, host, MemoryAllocatorKind::Dense), Some((1, Some((9, 16)))));
    // A block too small for the request is kept all the same.
    assert_eq!(
        add_new_block(&mut types[2], 10, 8, MemoryAllocatorKind::Linear(1), 0, 16),
        Err(MemoryPoolError::OutOfMemoryError { req_size: 16 })
    );
    assert_eq!(types[2].n_blocks(), 1);
}

#[test]
fn the_package_version_is_parsed_and_packed() {
    let (app, engine, api) = game_vk::instance::application_versions("0.3.12", (1, 0, 0)).unwrap();
    assert_eq!(app, ash::vk::make_api_version(0, 0, 3, 12));
    assert_eq!(engine, ash::vk::make_api_version(0, 1, 0, 0));
    assert_eq!(api, ash::vk::API_VERSION_1_1);
    assert_eq!(game_vk::instance::application_versions("1.2.3-beta+build", (0, 0, 0)).map(|v| v.0), Some(ash::vk::make_api_version(0, 1, 2, 3)));
    assert_eq!(game_vk::instance::application_versions("not a version", (1, 0, 0)), None);
    assert_eq!(game_vk::instance::application_versions("1.2", (1, 0, 0)), None);
}

#[test]
fn missing_names_are_escaped_as_c_strings_are() {
    let e = DeviceError::UnsupportedDeviceExtension { index: 0, name: "G".to_string(), extension: "it's\u{e9}".to_string() };
    assert_eq!(e.describe(), "Physical device 0 (G) does not support extension '\"it\\'s\\xc3\\xa9\"'; choose another device");
    let e = DeviceError::UnsupportedDeviceLayer { index: 0, name: "G".to_string(), layer: "a\"b".to_string() };
    assert_eq!(e.describe(), "Physical device 0 (G) does not support layer '\"a\\\"b\"'; choose another device");
}

#[test]
fn suitable_memory_types_are_found_in_order() {
    let host = MemoryPropertyFlags::HOST_VISIBLE();
    let types = memory_types(&vec![0b1, 0b10, 0b100], &vec![MemoryPropertyFlags::DEVICE_LOCAL(), host, host]);
    let any = DeviceMemoryTypeFlags::from(0b111u32);
    assert_eq!(find_suitable_type(&types, 0, any, host), Some(1));
    assert_eq!(find_suitable_type(&types, 2, any, host), Some(2));
    assert_eq!(find_suitable_type(&types, 0, DeviceMemoryTypeFlags::from(0b100u32), host), Some(2));
    assert_eq!(find_suitable_type(&types, 0, DeviceMemoryTypeFlags::from(0b1u32), host), None);
    assert_eq!(find_suitable_type(&types, 5, any, host), None);
}
