//! Tests of the allocators, the pools and alignment.

use game_vk::alignment::align_up;
use game_vk::allocators::{DenseAllocator, LinearAllocator, MemoryAllocatorKind, UsedBlock};
use game_vk::errors::MemoryPoolError;
use game_vk::gpu_ptr::GpuPtr;
use game_vk::flags::{DeviceMemoryType, DeviceMemoryTypeFlags, MemoryPropertyFlags};
use game_vk::memory::{MemoryBlock, MemoryRequirements};
use game_vk::pools::{BlockPool, LinearPool};

#[test]
fn align_up_rounds_to_powers_of_two() {
    assert_eq!(align_up(0x42, 0), Some(0x42));
    assert_eq!(align_up(0x42, 1), Some(0x42));
    assert_eq!(align_up(0x42, 4), Some(0x44));
    assert_eq!(align_up(0x42, 16), Some(0x50));
    assert_eq!(align_up(0x40, 16), Some(0x40));
    assert_eq!(align_up(usize::MAX, 1), Some(usize::MAX));
    assert_eq!(align_up(usize::MAX, 2), None);
    assert_eq!(align_up(usize::MAX - 7, 8), Some(usize::MAX - 7));
}

#[test]
fn linear_allocator_bumps_and_aligns() {
    let mut a = LinearAllocator::new(7, 100);
    assert_eq!(a.id(), 7);
    assert_eq!(a.kind(), MemoryAllocatorKind::Linear(7));
    assert_eq!(a.allocate(0, 10), Ok(0));
    assert_eq!(a.size(), 10);
    assert_eq!(a.allocate(16, 10), Ok(16));
    assert_eq!(a.size(), 26);
    assert_eq!(a.allocate(4, 74), Err(MemoryPoolError::OutOfMemoryError { req_size: 74 }));
    assert_eq!(a.allocate(2, 74), Ok(26));
    assert_eq!(a.size(), 100);
    assert_eq!(a.allocate(0, 1), Err(MemoryPoolError::OutOfMemoryError { req_size: 1 }));
    assert_eq!(a.allocate(0, 0), Ok(100));
    assert_eq!(a.capacity(), 100);
    a.reset();
    assert_eq!(a.size(), 0);
    assert_eq!(a.allocate(8, 100), Ok(0));
}

#[test]
fn linear_allocator_refuses_what_does_not_fit() {
    let mut a = LinearAllocator::new(1, 32);
    assert_eq!(a.allocate(0, 20), Ok(0));
    // Aligning to 16 moves the pointer to 32, which leaves no room.
    assert_eq!(a.allocate(16, 1), Err(MemoryPoolError::OutOfMemoryError { req_size: 1 }));
    assert_eq!(a.size(), 20);
    assert_eq!(a.allocate(16, 0), Ok(32));
}

#[test]
fn dense_allocator_reuses_freed_space() {
    let mut a = DenseAllocator::new(100);
    assert_eq!(a.kind(), MemoryAllocatorKind::Dense);
    assert_eq!(a.allocate(0, 30), Ok(0));
    assert_eq!(a.allocate(0, 30), Ok(30));
    assert_eq!(a.allocate(0, 30), Ok(60));
    assert_eq!(a.size(), 90);
    assert_eq!(a.free(30), Ok(()));
    assert_eq!(a.size(), 60);
    // The first gap that fits is the freed one.
    assert_eq!(a.allocate(0, 20), Ok(30));
    // 10 bytes are left between 50 and 60 and 10 at the end.
    assert_eq!(a.allocate(16, 8), Err(MemoryPoolError::OutOfMemoryError { req_size: 8 }));
    assert_eq!(a.allocate(0, 8), Ok(50));
    assert_eq!(a.allocate(2, 8), Ok(90));
    assert_eq!(a.size(), 96);
    assert_eq!(a.capacity(), 100);
}

#[test]
fn dense_allocator_reports_unknown_pointers_and_overflow() {
    let mut a = DenseAllocator::new(64);
    assert_eq!(a.free(0), Err(MemoryPoolError::UnknownPointer { ptr: 0 }));
    assert_eq!(a.allocate(0, 65), Err(MemoryPoolError::OutOfMemoryError { req_size: 65 }));
    assert_eq!(a.allocate(0, 64), Ok(0));
    assert_eq!(a.allocate(0, 1), Err(MemoryPoolError::OutOfMemoryError { req_size: 1 }));
    assert_eq!(a.free(1), Err(MemoryPoolError::UnknownPointer { ptr: 1 }));
    a.reset();
    assert_eq!(a.size(), 0);
    assert_eq!(a.allocate(32, 16), Ok(0));
    assert_eq!(a.allocate(32, 16), Ok(32));
    assert_eq!(a.free(0), Ok(()));
    assert_eq!(a.allocate(32, 16), Ok(0));
}

#[test]
fn allocate_then_free_restores_the_allocator() {
    let mut a = DenseAllocator::new(100);
    assert_eq!(a.allocate(0, 10), Ok(0));
    assert_eq!(a.allocate(0, 10), Ok(10));
    let p = a.allocate(8, 5).unwrap();
    assert_eq!(p, 24);
    assert_eq!(a.free(p), Ok(()));
    assert_eq!(a.size(), 20);
    assert_eq!(a.allocate(8, 5), Ok(24));
}

#[test]
fn used_block_list_operations() {
    let mut list = vec![UsedBlock::new(0, 4), UsedBlock::new(10, 4)];
    UsedBlock::insert_before(&mut list, 1, UsedBlock::new(5, 1));
    assert_eq!(list, vec![UsedBlock::new(0, 4), UsedBlock::new(5, 1), UsedBlock::new(10, 4)]);
    UsedBlock::insert_after(&mut list, 2, UsedBlock::new(20, 2));
    assert_eq!(list[3], UsedBlock::new(20, 2));
    assert_eq!(UsedBlock::remove(&mut list, 0), UsedBlock::new(0, 4));
    assert_eq!(list.len(), 3);
}

#[test]
fn allocator_kinds_describe_themselves() {
    assert_eq!(MemoryAllocatorKind::Dense.describe(), "Dense");
    assert_eq!(MemoryAllocatorKind::Linear(5).describe(), "Linear(5)");
    assert_eq!(MemoryAllocatorKind::default(), MemoryAllocatorKind::Dense);
}

fn block(size: usize) -> MemoryBlock {
    MemoryBlock::new(0xABC, DeviceMemoryType::from(0b10u32), MemoryPropertyFlags::HOST_VISIBLE() | MemoryPropertyFlags::HOST_COHERENT(), size)
}

fn reqs(size: usize, align: u8) -> MemoryRequirements {
    MemoryRequirements { size, align, types: DeviceMemoryTypeFlags::from(0b110u32) }
}

#[test]
fn memory_block_serves_matching_requests() {
    let b = block(64);
    assert!(b.can_serve(&reqs(1, 0), MemoryPropertyFlags::HOST_VISIBLE()));
    assert!(!b.can_serve(&reqs(1, 0), MemoryPropertyFlags::DEVICE_LOCAL()));
    let other = MemoryRequirements { size: 1, align: 0, types: DeviceMemoryTypeFlags::from(0b1u32) };
    assert!(!b.can_serve(&other, MemoryPropertyFlags::HOST_VISIBLE()));
    assert_eq!(b.vk(), 0xABC);
    assert_eq!(b.mem_size(), 64);
}

#[test]
fn linear_pool_allocates_from_its_block() {
    let mut pool = LinearPool::new(64);
    assert!(pool.needs_block());
    pool.set_block(block(64));
    assert!(!pool.needs_block());
    let props = MemoryPropertyFlags::HOST_VISIBLE();
    assert_eq!(pool.allocate(&reqs(10, 0), props), Ok((0xABC, 0)));
    assert_eq!(pool.allocate(&reqs(10, 16), props), Ok((0xABC, 16)));
    assert_eq!(pool.size(), 26);
    pool.free(16);
    assert_eq!(pool.size(), 26);
    assert_eq!(pool.allocate(&reqs(40, 0), props), Err(MemoryPoolError::OutOfMemoryError { req_size: 40 }));
    pool.reset();
    assert_eq!(pool.allocate(&reqs(40, 0), props), Ok((0xABC, 0)));
    assert_eq!(pool.capacity(), 64);
    pool.release();
    assert!(pool.needs_block());
}

#[test]
fn block_pool_fills_the_end_first_then_gaps() {
    let mut pool = BlockPool::new(block(64));
    let props = MemoryPropertyFlags::HOST_COHERENT();
    assert_eq!(pool.allocate(&reqs(16, 0), props), Ok((0xABC, 0)));
    assert_eq!(pool.allocate(&reqs(16, 0), props), Ok((0xABC, 16)));
    assert_eq!(pool.allocate(&reqs(16, 0), props), Ok((0xABC, 32)));
    pool.free(0);
    assert_eq!(pool.size(), 32);
    // There is room at the end, so that comes first.
    assert_eq!(pool.allocate(&reqs(8, 0), props), Ok((0xABC, 48)));
    assert_eq!(pool.allocate(&reqs(8, 0), props), Ok((0xABC, 56)));
    // The end is full now; the gap at the start is used.
    assert_eq!(pool.allocate(&reqs(8, 0), props), Ok((0xABC, 0)));
    assert_eq!(pool.allocate(&reqs(16, 0), props), Err(MemoryPoolError::OutOfMemoryError { req_size: 16 }));
    assert_eq!(pool.size(), 56);
    assert_eq!(pool.capacity(), 64);
    assert_eq!(pool.allocate(&reqs(8, 8), props), Ok((0xABC, 8)));
    pool.reset();
    assert_eq!(pool.size(), 0);
    assert_eq!(pool.allocate(&reqs(64, 0), props), Ok((0xABC, 0)));
}

#[test]
fn gpu_pointers_describe_their_parts() {
    assert_eq!(GpuPtr::new(1, 2, 0xAB).describe(), "T1P20xAB");
    assert_eq!(GpuPtr::new(0, 7, 0x10).describe(), "P70x10");
    assert_eq!(GpuPtr::new(3, 0, 0).describe(), "T30x0");
    assert_eq!(GpuPtr::null().describe(), "0xFFFFFFFFFFFF");
}

#[test]
fn freeing_a_block_pool_allocation_undoes_it() {
    let mut pool = BlockPool::new(block(64));
    let props = MemoryPropertyFlags::HOST_COHERENT();
    assert_eq!(pool.allocate(&reqs(10, 0), props), Ok((0xABC, 0)));
    let before = pool.size();
    let (_, p) = pool.allocate(&reqs(20, 16), props).unwrap();
    assert_eq!(p, 16);
    assert_eq!(pool.size(), before + 20);
    pool.free(p);
    assert_eq!(pool.size(), before);
    // The freed range is found again.
    assert_eq!(pool.allocate(&reqs(20, 16), props), Ok((0xABC, 16)));
}

#[test]
fn a_linear_pool_says_whether_its_block_serves_a_request() {
    let mut pool = LinearPool::new(64);
    let props = MemoryPropertyFlags::HOST_COHERENT();
    assert!(!pool.serves(&reqs(8, 0), props));
    pool.set_block(block(64));
    assert!(pool.serves(&reqs(8, 0), props));
    assert!(!pool.serves(&reqs(8, 0), MemoryPropertyFlags::DEVICE_LOCAL()));
    assert!(!pool.serves(&MemoryRequirements { size: 8, align: 0, types: DeviceMemoryTypeFlags::from(0b1u32) }, props));
}
