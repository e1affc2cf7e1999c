//! Tests of the packed GPU pointer.

use game_vk::gpu_ptr::GpuPtr;

/// Tests GpuPtr's initializers
#[test]
fn test_gpuptr_init() {
    // Test new first
    assert_eq!(GpuPtr::new(0, 0, 0).as_raw(), 0);
    assert_eq!(GpuPtr::new(0, 0, 0x42).as_raw(), 0x42);
    assert_eq!(GpuPtr::new(0, 0, 0xFFFFFFFFFFFF).as_raw(), 0xFFFFFFFFFFFF);
    assert_eq!(GpuPtr::new(0, 5, 0x42).as_raw(), 0x0005000000000042);
    assert_eq!(GpuPtr::new(5, 0, 0x42).as_raw(), 0x2800000000000042);
    assert_eq!(GpuPtr::new(5, 5, 0x42).as_raw(), 0x2805000000000042);
    assert_eq!(GpuPtr::new(31, 2047, 0x42).as_raw(), 0xFFFF000000000042);
    assert_eq!(GpuPtr::new(31, 1023, 0x42).as_raw(), 0xFBFF000000000042);

    // Test the null constructor
    assert_eq!(GpuPtr::null().is_null(), true);
    assert_eq!(GpuPtr::new(5, 5, 0x42).is_null(), false);

    // Test the aligned constructor
    assert_eq!(GpuPtr::aligned(5, 5, 0x42, 16).as_raw(), 0x2805000000000050);
}

/// Tests GpuPtr's `align` and `agnostic` functions
#[test]
fn test_operators() {
    // Test align
    assert_eq!(GpuPtr::new(5, 0, 0x42).align(1).as_raw(),   0x2800000000000042);
    assert_eq!(GpuPtr::new(5, 0, 0x42).align(4).as_raw(),   0x2800000000000044);
    assert_eq!(GpuPtr::new(5, 0, 0x42).align(16).as_raw(),  0x2800000000000050);

    // Test agnostic
    assert_eq!(GpuPtr::new(0, 0, 0x42).agnostic().as_raw(), 0x42);
    assert_eq!(GpuPtr::new(5, 0, 0x42).agnostic().as_raw(), 0x42);
    assert_eq!(GpuPtr::new(0, 0, 0x42).agnostic().as_raw(), 0x42);
    assert_eq!(GpuPtr::new(5, 5, 0x42).agnostic().as_raw(), 0x42);
}

/// Tests GpuPtr's `set_*` functions
#[test]
fn test_set() {
    // Test set_type_idx
    let mut ptr1 = GpuPtr::new(0, 0, 0   ); ptr1.set_type_idx(15);
    let mut ptr2 = GpuPtr::new(5, 0, 0   ); ptr2.set_type_idx(15);
    let mut ptr3 = GpuPtr::new(0, 5, 0x42); ptr3.set_type_idx(15);
    let mut ptr4 = GpuPtr::new(5, 5, 0x42); ptr4.set_type_idx(15);
    assert_eq!(ptr1, GpuPtr::new(15, 0, 0));
    assert_eq!(ptr2, GpuPtr::new(15, 0, 0));
    assert_eq!(ptr3, GpuPtr::new(15, 5, 0x42));
    assert_eq!(ptr4, GpuPtr::new(15, 5, 0x42));
    
    // Test set_pool_idx
    let mut ptr1 = GpuPtr::new(0, 0, 0   ); ptr1.set_pool_idx(15);
    let mut ptr2 = GpuPtr::new(5, 0, 0   ); ptr2.set_pool_idx(15);
    let mut ptr3 = GpuPtr::new(0, 5, 0x42); ptr3.set_pool_idx(15);
    let mut ptr4 = GpuPtr::new(5, 5, 0x42); ptr4.set_pool_idx(15);
    assert_eq!(ptr1, GpuPtr::new(0, 15, 0));
    assert_eq!(ptr2, GpuPtr::new(5, 15, 0));
    assert_eq!(ptr3, GpuPtr::new(0, 15, 0x42));
    assert_eq!(ptr4, GpuPtr::new(5, 15, 0x42));

    // Test set_ptr
    let mut ptr1 = GpuPtr::new(0, 0, 0   ); ptr1.set_ptr(0x84);
    let mut ptr2 = GpuPtr::new(5, 0, 0   ); ptr2.set_ptr(0x84);
    let mut ptr3 = GpuPtr::new(0, 5, 0x42); ptr3.set_ptr(0x84);
    let mut ptr4 = GpuPtr::new(5, 5, 0x42); ptr4.set_ptr(0x84);
    assert_eq!(ptr1, GpuPtr::new(0, 0, 0x84));
    assert_eq!(ptr2, GpuPtr::new(5, 0, 0x84));
    assert_eq!(ptr3, GpuPtr::new(0, 5, 0x84));
    assert_eq!(ptr4, GpuPtr::new(5, 5, 0x84));
}

/// Tests GpuPtr's arithmetic operators
#[test]
fn test_arithmetic() {
    // Test normal add
    assert_eq!(GpuPtr::new(0, 0, 0   ) + GpuPtr::new(0, 0, 0   ), GpuPtr::new(0, 0, 0   ));
    assert_eq!(GpuPtr::new(0, 0, 0x42) + GpuPtr::new(0, 0, 0   ), GpuPtr::new(0, 0, 0x42));
    assert_eq!(GpuPtr::new(0, 0, 0   ) + GpuPtr::new(0, 0, 0x42), GpuPtr::new(0, 0, 0x42));
    assert_eq!(GpuPtr::new(0, 0, 0x42) + GpuPtr::new(0, 0, 0x42), GpuPtr::new(0, 0, 0x84));
    assert_eq!(GpuPtr::new(5, 0, 0x42) + GpuPtr::new(5, 0, 0   ), GpuPtr::new(5, 0, 0x42));
    assert_eq!(GpuPtr::new(0, 5, 0   ) + GpuPtr::new(0, 5, 0x42), GpuPtr::new(0, 5, 0x42));
    assert_eq!(GpuPtr::new(5, 5, 0x42) + GpuPtr::new(5, 5, 0x42), GpuPtr::new(5, 5, 0x84));
    
    // Test assign add
    let mut ptr1 = GpuPtr::new(0, 0, 0   ); ptr1 += GpuPtr::new(0, 0, 0   );
    let mut ptr2 = GpuPtr::new(0, 0, 0x42); ptr2 += GpuPtr::new(0, 0, 0   );
    let mut ptr3 = GpuPtr::new(0, 0, 0   ); ptr3 += GpuPtr::new(0, 0, 0x42);
    let mut ptr4 = GpuPtr::new(0, 0, 0x42); ptr4 += GpuPtr::new(0, 0, 0x42);
    let mut ptr5 = GpuPtr::new(5, 0, 0x42); ptr5 += GpuPtr::new(5, 0, 0   );
    let mut ptr6 = GpuPtr::new(0, 5, 0   ); ptr6 += GpuPtr::new(0, 5, 0x42);
    let mut ptr7 = GpuPtr::new(5, 5, 0x42); ptr7 += GpuPtr::new(5, 5, 0x42);
    assert_eq!(ptr1, GpuPtr::new(0, 0, 0   ));
    assert_eq!(ptr2, GpuPtr::new(0, 0, 0x42));
    assert_eq!(ptr3, GpuPtr::new(0, 0, 0x42));
    assert_eq!(ptr4, GpuPtr::new(0, 0, 0x84));
    assert_eq!(ptr5, GpuPtr::new(5, 0, 0x42));
    assert_eq!(ptr6, GpuPtr::new(0, 5, 0x42));
    assert_eq!(ptr7, GpuPtr::new(5, 5, 0x84));
    
    // Test normal add, but now for usizes
    assert_eq!(GpuPtr::new(0, 0, 0   ) + 0   , GpuPtr::new(0, 0, 0   ));
    assert_eq!(GpuPtr::new(0, 0, 0x42) + 0   , GpuPtr::new(0, 0, 0x42));
    assert_eq!(GpuPtr::new(0, 0, 0   ) + 0x42, GpuPtr::new(0, 0, 0x42));
    assert_eq!(GpuPtr::new(0, 0, 0x42) + 0x42, GpuPtr::new(0, 0, 0x84));
    assert_eq!(GpuPtr::new(5, 0, 0x42) + 0   , GpuPtr::new(5, 0, 0x42));
    assert_eq!(GpuPtr::new(0, 5, 0   ) + 0x42, GpuPtr::new(0, 5, 0x42));
    assert_eq!(GpuPtr::new(5, 5, 0x42) + 0x42, GpuPtr::new(5, 5, 0x84));
    
    // Test assign add, but now for usizes
    let mut ptr1 = GpuPtr::new(0, 0, 0   ); ptr1 += 0;
    let mut ptr2 = GpuPtr::new(0, 0, 0x42); ptr2 += 0;
    let mut ptr3 = GpuPtr::new(0, 0, 0   ); ptr3 += 0x42;
    let mut ptr4 = GpuPtr::new(0, 0, 0x42); ptr4 += 0x42;
    let mut ptr5 = GpuPtr::new(5, 0, 0x42); ptr5 += 0;
    let mut ptr6 = GpuPtr::new(0, 5, 0   ); ptr6 += 0x42;
    let mut ptr7 = GpuPtr::new(5, 5, 0x42); ptr7 += 0x42;
    assert_eq!(ptr1, GpuPtr::new(0, 0, 0   ));
    assert_eq!(ptr2, GpuPtr::new(0, 0, 0x42));
    assert_eq!(ptr3, GpuPtr::new(0, 0, 0x42));
    assert_eq!(ptr4, GpuPtr::new(0, 0, 0x84));
    assert_eq!(ptr5, GpuPtr::new(5, 0, 0x42));
    assert_eq!(ptr6, GpuPtr::new(0, 5, 0x42));
    assert_eq!(ptr7, GpuPtr::new(5, 5, 0x84));
}
