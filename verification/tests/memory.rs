use playdate::allocator::alloc_error;
use playdate::allocator::PlaydateAllocator;
use playdate::device::Device;
use playdate::memops::bcmp;
use playdate::memops::memcmp;
use playdate::memops::memcpy;
use playdate::memops::memmove;
use playdate::memops::memset;
use playdate::system::System;

#[test]
fn allocate_zero_returns_the_null_sentinel_without_crashing() {
    let mut dev = Device::new(1 << 16);
    let sys = System::new(10);
    let bridge = PlaydateAllocator;
    let addr = bridge.allocate(&sys, &mut dev, 0);
    assert_eq!(addr, 0);
    assert_eq!(dev.heap_free, 1 << 16);
}

#[test]
fn allocate_carves_fresh_nonnull_addresses() {
    let mut dev = Device::new(1 << 16);
    let sys = System::new(10);
    let bridge = PlaydateAllocator;
    let a = bridge.allocate(&sys, &mut dev, 100);
    let b = bridge.allocate(&sys, &mut dev, 50);
    assert_ne!(a, 0);
    assert_ne!(b, 0);
    assert_ne!(a, b);
    assert_eq!(dev.heap_free, (1 << 16) - 150);
}

#[test]
fn allocate_beyond_the_heap_returns_null() {
    let mut dev = Device::new(64);
    let sys = System::new(10);
    let bridge = PlaydateAllocator;
    let a = bridge.allocate(&sys, &mut dev, 65);
    assert_eq!(a, 0);
    let b = bridge.allocate(&sys, &mut dev, 64);
    assert_ne!(b, 0);
}

#[test]
fn deallocate_leaves_the_device_as_it_was() {
    let mut dev = Device::new(1 << 16);
    let sys = System::new(10);
    let bridge = PlaydateAllocator;
    let a = bridge.allocate(&sys, &mut dev, 8);
    let free_before = dev.heap_free;
    bridge.deallocate(&sys, &mut dev, a);
    assert_eq!(dev.heap_free, free_before);
}

#[test]
fn reallocate_answers_like_allocate() {
    let mut dev = Device::new(1 << 16);
    let sys = System::new(10);
    let bridge = PlaydateAllocator;
    let a = bridge.allocate(&sys, &mut dev, 8);
    let moved = bridge.reallocate(&sys, &mut dev, a, 16);
    assert_ne!(moved, 0);
    assert_ne!(moved, a);
    let gone = bridge.reallocate(&sys, &mut dev, moved, 0);
    assert_eq!(gone, 0);
}

#[test]
fn alloc_error_logs_oom_and_halts_at_the_fixed_address() {
    let mut dev = Device::new(16);
    let halt = alloc_error(&mut dev);
    assert_eq!(halt.address, 0xdeadfa11);
    assert_eq!(dev.log.len(), 1);
    assert_eq!(dev.log[0], vec![b'O', b'O', b'M', 0]);
}

#[test]
fn memcpy_copies_a_prefix() {
    let mut dest = vec![0u8; 6];
    let src = vec![1u8, 2, 3, 4, 5, 6];
    memcpy(&mut dest, &src, 4);
    assert_eq!(dest, vec![1, 2, 3, 4, 0, 0]);
}

#[test]
fn memset_fills_a_prefix() {
    let mut dest = vec![9u8; 5];
    memset(&mut dest, 7, 3);
    assert_eq!(dest, vec![7, 7, 7, 9, 9]);
}

#[test]
fn memmove_handles_forward_overlap() {
    // Destination after source: the copy must run from the end.
    let mut buf = vec![1u8, 2, 3, 4, 5, 0, 0];
    memmove(&mut buf, 2, 0, 5);
    assert_eq!(buf, vec![1, 2, 1, 2, 3, 4, 5]);
}

#[test]
fn memmove_handles_backward_overlap() {
    // Destination before source: the copy runs from the beginning.
    let mut buf = vec![0u8, 0, 1, 2, 3, 4, 5];
    memmove(&mut buf, 0, 2, 5);
    assert_eq!(buf, vec![1, 2, 3, 4, 5, 4, 5]);
}

#[test]
fn memmove_onto_itself_changes_nothing() {
    let mut buf = vec![1u8, 2, 3];
    memmove(&mut buf, 0, 0, 3);
    assert_eq!(buf, vec![1, 2, 3]);
}

#[test]
fn memcmp_reports_the_first_difference() {
    let a = vec![1u8, 2, 3];
    let b = vec![1u8, 2, 5];
    assert_eq!(memcmp(&a, &b, 3), 3 - 5);
    assert_eq!(memcmp(&a, &b, 2), 0);
    assert_eq!(memcmp(&b, &a, 3), 5 - 3);
    let c = vec![200u8];
    let d = vec![1u8];
    assert_eq!(memcmp(&c, &d, 1), 199);
}

#[test]
fn bcmp_is_zero_exactly_on_equal_prefixes() {
    let a = vec![1u8, 2, 3];
    let b = vec![1u8, 2, 4];
    assert_eq!(bcmp(&a, &b, 2), 0);
    assert_ne!(bcmp(&a, &b, 3), 0);
}
