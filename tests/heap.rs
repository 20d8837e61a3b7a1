use core::mem::MaybeUninit;
use opensbi_rt::heap::{
    allocation_result, layout_is_valid, oom, HeapError, RuntimeHeap, MIN_HEAP_REGION,
};

fn region(len: usize) -> &'static mut [MaybeUninit<u8>] {
    Box::leak(vec![MaybeUninit::<u8>::uninit(); len].into_boxed_slice())
}

#[test]
fn heap_installs_once() {
    let mut heap = RuntimeHeap::new();
    assert_eq!(heap.install(region(4096)), Ok(()));
    assert_eq!(heap.install(region(4096)), Err(HeapError::AlreadyInstalled));
    assert_eq!(heap.install(region(8)), Err(HeapError::AlreadyInstalled));
    assert!(heap.allocate(16, 8).is_ok());
}

#[test]
fn too_small_region_is_refused() {
    let mut heap = RuntimeHeap::new();
    assert_eq!(heap.install(region(MIN_HEAP_REGION - 1)), Err(HeapError::RegionTooSmall));
    assert_eq!(heap.install(region(MIN_HEAP_REGION)), Ok(()));
}

#[test]
fn allocation_before_install_fails() {
    let mut heap = RuntimeHeap::new();
    assert_eq!(heap.allocate(8, 8), Err(HeapError::NotInstalled));
}

#[test]
fn oversized_allocation_is_out_of_memory() {
    let mut heap = RuntimeHeap::new();
    heap.install(region(0x1000)).unwrap();
    assert_eq!(
        heap.allocate(0x1001, 8),
        Err(HeapError::OutOfMemory { size: 0x1001, align: 8 })
    );
    assert_eq!(
        heap.allocate(0x10_0000, 1),
        Err(HeapError::OutOfMemory { size: 0x10_0000, align: 1 })
    );
}

#[test]
fn allocations_within_size_do_not_overlap() {
    let mut heap = RuntimeHeap::new();
    heap.install(region(0x1000)).unwrap();
    let a = heap.allocate(100, 8).unwrap();
    let b = heap.allocate(200, 16).unwrap();
    let c = heap.allocate(64, 64).unwrap();
    assert_eq!(a % 8, 0);
    assert_eq!(b % 16, 0);
    assert_eq!(c % 64, 0);
    let blocks = [(a, 100), (b, 200), (c, 64)];
    for (i, &(x, xl)) in blocks.iter().enumerate() {
        for &(y, yl) in blocks.iter().skip(i + 1) {
            assert!(x + xl <= y || y + yl <= x);
        }
    }
}

#[test]
fn bad_layout_is_refused() {
    let mut heap = RuntimeHeap::new();
    heap.install(region(256)).unwrap();
    assert_eq!(heap.allocate(8, 3), Err(HeapError::InvalidLayout));
    assert_eq!(heap.allocate(8, 0), Err(HeapError::InvalidLayout));
}

#[test]
fn layout_validity() {
    assert!(layout_is_valid(0, 1));
    assert!(layout_is_valid(100, 64));
    assert!(!layout_is_valid(100, 0));
    assert!(!layout_is_valid(100, 6));
    assert!(layout_is_valid(isize::MAX as usize, 1));
    assert!(!layout_is_valid(isize::MAX as usize, 2));
    assert!(!layout_is_valid(usize::MAX, 1));
}

#[test]
fn oom_names_the_request() {
    assert_eq!(oom(0x2000, 16), HeapError::OutOfMemory { size: 0x2000, align: 16 });
}

#[test]
fn fitting_request_on_fresh_heap_succeeds() {
    let mut heap = RuntimeHeap::new();
    assert!(!heap.is_installed());
    heap.install(region(0x1000)).unwrap();
    assert!(heap.is_installed());
    let a = heap.allocate(0x1000 - 68, 4).unwrap();
    assert_ne!(a, 0);
    assert_eq!(a % 4, 0);
}

#[test]
fn fitting_request_with_large_alignment_succeeds() {
    let mut heap = RuntimeHeap::new();
    heap.install(region(0x1000)).unwrap();
    let a = heap.allocate(0x1000 - 256 - 64, 256).unwrap();
    assert_ne!(a, 0);
    assert_eq!(a % 256, 0);
}

#[test]
fn allocation_result_from_search() {
    assert_eq!(allocation_result(Some(0x8000), 16, 8), Ok(0x8000));
    assert_eq!(
        allocation_result(None, 16, 8),
        Err(HeapError::OutOfMemory { size: 16, align: 8 })
    );
}
