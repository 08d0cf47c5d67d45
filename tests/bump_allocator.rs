use arceos_mm::bump::{align_down, align_up, AllocError, EarlyAllocator};

const PAGE: usize = 4096;

fn fresh() -> EarlyAllocator<PAGE> {
    let mut a = EarlyAllocator::<PAGE>::new();
    a.init(0x10000, 0x10000);
    a
}

#[test]
fn new_allocator_is_empty() {
    let a = EarlyAllocator::<PAGE>::new();
    assert_eq!(a.total_bytes(), 0);
    assert_eq!(a.used_bytes(), 0);
    assert_eq!(a.available_bytes(), 0);
    assert_eq!(a.total_pages(), 0);
}

#[test]
fn align_helpers() {
    assert_eq!(align_up(0x1001, 0x1000), 0x2000);
    assert_eq!(align_up(0x1000, 0x1000), 0x1000);
    assert_eq!(align_up(5, 8), 8);
    assert_eq!(align_down(0x1fff, 0x1000), 0x1000);
    assert_eq!(align_down(7, 8), 0);
}

#[test]
fn init_accounting() {
    let a = fresh();
    assert_eq!(a.total_bytes(), 0x10000);
    assert_eq!(a.used_bytes(), 0);
    assert_eq!(a.available_bytes(), 0x10000);
    assert_eq!(a.total_pages(), 16);
    assert_eq!(a.used_pages(), 0);
    assert_eq!(a.available_pages(), 16);
}

#[test]
fn bytes_grow_up_aligned() {
    let mut a = fresh();
    assert_eq!(a.alloc_bytes(3, 1), Ok(0x10000));
    assert_eq!(a.alloc_bytes(8, 8), Ok(0x10008));
    assert_eq!(a.used_bytes(), 0x10);
    assert_eq!(a.available_bytes(), 0x10000 - 0x10);
}

#[test]
fn pages_grow_down() {
    let mut a = fresh();
    assert_eq!(a.alloc_pages(2, PAGE), Ok(0x1e000));
    assert_eq!(a.used_pages(), 2);
    assert_eq!(a.total_bytes(), 0xe000);
    assert_eq!(a.alloc_pages(1, 0x4000), Ok(0x1c000));
    assert_eq!(a.used_pages(), 4);
    assert_eq!(a.available_pages(), 12);
}

#[test]
fn accounting_stays_within_region() {
    let mut a = fresh();
    a.alloc_bytes(100, 4).unwrap();
    a.alloc_pages(3, PAGE).unwrap();
    let page_area = a.used_pages() * PAGE;
    assert!(a.total_bytes() + page_area <= 0x10000);
    assert!(a.used_bytes() <= a.total_bytes());
}

#[test]
fn byte_and_page_blocks_do_not_overlap() {
    let mut a = fresh();
    let b1 = a.alloc_bytes(0x3000, 16).unwrap();
    let high = a.alloc_pages(4, PAGE).unwrap();
    let b2 = a.alloc_bytes(0x5000, 16).unwrap();
    let low = a.alloc_pages(4, PAGE).unwrap();
    assert!(b1 + 0x3000 <= low && b2 + 0x5000 <= low);
    assert!(low + 4 * PAGE <= high);
    assert_eq!(a.alloc_bytes(0x1000, 1), Err(AllocError::NoMemory));
}

#[test]
fn bump_and_reset() {
    let mut a = fresh();
    let first = a.alloc_bytes(10, 8).unwrap();
    assert_eq!(first, 0x10000);
    a.alloc_bytes(20, 8).unwrap();
    a.alloc_bytes(30, 8).unwrap();
    a.dealloc_bytes(0x10010, 20, 8);
    a.dealloc_bytes(0x10000, 10, 8);
    assert!(a.used_bytes() > 0);
    a.dealloc_bytes(0x10028, 30, 8);
    assert_eq!(a.used_bytes(), 0);
    assert_eq!(a.alloc_bytes(4, 8), Ok(0x10000));
}

#[test]
fn dealloc_without_live_allocation_keeps_empty() {
    let mut a = fresh();
    a.dealloc_bytes(0x10000, 1, 1);
    assert_eq!(a.used_bytes(), 0);
    assert_eq!(a.alloc_bytes(1, 1), Ok(0x10000));
}

#[test]
fn too_many_pages_fail_and_change_nothing() {
    let mut a = fresh();
    a.alloc_bytes(0x8000, 1).unwrap();
    let before = (a.used_bytes(), a.available_bytes(), a.used_pages());
    assert_eq!(a.alloc_pages(9, PAGE), Err(AllocError::NoMemory));
    assert_eq!((a.used_bytes(), a.available_bytes(), a.used_pages()), before);
    assert_eq!(a.alloc_pages(usize::MAX, PAGE), Err(AllocError::NoMemory));
    assert_eq!(a.alloc_pages(8, PAGE), Ok(0x18000));
    assert_eq!(a.available_bytes(), 0);
}

#[test]
fn page_alignment_can_push_below_bytes() {
    let mut a = fresh();
    a.alloc_bytes(0x7001, 1).unwrap();
    assert_eq!(a.alloc_pages(1, 0x10000), Err(AllocError::NoMemory));
    assert_eq!(a.alloc_pages(1, 0x8000), Ok(0x18000));
}

#[test]
fn byte_request_past_pages_fails() {
    let mut a = fresh();
    a.alloc_pages(15, PAGE).unwrap();
    assert_eq!(a.alloc_bytes(0x1001, 1), Err(AllocError::NoMemory));
    assert_eq!(a.alloc_bytes(usize::MAX, 1), Err(AllocError::NoMemory));
    assert_eq!(a.alloc_bytes(1, 0x20000), Err(AllocError::NoMemory));
    assert_eq!(a.used_bytes(), 0);
    assert_eq!(a.alloc_bytes(0x1000, 1), Ok(0x10000));
}

#[test]
fn add_memory_is_refused() {
    let mut a = fresh();
    assert_eq!(a.add_memory(0x40000, 0x1000), Err(AllocError::NoMemory));
    assert_eq!(a.total_bytes(), 0x10000);
}

#[test]
fn dealloc_pages_keeps_pages() {
    let mut a = fresh();
    let p = a.alloc_pages(2, PAGE).unwrap();
    a.dealloc_pages(p, 2);
    assert_eq!(a.used_pages(), 2);
}
