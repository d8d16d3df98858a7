use mmap_allocator::AcquireOutcome;
use mmap_allocator::MapOutcome;
use mmap_allocator::MmapAllocator;
use mmap_allocator::RemapRequest;
use mmap_allocator::ResizeFallback;
use mmap_allocator::UnmapRequest;
use mmap_allocator::check_power_of_two;

#[test]
fn default() {
    let _alloc = MmapAllocator::default();
}

#[test]
fn acquire_request_fields() {
    let alloc = MmapAllocator::new();
    let r = alloc.acquire_request(4096);
    assert_eq!(r.hint, 0);
    assert_eq!(r.length, 4096);
    assert!(r.readable);
    assert!(r.writable);
    assert!(!r.executable);
    assert!(r.private);
    assert!(r.anonymous);
    assert_eq!(r.file_descriptor, -1);
    assert_eq!(r.offset, 0);
}

#[test]
fn acquire_request_passes_size_through() {
    // A zero or pathologically large size goes to the OS as it stands;
    // the OS is the one that denies it.
    let alloc = MmapAllocator::new();
    assert_eq!(alloc.acquire_request(0).length, 0);
    assert_eq!(alloc.acquire_request(1).length, 1);
    assert_eq!(alloc.acquire_request(usize::MAX - 23).length, usize::MAX - 23);
}

#[test]
fn acquire_zeroed_issues_identical_request() {
    let alloc = MmapAllocator::new();
    assert_eq!(alloc.acquire_zeroed_request(1025), alloc.acquire_request(1025));
    assert_eq!(alloc.acquire_zeroed_request(0), alloc.acquire_request(0));
}

#[test]
fn acquire_finish_denial_becomes_failure() {
    let alloc = MmapAllocator::new();
    let r = alloc.acquire_finish(MapOutcome::Failed, 8);
    assert_eq!(r, AcquireOutcome::OsFailure);
}

#[test]
fn acquire_finish_aligned_address_is_handed_out() {
    let alloc = MmapAllocator::new();
    let r = alloc.acquire_finish(MapOutcome::Mapped(0x7000), 16);
    assert_eq!(r, AcquireOutcome::Address(0x7000));
}

#[test]
fn acquire_finish_rejects_misaligned_address() {
    let alloc = MmapAllocator::new();
    let r = alloc.acquire_finish(MapOutcome::Mapped(0x7001), 2);
    assert_eq!(r, AcquireOutcome::Misaligned(0x7001));
}

#[test]
fn release_request_takes_any_pair() {
    // Even an address/size pair that no acquisition ever returned is
    // passed on untouched; the OS's unmap semantics make that harmless.
    let alloc = MmapAllocator::new();
    let r = alloc.release_request(0xdead0000, 12345);
    assert_eq!(r, UnmapRequest { address: 0xdead0000, length: 12345 });
}

#[test]
fn resize_request_may_always_move() {
    let alloc = MmapAllocator::new();
    let r = alloc.resize_request(0x5000, 1025, 2050);
    assert_eq!(
        r,
        RemapRequest { address: 0x5000, old_length: 1025, new_length: 2050, may_move: true }
    );
}

#[test]
fn resize_finish_success_returns_new_address() {
    let alloc = MmapAllocator::new();
    assert_eq!(alloc.resize_finish(MapOutcome::Mapped(0x9000)), Some(0x9000));
}

#[test]
fn resize_finish_denial_is_null() {
    let alloc = MmapAllocator::new();
    assert_eq!(alloc.resize_finish(MapOutcome::Failed), None);
}

#[test]
fn resize_fallback_grow_copies_old_length() {
    let alloc = MmapAllocator::new();
    let plan = alloc.resize_fallback_plan(0x5000, 1025, 2050, MapOutcome::Mapped(0x9000));
    assert_eq!(
        plan,
        ResizeFallback::Relocate {
            copy_src: 0x5000,
            copy_dst: 0x9000,
            copy_len: 1025,
            release_address: 0x5000,
            release_length: 1025,
            result: 0x9000,
        }
    );
}

#[test]
fn resize_fallback_shrink_copies_new_length() {
    let alloc = MmapAllocator::new();
    let plan = alloc.resize_fallback_plan(0x9000, 2050, 1, MapOutcome::Mapped(0xa000));
    assert_eq!(
        plan,
        ResizeFallback::Relocate {
            copy_src: 0x9000,
            copy_dst: 0xa000,
            copy_len: 1,
            release_address: 0x9000,
            release_length: 2050,
            result: 0xa000,
        }
    );
}

#[test]
fn resize_fallback_failed_acquire_abandons() {
    // A failed resize leaves the original mapping alone: the plan names
    // no copy and no release, only the failure report.
    let alloc = MmapAllocator::new();
    let plan = alloc.resize_fallback_plan(0x5000, 1025, usize::MAX - 1025, MapOutcome::Failed);
    assert_eq!(plan, ResizeFallback::Abandon);
}

#[test]
fn power_of_two_checker() {
    assert!(check_power_of_two(1));
    assert!(check_power_of_two(2));
    assert!(check_power_of_two(8));
    assert!(check_power_of_two(4096));
    assert!(check_power_of_two(1usize << 63));
    assert!(!check_power_of_two(0));
    assert!(!check_power_of_two(3));
    assert!(!check_power_of_two(12));
    assert!(!check_power_of_two(usize::MAX));
}
