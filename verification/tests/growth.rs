use fallible_vec::AllocationError;
use fallible_vec::FallibleVec;
use fallible_vec::GrowableBuffer;
use fallible_vec::SimAllocator;
use fallible_vec::Slot;
use fallible_vec::{checked_product, next_push_capacity};

#[test]
fn oom_test() {
    let mut vec: GrowableBuffer<char> = GrowableBuffer::new();
    match vec.try_reserve(usize::MAX, false) {
        Ok(_) => panic!("it should be OOM"),
        _ => (),
    }
}

#[test]
fn first_push_allocates_four() {
    let mut buf: GrowableBuffer<u32> = GrowableBuffer::new();
    assert_eq!(buf.len(), 0);
    assert_eq!(buf.capacity(), 0);
    assert!(buf.try_push(7).is_ok());
    assert_eq!(buf.len(), 1);
    assert_eq!(buf.capacity(), 4);
    assert_eq!(*buf.get(0), 7);
}

#[test]
fn five_pushes_double_once() {
    let mut buf: GrowableBuffer<u32> = GrowableBuffer::new();
    let mut observed: Vec<usize> = Vec::new();
    for v in 0..5u32 {
        assert!(buf.try_push(v).is_ok());
        observed.push(buf.capacity());
    }
    assert_eq!(observed, vec![4, 4, 4, 4, 8]);
    assert_eq!(buf.len(), 5);
}

#[test]
fn reserve_max_overflows() {
    let mut buf: GrowableBuffer<char> = GrowableBuffer::new();
    assert_eq!(
        buf.try_reserve(usize::MAX, false),
        Err(AllocationError::CapacityOverflow)
    );
    assert_eq!(buf.len(), 0);
    assert_eq!(buf.capacity(), 0);
}

#[test]
fn zeroed_reserve_zero_fills() {
    let mut buf: GrowableBuffer<char> = GrowableBuffer::new();
    assert_eq!(buf.try_reserve(10, true), Ok(()));
    assert!(buf.capacity() >= 10);
    assert_eq!(buf.capacity(), 10);
    for i in 0..10 {
        assert!(buf.slot_is_zeroed(i));
    }
}

#[test]
fn plain_reserve_leaves_memory_unspecified() {
    let mut buf: GrowableBuffer<char> = GrowableBuffer::new();
    assert_eq!(buf.try_reserve(10, false), Ok(()));
    assert_eq!(buf.capacity(), 10);
    for i in 0..10 {
        assert!(!buf.slot_is_zeroed(i));
    }
}

#[test]
fn reserve_zero_is_noop() {
    let mut buf: GrowableBuffer<u64> = GrowableBuffer::new();
    assert_eq!(buf.try_reserve(8, false), Ok(()));
    assert_eq!(buf.capacity(), 8);
    assert_eq!(buf.try_reserve(0, false), Ok(()));
    assert_eq!(buf.capacity(), 8);
    assert_eq!(buf.len(), 0);
}

#[test]
fn reserve_zero_makes_no_allocation_call() {
    // An exhausted allocator denies every request, so a success here shows
    // that asking for nothing never reaches the allocator.
    let mut buf: GrowableBuffer<u64> = GrowableBuffer::new();
    assert_eq!(buf.try_reserve(8, false), Ok(()));
    buf.set_allocator(SimAllocator::exhausted());
    assert_eq!(buf.try_reserve(0, true), Ok(()));
    assert_eq!(buf.capacity(), 8);
}

#[test]
fn failed_allocation_leaves_buffer_untouched() {
    let mut buf: GrowableBuffer<u32> = GrowableBuffer::new();
    for v in [10, 20, 30, 40] {
        assert!(buf.try_push(v).is_ok());
    }
    assert_eq!(buf.len(), 4);
    assert_eq!(buf.capacity(), 4);

    buf.set_allocator(SimAllocator::exhausted());
    assert_eq!(buf.try_push(50), Err(AllocationError::AllocationFailure));
    assert_eq!(buf.try_reserve(5, false), Err(AllocationError::AllocationFailure));
    assert_eq!(buf.len(), 4);
    assert_eq!(buf.capacity(), 4);
    assert_eq!(*buf.get(0), 10);
    assert_eq!(*buf.get(1), 20);
    assert_eq!(*buf.get(2), 30);
    assert_eq!(*buf.get(3), 40);
}

#[test]
fn exhausted_allocator_denies_first_block() {
    let mut buf: GrowableBuffer<u8> = GrowableBuffer::with_allocator(SimAllocator::exhausted());
    assert_eq!(buf.try_push(1), Err(AllocationError::AllocationFailure));
    assert_eq!(buf.len(), 0);
    assert_eq!(buf.capacity(), 0);
}

#[test]
fn elements_survive_reallocation() {
    let mut buf: GrowableBuffer<u64> = GrowableBuffer::new();
    for v in 0..5u64 {
        assert!(buf.try_push(v * 100).is_ok());
    }
    // The fifth push moved everything to a grown block.
    assert_eq!(buf.capacity(), 8);
    for i in 0..5 {
        assert_eq!(*buf.get(i), (i as u64) * 100);
    }
}

#[test]
fn push_into_zeroed_reserve_keeps_tail_zeroed() {
    let mut buf: GrowableBuffer<u32> = GrowableBuffer::new();
    assert_eq!(buf.try_reserve(4, true), Ok(()));
    assert!(buf.try_push(9).is_ok());
    assert_eq!(buf.len(), 1);
    assert_eq!(buf.capacity(), 4);
    assert!(!buf.slot_is_zeroed(0));
    for i in 1..4 {
        assert!(buf.slot_is_zeroed(i));
    }
    assert_eq!(*buf.get(0), 9);
}

#[test]
fn reserve_grows_existing_block() {
    let mut buf: GrowableBuffer<u16> = GrowableBuffer::new();
    for v in [3, 1, 4] {
        assert!(buf.try_push(v).is_ok());
    }
    assert_eq!(buf.capacity(), 4);
    assert_eq!(buf.try_reserve(10, true), Ok(()));
    assert_eq!(buf.capacity(), 14);
    assert_eq!(buf.len(), 3);
    assert_eq!(*buf.get(0), 3);
    assert_eq!(*buf.get(1), 1);
    assert_eq!(*buf.get(2), 4);
    for i in 3..14 {
        assert!(buf.slot_is_zeroed(i));
    }
}

#[test]
fn checked_product_detects_overflow() {
    assert_eq!(checked_product(3, 4), Some(12));
    assert_eq!(checked_product(0, usize::MAX), Some(0));
    assert_eq!(checked_product(usize::MAX, 1), Some(usize::MAX));
    assert_eq!(checked_product(usize::MAX, 2), None);
}

#[test]
fn next_push_capacity_doubles_from_four() {
    assert_eq!(next_push_capacity(0), Some(4));
    assert_eq!(next_push_capacity(4), Some(8));
    assert_eq!(next_push_capacity(6), Some(12));
    assert_eq!(next_push_capacity(usize::MAX / 2 + 1), None);
    assert_eq!(next_push_capacity(usize::MAX), None);
}

#[test]
fn allocator_grants_and_denies() {
    let good = SimAllocator::new();
    let block: Option<Vec<Slot<u8>>> = good.allocate(3);
    let block = block.expect("a fresh allocator grants requests");
    assert_eq!(block.len(), 3);
    assert!(matches!(block[0], Slot::Vacant));

    let bad = SimAllocator::exhausted();
    let denied: Option<Vec<Slot<u8>>> = bad.allocate(3);
    assert!(denied.is_none());
}

#[test]
fn grow_preserves_prefix_and_returns_block_on_failure() {
    let good = SimAllocator::new();
    let mut block: Vec<Slot<u8>> = Vec::new();
    block.push(Slot::Occupied(42));
    block.push(Slot::Zeroed);
    let grown = match good.grow(block, 5) {
        Ok(g) => g,
        Err(_) => panic!("a fresh allocator grants growth"),
    };
    assert_eq!(grown.len(), 5);
    assert!(matches!(grown[0], Slot::Occupied(42)));
    assert!(matches!(grown[1], Slot::Zeroed));
    assert!(matches!(grown[2], Slot::Vacant));

    let bad = SimAllocator::exhausted();
    let given_back = match bad.grow(grown, 9) {
        Ok(_) => panic!("an exhausted allocator denies growth"),
        Err(b) => b,
    };
    assert_eq!(given_back.len(), 5);
    assert!(matches!(given_back[0], Slot::Occupied(42)));
}
