use midnight2_core::identifier::{GlobalId, GlobalIdAllocator, ThreadLocalId, ThreadLocalIdAllocator};

#[test]
fn global_ids_unique() {
    let mut counter = GlobalIdAllocator::new();
    let ids = std::iter::repeat_with(|| GlobalId::allocate(&mut counter))
        .take(50)
        .map(Option::unwrap)
        .collect::<Vec<_>>();
    for (i, &id1) in ids.iter().enumerate() {
        // For the first element, i is 0 - so skip 1
        for &id2 in ids.iter().skip(i + 1) {
            assert_ne!(id1, id2, "WorldIds should not repeat");
        }
    }
}

#[test]
fn global_ids_are_monotonic() {
    let mut counter = GlobalIdAllocator::new();
    let a = GlobalId::allocate(&mut counter).unwrap();
    let b = GlobalId::allocate(&mut counter).unwrap();
    let c = GlobalId::allocate(&mut counter).unwrap();
    assert_eq!(a, GlobalId(0));
    assert_eq!(b, GlobalId(1));
    assert_eq!(c, GlobalId(2));
}

#[test]
fn thread_local_ids_unique_within_thread() {
    let mut counter = ThreadLocalIdAllocator::new();
    let ids = std::iter::repeat_with(|| ThreadLocalId::allocate(&mut counter))
        .take(50)
        .map(Option::unwrap)
        .collect::<Vec<_>>();
    for (i, &id1) in ids.iter().enumerate() {
        for &id2 in ids.iter().skip(i + 1) {
            assert_ne!(id1, id2, "ids of one thread's counter should not repeat");
        }
    }
}

#[test]
fn thread_local_ids_may_collide_across_threads() {
    // Each thread owns its own counter, so two counters legitimately hand
    // out the same numeric value.
    let mut counter_a = ThreadLocalIdAllocator::new();
    let mut counter_b = ThreadLocalIdAllocator::new();
    let a = ThreadLocalId::allocate(&mut counter_a).unwrap();
    let b = ThreadLocalId::allocate(&mut counter_b).unwrap();
    assert_eq!(a, b);
}

#[test]
fn global_exhaustion_is_permanent() {
    let mut counter = GlobalIdAllocator { next: usize::MAX - 1 };
    assert_eq!(GlobalId::allocate(&mut counter), Some(GlobalId(usize::MAX - 1)));
    assert_eq!(GlobalId::allocate(&mut counter), None);
    assert_eq!(GlobalId::allocate(&mut counter), None);
    assert_eq!(GlobalId::allocate(&mut counter), None);
    assert_eq!(counter.next, usize::MAX);
}

#[test]
fn thread_local_exhaustion_is_permanent() {
    let mut counter = ThreadLocalIdAllocator { next: usize::MAX };
    assert_eq!(ThreadLocalId::allocate(&mut counter), None);
    assert_eq!(ThreadLocalId::allocate(&mut counter), None);
    assert_eq!(counter.next, usize::MAX);
}
