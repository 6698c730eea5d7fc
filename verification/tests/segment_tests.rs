use gc_rust::segment::{FrozenSegment, FrozenSegmentInfo, FrozenSegmentRegistry};

fn info_at(memory: usize) -> FrozenSegmentInfo {
    FrozenSegmentInfo {
        memory,
        first_object_offset: 8,
        allocated_offset: 24,
        committed_offset: 32,
        reserved_offset: 64,
    }
}

#[test]
fn registration_copies_metadata_and_returns_stable_handle() {
    let memory = [0_u8; 64];
    let base = memory.as_ptr() as usize;
    let mut registry = FrozenSegmentRegistry::new();

    let handle = registry.register(Some(info_at(base)));
    assert!(handle.is_some());

    let segment = registry.segment(handle.unwrap());
    assert_eq!(segment.memory(), base);
    assert_eq!(segment.first_object(), base + 8);
    assert_eq!(segment.allocated(), base + 24);
    assert_eq!(segment.committed(), base + 32);
    assert_eq!(segment.reserved(), base + 64);
}

#[test]
fn registration_rejects_invalid_descriptors() {
    let memory = [0_u8; 64];
    let valid = info_at(memory.as_ptr() as usize);

    let invalid = [
        FrozenSegmentInfo { memory: 0, ..valid },
        FrozenSegmentInfo { first_object_offset: 25, ..valid },
        FrozenSegmentInfo { allocated_offset: 33, ..valid },
        FrozenSegmentInfo { committed_offset: 65, ..valid },
        FrozenSegmentInfo { reserved_offset: 0, ..valid },
        FrozenSegmentInfo { memory: usize::MAX, ..valid },
    ];

    let mut registry = FrozenSegmentRegistry::new();
    assert!(registry.register(None).is_none());
    for info in invalid {
        assert!(registry.register(Some(info)).is_none());
    }
    assert_eq!(registry.len(), 0);
}

#[test]
fn registration_rejects_overlapping_reservations() {
    let memory = [0_u8; 128];
    let first = info_at(memory.as_ptr() as usize);
    let overlapping = FrozenSegmentInfo {
        memory: memory.as_ptr() as usize + 32,
        ..first
    };

    let mut registry = FrozenSegmentRegistry::new();
    let handle = registry.register(Some(first));
    assert!(handle.is_some());
    assert!(registry.register(Some(overlapping)).is_none());
    assert_eq!(registry.len(), 1);
}

#[test]
fn adjacent_reservations_do_not_overlap() {
    let mut registry = FrozenSegmentRegistry::new();
    assert_eq!(registry.register(Some(info_at(0x1000))), Some(0));
    assert_eq!(registry.register(Some(info_at(0x1040))), Some(1));
    assert_eq!(registry.register(Some(info_at(0x0fc0))), Some(2));
    assert!(registry.register(Some(info_at(0x0fc1))).is_none());
    assert_eq!(registry.len(), 3);
}

#[test]
fn from_info_and_overlaps() {
    let a = FrozenSegment::from_info(info_at(0x1000)).unwrap();
    let b = FrozenSegment::from_info(info_at(0x1020)).unwrap();
    let c = FrozenSegment::from_info(info_at(0x1040)).unwrap();
    assert!(a.overlaps(&b) && b.overlaps(&a));
    assert!(!a.overlaps(&c) && !c.overlaps(&a));
    assert!(a.overlaps(&a));
    let descriptor_at_end = FrozenSegmentInfo {
        memory: usize::MAX - 64,
        ..info_at(0)
    };
    assert_eq!(
        FrozenSegment::from_info(descriptor_at_end).unwrap().reserved(),
        usize::MAX
    );
}

#[test]
fn update_changes_only_allocated_and_committed() {
    let mut registry = FrozenSegmentRegistry::new();
    let handle = registry.register(Some(info_at(0x1000))).unwrap();
    registry.update(handle, 0x1030, 0x1038);
    let segment = registry.segment(handle);
    assert_eq!(segment.memory(), 0x1000);
    assert_eq!(segment.first_object(), 0x1008);
    assert_eq!(segment.allocated(), 0x1030);
    assert_eq!(segment.committed(), 0x1038);
    assert_eq!(segment.reserved(), 0x1040);
}
