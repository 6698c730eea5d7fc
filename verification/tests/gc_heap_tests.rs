use gc_rust::gc_heap::{
    object_layout, rust_gc_collection_count, rust_gc_get_max_generation,
    rust_gc_is_gc_in_progress_helper, AllocRejection, AllocStep, Ledger, MIN_OBJECT_SIZE,
    OBJECT_ALIGNMENT, OBJECT_HEADER_SIZE,
};
use gc_rust::Object;

/// Runs both allocation steps, handing `base` in as the native block address.
fn allocate_at(ledger: &mut Ledger, size: usize, limit: usize, base: usize) -> Object {
    match ledger.allocate(size, limit) {
        AllocStep::Rejected(_) => Object::from_ptr(0),
        AllocStep::Allocate(_) => match ledger.complete_allocation(base) {
            Ok(object) => object,
            Err(_) => Object::from_ptr(0),
        },
    }
}

#[test]
fn invalid_allocation_sizes_return_null() {
    for size in [0, MIN_OBJECT_SIZE - 1, isize::MAX as usize, usize::MAX] {
        let mut ledger = Ledger::new();
        assert!(allocate_at(&mut ledger, size, usize::MAX, 0x1000).is_null());
        assert!(matches!(
            Ledger::new().allocate(size, usize::MAX),
            AllocStep::Rejected(AllocRejection::InvalidSize)
        ));
    }
}

#[test]
fn ledger_reconciles_success_rejection_and_disjoint_ranges() {
    let mut ledger = Ledger::new();
    let first = allocate_at(&mut ledger, 25, 64, 0x10_0000);
    let second = allocate_at(&mut ledger, 25, 64, 0x20_0000);
    assert!(!first.is_null() && !second.is_null());
    assert!(allocate_at(&mut ledger, 24, 64, 0x30_0000).is_null());
    assert!(allocate_at(&mut ledger, usize::MAX, 64, 0x40_0000).is_null());
    assert_eq!(ledger.requests(), 4);
    assert_eq!(ledger.successful(), 2);
    assert_eq!(ledger.requested_bytes(), usize::MAX);
    assert_eq!(ledger.owned_bytes(), 64);
    assert_eq!(ledger.ranges().len(), 2);
    let (a, b) = (ledger.ranges()[0], ledger.ranges()[1]);
    assert!(a.1 <= b.0 || b.1 <= a.0);
}

#[test]
fn ledger_rejects_accounting_overflow_without_changing_owned_bytes() {
    let mut ledger = Ledger::with_owned_bytes(usize::MAX - 8);
    assert!(allocate_at(&mut ledger, 24, usize::MAX, 0x1000).is_null());
    assert_eq!(ledger.requests(), 1);
    assert_eq!(ledger.successful(), 0);
    assert_eq!(ledger.owned_bytes(), usize::MAX - 8);
}

#[test]
fn object_layout_rounds_up_to_alignment() {
    assert_eq!(object_layout(24).unwrap().size(), 24);
    assert_eq!(object_layout(25).unwrap().size(), 32);
    assert_eq!(object_layout(32).unwrap().size(), 32);
    assert_eq!(object_layout(85_001).unwrap().size(), 85_008);
    assert_eq!(object_layout(25).unwrap().align(), OBJECT_ALIGNMENT);
    assert!(object_layout(23).is_none());
    let largest = isize::MAX as usize - 7;
    assert_eq!(object_layout(largest).unwrap().size(), largest);
    assert!(object_layout(largest + 1).is_none());
}

#[test]
fn object_address_lies_past_the_header() {
    let mut ledger = Ledger::new();
    let object = allocate_at(&mut ledger, 24, 1024, 0x5000);
    assert_eq!(object.as_ptr(), 0x5000 + OBJECT_HEADER_SIZE);
    assert_eq!(ledger.ranges(), &[(0x5000, 0x5018)]);
}

#[test]
fn limit_rejection_reports_owned_and_requested_bytes() {
    let mut ledger = Ledger::new();
    assert!(!allocate_at(&mut ledger, 40, 64, 0x1000).is_null());
    match ledger.allocate(30, 64) {
        AllocStep::Rejected(reason) => assert_eq!(
            reason,
            AllocRejection::LimitExceeded { owned: 40, requested: 32 }
        ),
        AllocStep::Allocate(_) => panic!("allocation past the limit was admitted"),
    }
    assert_eq!(ledger.owned_bytes(), 40);
    assert_eq!(ledger.requests(), 2);
    assert_eq!(ledger.requested_bytes(), 70);
}

#[test]
fn accounting_overflow_is_reported_before_the_limit() {
    let mut ledger = Ledger::with_owned_bytes(usize::MAX - 8);
    assert!(matches!(
        ledger.allocate(24, usize::MAX),
        AllocStep::Rejected(AllocRejection::AccountingOverflow)
    ));
}

#[test]
fn failed_native_allocation_records_nothing() {
    let mut ledger = Ledger::new();
    match ledger.allocate(24, 64) {
        AllocStep::Allocate(layout) => assert_eq!(layout.size(), 24),
        AllocStep::Rejected(reason) => panic!("unexpected rejection {reason:?}"),
    }
    assert!(ledger.complete_allocation(0) == Err(AllocRejection::NativeAllocationFailed));
    assert_eq!(ledger.successful(), 0);
    assert_eq!(ledger.owned_bytes(), 0);
    assert!(ledger.ranges().is_empty());
    assert_eq!(ledger.requests(), 1);
}

#[test]
fn native_block_ending_past_the_address_space_is_refused() {
    let mut ledger = Ledger::new();
    match ledger.allocate(24, 64) {
        AllocStep::Allocate(layout) => assert_eq!(layout.size(), 24),
        AllocStep::Rejected(reason) => panic!("unexpected rejection {reason:?}"),
    }
    assert!(
        ledger.complete_allocation(usize::MAX - 8) == Err(AllocRejection::AddressOverflow)
    );
    assert_eq!(ledger.owned_bytes(), 0);
    assert!(ledger.ranges().is_empty());
}

#[test]
fn report_sorts_ranges_and_detects_overlap_and_gaps() {
    let mut ledger = Ledger::new();
    for base in [0x3000, 0x1000, 0x1020] {
        assert!(!allocate_at(&mut ledger, 32, 1024, base).is_null());
    }
    let report = ledger.report(1024);
    assert_eq!(report.requests, 3);
    assert_eq!(report.successful, 3);
    assert_eq!(report.requested_bytes, 96);
    assert_eq!(report.owned_bytes, 96);
    assert_eq!(report.limit, 1024);
    assert_eq!(report.range_count, 3);
    assert!(report.disjoint);
    // 0x1000..0x1020 touches 0x1020..0x1040; 0x1040..0x3000 is free.
    assert_eq!(report.gaps, 1);
    assert_eq!(report.first_ranges, vec![(0x1000, 0x1020), (0x1020, 0x1040)]);
    assert_eq!(
        ledger.ranges(),
        &[(0x1000, 0x1020), (0x1020, 0x1040), (0x3000, 0x3020)]
    );
    assert!(report.registry_bytes >= 3 * std::mem::size_of::<(usize, usize)>());

    let mut overlapping = Ledger::new();
    assert!(!allocate_at(&mut overlapping, 32, 1024, 0x1000).is_null());
    assert!(!allocate_at(&mut overlapping, 32, 1024, 0x1010).is_null());
    let report = overlapping.report(1024);
    assert!(!report.disjoint);
    assert_eq!(report.gaps, 0);
}

#[test]
fn report_of_empty_ledger() {
    let mut ledger = Ledger::new();
    let report = ledger.report(7);
    assert_eq!(report.range_count, 0);
    assert!(report.disjoint);
    assert_eq!(report.gaps, 0);
    assert!(report.first_ranges.is_empty());
    assert_eq!(report.limit, 7);
}

#[test]
fn zero_gc_never_collects() {
    assert_eq!(rust_gc_get_max_generation(), 0);
    assert_eq!(rust_gc_collection_count(0, 0), 0);
    assert_eq!(rust_gc_collection_count(2, 1), 0);
    assert!(!rust_gc_is_gc_in_progress_helper(true));
    assert!(!rust_gc_is_gc_in_progress_helper(false));
}
