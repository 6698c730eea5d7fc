use gc_rust::config::{configured_limit, LimitChoice, LimitSetting};
use gc_rust::gc_heap::DEFAULT_LIMIT_BYTES;
use gc_rust::{GcAllocFlags, Object};

#[test]
fn contains_is_bit_inclusion() {
    let both = GcAllocFlags(GcAllocFlags::finalize().0 | GcAllocFlags::contains_ref().0);
    assert!(both.contains(GcAllocFlags::finalize()));
    assert!(both.contains(GcAllocFlags::contains_ref()));
    assert!(both.contains(GcAllocFlags::none()));
    assert!(!both.contains(GcAllocFlags::align8()));
    assert!(GcAllocFlags::user_old_heap().contains(GcAllocFlags::large_object_heap()));
    assert!(GcAllocFlags::user_old_heap().contains(GcAllocFlags::pinned_object_heap()));
    assert!(!GcAllocFlags::large_object_heap().contains(GcAllocFlags::user_old_heap()));
    assert!(GcAllocFlags(0xffff_ffff).contains(GcAllocFlags(0x8000_0000)));
}

#[test]
fn flag_values() {
    assert_eq!(GcAllocFlags::none().0, 0);
    assert_eq!(GcAllocFlags::finalize().0, 1);
    assert_eq!(GcAllocFlags::contains_ref().0, 2);
    assert_eq!(GcAllocFlags::align8_bias().0, 4);
    assert_eq!(GcAllocFlags::align8().0, 8);
    assert_eq!(GcAllocFlags::zeroing_optional().0, 16);
    assert_eq!(GcAllocFlags::large_object_heap().0, 32);
    assert_eq!(GcAllocFlags::pinned_object_heap().0, 64);
    assert_eq!(GcAllocFlags::user_old_heap().0, 96);
}

#[test]
fn describe_lists_named_flags() {
    assert_eq!(GcAllocFlags::none().describe(), "GcAllocFlags()");
    assert_eq!(
        GcAllocFlags(1 | 2).describe(),
        "GcAllocFlags(FINALIZE | CONTAINS_REF)"
    );
    assert_eq!(
        GcAllocFlags::user_old_heap().describe(),
        "GcAllocFlags(LARGE_OBJECT_HEAP | PINNED_OBJECT_HEAP)"
    );
    assert_eq!(
        GcAllocFlags(127).describe(),
        "GcAllocFlags(FINALIZE | CONTAINS_REF | ALIGN8_BIAS | ALIGN8 | ZEROING_OPTIONAL | LARGE_OBJECT_HEAP | PINNED_OBJECT_HEAP)"
    );
    assert_eq!(GcAllocFlags(128 | 8).describe(), "GcAllocFlags(ALIGN8)");
}

#[test]
fn object_wraps_an_address() {
    for address in [0usize, 1, 0x1000] {
        let object = Object::from_ptr(address);
        assert_eq!(object.as_ptr(), address);
        assert_eq!(object.is_null(), address == 0);
    }
    assert!(Object::from_ptr(8) == Object::from_ptr(8));
    assert!(Object::from_ptr(8) != Object::from_ptr(16));
}

#[test]
fn limit_from_environment() {
    let choice = |setting: LimitSetting| configured_limit(&setting);
    assert_eq!(
        choice(LimitSetting::NotPresent),
        LimitChoice { limit: DEFAULT_LIMIT_BYTES, warn: false }
    );
    assert_eq!(
        choice(LimitSetting::NotUnicode),
        LimitChoice { limit: DEFAULT_LIMIT_BYTES, warn: true }
    );
    assert_eq!(
        choice(LimitSetting::Present("1048576".to_string())),
        LimitChoice { limit: 1048576, warn: false }
    );
    assert_eq!(
        choice(LimitSetting::Present("+42".to_string())),
        LimitChoice { limit: 42, warn: false }
    );
    for bad in ["0", "", "abc", " 5", "5 ", "-5", "+", "1_000", "99999999999999999999999"] {
        assert_eq!(
            choice(LimitSetting::Present(bad.to_string())),
            LimitChoice { limit: DEFAULT_LIMIT_BYTES, warn: true },
            "{bad:?}"
        );
    }
    assert_eq!(DEFAULT_LIMIT_BYTES, 64 * 1024 * 1024);
}
