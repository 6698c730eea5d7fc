use gc_rust::runtime::{
    initial_write_barrier_parameters, install_gc_to_clr_in, GcToClr, IGcToClr, E_POINTER,
    E_UNEXPECTED, S_OK,
};
use gc_rust::WriteBarrierOp;

fn record_stomp() -> u32 {
    S_OK
}

fn callback() -> usize {
    record_stomp as usize
}

#[test]
fn rejects_missing_callback_or_context() {
    let mut destination: Option<GcToClr> = None;
    let missing_callback = IGcToClr {
        context: std::ptr::dangling_mut::<u8>() as usize,
        stomp_write_barrier: None,
    };
    let missing_context = IGcToClr {
        context: 0,
        stomp_write_barrier: Some(callback()),
    };

    assert!(matches!(
        install_gc_to_clr_in(&mut destination, Some(missing_callback)),
        Err(E_POINTER)
    ));
    assert!(matches!(
        install_gc_to_clr_in(&mut destination, Some(missing_context)),
        Err(E_POINTER)
    ));
    assert!(destination.is_none());
}

#[test]
fn accepts_identical_reinstall_and_rejects_replacement() {
    let mut destination: Option<GcToClr> = None;
    let source = IGcToClr {
        context: std::ptr::dangling_mut::<u8>() as usize,
        stomp_write_barrier: Some(callback()),
    };
    let replacement = IGcToClr {
        context: std::ptr::dangling_mut::<u16>() as usize,
        stomp_write_barrier: Some(callback()),
    };

    assert!(install_gc_to_clr_in(&mut destination, Some(source)).is_ok());
    assert!(install_gc_to_clr_in(&mut destination, Some(source)).is_ok());
    assert!(matches!(
        install_gc_to_clr_in(&mut destination, Some(replacement)),
        Err(E_UNEXPECTED)
    ));
}

#[test]
fn missing_table_is_rejected() {
    let mut destination: Option<GcToClr> = None;
    assert_eq!(install_gc_to_clr_in(&mut destination, None), Err(E_POINTER));
    assert!(destination.is_none());
}

#[test]
fn installed_table_carries_the_source_identity_and_stays() {
    let mut destination: Option<GcToClr> = None;
    let source = IGcToClr {
        context: 0x40,
        stomp_write_barrier: Some(0x80),
    };
    let installed = install_gc_to_clr_in(&mut destination, Some(source)).unwrap();
    assert_eq!(installed.context, 0x40);
    assert_eq!(installed.stomp_write_barrier, 0x80);
    let other = IGcToClr {
        context: 0x40,
        stomp_write_barrier: Some(0x81),
    };
    assert_eq!(
        install_gc_to_clr_in(&mut destination, Some(other)),
        Err(E_UNEXPECTED)
    );
    assert_eq!(destination, Some(installed));
}

#[test]
fn initial_parameters_disable_card_marking() {
    let p = initial_write_barrier_parameters(0x1234);
    assert_eq!(p.operation, WriteBarrierOp::Initialize);
    assert!(p.is_runtime_suspended);
    assert!(!p.requires_upper_bounds_check);
    assert_eq!(p.card_table, 0x1234);
    assert_eq!(p.card_bundle_table, 0x1234);
    assert_eq!(p.lowest_address, usize::MAX);
    assert_eq!(p.highest_address, usize::MAX);
    assert_eq!(p.ephemeral_low, usize::MAX);
    assert_eq!(p.ephemeral_high, usize::MAX);
    assert_eq!(p.write_watch_table, 0);
    assert_eq!(p.region_to_generation_table, 0);
    assert_eq!(p.region_shr, 0);
    assert!(!p.region_use_bitwise_write_barrier);
}

#[test]
fn write_barrier_operation_codes() {
    assert_eq!(WriteBarrierOp::StompResize.code(), 0);
    assert_eq!(WriteBarrierOp::StompEphemeral.code(), 1);
    assert_eq!(WriteBarrierOp::Initialize.code(), 2);
    assert_eq!(WriteBarrierOp::SwitchToWriteWatch.code(), 3);
    assert_eq!(WriteBarrierOp::SwitchToNonWriteWatch.code(), 4);
}
