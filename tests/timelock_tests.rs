use stellar_escrow::timelock::{get, rescue_start, validate_timelocks, Stage, TimeLockError, Timelocks};

fn standard() -> Timelocks {
    Timelocks::new(1000, 100, 200, 300, 400, 150, 250, 350)
}

#[test]
fn test_timelock_basic_functionality() {
    let mut timelocks = standard();
    let packed_bytes = timelocks.to_bytes();
    assert_eq!(packed_bytes.len(), 32);

    timelocks.set_deployed_at(2000);
    assert_eq!(timelocks.get_deployed_at(), 2000);

    assert_eq!(timelocks.get_stage_timestamp(Stage::SrcWithdrawal).unwrap(), 2100);
    assert_eq!(timelocks.get_stage_timestamp(Stage::SrcPublicWithdrawal).unwrap(), 2200);
    assert_eq!(timelocks.get_stage_timestamp(Stage::DstWithdrawal).unwrap(), 2150);

    assert_eq!(rescue_start(&timelocks, 500).unwrap(), 2500);
}

#[test]
fn test_timelock_overflow_errors() {
    let timelocks = standard();
    assert_eq!(rescue_start(&timelocks, u64::MAX), Err(TimeLockError::RescueStartOverflow));
    assert!(rescue_start(&timelocks, 500).is_ok());
    assert!(timelocks.get_stage_timestamp(Stage::SrcWithdrawal).is_ok());
}

#[test]
fn test_timelock_validation_deployment_timestamp() {
    let timelocks = Timelocks::new(0, 100, 200, 300, 400, 150, 250, 350);
    assert_eq!(validate_timelocks(&timelocks), Err(TimeLockError::DeploymentTimestampNotSet));
}

#[test]
fn test_timelock_validation_source_chain_ordering() {
    let timelocks = Timelocks::new(1000, 300, 200, 400, 500, 150, 250, 350);
    assert_eq!(
        validate_timelocks(&timelocks),
        Err(TimeLockError::InvalidSourceChainTimelockOrdering)
    );
}

#[test]
fn test_timelock_validation_destination_chain_ordering() {
    let timelocks = Timelocks::new(1000, 100, 200, 300, 400, 350, 250, 400);
    assert_eq!(
        validate_timelocks(&timelocks),
        Err(TimeLockError::InvalidDestinationChainTimelockOrdering)
    );
}

#[test]
fn test_timelock_validation_offset_too_large() {
    let timelocks = Timelocks::new(1000, 100, 200, 300, u32::MAX, 150, 250, u32::MAX);
    assert!(validate_timelocks(&timelocks).is_ok());
}

#[test]
fn test_timelock_validation_valid_configuration() {
    assert!(validate_timelocks(&standard()).is_ok());
}

#[test]
fn test_timelock_storage_functions() {
    let timelocks = standard();
    let retrieved = Timelocks::from_bytes(timelocks.to_bytes());
    assert_eq!(retrieved.get_deployed_at(), 1000);
    assert_eq!(retrieved.get_stage_offset(Stage::SrcWithdrawal), 100);
    assert_eq!(retrieved, timelocks);
}

#[test]
fn test_all_stage_variants() {
    let timelocks = standard();
    assert_eq!(timelocks.get_stage_timestamp(Stage::SrcWithdrawal).unwrap(), 1100);
    assert_eq!(timelocks.get_stage_timestamp(Stage::SrcPublicWithdrawal).unwrap(), 1200);
    assert_eq!(timelocks.get_stage_timestamp(Stage::SrcCancellation).unwrap(), 1300);
    assert_eq!(timelocks.get_stage_timestamp(Stage::SrcPublicCancellation).unwrap(), 1400);
    assert_eq!(timelocks.get_stage_timestamp(Stage::DstWithdrawal).unwrap(), 1150);
    assert_eq!(timelocks.get_stage_timestamp(Stage::DstPublicWithdrawal).unwrap(), 1250);
    assert_eq!(timelocks.get_stage_timestamp(Stage::DstCancellation).unwrap(), 1350);
}

#[test]
fn packed_layout_matches_evm_word() {
    let t = Timelocks::new(0x01020304, 0x05060708, 9, 10, 11, 12, 13, 0xA0B0C0D0);
    let b = t.to_bytes();
    assert_eq!(&b[0..4], &[1, 2, 3, 4]);
    assert_eq!(&b[4..8], &[5, 6, 7, 8]);
    assert_eq!(&b[8..12], &[0, 0, 0, 9]);
    assert_eq!(&b[28..32], &[0xA0, 0xB0, 0xC0, 0xD0]);
}

#[test]
fn packed_round_trip_both_ways() {
    let t = Timelocks::new(u32::MAX, 0, 1, 2, u32::MAX, 7, 8, 9);
    assert_eq!(Timelocks::from_bytes(t.to_bytes()), t);
    let mut raw = [0u8; 32];
    for (i, b) in raw.iter_mut().enumerate() {
        *b = (i as u8).wrapping_mul(37).wrapping_add(5);
    }
    assert_eq!(Timelocks::from_bytes(raw).to_bytes(), raw);
}

#[test]
fn deadlines_equal_only_with_equal_offsets() {
    let t = Timelocks::new(5000, 10, 20, 30, 40, 20, 25, 35);
    assert_eq!(get(&t, Stage::SrcPublicWithdrawal), get(&t, Stage::DstWithdrawal));
    assert_ne!(get(&t, Stage::SrcWithdrawal), get(&t, Stage::DstWithdrawal));
    assert_eq!(get(&t, Stage::DstCancellation).unwrap(), 5035);
}

#[test]
fn largest_values_do_not_overflow() {
    let t = Timelocks::new(u32::MAX, 1, 2, 3, u32::MAX, 4, 5, 6);
    assert_eq!(t.get_stage_timestamp(Stage::SrcPublicCancellation).unwrap(), 2 * (u32::MAX as u64));
    assert_eq!(rescue_start(&t, u64::MAX - u32::MAX as u64).unwrap(), u64::MAX);
    assert_eq!(rescue_start(&t, u64::MAX - u32::MAX as u64 + 1), Err(TimeLockError::RescueStartOverflow));
}

#[test]
fn ordering_errors_follow_each_side() {
    let equal_src = Timelocks::new(1, 100, 100, 300, 400, 150, 250, 350);
    assert_eq!(validate_timelocks(&equal_src), Err(TimeLockError::InvalidSourceChainTimelockOrdering));
    let both_bad = Timelocks::new(1, 100, 200, 300, 300, 350, 250, 100);
    assert_eq!(validate_timelocks(&both_bad), Err(TimeLockError::InvalidSourceChainTimelockOrdering));
    let dst_bad = Timelocks::new(1, 100, 200, 300, 400, 150, 250, 250);
    assert_eq!(validate_timelocks(&dst_bad), Err(TimeLockError::InvalidDestinationChainTimelockOrdering));
    let undeployed_and_bad = Timelocks::new(0, 300, 200, 100, 0, 9, 8, 7);
    assert_eq!(validate_timelocks(&undeployed_and_bad), Err(TimeLockError::DeploymentTimestampNotSet));
}
