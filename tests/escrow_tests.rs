use stellar_escrow::escrow::{
    cancel_plan, only_after, only_before, only_valid_secret, rescue_plan, uni_transfer,
    validate_immutables, withdraw_plan, Error, EscrowType, Transfer,
};
use stellar_escrow::immutables::{hash, map_evm_to_stellar, Address, AddressBook, DualAddress, Immutables};
use stellar_escrow::timelock::{Stage, Timelocks};

fn keccak(data: &[u8]) -> [u8; 32] {
    let env = soroban_sdk::Env::default();
    env.crypto().keccak256(&soroban_sdk::Bytes::from_slice(&env, data)).into()
}

fn local(n: u8) -> Address {
    Address { bytes: [n; 32] }
}

fn create_test_secret() -> ([u8; 32], [u8; 32]) {
    let secret = [0x42; 32];
    (secret, keccak(&secret))
}

fn create_test_immutables_with_secret(_secret: [u8; 32], hashlock: [u8; 32]) -> Immutables {
    Immutables {
        order_hash: [0x01; 32],
        hashlock,
        maker: DualAddress { evm: [0x11; 20], stellar: local(1) },
        taker: DualAddress { evm: [0x22; 20], stellar: local(2) },
        token: DualAddress { evm: [0x33; 20], stellar: local(3) },
        amount: 1000,
        safety_deposit: 100,
        timelocks: Timelocks::new(1000, 100, 200, 300, 400, 150, 250, 350),
    }
}

fn book_for(m: &Immutables) -> AddressBook {
    let mut book = AddressBook::new();
    map_evm_to_stellar(&mut book, m.maker.evm, m.maker.stellar);
    map_evm_to_stellar(&mut book, m.taker.evm, m.taker.stellar);
    map_evm_to_stellar(&mut book, m.token.evm, m.token.stellar);
    book
}

#[test]
fn test_only_valid_secret_success() {
    let (secret, hashlock) = create_test_secret();
    let immutables = create_test_immutables_with_secret(secret, hashlock);
    assert!(only_valid_secret(&secret, &immutables).is_ok());
}

#[test]
fn test_only_valid_secret_failure() {
    let (_, hashlock) = create_test_secret();
    let wrong_secret = [0x99; 32];
    let immutables = create_test_immutables_with_secret(wrong_secret, hashlock);
    assert_eq!(only_valid_secret(&wrong_secret, &immutables), Err(Error::InvalidSecret));
}

#[test]
fn test_only_before_success() {
    assert!(only_before(1000, 2000).is_ok());
}

#[test]
fn test_only_before_failure() {
    assert_eq!(only_before(2000, 1000), Err(Error::InvalidTime));
}

#[test]
fn test_only_after_success() {
    assert!(only_after(2000, 1000).is_ok());
}

#[test]
fn test_only_after_failure() {
    assert_eq!(only_after(1000, 2000), Err(Error::InvalidTime));
}

#[test]
fn test_atomic_swap_happy_path_timelock_ordering() {
    let (secret, hashlock) = create_test_secret();
    let immutables = create_test_immutables_with_secret(secret, hashlock);
    assert!(stellar_escrow::timelock::validate_timelocks(&immutables.timelocks).is_ok());
    let t = &immutables.timelocks;
    let src_withdrawal = t.get_stage_timestamp(Stage::SrcWithdrawal).unwrap();
    let dst_withdrawal = t.get_stage_timestamp(Stage::DstWithdrawal).unwrap();
    let src_public = t.get_stage_timestamp(Stage::SrcPublicWithdrawal).unwrap();
    let dst_public = t.get_stage_timestamp(Stage::DstPublicWithdrawal).unwrap();
    let src_cancel = t.get_stage_timestamp(Stage::SrcCancellation).unwrap();
    let dst_cancel = t.get_stage_timestamp(Stage::DstCancellation).unwrap();
    assert_eq!(src_withdrawal, 1100);
    assert_eq!(dst_withdrawal, 1150);
    assert_eq!(src_public, 1200);
    assert_eq!(dst_public, 1250);
    assert_eq!(src_cancel, 1300);
    assert_eq!(dst_cancel, 1350);
    assert!(src_withdrawal < dst_withdrawal);
    assert!(dst_withdrawal < src_public);
    assert!(src_public < dst_public);
    assert!(dst_public < src_cancel);
    assert!(src_cancel < dst_cancel);
}

#[test]
fn test_secret_hash_consistency() {
    let (secret1, hashlock1) = create_test_secret();
    let secret2 = [0x99; 32];
    let hashlock2 = keccak(&secret2);
    let hashlock1_copy = keccak(&secret1);
    assert_eq!(hashlock1, hashlock1_copy);
    assert_ne!(hashlock1, hashlock2);
    let immutables1 = create_test_immutables_with_secret(secret1, hashlock1);
    let immutables2 = create_test_immutables_with_secret(secret2, hashlock2);
    assert!(only_valid_secret(&secret1, &immutables1).is_ok());
    assert!(only_valid_secret(&secret2, &immutables2).is_ok());
    assert_eq!(only_valid_secret(&secret1, &immutables2), Err(Error::InvalidSecret));
    assert_eq!(only_valid_secret(&secret2, &immutables1), Err(Error::InvalidSecret));
}

#[test]
fn secret_is_checked_through_its_digest() {
    let secret = [0x42; 32];
    let as_is = create_test_immutables_with_secret(secret, secret);
    assert_eq!(only_valid_secret(&secret, &as_is), Err(Error::InvalidSecret));
    let digest = keccak(&secret);
    assert_eq!(digest[0..4], keccak(&[0x42; 32])[0..4]);
    let hashed = create_test_immutables_with_secret(secret, digest);
    assert!(only_valid_secret(&secret, &hashed).is_ok());
}

#[test]
fn hash_is_keccak_of_the_preimage() {
    let (secret, hashlock) = create_test_secret();
    let m = create_test_immutables_with_secret(secret, hashlock);
    let bytes = stellar_escrow::immutables::encode(&m);
    let h = hash(&m).unwrap();
    assert_eq!(h, keccak(&bytes));
    assert_ne!(&h[..], &bytes[0..32]);
}

#[test]
fn uni_transfer_skips_non_positive_and_refuses_native_token() {
    let mut transfers = Vec::new();
    assert!(uni_transfer(&mut transfers, &local(3), &local(1), 0).is_ok());
    assert!(uni_transfer(&mut transfers, &local(3), &local(1), -5).is_ok());
    assert!(transfers.is_empty());
    assert_eq!(
        uni_transfer(&mut transfers, &local(0), &local(1), 10),
        Err(Error::NativeTokenSendingFailure)
    );
    assert!(transfers.is_empty());
    assert!(uni_transfer(&mut transfers, &local(3), &local(1), 10).is_ok());
    assert_eq!(transfers, vec![Transfer { token: local(3), to: local(1), amount: 10 }]);
}

#[test]
fn source_withdrawal_pays_taker_and_deposit_to_caller() {
    let (secret, hashlock) = create_test_secret();
    let m = create_test_immutables_with_secret(secret, hashlock);
    let book = book_for(&m);
    let plan = withdraw_plan(EscrowType::Source, false, &m, &book, &local(2), &hashlock, 1100).unwrap();
    assert_eq!(
        plan,
        vec![
            Transfer { token: local(3), to: local(2), amount: 1000 },
            Transfer { token: local(3), to: local(2), amount: 100 },
        ]
    );
    assert_eq!(
        withdraw_plan(EscrowType::Source, false, &m, &book, &local(2), &hashlock, 1099),
        Err(Error::InvalidTime)
    );
    assert_eq!(
        withdraw_plan(EscrowType::Source, false, &m, &book, &local(2), &hashlock, 1300),
        Err(Error::InvalidTime)
    );
    assert_eq!(
        withdraw_plan(EscrowType::Source, false, &m, &book, &local(1), &hashlock, 1100),
        Err(Error::InvalidCaller)
    );
}

#[test]
fn destination_public_withdrawal_pays_maker_and_rewards_caller() {
    let (secret, hashlock) = create_test_secret();
    let m = create_test_immutables_with_secret(secret, hashlock);
    let book = book_for(&m);
    let anyone = local(77);
    assert_eq!(
        withdraw_plan(EscrowType::Destination, true, &m, &book, &anyone, &hashlock, 1249),
        Err(Error::InvalidTime)
    );
    let plan = withdraw_plan(EscrowType::Destination, true, &m, &book, &anyone, &hashlock, 1250).unwrap();
    assert_eq!(
        plan,
        vec![
            Transfer { token: local(3), to: local(1), amount: 1000 },
            Transfer { token: local(3), to: anyone, amount: 100 },
        ]
    );
    assert_eq!(
        withdraw_plan(EscrowType::Destination, true, &m, &book, &anyone, &[0; 32], 1250),
        Err(Error::InvalidSecret)
    );
}

#[test]
fn cancellation_refunds_the_side_canceller() {
    let (secret, hashlock) = create_test_secret();
    let m = create_test_immutables_with_secret(secret, hashlock);
    let book = book_for(&m);
    assert_eq!(cancel_plan(EscrowType::Source, &m, &book, &local(1), 1299), Err(Error::InvalidTime));
    assert_eq!(cancel_plan(EscrowType::Source, &m, &book, &local(2), 1300), Err(Error::InvalidCaller));
    let plan = cancel_plan(EscrowType::Source, &m, &book, &local(1), 1300).unwrap();
    assert_eq!(plan.iter().map(|t| t.amount).sum::<i128>(), 1100);
    assert!(plan.iter().all(|t| t.to == local(1)));
    let plan = cancel_plan(EscrowType::Destination, &m, &book, &local(2), 1350).unwrap();
    assert!(plan.iter().all(|t| t.to == local(2)));
    assert_eq!(cancel_plan(EscrowType::Destination, &m, &book, &local(1), 1350), Err(Error::InvalidCaller));
}

#[test]
fn rescue_needs_taker_and_delay() {
    let (secret, hashlock) = create_test_secret();
    let m = create_test_immutables_with_secret(secret, hashlock);
    let book = book_for(&m);
    assert_eq!(rescue_plan(&m, &book, &local(2), 1499, 500, 7), Err(Error::InvalidTime));
    assert_eq!(rescue_plan(&m, &book, &local(1), 1500, 500, 7), Err(Error::InvalidCaller));
    assert_eq!(rescue_plan(&m, &book, &local(2), u64::MAX, u64::MAX, 7), Err(Error::TimeLockError));
    assert_eq!(
        rescue_plan(&m, &book, &local(2), 1500, 500, 7).unwrap(),
        vec![Transfer { token: local(3), to: local(2), amount: 7 }]
    );
    assert_eq!(rescue_plan(&m, &AddressBook::new(), &local(2), 1500, 500, 7), Err(Error::AddressMappingMissing));
}

#[test]
fn validation_checks_hash_against_order_hash() {
    let (secret, hashlock) = create_test_secret();
    let m = create_test_immutables_with_secret(secret, hashlock);
    let book = book_for(&m);
    assert_eq!(validate_immutables(&book, &m), Err(Error::InvalidImmutables));
    let mut bad = m;
    bad.amount = -100;
    assert_eq!(validate_immutables(&book, &bad), Err(Error::InvalidImmutables));
    let mut bad_time = m;
    bad_time.timelocks.deployed_at = 0;
    assert_eq!(validate_immutables(&book, &bad_time), Err(Error::TimeLockError));
    assert_ne!(hash(&m).unwrap(), m.order_hash);
}
