use stellar_escrow::deployed::{BaseEscrow, DstEscrow, SrcEscrow};
use stellar_escrow::escrow::{Error, EscrowType};
use stellar_escrow::immutables::{Address, DualAddress, Immutables};
use stellar_escrow::timelock::Timelocks;

fn keccak(data: &[u8]) -> [u8; 32] {
    let env = soroban_sdk::Env::default();
    env.crypto().keccak256(&soroban_sdk::Bytes::from_slice(&env, data)).into()
}

fn local(n: u8) -> Address {
    Address { bytes: [n; 32] }
}

fn create_test_dual_address(n: u8) -> DualAddress {
    DualAddress { evm: [0x42; 20], stellar: local(n) }
}

fn create_test_secret() -> ([u8; 32], [u8; 32]) {
    let secret = [0x42; 32];
    (secret, keccak(&secret))
}

fn create_test_immutables_with_secret(_secret: [u8; 32], hashlock: [u8; 32]) -> Immutables {
    Immutables {
        order_hash: [0x01; 32],
        hashlock,
        maker: create_test_dual_address(1),
        taker: create_test_dual_address(2),
        token: create_test_dual_address(3),
        amount: 1000,
        safety_deposit: 100,
        timelocks: Timelocks::new(1000, 100, 200, 300, 400, 150, 250, 350),
    }
}

#[test]
fn test_dstescrow_rescue_delay() {
    let escrow = DstEscrow::new();
    assert_eq!(escrow.dst_rescue_delay(), 86_400);
}

#[test]
fn test_dstescrow_private_withdraw_timelock() {
    let (secret, hashlock) = create_test_secret();
    let immutables = create_test_immutables_with_secret(secret, hashlock);
    let mut escrow = DstEscrow::new();
    let result = escrow.withdraw(secret, immutables, local(2), 1175);
    assert_eq!(result, Err(Error::InvalidImmutables));
}

#[test]
fn test_dstescrow_public_withdraw_timelock() {
    let (secret, hashlock) = create_test_secret();
    let immutables = create_test_immutables_with_secret(secret, hashlock);
    let mut escrow = DstEscrow::new();
    let result = escrow.public_withdraw(secret, immutables, local(9), 1275);
    assert_eq!(result, Err(Error::InvalidImmutables));
}

#[test]
fn initialization_requires_the_order_hash_to_be_the_hash() {
    let (secret, hashlock) = create_test_secret();
    let immutables = create_test_immutables_with_secret(secret, hashlock);
    let mut escrow = SrcEscrow::new();
    assert_eq!(escrow.init(local(8), 3600, immutables), Err(Error::InvalidImmutables));
    assert!(escrow.get_immutables().is_none());
    assert_eq!(escrow.src_factory(), None);
    assert_eq!(escrow.src_rescue_delay(), 86_400);
    let mut bad_time = immutables;
    bad_time.timelocks.deployed_at = 0;
    assert_eq!(escrow.init(local(8), 3600, bad_time), Err(Error::TimeLockError));
    assert_eq!(escrow.cancel(immutables, local(1), 2000), Err(Error::InvalidImmutables));
    assert_eq!(escrow.get_stage(), None);
}

#[test]
fn base_escrow_refuses_operations_before_initialization() {
    let (secret, hashlock) = create_test_secret();
    let immutables = create_test_immutables_with_secret(secret, hashlock);
    let mut escrow = BaseEscrow::new();
    assert_eq!(escrow.withdraw(secret, immutables, local(2), 1100), Err(Error::InvalidImmutables));
    assert_eq!(
        escrow.rescue_funds(immutables.token, 5, immutables, local(2), 1_000_000),
        Err(Error::InvalidImmutables)
    );
    assert_eq!(escrow.factory(), None);
    assert_eq!(escrow.get_stellar_addr(&[0x42; 20]), None);
    let mut negative = immutables;
    negative.amount = -100;
    assert_eq!(
        escrow.initialize(EscrowType::Destination, local(8), 10, negative),
        Err(Error::InvalidImmutables)
    );
    assert_eq!(escrow.rescue_delay(), 86_400);
}
