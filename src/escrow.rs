//! The escrow state machine shared by both sides of a swap: who may withdraw,
//! cancel or rescue, in which time window, and where the funds go.

use vstd::prelude::*;
use crate::immutables::{
    amounts_valid, encode, get_stellar_addr, keccak256, keccak256_of, preimage, same_address,
    same_bytes, validate_amounts, Address, AddressBook, DualAddress, Immutables,
};
use crate::timelock::{self, deadline, timelocks_valid, validate_timelocks, Stage};

verus! {

/// Why an escrow operation was refused.
#[derive(Clone, Copy, Debug, PartialEq, Eq, Structural)]
pub enum Error {
    InvalidCaller,
    InvalidImmutables,
    InvalidSecret,
    InvalidTime,
    NativeTokenSendingFailure,
    AddressMappingMissing,
    TimeLockError,
}

/// Which chain of the swap an escrow lives on.
#[derive(Clone, Copy, Debug, PartialEq, Eq, Structural)]
pub enum EscrowType {
    Source,
    Destination,
}

/// Where an escrow stands. `Withdrawn` and `Cancelled` are terminal; a rescue
/// leaves the stage as it was.
#[derive(Clone, Copy, Debug, PartialEq, Eq, Structural)]
pub enum EscrowStage {
    Created,
    Withdrawn,
    Cancelled,
    Rescued,
}

/// A token movement out of the escrow that the host is to carry out.
#[derive(Clone, Copy, Debug, PartialEq, Eq)]
pub struct Transfer {
    pub token: Address,
    pub to: Address,
    pub amount: i128,
}

/// The all-zero account, which stands for the native token.
pub open spec fn is_zero_address(a: Address) -> bool {
    a.bytes@ == Seq::new(32, |i: int| 0u8)
}

/// The stage whose start opens withdrawal on `side`, privately or publicly.
pub open spec fn withdrawal_stage(side: EscrowType, public: bool) -> Stage {
    match side {
        EscrowType::Source => if public {
            Stage::SrcPublicWithdrawal
        } else {
            Stage::SrcWithdrawal
        },
        EscrowType::Destination => if public {
            Stage::DstPublicWithdrawal
        } else {
            Stage::DstWithdrawal
        },
    }
}

/// The stage whose start closes withdrawal and opens cancellation on `side`.
pub open spec fn cancellation_stage(side: EscrowType) -> Stage {
    match side {
        EscrowType::Source => Stage::SrcCancellation,
        EscrowType::Destination => Stage::DstCancellation,
    }
}

/// Who receives the principal when the secret is revealed on `side`: the
/// taker on the source chain, the maker on the destination chain.
pub open spec fn beneficiary(side: EscrowType, m: Immutables) -> DualAddress {
    match side {
        EscrowType::Source => m.taker,
        EscrowType::Destination => m.maker,
    }
}

/// Who may cancel on `side` and is refunded: the maker on the source chain,
/// the taker on the destination chain.
pub open spec fn canceller(side: EscrowType, m: Immutables) -> DualAddress {
    match side {
        EscrowType::Source => m.maker,
        EscrowType::Destination => m.taker,
    }
}

/// Whether `caller` is the local account of `party`.
pub open spec fn caller_result(book: AddressBook, party: DualAddress, caller: Address) -> Result<
    (),
    Error,
> {
    match book.lookup(party.evm@) {
        None => Err(Error::AddressMappingMissing),
        Some(a) => if a == caller {
            Ok(())
        } else {
            Err(Error::InvalidCaller)
        },
    }
}

/// The transfers that paying `amount` of `token` to `to` takes: none for a
/// non-positive amount, and a failure for the native token.
pub open spec fn payout(token: Address, to: Address, amount: i128) -> Result<Seq<Transfer>, Error> {
    if amount <= 0 {
        Ok(Seq::empty())
    } else if is_zero_address(token) {
        Err(Error::NativeTokenSendingFailure)
    } else {
        Ok(seq![Transfer { token, to, amount }])
    }
}

/// Pays the principal to `to` and then the safety deposit to `depositee`.
pub open spec fn settlement(
    token: Address,
    to: Address,
    depositee: Address,
    m: Immutables,
) -> Result<
    Seq<Transfer>,
    Error,
> {
    match payout(token, to, m.amount) {
        Err(e) => Err(e),
        Ok(first) => match payout(token, depositee, m.safety_deposit) {
            Err(e) => Err(e),
            Ok(second) => Ok(first + second),
        },
    }
}

/// The outcome of a withdrawal on `side` by `caller` at time `now`, where
/// `digest` is the keccak-256 of the revealed secret. The private path is the
/// taker's alone and opens at the withdrawal stage; the public path is open to
/// anyone from the public-withdrawal stage. Both close when cancellation opens.
/// The principal goes to the side's beneficiary, the deposit to the caller.
pub open spec fn withdraw_result(
    side: EscrowType,
    public: bool,
    m: Immutables,
    book: AddressBook,
    caller: Address,
    digest: Seq<u8>,
    now: u64,
) -> Result<Seq<Transfer>, Error> {
    if !public && caller_result(book, m.taker, caller) is Err {
        Err(caller_result(book, m.taker, caller)->Err_0)
    } else if digest != m.hashlock@ {
        Err(Error::InvalidSecret)
    } else if now < deadline(m.timelocks, withdrawal_stage(side, public)) || now >= deadline(
        m.timelocks,
        cancellation_stage(side),
    ) {
        Err(Error::InvalidTime)
    } else {
        match (book.lookup(m.token.evm@), book.lookup(beneficiary(side, m).evm@)) {
            (Some(token), Some(to)) => settlement(token, to, caller, m),
            _ => Err(Error::AddressMappingMissing),
        }
    }
}

/// The outcome of a cancellation on `side` by `caller` at time `now`: only the
/// side's canceller may cancel, from the cancellation stage on, and is refunded
/// the principal and the deposit.
pub open spec fn cancel_result(
    side: EscrowType,
    m: Immutables,
    book: AddressBook,
    caller: Address,
    now: u64,
) -> Result<Seq<Transfer>, Error> {
    if caller_result(book, canceller(side, m), caller) is Err {
        Err(caller_result(book, canceller(side, m), caller)->Err_0)
    } else if now < deadline(m.timelocks, cancellation_stage(side)) {
        Err(Error::InvalidTime)
    } else {
        match book.lookup(m.token.evm@) {
            Some(token) => settlement(token, caller, caller, m),
            None => Err(Error::AddressMappingMissing),
        }
    }
}

/// The outcome of rescuing `amount` of the swap's token by `caller` at time
/// `now`: only the taker may, once `rescue_delay` has passed since deployment.
pub open spec fn rescue_result(
    m: Immutables,
    book: AddressBook,
    caller: Address,
    now: u64,
    rescue_delay: u64,
    amount: i128,
) -> Result<Seq<Transfer>, Error> {
    if caller_result(book, m.taker, caller) is Err {
        Err(caller_result(book, m.taker, caller)->Err_0)
    } else if m.timelocks.deployed_at as int + rescue_delay as int > u64::MAX {
        Err(Error::TimeLockError)
    } else if (now as int) < m.timelocks.deployed_at as int + rescue_delay as int {
        Err(Error::InvalidTime)
    } else {
        match book.lookup(m.token.evm@) {
            Some(token) => payout(token, caller, amount),
            None => Err(Error::AddressMappingMissing),
        }
    }
}

/// An executable plan agrees with its specified outcome.
pub open spec fn plan_is(r: Result<Vec<Transfer>, Error>, s: Result<Seq<Transfer>, Error>) -> bool {
    match (r, s) {
        (Ok(v), Ok(t)) => v@ == t,
        (Err(e), Err(f)) => e == f,
        _ => false,
    }
}

/// Refuses a call made before `start`.
pub fn only_after(now: u64, start: u64) -> (r: Result<(), Error>)
    ensures
        now >= start ==> r is Ok,
        now < start ==> r == Err::<(), Error>(Error::InvalidTime),
{
    if now < start {
        return Err(Error::InvalidTime);
    }
    Ok(())
}

/// Refuses a call made at or after `stop`.
pub fn only_before(now: u64, stop: u64) -> (r: Result<(), Error>)
    ensures
        now < stop ==> r is Ok,
        now >= stop ==> r == Err::<(), Error>(Error::InvalidTime),
{
    if now >= stop {
        return Err(Error::InvalidTime);
    }
    Ok(())
}

/// Checks a digest of the revealed secret against the swap's hashlock.
pub fn check_secret_digest(digest: &[u8; 32], immutables: &Immutables) -> (r: Result<(), Error>)
    ensures
        digest@ == immutables.hashlock@ ==> r is Ok,
        digest@ != immutables.hashlock@ ==> r == Err::<(), Error>(Error::InvalidSecret),
{
    if same_bytes(digest, &immutables.hashlock) {
        Ok(())
    } else {
        Err(Error::InvalidSecret)
    }
}

/// Checks that keccak-256 of `secret` is the swap's hashlock.
pub fn only_valid_secret(secret: &[u8; 32], immutables: &Immutables) -> (r: Result<(), Error>)
    ensures
        keccak256_of(secret@) == immutables.hashlock@ ==> r is Ok,
        keccak256_of(secret@) != immutables.hashlock@ ==> r == Err::<(), Error>(
            Error::InvalidSecret,
        ),
{
    let digest = keccak256(secret.as_slice());
    check_secret_digest(&digest, immutables)
}

fn only_party(book: &AddressBook, party: &DualAddress, caller: &Address) -> (r: Result<(), Error>)
    ensures
        r == caller_result(*book, *party, *caller),
{
    match get_stellar_addr(book, &party.evm) {
        None => Err(Error::AddressMappingMissing),
        Some(a) => if same_address(&a, caller) {
            Ok(())
        } else {
            Err(Error::InvalidCaller)
        },
    }
}

/// Checks that `caller` is the swap's taker.
pub fn only_taker(book: &AddressBook, immutables: &Immutables, caller: &Address) -> (r: Result<
    (),
    Error,
>)
    ensures
        r == caller_result(*book, immutables.taker, *caller),
{
    only_party(book, &immutables.taker, caller)
}

/// Checks that `caller` is the swap's maker.
pub fn only_maker(book: &AddressBook, immutables: &Immutables, caller: &Address) -> (r: Result<
    (),
    Error,
>)
    ensures
        r == caller_result(*book, immutables.maker, *caller),
{
    only_party(book, &immutables.maker, caller)
}

fn is_zero(a: &Address) -> (r: bool)
    ensures
        r == is_zero_address(*a),
{
    let zero = Address { bytes: [0u8; 32] };
    assert(zero.bytes@ =~= Seq::new(32, |i: int| 0u8));
    same_bytes(&a.bytes, &zero.bytes)
}

/// Adds to `transfers` the payment of `amount` of `token` to `to`: nothing for
/// a non-positive amount, and `NativeTokenSendingFailure` for the native token.
pub fn uni_transfer(
    transfers: &mut Vec<Transfer>,
    token: &Address,
    to: &Address,
    amount: i128,
) -> (r: Result<(), Error>)
    ensures
        payout(*token, *to, amount) is Ok ==> r is Ok && final(transfers)@ == old(transfers)@
            + payout(
            *token,
            *to,
            amount,
        )->Ok_0,
        payout(*token, *to, amount) is Err ==> r == Err::<(), Error>(payout(
            *token,
            *to,
            amount,
        )->Err_0) && final(transfers)@ == old(transfers)@,
{
    if amount <= 0 {
        assert(old(transfers)@ + Seq::<Transfer>::empty() =~= old(transfers)@);
        return Ok(());
    }
    if is_zero(token) {
        return Err(Error::NativeTokenSendingFailure);
    }
    transfers.push(Transfer { token: *token, to: *to, amount });
    Ok(())
}

fn settle(token: &Address, to: &Address, depositee: &Address, m: &Immutables) -> (r: Result<
    Vec<Transfer>,
    Error,
>)
    ensures
        plan_is(r, settlement(*token, *to, *depositee, *m)),
{
    let mut transfers: Vec<Transfer> = Vec::new();
    uni_transfer(&mut transfers, token, to, m.amount)?;
    uni_transfer(&mut transfers, token, depositee, m.safety_deposit)?;
    Ok(transfers)
}

fn stage_time(m: &Immutables, stage: Stage) -> (r: Result<u64, Error>)
    ensures
        r matches Ok(v) && v == deadline(m.timelocks, stage),
{
    match timelock::get(&m.timelocks, stage) {
        Ok(v) => Ok(v),
        Err(_) => Err(Error::TimeLockError),
    }
}

fn resolve(book: &AddressBook, party: &DualAddress) -> (r: Result<Address, Error>)
    ensures
        book.lookup(party.evm@) matches Some(a) ==> r == Ok::<Address, Error>(a),
        book.lookup(party.evm@) is None ==> r == Err::<Address, Error>(
            Error::AddressMappingMissing,
        ),
{
    match get_stellar_addr(book, &party.evm) {
        Some(a) => Ok(a),
        None => Err(Error::AddressMappingMissing),
    }
}

/// Decides a withdrawal, given the keccak-256 digest of the revealed secret,
/// and returns the transfers it makes.
pub fn withdraw_plan(
    side: EscrowType,
    public: bool,
    immutables: &Immutables,
    book: &AddressBook,
    caller: &Address,
    digest: &[u8; 32],
    now: u64,
) -> (r: Result<Vec<Transfer>, Error>)
    ensures
        plan_is(r, withdraw_result(side, public, *immutables, *book, *caller, digest@, now)),
{
    if !public {
        only_taker(book, immutables, caller)?;
    }
    check_secret_digest(digest, immutables)?;
    let start_stage = match side {
        EscrowType::Source => if public {
            Stage::SrcPublicWithdrawal
        } else {
            Stage::SrcWithdrawal
        },
        EscrowType::Destination => if public {
            Stage::DstPublicWithdrawal
        } else {
            Stage::DstWithdrawal
        },
    };
    let end_stage = match side {
        EscrowType::Source => Stage::SrcCancellation,
        EscrowType::Destination => Stage::DstCancellation,
    };
    let start = stage_time(immutables, start_stage)?;
    only_after(now, start)?;
    let end = stage_time(immutables, end_stage)?;
    only_before(now, end)?;
    let token = resolve(book, &immutables.token)?;
    let to = match side {
        EscrowType::Source => resolve(book, &immutables.taker)?,
        EscrowType::Destination => resolve(book, &immutables.maker)?,
    };
    settle(&token, &to, caller, immutables)
}

/// Decides a cancellation and returns the refund transfers.
pub fn cancel_plan(
    side: EscrowType,
    immutables: &Immutables,
    book: &AddressBook,
    caller: &Address,
    now: u64,
) -> (r: Result<Vec<Transfer>, Error>)
    ensures
        plan_is(r, cancel_result(side, *immutables, *book, *caller, now)),
{
    let stage = match side {
        EscrowType::Source => {
            only_maker(book, immutables, caller)?;
            Stage::SrcCancellation
        },
        EscrowType::Destination => {
            only_taker(book, immutables, caller)?;
            Stage::DstCancellation
        },
    };
    let start = stage_time(immutables, stage)?;
    only_after(now, start)?;
    let token = resolve(book, &immutables.token)?;
    settle(&token, caller, caller, immutables)
}

/// Decides a rescue of `amount` of the swap's token and returns its transfer.
pub fn rescue_plan(
    immutables: &Immutables,
    book: &AddressBook,
    caller: &Address,
    now: u64,
    rescue_delay: u64,
    amount: i128,
) -> (r: Result<Vec<Transfer>, Error>)
    ensures
        plan_is(r, rescue_result(*immutables, *book, *caller, now, rescue_delay, amount)),
{
    only_taker(book, immutables, caller)?;
    let start = match timelock::rescue_start(&immutables.timelocks, rescue_delay) {
        Ok(v) => v,
        Err(_) => return Err(Error::TimeLockError),
    };
    only_after(now, start)?;
    let token = resolve(book, &immutables.token)?;
    let mut transfers: Vec<Transfer> = Vec::new();
    uni_transfer(&mut transfers, &token, caller, amount)?;
    assert(Seq::<Transfer>::empty() + payout(token, *caller, amount)->Ok_0 =~= payout(
        token,
        *caller,
        amount,
    )->Ok_0);
    Ok(transfers)
}

/// Why a swap record is not acceptable to act on, if it is not, where `digest`
/// is the keccak-256 of its preimage: bad amounts, badly ordered timelocks, a
/// hash other than its order hash, or a party with no local account.
pub open spec fn immutables_error(
    book: AddressBook,
    m: Immutables,
    digest: Seq<u8>,
) -> Option<Error> {
    if !amounts_valid(m) {
        Some(Error::InvalidImmutables)
    } else if !timelocks_valid(m.timelocks) {
        Some(Error::TimeLockError)
    } else if digest != m.order_hash@ {
        Some(Error::InvalidImmutables)
    } else if book.lookup(m.maker.evm@) is None || book.lookup(m.taker.evm@) is None
        || book.lookup(m.token.evm@) is None {
        Some(Error::AddressMappingMissing)
    } else {
        None
    }
}

/// A check agrees with the error it is specified to find.
pub open spec fn check_is(r: Result<(), Error>, e: Option<Error>) -> bool {
    match e {
        Some(e) => r == Err::<(), Error>(e),
        None => r is Ok,
    }
}

/// Checks a swap record, given the keccak-256 digest of its preimage.
pub fn check_immutables(book: &AddressBook, immutables: &Immutables, digest: &[u8; 32]) -> (r:
    Result<(), Error>)
    ensures
        check_is(r, immutables_error(*book, *immutables, digest@)),
{
    validate_amounts(immutables)?;
    if validate_timelocks(&immutables.timelocks).is_err() {
        return Err(Error::TimeLockError);
    }
    if !same_bytes(digest, &immutables.order_hash) {
        return Err(Error::InvalidImmutables);
    }
    if get_stellar_addr(book, &immutables.maker.evm).is_none() || get_stellar_addr(
        book,
        &immutables.taker.evm,
    ).is_none() || get_stellar_addr(book, &immutables.token.evm).is_none() {
        return Err(Error::AddressMappingMissing);
    }
    Ok(())
}

/// Checks a swap record: valid amounts and timelocks, a hash equal to its
/// order hash, and a local account for each party.
pub fn validate_immutables(book: &AddressBook, immutables: &Immutables) -> (r: Result<(), Error>)
    ensures
        check_is(r, immutables_error(*book, *immutables, keccak256_of(preimage(*immutables)))),
{
    validate_amounts(immutables)?;
    let bytes = encode(immutables);
    let digest = keccak256(bytes.as_slice());
    check_immutables(book, immutables, &digest)
}

} // verus!
