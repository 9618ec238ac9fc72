//! One escrow per swap: each deployed unit keeps its own record, address
//! table and configuration, and runs the shared state machine on the record
//! that the caller presents, which must hash to its order hash.

use vstd::prelude::*;
use crate::escrow::{
    cancel_plan, cancel_result, check_is, immutables_error, plan_is, rescue_plan,
    rescue_result, withdraw_plan, withdraw_result, Error, EscrowStage, EscrowType, Transfer,
};
use crate::factory::{mapped_after, EscrowRecord, DEFAULT_RESCUE_DELAY};
use crate::immutables::{
    amounts_valid, encode, get_stellar_addr, keccak256, keccak256_of, map_evm_to_stellar,
    preimage, same_address, validate_amounts, Address, AddressBook, DualAddress, Immutables,
};
use crate::timelock::{timelocks_valid, validate_timelocks};

verus! {

/// The state of one deployed escrow: its factory, its rescue delay, its
/// record once initialized, and its address table.
#[derive(Debug)]
pub struct BaseEscrow {
    factory: Option<Address>,
    rescue_delay: u64,
    record: Option<EscrowRecord>,
    book: AddressBook,
}

/// Why initializing `e` with `m` is refused, if it is, where `digest` is the
/// keccak-256 of the preimage of `m`.
pub open spec fn init_error(e: BaseEscrow, m: Immutables, digest: Seq<u8>) -> Option<Error> {
    if e.record_spec() is Some {
        Some(Error::InvalidImmutables)
    } else if !amounts_valid(m) {
        Some(Error::InvalidImmutables)
    } else if !timelocks_valid(m.timelocks) {
        Some(Error::TimeLockError)
    } else if digest != m.order_hash@ {
        Some(Error::InvalidImmutables)
    } else {
        None
    }
}

/// The outcome of a withdrawal from `e` with the record `m`: the escrow must
/// be initialized and still `Created`, `m` must pass validation, and then the
/// side's withdrawal rules decide.
pub open spec fn escrow_withdraw_result(
    e: BaseEscrow,
    m: Immutables,
    public: bool,
    caller: Address,
    secret_digest: Seq<u8>,
    digest: Seq<u8>,
    now: u64,
) -> Result<Seq<Transfer>, Error> {
    match e.record_spec() {
        None => Err(Error::InvalidImmutables),
        Some(rec) => if rec.stage != EscrowStage::Created {
            Err(Error::InvalidTime)
        } else {
            match immutables_error(e.address_book(), m, digest) {
                Some(err) => Err(err),
                None => withdraw_result(
                    rec.escrow_type,
                    public,
                    m,
                    e.address_book(),
                    caller,
                    secret_digest,
                    now,
                ),
            }
        },
    }
}

/// The outcome of a cancellation of `e` with the record `m`.
pub open spec fn escrow_cancel_result(
    e: BaseEscrow,
    m: Immutables,
    caller: Address,
    digest: Seq<u8>,
    now: u64,
) -> Result<Seq<Transfer>, Error> {
    match e.record_spec() {
        None => Err(Error::InvalidImmutables),
        Some(rec) => if rec.stage != EscrowStage::Created {
            Err(Error::InvalidTime)
        } else {
            match immutables_error(e.address_book(), m, digest) {
                Some(err) => Err(err),
                None => cancel_result(rec.escrow_type, m, e.address_book(), caller, now),
            }
        },
    }
}

/// The outcome of rescuing `amount` of `token` from `e` with the record `m`:
/// `token` must map to the swap's own token account.
pub open spec fn escrow_rescue_result(
    e: BaseEscrow,
    token: DualAddress,
    amount: i128,
    m: Immutables,
    caller: Address,
    digest: Seq<u8>,
    now: u64,
) -> Result<Seq<Transfer>, Error> {
    match e.record_spec() {
        None => Err(Error::InvalidImmutables),
        Some(rec) => match immutables_error(e.address_book(), m, digest) {
            Some(err) => Err(err),
            None => match e.address_book().lookup(token.evm@) {
                None => Err(Error::AddressMappingMissing),
                Some(t) => if t != m.token.stellar {
                    Err(Error::InvalidImmutables)
                } else {
                    rescue_result(m, e.address_book(), caller, now, e.rescue_delay_spec(), amount)
                },
            },
        },
    }
}

/// `after` is `before` with the stage of its record set to `stage`.
pub open spec fn escrow_moved_to(
    before: BaseEscrow,
    after: BaseEscrow,
    stage: EscrowStage,
) -> bool {
    &&& before.record_spec() matches Some(rec) && after.record_spec() == Some(
        EscrowRecord { stage, ..rec },
    )
    &&& after.address_book() == before.address_book()
    &&& after.factory_spec() == before.factory_spec()
    &&& after.rescue_delay_spec() == before.rescue_delay_spec()
}

impl BaseEscrow {
    /// The factory that set the escrow up, once initialized.
    pub closed spec fn factory_spec(&self) -> Option<Address> {
        self.factory
    }

    /// The rescue delay in force.
    pub closed spec fn rescue_delay_spec(&self) -> u64 {
        self.rescue_delay
    }

    /// The escrow's record, once initialized.
    pub closed spec fn record_spec(&self) -> Option<EscrowRecord> {
        self.record
    }

    /// The escrow's address table.
    pub closed spec fn address_book(&self) -> AddressBook {
        self.book
    }

    /// An escrow not yet initialized, with the default rescue delay.
    pub fn new() -> (r: BaseEscrow)
        ensures
            r.factory_spec() is None,
            r.rescue_delay_spec() == DEFAULT_RESCUE_DELAY,
            r.record_spec() is None,
            forall|k: Seq<u8>| #[trigger] r.address_book().lookup(k) is None,
    {
        BaseEscrow {
            factory: None,
            rescue_delay: DEFAULT_RESCUE_DELAY,
            record: None,
            book: AddressBook::new(),
        }
    }

    /// The rescue delay in force.
    pub fn rescue_delay(&self) -> (r: u64)
        ensures
            r == self.rescue_delay_spec(),
    {
        self.rescue_delay
    }

    /// The factory that set the escrow up, once initialized.
    pub fn factory(&self) -> (r: Option<Address>)
        ensures
            r == self.factory_spec(),
    {
        self.factory
    }

    /// The stored record, once initialized.
    pub fn get_immutables(&self) -> (r: Option<Immutables>)
        ensures
            r == match self.record_spec() {
                Some(rec) => Some(rec.immutables),
                None => None::<Immutables>,
            },
    {
        match self.record {
            Some(rec) => Some(rec.immutables),
            None => None,
        }
    }

    /// The stage of the stored swap, once initialized.
    pub fn get_stage(&self) -> (r: Option<EscrowStage>)
        ensures
            r == match self.record_spec() {
                Some(rec) => Some(rec.stage),
                None => None::<EscrowStage>,
            },
    {
        match self.record {
            Some(rec) => Some(rec.stage),
            None => None,
        }
    }

    /// The local account that the escrow's table maps a foreign address to.
    pub fn get_stellar_addr(&self, evm: &[u8; 20]) -> (r: Option<Address>)
        ensures
            r == self.address_book().lookup(evm@),
    {
        get_stellar_addr(&self.book, evm)
    }

    /// One-time setup: checks the record (amounts, timelocks, and a hash equal
    /// to its order hash), maps its three parties, and keeps the factory, the
    /// rescue delay and the record in stage `Created`. A second call, or a
    /// record that fails its checks, is refused with nothing changed.
    pub fn initialize(
        &mut self,
        escrow_type: EscrowType,
        factory: Address,
        rescue_delay: u64,
        immutables: Immutables,
    ) -> (r: Result<(), Error>)
        ensures
            check_is(r, init_error(*old(self), immutables, keccak256_of(preimage(immutables)))),
            r is Err ==> *final(self) == *old(self),
            r is Ok ==> {
                &&& final(self).record_spec() == Some(
                    EscrowRecord { escrow_type, immutables, stage: EscrowStage::Created },
                )
                &&& final(self).factory_spec() == Some(factory)
                &&& final(self).rescue_delay_spec() == rescue_delay
                &&& forall|k: Seq<u8>| #[trigger]
                    final(self).address_book().lookup(k) == mapped_after(
                        old(self).address_book(),
                        immutables,
                        k,
                    )
            },
    {
        if self.record.is_some() {
            return Err(Error::InvalidImmutables);
        }
        validate_amounts(&immutables)?;
        if validate_timelocks(&immutables.timelocks).is_err() {
            return Err(Error::TimeLockError);
        }
        let bytes = encode(&immutables);
        let digest = keccak256(bytes.as_slice());
        if !crate::immutables::same_bytes(&digest, &immutables.order_hash) {
            return Err(Error::InvalidImmutables);
        }
        let ghost b0 = self.book;
        map_evm_to_stellar(&mut self.book, immutables.maker.evm, immutables.maker.stellar);
        let ghost b1 = self.book;
        map_evm_to_stellar(&mut self.book, immutables.taker.evm, immutables.taker.stellar);
        let ghost b2 = self.book;
        map_evm_to_stellar(&mut self.book, immutables.token.evm, immutables.token.stellar);
        assert forall|k: Seq<u8>| #[trigger]
            self.book.lookup(k) == mapped_after(b0, immutables, k) by {
            if k != immutables.token.evm@ {
                assert(self.book.lookup(k) == b2.lookup(k));
                if k != immutables.taker.evm@ {
                    assert(b2.lookup(k) == b1.lookup(k));
                }
            }
        }
        self.factory = Some(factory);
        self.rescue_delay = rescue_delay;
        self.record = Some(EscrowRecord { escrow_type, immutables, stage: EscrowStage::Created });
        Ok(())
    }

    fn validated(&self, immutables: &Immutables) -> (r: Result<EscrowRecord, Error>)
        ensures
            self.record_spec() is None ==> r == Err::<EscrowRecord, Error>(
                Error::InvalidImmutables,
            ),
            self.record_spec() is Some ==> match immutables_error(
                self.address_book(),
                *immutables,
                keccak256_of(preimage(*immutables)),
            ) {
                Some(e) => r == Err::<EscrowRecord, Error>(e),
                None => r == Ok::<EscrowRecord, Error>(self.record_spec()->Some_0),
            },
    {
        let rec = match self.record {
            Some(rec) => rec,
            None => return Err(Error::InvalidImmutables),
        };
        crate::escrow::validate_immutables(&self.book, immutables)?;
        Ok(rec)
    }

    fn withdraw_as(
        &mut self,
        public: bool,
        secret: [u8; 32],
        immutables: Immutables,
        caller: Address,
        now: u64,
    ) -> (r: Result<Vec<Transfer>, Error>)
        ensures
            plan_is(
                r,
                escrow_withdraw_result(
                    *old(self),
                    immutables,
                    public,
                    caller,
                    keccak256_of(secret@),
                    keccak256_of(preimage(immutables)),
                    now,
                ),
            ),
            r is Ok ==> escrow_moved_to(*old(self), *final(self), EscrowStage::Withdrawn),
            r is Err ==> *final(self) == *old(self),
    {
        let rec = match self.record {
            Some(rec) => rec,
            None => return Err(Error::InvalidImmutables),
        };
        if !matches!(rec.stage, EscrowStage::Created) {
            return Err(Error::InvalidTime);
        }
        self.validated(&immutables)?;
        let digest = keccak256(secret.as_slice());
        let transfers = withdraw_plan(
            rec.escrow_type,
            public,
            &immutables,
            &self.book,
            &caller,
            &digest,
            now,
        )?;
        self.record = Some(EscrowRecord { stage: EscrowStage::Withdrawn, ..rec });
        Ok(transfers)
    }

    /// The taker's withdrawal with the secret, in the side's private window.
    pub fn withdraw(
        &mut self,
        secret: [u8; 32],
        immutables: Immutables,
        caller: Address,
        now: u64,
    ) -> (r: Result<Vec<Transfer>, Error>)
        ensures
            plan_is(
                r,
                escrow_withdraw_result(
                    *old(self),
                    immutables,
                    false,
                    caller,
                    keccak256_of(secret@),
                    keccak256_of(preimage(immutables)),
                    now,
                ),
            ),
            r is Ok ==> escrow_moved_to(*old(self), *final(self), EscrowStage::Withdrawn),
            r is Err ==> *final(self) == *old(self),
    {
        self.withdraw_as(false, secret, immutables, caller, now)
    }

    /// Anyone's withdrawal with the secret, in the side's public window.
    pub fn public_withdraw(
        &mut self,
        secret: [u8; 32],
        immutables: Immutables,
        caller: Address,
        now: u64,
    ) -> (r: Result<Vec<Transfer>, Error>)
        ensures
            plan_is(
                r,
                escrow_withdraw_result(
                    *old(self),
                    immutables,
                    true,
                    caller,
                    keccak256_of(secret@),
                    keccak256_of(preimage(immutables)),
                    now,
                ),
            ),
            r is Ok ==> escrow_moved_to(*old(self), *final(self), EscrowStage::Withdrawn),
            r is Err ==> *final(self) == *old(self),
    {
        self.withdraw_as(true, secret, immutables, caller, now)
    }

    /// The side's canceller takes the funds back once cancellation has opened.
    pub fn cancel(
        &mut self,
        immutables: Immutables,
        caller: Address,
        now: u64,
    ) -> (r: Result<Vec<Transfer>, Error>)
        ensures
            plan_is(
                r,
                escrow_cancel_result(
                    *old(self),
                    immutables,
                    caller,
                    keccak256_of(preimage(immutables)),
                    now,
                ),
            ),
            r is Ok ==> escrow_moved_to(*old(self), *final(self), EscrowStage::Cancelled),
            r is Err ==> *final(self) == *old(self),
    {
        let rec = match self.record {
            Some(rec) => rec,
            None => return Err(Error::InvalidImmutables),
        };
        if !matches!(rec.stage, EscrowStage::Created) {
            return Err(Error::InvalidTime);
        }
        self.validated(&immutables)?;
        let transfers = cancel_plan(rec.escrow_type, &immutables, &self.book, &caller, now)?;
        self.record = Some(EscrowRecord { stage: EscrowStage::Cancelled, ..rec });
        Ok(transfers)
    }

    /// The taker recovers `amount` of the swap's token once the rescue delay
    /// has passed since deployment, whatever the stage.
    pub fn rescue_funds(
        &self,
        token: DualAddress,
        amount: i128,
        immutables: Immutables,
        caller: Address,
        now: u64,
    ) -> (r: Result<Vec<Transfer>, Error>)
        ensures
            plan_is(
                r,
                escrow_rescue_result(
                    *self,
                    token,
                    amount,
                    immutables,
                    caller,
                    keccak256_of(preimage(immutables)),
                    now,
                ),
            ),
    {
        self.validated(&immutables)?;
        let t = match get_stellar_addr(&self.book, &token.evm) {
            Some(t) => t,
            None => return Err(Error::AddressMappingMissing),
        };
        if !same_address(&t, &immutables.token.stellar) {
            return Err(Error::InvalidImmutables);
        }
        rescue_plan(&immutables, &self.book, &caller, now, self.rescue_delay, amount)
    }
}

/// A deployed escrow on the source chain of a swap.
#[derive(Debug)]
pub struct SrcEscrow {
    base: BaseEscrow,
}

impl SrcEscrow {
    /// The shared escrow state underneath.
    pub closed spec fn base_spec(&self) -> BaseEscrow {
        self.base
    }

    /// An escrow not yet initialized.
    pub fn new() -> (r: SrcEscrow)
        ensures
            r.base_spec().record_spec() is None,
            r.base_spec().factory_spec() is None,
            r.base_spec().rescue_delay_spec() == DEFAULT_RESCUE_DELAY,
            forall|k: Seq<u8>| #[trigger] r.base_spec().address_book().lookup(k) is None,
    {
        SrcEscrow { base: BaseEscrow::new() }
    }

    /// One-time setup as a source escrow: see `BaseEscrow::initialize`.
    pub fn init(
        &mut self,
        factory: Address,
        rescue_delay: u64,
        immutables: Immutables,
    ) -> (r: Result<(), Error>)
        ensures
            check_is(
                r,
                init_error(old(self).base_spec(), immutables, keccak256_of(preimage(immutables))),
            ),
            r is Err ==> *final(self) == *old(self),
            r is Ok ==> final(self).base_spec().record_spec() == Some(
                EscrowRecord {
                    escrow_type: EscrowType::Source,
                    immutables,
                    stage: EscrowStage::Created,
                },
            ) && final(self).base_spec().factory_spec() == Some(factory)
                && final(self).base_spec().rescue_delay_spec() == rescue_delay,
    {
        self.base.initialize(EscrowType::Source, factory, rescue_delay, immutables)
    }

    /// The taker's withdrawal: see `BaseEscrow::withdraw`.
    pub fn withdraw(
        &mut self,
        secret: [u8; 32],
        immutables: Immutables,
        caller: Address,
        now: u64,
    ) -> (r: Result<Vec<Transfer>, Error>)
        ensures
            plan_is(
                r,
                escrow_withdraw_result(
                    old(self).base_spec(),
                    immutables,
                    false,
                    caller,
                    keccak256_of(secret@),
                    keccak256_of(preimage(immutables)),
                    now,
                ),
            ),
            r is Ok ==> escrow_moved_to(
                old(self).base_spec(),
                final(self).base_spec(),
                EscrowStage::Withdrawn,
            ),
            r is Err ==> *final(self) == *old(self),
    {
        self.base.withdraw(secret, immutables, caller, now)
    }

    /// Anyone's withdrawal: see `BaseEscrow::public_withdraw`.
    pub fn public_withdraw(
        &mut self,
        secret: [u8; 32],
        immutables: Immutables,
        caller: Address,
        now: u64,
    ) -> (r: Result<Vec<Transfer>, Error>)
        ensures
            plan_is(
                r,
                escrow_withdraw_result(
                    old(self).base_spec(),
                    immutables,
                    true,
                    caller,
                    keccak256_of(secret@),
                    keccak256_of(preimage(immutables)),
                    now,
                ),
            ),
            r is Ok ==> escrow_moved_to(
                old(self).base_spec(),
                final(self).base_spec(),
                EscrowStage::Withdrawn,
            ),
            r is Err ==> *final(self) == *old(self),
    {
        self.base.public_withdraw(secret, immutables, caller, now)
    }

    /// Cancellation: see `BaseEscrow::cancel`.
    pub fn cancel(
        &mut self,
        immutables: Immutables,
        caller: Address,
        now: u64,
    ) -> (r: Result<Vec<Transfer>, Error>)
        ensures
            plan_is(
                r,
                escrow_cancel_result(
                    old(self).base_spec(),
                    immutables,
                    caller,
                    keccak256_of(preimage(immutables)),
                    now,
                ),
            ),
            r is Ok ==> escrow_moved_to(
                old(self).base_spec(),
                final(self).base_spec(),
                EscrowStage::Cancelled,
            ),
            r is Err ==> *final(self) == *old(self),
    {
        self.base.cancel(immutables, caller, now)
    }

    /// Rescue: see `BaseEscrow::rescue_funds`.
    pub fn rescue_funds(
        &self,
        token: DualAddress,
        amount: i128,
        immutables: Immutables,
        caller: Address,
        now: u64,
    ) -> (r: Result<Vec<Transfer>, Error>)
        ensures
            plan_is(
                r,
                escrow_rescue_result(
                    self.base_spec(),
                    token,
                    amount,
                    immutables,
                    caller,
                    keccak256_of(preimage(immutables)),
                    now,
                ),
            ),
    {
        self.base.rescue_funds(token, amount, immutables, caller, now)
    }

    /// The rescue delay in force.
    pub fn src_rescue_delay(&self) -> (r: u64)
        ensures
            r == self.base_spec().rescue_delay_spec(),
    {
        self.base.rescue_delay()
    }

    /// The factory that set the escrow up, once initialized.
    pub fn src_factory(&self) -> (r: Option<Address>)
        ensures
            r == self.base_spec().factory_spec(),
    {
        self.base.factory()
    }

    /// The stored record, once initialized.
    pub fn get_immutables(&self) -> (r: Option<Immutables>)
        ensures
            r == match self.base_spec().record_spec() {
                Some(rec) => Some(rec.immutables),
                None => None::<Immutables>,
            },
    {
        self.base.get_immutables()
    }

    /// The stage of the stored swap, once initialized.
    pub fn get_stage(&self) -> (r: Option<EscrowStage>)
        ensures
            r == match self.base_spec().record_spec() {
                Some(rec) => Some(rec.stage),
                None => None::<EscrowStage>,
            },
    {
        self.base.get_stage()
    }
}

/// A deployed escrow on the destination chain of a swap.
#[derive(Debug)]
pub struct DstEscrow {
    base: BaseEscrow,
}

impl DstEscrow {
    /// The shared escrow state underneath.
    pub closed spec fn base_spec(&self) -> BaseEscrow {
        self.base
    }

    /// An escrow not yet initialized.
    pub fn new() -> (r: DstEscrow)
        ensures
            r.base_spec().record_spec() is None,
            r.base_spec().factory_spec() is None,
            r.base_spec().rescue_delay_spec() == DEFAULT_RESCUE_DELAY,
            forall|k: Seq<u8>| #[trigger] r.base_spec().address_book().lookup(k) is None,
    {
        DstEscrow { base: BaseEscrow::new() }
    }

    /// One-time setup as a destination escrow: see `BaseEscrow::initialize`.
    pub fn init(
        &mut self,
        factory: Address,
        rescue_delay: u64,
        immutables: Immutables,
    ) -> (r: Result<(), Error>)
        ensures
            check_is(
                r,
                init_error(old(self).base_spec(), immutables, keccak256_of(preimage(immutables))),
            ),
            r is Err ==> *final(self) == *old(self),
            r is Ok ==> final(self).base_spec().record_spec() == Some(
                EscrowRecord {
                    escrow_type: EscrowType::Destination,
                    immutables,
                    stage: EscrowStage::Created,
                },
            ) && final(self).base_spec().factory_spec() == Some(factory)
                && final(self).base_spec().rescue_delay_spec() == rescue_delay,
    {
        self.base.initialize(EscrowType::Destination, factory, rescue_delay, immutables)
    }

    /// The taker's withdrawal: see `BaseEscrow::withdraw`.
    pub fn withdraw(
        &mut self,
        secret: [u8; 32],
        immutables: Immutables,
        caller: Address,
        now: u64,
    ) -> (r: Result<Vec<Transfer>, Error>)
        ensures
            plan_is(
                r,
                escrow_withdraw_result(
                    old(self).base_spec(),
                    immutables,
                    false,
                    caller,
                    keccak256_of(secret@),
                    keccak256_of(preimage(immutables)),
                    now,
                ),
            ),
            r is Ok ==> escrow_moved_to(
                old(self).base_spec(),
                final(self).base_spec(),
                EscrowStage::Withdrawn,
            ),
            r is Err ==> *final(self) == *old(self),
    {
        self.base.withdraw(secret, immutables, caller, now)
    }

    /// Anyone's withdrawal: see `BaseEscrow::public_withdraw`.
    pub fn public_withdraw(
        &mut self,
        secret: [u8; 32],
        immutables: Immutables,
        caller: Address,
        now: u64,
    ) -> (r: Result<Vec<Transfer>, Error>)
        ensures
            plan_is(
                r,
                escrow_withdraw_result(
                    old(self).base_spec(),
                    immutables,
                    true,
                    caller,
                    keccak256_of(secret@),
                    keccak256_of(preimage(immutables)),
                    now,
                ),
            ),
            r is Ok ==> escrow_moved_to(
                old(self).base_spec(),
                final(self).base_spec(),
                EscrowStage::Withdrawn,
            ),
            r is Err ==> *final(self) == *old(self),
    {
        self.base.public_withdraw(secret, immutables, caller, now)
    }

    /// Cancellation: see `BaseEscrow::cancel`.
    pub fn cancel(
        &mut self,
        immutables: Immutables,
        caller: Address,
        now: u64,
    ) -> (r: Result<Vec<Transfer>, Error>)
        ensures
            plan_is(
                r,
                escrow_cancel_result(
                    old(self).base_spec(),
                    immutables,
                    caller,
                    keccak256_of(preimage(immutables)),
                    now,
                ),
            ),
            r is Ok ==> escrow_moved_to(
                old(self).base_spec(),
                final(self).base_spec(),
                EscrowStage::Cancelled,
            ),
            r is Err ==> *final(self) == *old(self),
    {
        self.base.cancel(immutables, caller, now)
    }

    /// Rescue: see `BaseEscrow::rescue_funds`.
    pub fn rescue_funds(
        &self,
        token: DualAddress,
        amount: i128,
        immutables: Immutables,
        caller: Address,
        now: u64,
    ) -> (r: Result<Vec<Transfer>, Error>)
        ensures
            plan_is(
                r,
                escrow_rescue_result(
                    self.base_spec(),
                    token,
                    amount,
                    immutables,
                    caller,
                    keccak256_of(preimage(immutables)),
                    now,
                ),
            ),
    {
        self.base.rescue_funds(token, amount, immutables, caller, now)
    }

    /// The rescue delay in force.
    pub fn dst_rescue_delay(&self) -> (r: u64)
        ensures
            r == self.base_spec().rescue_delay_spec(),
    {
        self.base.rescue_delay()
    }

    /// The factory that set the escrow up, once initialized.
    pub fn dst_factory(&self) -> (r: Option<Address>)
        ensures
            r == self.base_spec().factory_spec(),
    {
        self.base.factory()
    }

    /// The stored record, once initialized.
    pub fn get_immutables(&self) -> (r: Option<Immutables>)
        ensures
            r == match self.base_spec().record_spec() {
                Some(rec) => Some(rec.immutables),
                None => None::<Immutables>,
            },
    {
        self.base.get_immutables()
    }

    /// The stage of the stored swap, once initialized.
    pub fn get_stage(&self) -> (r: Option<EscrowStage>)
        ensures
            r == match self.base_spec().record_spec() {
                Some(rec) => Some(rec.stage),
                None => None::<EscrowStage>,
            },
    {
        self.base.get_stage()
    }
}

} // verus!
