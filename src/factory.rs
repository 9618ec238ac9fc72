//! The registry: one store that holds every swap's record and stage, keyed by
//! the swap's order hash, and the entry points that move them.

use vstd::prelude::*;
use crate::escrow::{
    caller_result, withdrawal_stage, cancel_plan, cancel_result, plan_is, rescue_plan,
    rescue_result, withdraw_plan,
    withdraw_result, Error, EscrowStage, EscrowType, Transfer,
};
use crate::immutables::{
    keccak256, keccak256_of, map_evm_to_stellar, same_bytes, validate_amounts, Address,
    AddressBook, Immutables, amounts_valid,
};
use crate::timelock::{deadline, timelocks_valid, validate_timelocks};

verus! {

/// The rescue delay used where none was configured: one day.
pub const DEFAULT_RESCUE_DELAY: u64 = 86400;

/// What the registry keeps for one swap.
#[derive(Clone, Copy, Debug, PartialEq, Eq)]
pub struct EscrowRecord {
    pub escrow_type: EscrowType,
    pub immutables: Immutables,
    pub stage: EscrowStage,
}

/// The record of the latest entry of `records` whose order hash is `key`.
pub open spec fn record_in(records: Seq<EscrowRecord>, key: Seq<u8>) -> Option<EscrowRecord>
    decreases records.len(),
{
    if records.len() == 0 {
        None
    } else if records.last().immutables.order_hash@ == key {
        Some(records.last())
    } else {
        record_in(records.drop_last(), key)
    }
}

/// The local accounts that `book` gives after the maker, the taker and the
/// token of `m` have been mapped, in that order.
pub open spec fn mapped_after(book: AddressBook, m: Immutables, k: Seq<u8>) -> Option<Address> {
    if k == m.token.evm@ {
        Some(m.token.stellar)
    } else if k == m.taker.evm@ {
        Some(m.taker.stellar)
    } else if k == m.maker.evm@ {
        Some(m.maker.stellar)
    } else {
        book.lookup(k)
    }
}

/// Why creating a record for `m` in `f` is refused, if it is: bad amounts,
/// badly ordered timelocks, or an order hash that already has a record.
pub open spec fn create_error(f: EscrowFactory, m: Immutables) -> Option<Error> {
    if !amounts_valid(m) {
        Some(Error::InvalidImmutables)
    } else if !timelocks_valid(m.timelocks) {
        Some(Error::TimeLockError)
    } else if f.record(m.order_hash@) is Some {
        Some(Error::InvalidImmutables)
    } else {
        None
    }
}

/// The stage of the swap under `key`; a hash with no record reads as `Created`.
pub open spec fn stage_of(f: EscrowFactory, key: Seq<u8>) -> EscrowStage {
    match f.record(key) {
        Some(rec) => rec.stage,
        None => EscrowStage::Created,
    }
}

/// The outcome of a withdrawal from the swap under `key`: it must exist and
/// still be `Created`; then the side's withdrawal rules decide.
pub open spec fn registry_withdraw_result(
    f: EscrowFactory,
    key: Seq<u8>,
    public: bool,
    caller: Address,
    digest: Seq<u8>,
    now: u64,
) -> Result<Seq<Transfer>, Error> {
    match f.record(key) {
        None => Err(Error::InvalidImmutables),
        Some(rec) => if rec.stage != EscrowStage::Created {
            Err(Error::InvalidTime)
        } else {
            withdraw_result(
                rec.escrow_type,
                public,
                rec.immutables,
                f.address_book(),
                caller,
                digest,
                now,
            )
        },
    }
}

/// The outcome of a cancellation of the swap under `key`.
pub open spec fn registry_cancel_result(
    f: EscrowFactory,
    key: Seq<u8>,
    caller: Address,
    now: u64,
) -> Result<
    Seq<Transfer>,
    Error,
> {
    match f.record(key) {
        None => Err(Error::InvalidImmutables),
        Some(rec) => if rec.stage != EscrowStage::Created {
            Err(Error::InvalidTime)
        } else {
            cancel_result(rec.escrow_type, rec.immutables, f.address_book(), caller, now)
        },
    }
}

/// The outcome of a rescue from the swap under `key`, whatever its stage.
pub open spec fn registry_rescue_result(
    f: EscrowFactory,
    key: Seq<u8>,
    caller: Address,
    now: u64,
    amount: i128,
) -> Result<Seq<Transfer>, Error> {
    match f.record(key) {
        None => Err(Error::InvalidImmutables),
        Some(rec) => rescue_result(
            rec.immutables,
            f.address_book(),
            caller,
            now,
            f.rescue_delay_spec(),
            amount,
        ),
    }
}

/// `after` differs from `before` at most in the stage of the swap under `key`,
/// which is now `stage`.
pub open spec fn moved_to(
    before: EscrowFactory,
    after: EscrowFactory,
    key: Seq<u8>,
    stage: EscrowStage,
) -> bool {
    &&& before.record(key) matches Some(rec) && after.record(key) == Some(
        EscrowRecord { stage, ..rec },
    )
    &&& forall|k: Seq<u8>| k != key ==> #[trigger] after.record(k) == before.record(k)
    &&& after.address_book() == before.address_book()
    &&& after.admin_spec() == before.admin_spec()
    &&& after.rescue_delay_spec() == before.rescue_delay_spec()
}

/// Holds every swap, its stage, and the address table, under one admin and
/// one rescue delay.
#[derive(Debug)]
pub struct EscrowFactory {
    admin: Address,
    rescue_delay: u64,
    records: Vec<EscrowRecord>,
    book: AddressBook,
}

proof fn lemma_record_update(s: Seq<EscrowRecord>, i: int, r: EscrowRecord, k: Seq<u8>)
    requires
        0 <= i < s.len(),
        s[i].immutables.order_hash@ == r.immutables.order_hash@,
        forall|j: int|
            i < j < s.len() ==> s[j].immutables.order_hash@ != s[i].immutables.order_hash@,
    ensures
        record_in(s, s[i].immutables.order_hash@) == Some(s[i]),
        record_in(s.update(i, r), k) == if k == r.immutables.order_hash@ {
            Some(r)
        } else {
            record_in(s, k)
        },
    decreases s.len(),
{
    let u = s.update(i, r);
    if i == s.len() - 1 {
        assert(u.drop_last() =~= s.drop_last());
    } else {
        assert(u.drop_last() =~= s.drop_last().update(i, r));
        lemma_record_update(s.drop_last(), i, r, k);
    }
}

impl EscrowFactory {
    /// The admin account.
    pub closed spec fn admin_spec(&self) -> Address {
        self.admin
    }

    /// The configured rescue delay.
    pub closed spec fn rescue_delay_spec(&self) -> u64 {
        self.rescue_delay
    }

    /// The record kept under an order hash.
    pub closed spec fn record(&self, order_hash: Seq<u8>) -> Option<EscrowRecord> {
        record_in(self.records@, order_hash)
    }

    /// The address table.
    pub closed spec fn address_book(&self) -> AddressBook {
        self.book
    }

    /// A registry with no swaps yet.
    pub fn new(admin: Address, rescue_delay: u64) -> (r: EscrowFactory)
        ensures
            r.admin_spec() == admin,
            r.rescue_delay_spec() == rescue_delay,
            forall|k: Seq<u8>| #[trigger] r.record(k) is None,
            forall|k: Seq<u8>| #[trigger] r.address_book().lookup(k) is None,
    {
        EscrowFactory { admin, rescue_delay, records: Vec::new(), book: AddressBook::new() }
    }

    /// The admin account.
    pub fn get_admin(&self) -> (r: Address)
        ensures
            r == self.admin_spec(),
    {
        self.admin
    }

    /// The rescue delay applied to every swap of this registry.
    pub fn get_rescue_delay(&self) -> (r: u64)
        ensures
            r == self.rescue_delay_spec(),
    {
        self.rescue_delay
    }

    /// The local account that the registry's table maps a foreign address to.
    pub fn get_stellar_addr(&self, evm: &[u8; 20]) -> (r: Option<Address>)
        ensures
            r == self.address_book().lookup(evm@),
    {
        crate::immutables::get_stellar_addr(&self.book, evm)
    }

    /// Stores a new swap of the given side, keyed by its order hash, in stage
    /// `Created`, and maps its three parties' foreign addresses. Refused, with
    /// nothing changed, for bad amounts, badly ordered timelocks, or an order
    /// hash that already has a record.
    pub fn create_escrow(&mut self, escrow_type: EscrowType, immutables: Immutables) -> (r: Result<
        [u8; 32],
        Error,
    >)
        ensures
            create_error(*old(self), immutables) matches Some(e) ==> r == Err::<[u8; 32], Error>(e)
                && *final(self) == *old(self),
            create_error(*old(self), immutables) is None ==> {
                &&& r == Ok::<[u8; 32], Error>(immutables.order_hash)
                &&& final(self).record(immutables.order_hash@) == Some(
                    EscrowRecord { escrow_type, immutables, stage: EscrowStage::Created },
                )
                &&& forall|k: Seq<u8>|
                    k != immutables.order_hash@ ==> #[trigger] final(self).record(k) == old(
                        self,
                    ).record(k)
                &&& forall|k: Seq<u8>| #[trigger]
                    final(self).address_book().lookup(k) == mapped_after(
                        old(self).address_book(),
                        immutables,
                        k,
                    )
                &&& final(self).admin_spec() == old(self).admin_spec()
                &&& final(self).rescue_delay_spec() == old(self).rescue_delay_spec()
            },
    {
        validate_amounts(&immutables)?;
        if validate_timelocks(&immutables.timelocks).is_err() {
            return Err(Error::TimeLockError);
        }
        if self.find(&immutables.order_hash).is_some() {
            return Err(Error::InvalidImmutables);
        }
        let ghost old_records = self.records@;
        let ghost b0 = self.book;
        self.records.push(EscrowRecord { escrow_type, immutables, stage: EscrowStage::Created });
        assert(self.records@.drop_last() =~= old_records);
        map_evm_to_stellar(&mut self.book, immutables.maker.evm, immutables.maker.stellar);
        let ghost b1 = self.book;
        map_evm_to_stellar(&mut self.book, immutables.taker.evm, immutables.taker.stellar);
        let ghost b2 = self.book;
        map_evm_to_stellar(&mut self.book, immutables.token.evm, immutables.token.stellar);
        assert forall|k: Seq<u8>| #[trigger]
            self.book.lookup(k) == mapped_after(b0, immutables, k) by {
            if k != immutables.token.evm@ {
                assert(self.book.lookup(k) == b2.lookup(k));
                if k != immutables.taker.evm@ {
                    assert(b2.lookup(k) == b1.lookup(k));
                }
            }
        }
        Ok(immutables.order_hash)
    }

    /// Stores a new source-chain swap: see `create_escrow`.
    pub fn create_src_escrow(&mut self, immutables: Immutables) -> (r: Result<[u8; 32], Error>)
        ensures
            create_error(*old(self), immutables) matches Some(e) ==> r == Err::<[u8; 32], Error>(e)
                && *final(self) == *old(self),
            create_error(*old(self), immutables) is None ==> r == Ok::<[u8; 32], Error>(
                immutables.order_hash,
            ) && final(self).record(immutables.order_hash@) == Some(
                EscrowRecord {
                    escrow_type: EscrowType::Source,
                    immutables,
                    stage: EscrowStage::Created,
                },
            ) && (forall|k: Seq<u8>|
                k != immutables.order_hash@ ==> #[trigger] final(self).record(k) == old(
                    self,
                ).record(k)) && (forall|k: Seq<u8>| #[trigger]
                final(self).address_book().lookup(k) == mapped_after(
                    old(self).address_book(),
                    immutables,
                    k,
                )),
    {
        self.create_escrow(EscrowType::Source, immutables)
    }

    /// Stores a new destination-chain swap: see `create_escrow`.
    pub fn create_dst_escrow(&mut self, immutables: Immutables) -> (r: Result<[u8; 32], Error>)
        ensures
            create_error(*old(self), immutables) matches Some(e) ==> r == Err::<[u8; 32], Error>(e)
                && *final(self) == *old(self),
            create_error(*old(self), immutables) is None ==> r == Ok::<[u8; 32], Error>(
                immutables.order_hash,
            ) && final(self).record(immutables.order_hash@) == Some(
                EscrowRecord {
                    escrow_type: EscrowType::Destination,
                    immutables,
                    stage: EscrowStage::Created,
                },
            ) && (forall|k: Seq<u8>|
                k != immutables.order_hash@ ==> #[trigger] final(self).record(k) == old(
                    self,
                ).record(k)) && (forall|k: Seq<u8>| #[trigger]
                final(self).address_book().lookup(k) == mapped_after(
                    old(self).address_book(),
                    immutables,
                    k,
                )),
    {
        self.create_escrow(EscrowType::Destination, immutables)
    }

    /// The side and the record of the swap under `order_hash`.
    pub fn get_escrow_state(&self, order_hash: [u8; 32]) -> (r: Result<
        (EscrowType, Immutables),
        Error,
    >)
        ensures
            self.record(order_hash@) matches Some(rec) ==> r == Ok::<
                (EscrowType, Immutables),
                Error,
            >(
                (rec.escrow_type, rec.immutables),
            ),
            self.record(order_hash@) is None ==> r == Err::<(EscrowType, Immutables), Error>(
                Error::InvalidImmutables,
            ),
    {
        match self.find(&order_hash) {
            Some(i) => Ok((self.records[i].escrow_type, self.records[i].immutables)),
            None => Err(Error::InvalidImmutables),
        }
    }

    /// The stage of the swap under `order_hash`; `Created` where there is none.
    pub fn get_escrow_stage(&self, order_hash: [u8; 32]) -> (r: EscrowStage)
        ensures
            r == stage_of(*self, order_hash@),
    {
        match self.find(&order_hash) {
            Some(i) => self.records[i].stage,
            None => EscrowStage::Created,
        }
    }

    fn set_stage(&mut self, i: usize, stage: EscrowStage)
        requires
            i < old(self).records@.len(),
            forall|j: int|
                i < j < old(self).records@.len() ==> old(self).records@[j].immutables.order_hash@
                    != old(self).records@[i as int].immutables.order_hash@,
        ensures
            moved_to(
                *old(self),
                *final(self),
                old(self).records@[i as int].immutables.order_hash@,
                stage,
            ),
    {
        let ghost before = self.records@;
        let rec = self.records[i];
        self.records.set(i, EscrowRecord { stage, ..rec });
        proof {
            let key = before[i as int].immutables.order_hash@;
            lemma_record_update(before, i as int, EscrowRecord { stage, ..rec }, key);
            assert forall|k: Seq<u8>| k != key implies #[trigger] record_in(self.records@, k)
                == record_in(before, k) by {
                lemma_record_update(before, i as int, EscrowRecord { stage, ..rec }, k);
            }
        }
    }

    fn withdraw_with(
        &mut self,
        order_hash: &[u8; 32],
        public: bool,
        caller: &Address,
        digest: &[u8; 32],
        now: u64,
    ) -> (r: Result<Vec<Transfer>, Error>)
        ensures
            plan_is(
                r,
                registry_withdraw_result(*old(self), order_hash@, public, *caller, digest@, now),
            ),
            r is Ok ==> moved_to(*old(self), *final(self), order_hash@, EscrowStage::Withdrawn),
            r is Err ==> *final(self) == *old(self),
    {
        let i = match self.find(order_hash) {
            Some(i) => i,
            None => return Err(Error::InvalidImmutables),
        };
        let rec = self.records[i];
        if !matches!(rec.stage, EscrowStage::Created) {
            return Err(Error::InvalidTime);
        }
        let transfers = withdraw_plan(
            rec.escrow_type,
            public,
            &rec.immutables,
            &self.book,
            caller,
            digest,
            now,
        )?;
        self.set_stage(i, EscrowStage::Withdrawn);
        Ok(transfers)
    }

    /// The taker's withdrawal: with the secret whose keccak-256 is the
    /// hashlock, inside the side's private withdrawal window, from a swap still
    /// `Created`. Returns the transfers to make and moves the swap to
    /// `Withdrawn`; on refusal nothing changes.
    pub fn withdraw(
        &mut self,
        order_hash: [u8; 32],
        secret: [u8; 32],
        caller: Address,
        now: u64,
    ) -> (r: Result<Vec<Transfer>, Error>)
        ensures
            plan_is(
                r,
                registry_withdraw_result(
                    *old(self),
                    order_hash@,
                    false,
                    caller,
                    keccak256_of(secret@),
                    now,
                ),
            ),
            r is Ok ==> moved_to(*old(self), *final(self), order_hash@, EscrowStage::Withdrawn),
            r is Err ==> *final(self) == *old(self),
    {
        let digest = keccak256(secret.as_slice());
        self.withdraw_with(&order_hash, false, &caller, &digest, now)
    }

    /// Anyone's withdrawal with the secret, inside the side's public
    /// withdrawal window; otherwise as `withdraw`.
    pub fn public_withdraw(
        &mut self,
        order_hash: [u8; 32],
        secret: [u8; 32],
        caller: Address,
        now: u64,
    ) -> (r: Result<Vec<Transfer>, Error>)
        ensures
            plan_is(
                r,
                registry_withdraw_result(
                    *old(self),
                    order_hash@,
                    true,
                    caller,
                    keccak256_of(secret@),
                    now,
                ),
            ),
            r is Ok ==> moved_to(*old(self), *final(self), order_hash@, EscrowStage::Withdrawn),
            r is Err ==> *final(self) == *old(self),
    {
        let digest = keccak256(secret.as_slice());
        self.withdraw_with(&order_hash, true, &caller, &digest, now)
    }

    /// The side's canceller takes the funds back once cancellation has opened,
    /// from a swap still `Created`, which moves to `Cancelled`; on refusal
    /// nothing changes.
    pub fn cancel(
        &mut self,
        order_hash: [u8; 32],
        caller: Address,
        now: u64,
    ) -> (r: Result<Vec<Transfer>, Error>)
        ensures
            plan_is(r, registry_cancel_result(*old(self), order_hash@, caller, now)),
            r is Ok ==> moved_to(*old(self), *final(self), order_hash@, EscrowStage::Cancelled),
            r is Err ==> *final(self) == *old(self),
    {
        let i = match self.find(&order_hash) {
            Some(i) => i,
            None => return Err(Error::InvalidImmutables),
        };
        let rec = self.records[i];
        if !matches!(rec.stage, EscrowStage::Created) {
            return Err(Error::InvalidTime);
        }
        let transfers = cancel_plan(rec.escrow_type, &rec.immutables, &self.book, &caller, now)?;
        self.set_stage(i, EscrowStage::Cancelled);
        Ok(transfers)
    }

    /// The taker recovers `amount` of the swap's token once the rescue delay
    /// has passed since deployment, whatever the swap's stage, which stays as
    /// it was.
    pub fn rescue_funds(
        &self,
        order_hash: [u8; 32],
        amount: i128,
        caller: Address,
        now: u64,
    ) -> (r: Result<Vec<Transfer>, Error>)
        ensures
            plan_is(r, registry_rescue_result(*self, order_hash@, caller, now, amount)),
    {
        let i = match self.find(&order_hash) {
            Some(i) => i,
            None => return Err(Error::InvalidImmutables),
        };
        let rec = self.records[i];
        rescue_plan(&rec.immutables, &self.book, &caller, now, self.rescue_delay, amount)
    }

    /// The index of the latest record under `order_hash`.
    fn find(&self, order_hash: &[u8; 32]) -> (r: Option<usize>)
        ensures
            r is None ==> self.record(order_hash@) is None,
            r matches Some(i) ==> {
                &&& i < self.records@.len()
                &&& self.records@[i as int].immutables.order_hash@ == order_hash@
                &&& self.record(order_hash@) == Some(self.records@[i as int])
                &&& forall|j: int|
                    i < j < self.records@.len() ==> self.records@[j].immutables.order_hash@
                        != order_hash@
            },
    {
        let mut i: usize = self.records.len();
        while i > 0
            invariant
                i <= self.records@.len(),
                forall|j: int|
                    i <= j < self.records@.len() ==> self.records@[j].immutables.order_hash@
                        != order_hash@,
            decreases i,
        {
            if same_bytes(&self.records[i - 1].immutables.order_hash, order_hash) {
                proof {
                    lemma_record_update(
                        self.records@,
                        i - 1,
                        self.records@[i - 1],
                        order_hash@,
                    );
                    assert(self.records@.update(i - 1, self.records@[i - 1]) =~= self.records@);
                }
                return Some(i - 1);
            }
            i = i - 1;
        }
        proof {
            lemma_no_record(self.records@, order_hash@);
        }
        None
    }
}

/// Once an order hash has a record, creating another record under the same
/// hash, of either side, is refused as already existing (the refusal leaves the
/// registry unchanged: see `create_escrow`).
pub proof fn lemma_duplicate_refused(f: EscrowFactory, second: Immutables)
    requires
        f.record(second.order_hash@) is Some,
        amounts_valid(second),
        timelocks_valid(second.timelocks),
    ensures
        create_error(f, second) == Some(Error::InvalidImmutables),
{
}

/// The gates of a withdrawal from a stored swap: once the swap has left
/// `Created` every withdrawal is refused with `InvalidTime`; a wrong secret is
/// refused with `InvalidSecret` at any time; the right secret before the
/// withdrawal window opens is refused with `InvalidTime`.
pub proof fn lemma_withdraw_gates(
    f: EscrowFactory,
    key: Seq<u8>,
    public: bool,
    caller: Address,
    digest: Seq<u8>,
    now: u64,
)
    requires
        f.record(key) is Some,
    ensures
        ({
            let rec = f.record(key)->Some_0;
            let caller_ok = public || caller_result(
                f.address_book(),
                rec.immutables.taker,
                caller,
            ) is Ok;
            &&& rec.stage != EscrowStage::Created ==> registry_withdraw_result(
                f,
                key,
                public,
                caller,
                digest,
                now,
            ) == Err::<Seq<Transfer>, Error>(Error::InvalidTime)
            &&& rec.stage == EscrowStage::Created && caller_ok && digest != rec.immutables.hashlock@
                ==> registry_withdraw_result(f, key, public, caller, digest, now) == Err::<
                Seq<Transfer>,
                Error,
            >(Error::InvalidSecret)
            &&& rec.stage == EscrowStage::Created && caller_ok && digest == rec.immutables.hashlock@
                && now < deadline(
                    rec.immutables.timelocks,
                    withdrawal_stage(rec.escrow_type, public),
                )
                ==> registry_withdraw_result(f, key, public, caller, digest, now) == Err::<
                Seq<Transfer>,
                Error,
            >(Error::InvalidTime)
        }),
{
}

/// A withdrawal or cancellation of one swap leaves every other swap's record
/// and stage exactly as they were.
pub proof fn lemma_isolation(
    before: EscrowFactory,
    after: EscrowFactory,
    moved: Seq<u8>,
    stage: EscrowStage,
    other: Seq<u8>,
)
    requires
        moved_to(before, after, moved, stage),
        other != moved,
    ensures
        after.record(other) == before.record(other),
        stage_of(after, other) == stage_of(before, other),
{
}

proof fn lemma_no_record(s: Seq<EscrowRecord>, k: Seq<u8>)
    requires
        forall|j: int| 0 <= j < s.len() ==> s[j].immutables.order_hash@ != k,
    ensures
        record_in(s, k) is None,
    decreases s.len(),
{
    if s.len() > 0 {
        lemma_no_record(s.drop_last(), k);
    }
}

} // verus!
