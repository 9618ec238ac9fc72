//! The immutable record of one swap, its canonical cross-chain hash, and the
//! table that maps foreign (20-byte) addresses to local accounts.

use vstd::prelude::*;
use crate::escrow::Error;
use crate::timelock::{lemma_pack_round_trip, packed, Timelocks};

verus! {

/// A local account, by its 32-byte identifier.
#[derive(Clone, Copy, Debug, PartialEq, Eq)]
pub struct Address {
    pub bytes: [u8; 32],
}

/// One party as seen from each chain: its 20-byte foreign address and its
/// local account.
#[derive(Clone, Copy, Debug, PartialEq, Eq)]
pub struct DualAddress {
    pub evm: [u8; 20],
    pub stellar: Address,
}

/// The complete description of one swap.
#[derive(Clone, Copy, Debug, PartialEq, Eq)]
pub struct Immutables {
    pub order_hash: [u8; 32],
    pub hashlock: [u8; 32],
    pub maker: DualAddress,
    pub taker: DualAddress,
    pub token: DualAddress,
    pub amount: i128,
    pub safety_deposit: i128,
    pub timelocks: Timelocks,
}

/// The name of keccak-256: the 32-byte digest of `data`.
pub uninterp spec fn keccak256_of(data: Seq<u8>) -> Seq<u8>;

/// Relies on soroban_sdk's `Crypto::keccak256`, run on a fresh host
/// environment: the digest depends on the bytes alone. Inputs stay small, well
/// inside the host's default resource budget.
#[verifier::external_body]
pub(crate) fn keccak256(data: &[u8]) -> (r: [u8; 32])
    requires
        data@.len() <= 4096,
    ensures
        r@ == keccak256_of(data@),
{
    let env = soroban_sdk::Env::default();
    let bytes = soroban_sdk::Bytes::from_slice(&env, data);
    env.crypto().keccak256(&bytes).into()
}

/// An amount is positive and a safety deposit is not negative.
pub open spec fn amounts_valid(m: Immutables) -> bool {
    m.amount > 0 && m.safety_deposit >= 0
}

/// A 20-byte foreign address, left-padded with zeros to a 32-byte word.
pub open spec fn address_word(a: Seq<u8>) -> Seq<u8> {
    Seq::new(12, |i: int| 0u8) + a
}

/// The 16 big-endian bytes of a 128-bit value.
pub open spec fn be128(v: u128) -> Seq<u8> {
    Seq::new(16, |i: int| ((v >> ((120 - 8 * i) as u32)) & 0xffu128) as u8)
}

/// A non-negative amount as a 16-byte big-endian value right-aligned in a
/// 32-byte word.
pub open spec fn amount_word(a: i128) -> Seq<u8> {
    Seq::new(16, |i: int| 0u8) + be128(a as u128)
}

/// The bytes that are hashed to identify a swap on both chains. Only the
/// foreign address of each party enters them.
pub open spec fn preimage(m: Immutables) -> Seq<u8> {
    m.order_hash@ + m.hashlock@ + address_word(m.maker.evm@) + address_word(m.taker.evm@)
        + address_word(m.token.evm@) + amount_word(m.amount) + amount_word(m.safety_deposit)
        + packed(m.timelocks)
}

/// Whether two addresses are the same account.
pub fn same_address(a: &Address, b: &Address) -> (r: bool)
    ensures
        r == (*a == *b),
{
    let mut i: usize = 0;
    while i < 32
        invariant
            i <= 32,
            forall|j: int| 0 <= j < i ==> a.bytes@[j] == b.bytes@[j],
        decreases 32 - i,
    {
        if a.bytes[i] != b.bytes[i] {
            return false;
        }
        i = i + 1;
    }
    assert(a.bytes =~= b.bytes);
    true
}

/// Whether two fixed-size byte strings are equal.
pub fn same_bytes<const N: usize>(a: &[u8; N], b: &[u8; N]) -> (r: bool)
    ensures
        r == (a@ == b@),
{
    let mut i: usize = 0;
    while i < N
        invariant
            i <= N,
            a@.len() == N,
            b@.len() == N,
            forall|j: int| 0 <= j < i ==> a@[j] == b@[j],
        decreases N - i,
    {
        if a[i] != b[i] {
            return false;
        }
        i = i + 1;
    }
    assert(a@ =~= b@);
    true
}

fn push_bytes(out: &mut Vec<u8>, b: &[u8])
    ensures
        final(out)@ == old(out)@ + b@,
{
    let ghost start = out@;
    let mut i: usize = 0;
    while i < b.len()
        invariant
            i <= b@.len(),
            out@ == start + b@.subrange(0, i as int),
        decreases b@.len() - i,
    {
        out.push(b[i]);
        i = i + 1;
        assert(out@ =~= start + b@.subrange(0, i as int));
    }
    assert(b@.subrange(0, b@.len() as int) =~= b@);
}

fn push_zeros(out: &mut Vec<u8>, n: usize)
    ensures
        final(out)@ == old(out)@ + Seq::new(n as nat, |i: int| 0u8),
{
    let ghost start = out@;
    let mut i: usize = 0;
    while i < n
        invariant
            i <= n,
            out@ == start + Seq::new(i as nat, |j: int| 0u8),
        decreases n - i,
    {
        out.push(0u8);
        i = i + 1;
        assert(out@ =~= start + Seq::new(i as nat, |j: int| 0u8));
    }
}

fn push_amount(out: &mut Vec<u8>, a: i128)
    requires
        a >= 0,
    ensures
        final(out)@ == old(out)@ + amount_word(a),
{
    push_zeros(out, 16);
    let ghost start = out@;
    let v = a as u128;
    let mut i: usize = 0;
    while i < 16
        invariant
            i <= 16,
            v == a as u128,
            out@ == start + be128(v).subrange(0, i as int),
        decreases 16 - i,
    {
        let shift = (120 - 8 * i) as u32;
        out.push(((v >> shift) & 0xffu128) as u8);
        i = i + 1;
        assert(out@ =~= start + be128(v).subrange(0, i as int));
    }
    assert(be128(v).subrange(0, 16) =~= be128(v));
}

/// Checks that the amount is positive and the safety deposit not negative.
pub fn validate_amounts(immutables: &Immutables) -> (r: Result<(), Error>)
    ensures
        amounts_valid(*immutables) ==> r is Ok,
        !amounts_valid(*immutables) ==> r == Err::<(), Error>(Error::InvalidImmutables),
{
    if immutables.amount <= 0 {
        return Err(Error::InvalidImmutables);
    }
    if immutables.safety_deposit < 0 {
        return Err(Error::InvalidImmutables);
    }
    Ok(())
}

/// The bytes that identify a swap, laid out word by word as the companion EVM
/// contract hashes them.
pub fn encode(immutables: &Immutables) -> (r: Vec<u8>)
    requires
        amounts_valid(*immutables),
    ensures
        r@ == preimage(*immutables),
        r@.len() == 256,
{
    let mut out: Vec<u8> = Vec::new();
    push_bytes(&mut out, immutables.order_hash.as_slice());
    push_bytes(&mut out, immutables.hashlock.as_slice());
    push_zeros(&mut out, 12);
    push_bytes(&mut out, immutables.maker.evm.as_slice());
    push_zeros(&mut out, 12);
    push_bytes(&mut out, immutables.taker.evm.as_slice());
    push_zeros(&mut out, 12);
    push_bytes(&mut out, immutables.token.evm.as_slice());
    push_amount(&mut out, immutables.amount);
    push_amount(&mut out, immutables.safety_deposit);
    let packed_timelocks = immutables.timelocks.to_bytes();
    push_bytes(&mut out, packed_timelocks.as_slice());
    assert(out@ =~= preimage(*immutables));
    out
}

/// The canonical cross-chain hash of a swap: keccak-256 of its preimage.
/// Amounts are checked first, and a bad amount is reported instead.
pub fn hash(immutables: &Immutables) -> (r: Result<[u8; 32], Error>)
    ensures
        amounts_valid(*immutables) ==> (r matches Ok(h) && h@ == keccak256_of(
            preimage(*immutables),
        )),
        !amounts_valid(*immutables) ==> r == Err::<[u8; 32], Error>(Error::InvalidImmutables),
{
    validate_amounts(immutables)?;
    let bytes = encode(immutables);
    Ok(keccak256(bytes.as_slice()))
}

/// The local account that the latest entry of `entries` gives for `evm`.
pub open spec fn lookup_in(entries: Seq<DualAddress>, evm: Seq<u8>) -> Option<Address>
    decreases entries.len(),
{
    if entries.len() == 0 {
        None
    } else if entries.last().evm@ == evm {
        Some(entries.last().stellar)
    } else {
        lookup_in(entries.drop_last(), evm)
    }
}

/// Maps foreign addresses to local accounts. Entries are only ever added; the
/// latest one for an address wins.
#[derive(Debug)]
pub struct AddressBook {
    entries: Vec<DualAddress>,
}

impl AddressBook {
    /// The local account recorded for a foreign address, if any.
    pub closed spec fn lookup(&self, evm: Seq<u8>) -> Option<Address> {
        lookup_in(self.entries@, evm)
    }

    /// An empty table.
    pub fn new() -> (r: AddressBook)
        ensures
            forall|k: Seq<u8>| #[trigger] r.lookup(k) is None,
    {
        AddressBook { entries: Vec::new() }
    }
}

/// Records that `evm` stands for `stellar`. Repeating a mapping that is
/// already in force changes nothing; a new local account for an address
/// replaces the old one.
pub fn map_evm_to_stellar(book: &mut AddressBook, evm: [u8; 20], stellar: Address)
    ensures
        final(book).lookup(evm@) == Some(stellar),
        forall|k: Seq<u8>| k != evm@ ==> #[trigger] final(book).lookup(k) == old(book).lookup(k),
        old(book).lookup(evm@) == Some(stellar) ==> *final(book) == *old(book),
{
    if let Some(current) = get_stellar_addr(book, &evm) {
        if same_address(&current, &stellar) {
            return;
        }
    }
    let ghost before = book.entries@;
    book.entries.push(DualAddress { evm, stellar });
    assert(book.entries@.drop_last() =~= before);
    assert forall|k: Seq<u8>| k != evm@ implies #[trigger] lookup_in(book.entries@, k) == lookup_in(
        before,
        k,
    ) by {}
}

/// The local account mapped to a foreign address, or `None`.
pub fn get_stellar_addr(book: &AddressBook, evm: &[u8; 20]) -> (r: Option<Address>)
    ensures
        r == book.lookup(evm@),
{
    let mut i: usize = book.entries.len();
    assert(book.entries@.subrange(0, i as int) =~= book.entries@);
    while i > 0
        invariant
            i <= book.entries@.len(),
            lookup_in(book.entries@, evm@) == lookup_in(book.entries@.subrange(0, i as int), evm@),
        decreases i,
    {
        let ghost prefix = book.entries@.subrange(0, i as int);
        assert(prefix.drop_last() =~= book.entries@.subrange(0, i - 1));
        if same_bytes(&book.entries[i - 1].evm, evm) {
            return Some(book.entries[i - 1].stellar);
        }
        i = i - 1;
    }
    None
}

proof fn lemma_be128_injective(v: u128, w: u128)
    requires
        be128(v) == be128(w),
    ensures
        v == w,
{
    assert forall|i: int| 0 <= i < 16 implies be128(v)[i] == be128(w)[i] by {}
    let b = be128(v);
    let c = be128(w);
    assert(b[0] == c[0] && b[1] == c[1] && b[2] == c[2] && b[3] == c[3]);
    assert(b[4] == c[4] && b[5] == c[5] && b[6] == c[6] && b[7] == c[7]);
    assert(b[8] == c[8] && b[9] == c[9] && b[10] == c[10] && b[11] == c[11]);
    assert(b[12] == c[12] && b[13] == c[13] && b[14] == c[14] && b[15] == c[15]);
    assert(v == w) by (bit_vector)
        requires
            ((v >> 120u32) & 0xffu128) as u8 == ((w >> 120u32) & 0xffu128) as u8,
            ((v >> 112u32) & 0xffu128) as u8 == ((w >> 112u32) & 0xffu128) as u8,
            ((v >> 104u32) & 0xffu128) as u8 == ((w >> 104u32) & 0xffu128) as u8,
            ((v >> 96u32) & 0xffu128) as u8 == ((w >> 96u32) & 0xffu128) as u8,
            ((v >> 88u32) & 0xffu128) as u8 == ((w >> 88u32) & 0xffu128) as u8,
            ((v >> 80u32) & 0xffu128) as u8 == ((w >> 80u32) & 0xffu128) as u8,
            ((v >> 72u32) & 0xffu128) as u8 == ((w >> 72u32) & 0xffu128) as u8,
            ((v >> 64u32) & 0xffu128) as u8 == ((w >> 64u32) & 0xffu128) as u8,
            ((v >> 56u32) & 0xffu128) as u8 == ((w >> 56u32) & 0xffu128) as u8,
            ((v >> 48u32) & 0xffu128) as u8 == ((w >> 48u32) & 0xffu128) as u8,
            ((v >> 40u32) & 0xffu128) as u8 == ((w >> 40u32) & 0xffu128) as u8,
            ((v >> 32u32) & 0xffu128) as u8 == ((w >> 32u32) & 0xffu128) as u8,
            ((v >> 24u32) & 0xffu128) as u8 == ((w >> 24u32) & 0xffu128) as u8,
            ((v >> 16u32) & 0xffu128) as u8 == ((w >> 16u32) & 0xffu128) as u8,
            ((v >> 8u32) & 0xffu128) as u8 == ((w >> 8u32) & 0xffu128) as u8,
            ((v >> 0u32) & 0xffu128) as u8 == ((w >> 0u32) & 0xffu128) as u8,
    ;
}

/// The bytes hashed for a swap are determined by its hashed fields, and
/// determine them: two swaps with valid amounts have the same preimage exactly
/// when their order hashes, hashlocks, foreign addresses, amounts and
/// timelocks agree. So equal swaps hash equally, and changing any one of those
/// fields changes what is hashed; that a changed preimage changes the digest
/// is keccak-256's collision resistance, which is not proved here.
pub proof fn lemma_preimage_injective(a: Immutables, b: Immutables)
    requires
        amounts_valid(a),
        amounts_valid(b),
    ensures
        preimage(a) == preimage(b) <==> {
            &&& a.order_hash@ == b.order_hash@
            &&& a.hashlock@ == b.hashlock@
            &&& a.maker.evm@ == b.maker.evm@
            &&& a.taker.evm@ == b.taker.evm@
            &&& a.token.evm@ == b.token.evm@
            &&& a.amount == b.amount
            &&& a.safety_deposit == b.safety_deposit
            &&& a.timelocks == b.timelocks
        },
{
    if preimage(a) == preimage(b) {
        let p = preimage(a);
        let q = preimage(b);
        lemma_pack_round_trip(a.timelocks);
        lemma_pack_round_trip(b.timelocks);
        assert(p.subrange(0, 32) =~= a.order_hash@);
        assert(q.subrange(0, 32) =~= b.order_hash@);
        assert(p.subrange(32, 64) =~= a.hashlock@);
        assert(q.subrange(32, 64) =~= b.hashlock@);
        assert(p.subrange(76, 96) =~= a.maker.evm@);
        assert(q.subrange(76, 96) =~= b.maker.evm@);
        assert(p.subrange(108, 128) =~= a.taker.evm@);
        assert(q.subrange(108, 128) =~= b.taker.evm@);
        assert(p.subrange(140, 160) =~= a.token.evm@);
        assert(q.subrange(140, 160) =~= b.token.evm@);
        assert(p.subrange(176, 192) =~= be128(a.amount as u128));
        assert(q.subrange(176, 192) =~= be128(b.amount as u128));
        assert(p.subrange(208, 224) =~= be128(a.safety_deposit as u128));
        assert(q.subrange(208, 224) =~= be128(b.safety_deposit as u128));
        assert(p.subrange(224, 256) =~= packed(a.timelocks));
        assert(q.subrange(224, 256) =~= packed(b.timelocks));
        lemma_be128_injective(a.amount as u128, b.amount as u128);
        lemma_be128_injective(a.safety_deposit as u128, b.safety_deposit as u128);
    }
}

} // verus!
