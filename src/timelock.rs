//! Timelocks: a deployment timestamp and seven stage offsets, packed into one
//! 256-bit big-endian word laid out exactly as the companion EVM contract does.

use vstd::prelude::*;

verus! {

/// Errors of the timelock arithmetic and of its ordering rules.
#[derive(Clone, Copy, Debug, PartialEq, Eq, Structural)]
pub enum TimeLockError {
    RescueStartOverflow,
    TimelockValueOverflow,
    DeploymentTimestampNotSet,
    InvalidSourceChainTimelockOrdering,
    InvalidDestinationChainTimelockOrdering,
    TimelockOffsetTooLarge,
}

/// The seven protocol stages, in the order of their lanes in the packed word.
#[derive(Clone, Copy, Debug, PartialEq, Eq, Structural)]
pub enum Stage {
    SrcWithdrawal,
    SrcPublicWithdrawal,
    SrcCancellation,
    SrcPublicCancellation,
    DstWithdrawal,
    DstPublicWithdrawal,
    DstCancellation,
}

/// A deployment timestamp and the seven stage offsets relative to it.
#[derive(Clone, Copy, Debug, PartialEq, Eq, Structural)]
pub struct Timelocks {
    pub deployed_at: u32,
    pub src_withdrawal: u32,
    pub src_public_withdrawal: u32,
    pub src_cancellation: u32,
    pub src_public_cancellation: u32,
    pub dst_withdrawal: u32,
    pub dst_public_withdrawal: u32,
    pub dst_cancellation: u32,
}

/// The offset that `t` holds for stage `s`.
pub open spec fn offset_of(t: Timelocks, s: Stage) -> u32 {
    match s {
        Stage::SrcWithdrawal => t.src_withdrawal,
        Stage::SrcPublicWithdrawal => t.src_public_withdrawal,
        Stage::SrcCancellation => t.src_cancellation,
        Stage::SrcPublicCancellation => t.src_public_cancellation,
        Stage::DstWithdrawal => t.dst_withdrawal,
        Stage::DstPublicWithdrawal => t.dst_public_withdrawal,
        Stage::DstCancellation => t.dst_cancellation,
    }
}

/// Absolute time at which stage `s` begins.
pub open spec fn deadline(t: Timelocks, s: Stage) -> int {
    t.deployed_at as int + offset_of(t, s) as int
}

/// The four source offsets are strictly increasing.
pub open spec fn src_ordered(t: Timelocks) -> bool {
    t.src_withdrawal < t.src_public_withdrawal < t.src_cancellation < t.src_public_cancellation
}

/// The three destination offsets are strictly increasing.
pub open spec fn dst_ordered(t: Timelocks) -> bool {
    t.dst_withdrawal < t.dst_public_withdrawal < t.dst_cancellation
}

/// A deployed timelock set whose two chains are each ordered.
pub open spec fn timelocks_valid(t: Timelocks) -> bool {
    t.deployed_at != 0 && src_ordered(t) && dst_ordered(t)
}

/// What validation returns for `t`.
pub open spec fn validation_result(t: Timelocks) -> Result<(), TimeLockError> {
    if t.deployed_at == 0 {
        Err(TimeLockError::DeploymentTimestampNotSet)
    } else if !src_ordered(t) {
        Err(TimeLockError::InvalidSourceChainTimelockOrdering)
    } else if !dst_ordered(t) {
        Err(TimeLockError::InvalidDestinationChainTimelockOrdering)
    } else {
        Ok(())
    }
}

/// Big-endian bytes of a 32-bit lane.
pub open spec fn be32(x: u32) -> Seq<u8> {
    seq![
        ((x >> 24u32) & 0xffu32) as u8,
        ((x >> 16u32) & 0xffu32) as u8,
        ((x >> 8u32) & 0xffu32) as u8,
        (x & 0xffu32) as u8,
    ]
}

/// The 32-bit lane that four big-endian bytes hold.
pub open spec fn lane_of(b0: u8, b1: u8, b2: u8, b3: u8) -> u32 {
    ((b0 as u32) << 24u32) | ((b1 as u32) << 16u32) | ((b2 as u32) << 8u32) | (b3 as u32)
}

/// The 32-bit lane `k` (0 = most significant) of a packed word.
pub open spec fn lane(b: Seq<u8>, k: int) -> u32 {
    lane_of(b[4 * k], b[4 * k + 1], b[4 * k + 2], b[4 * k + 3])
}

/// The packed 256-bit word, as 32 big-endian bytes: `deployed_at` in the
/// highest lane, then the stage offsets in the order of `Stage`.
pub open spec fn packed(t: Timelocks) -> Seq<u8> {
    be32(t.deployed_at) + be32(t.src_withdrawal) + be32(t.src_public_withdrawal) + be32(
        t.src_cancellation,
    ) + be32(t.src_public_cancellation) + be32(t.dst_withdrawal) + be32(t.dst_public_withdrawal)
        + be32(t.dst_cancellation)
}

/// The timelocks that a packed word describes.
pub open spec fn unpacked(b: Seq<u8>) -> Timelocks {
    Timelocks {
        deployed_at: lane(b, 0),
        src_withdrawal: lane(b, 1),
        src_public_withdrawal: lane(b, 2),
        src_cancellation: lane(b, 3),
        src_public_cancellation: lane(b, 4),
        dst_withdrawal: lane(b, 5),
        dst_public_withdrawal: lane(b, 6),
        dst_cancellation: lane(b, 7),
    }
}

proof fn lemma_lane_round_trip(x: u32)
    ensures
        lane_of(be32(x)[0], be32(x)[1], be32(x)[2], be32(x)[3]) == x,
{
    assert(lane_of(
        ((x >> 24u32) & 0xffu32) as u8,
        ((x >> 16u32) & 0xffu32) as u8,
        ((x >> 8u32) & 0xffu32) as u8,
        (x & 0xffu32) as u8,
    ) == x) by (bit_vector);
}

proof fn lemma_bytes_round_trip(b0: u8, b1: u8, b2: u8, b3: u8)
    ensures
        be32(lane_of(b0, b1, b2, b3)) == seq![b0, b1, b2, b3],
{
    let x = lane_of(b0, b1, b2, b3);
    assert(((x >> 24u32) & 0xffu32) as u8 == b0 && ((x >> 16u32) & 0xffu32) as u8 == b1 && ((x
        >> 8u32) & 0xffu32) as u8 == b2 && (x & 0xffu32) as u8 == b3) by (bit_vector)
        requires
            x == ((b0 as u32) << 24u32) | ((b1 as u32) << 16u32) | ((b2 as u32) << 8u32) | (
            b3 as u32),
    ;
    assert(be32(x) =~= seq![b0, b1, b2, b3]);
}

/// Decoding the packed word of any timelocks gives back the same fields.
pub proof fn lemma_pack_round_trip(t: Timelocks)
    ensures
        packed(t).len() == 32,
        unpacked(packed(t)) == t,
{
    let p = packed(t);
    lemma_lane_round_trip(t.deployed_at);
    lemma_lane_round_trip(t.src_withdrawal);
    lemma_lane_round_trip(t.src_public_withdrawal);
    lemma_lane_round_trip(t.src_cancellation);
    lemma_lane_round_trip(t.src_public_cancellation);
    lemma_lane_round_trip(t.dst_withdrawal);
    lemma_lane_round_trip(t.dst_public_withdrawal);
    lemma_lane_round_trip(t.dst_cancellation);
    assert(lane(p, 0) == t.deployed_at);
    assert(lane(p, 1) == t.src_withdrawal);
    assert(lane(p, 2) == t.src_public_withdrawal);
    assert(lane(p, 3) == t.src_cancellation);
    assert(lane(p, 4) == t.src_public_cancellation);
    assert(lane(p, 5) == t.dst_withdrawal);
    assert(lane(p, 6) == t.dst_public_withdrawal);
    assert(lane(p, 7) == t.dst_cancellation);
}

/// Packing the timelocks that any 32-byte word describes gives back that word.
pub proof fn lemma_unpack_round_trip(b: Seq<u8>)
    requires
        b.len() == 32,
    ensures
        packed(unpacked(b)) == b,
{
    assert forall|k: int| 0 <= k < 8 implies be32(lane(b, k)) == b.subrange(4 * k, 4 * k + 4) by {
        lemma_bytes_round_trip(b[4 * k], b[4 * k + 1], b[4 * k + 2], b[4 * k + 3]);
        assert(b.subrange(4 * k, 4 * k + 4) =~= seq![
            b[4 * k],
            b[4 * k + 1],
            b[4 * k + 2],
            b[4 * k + 3],
        ]);
    }
    let t = unpacked(b);
    assert(be32(lane(b, 0)) == b.subrange(0, 4));
    assert(be32(lane(b, 1)) == b.subrange(4, 8));
    assert(be32(lane(b, 2)) == b.subrange(8, 12));
    assert(be32(lane(b, 3)) == b.subrange(12, 16));
    assert(be32(lane(b, 4)) == b.subrange(16, 20));
    assert(be32(lane(b, 5)) == b.subrange(20, 24));
    assert(be32(lane(b, 6)) == b.subrange(24, 28));
    assert(be32(lane(b, 7)) == b.subrange(28, 32));
    assert(packed(t) =~= b);
}

fn be32_bytes(x: u32) -> (r: [u8; 4])
    ensures
        r@ == be32(x),
{
    let r = [
        ((x >> 24u32) & 0xffu32) as u8,
        ((x >> 16u32) & 0xffu32) as u8,
        ((x >> 8u32) & 0xffu32) as u8,
        (x & 0xffu32) as u8,
    ];
    assert(r@ =~= be32(x));
    r
}

fn read_lane(b: &[u8; 32], k: usize) -> (r: u32)
    requires
        k < 8,
    ensures
        r == lane(b@, k as int),
{
    let i = 4 * k;
    ((b[i] as u32) << 24u32) | ((b[i + 1] as u32) << 16u32) | ((b[i + 2] as u32) << 8u32) | (b[i
        + 3] as u32)
}

impl Timelocks {
    /// Builds timelocks from a deployment time and seven offsets. No ordering
    /// is checked here: see `validate_timelocks`.
    pub fn new(
        deployed_at: u32,
        src_withdrawal: u32,
        src_public_withdrawal: u32,
        src_cancellation: u32,
        src_public_cancellation: u32,
        dst_withdrawal: u32,
        dst_public_withdrawal: u32,
        dst_cancellation: u32,
    ) -> (r: Timelocks)
        ensures
            r == (Timelocks {
                deployed_at,
                src_withdrawal,
                src_public_withdrawal,
                src_cancellation,
                src_public_cancellation,
                dst_withdrawal,
                dst_public_withdrawal,
                dst_cancellation,
            }),
    {
        Timelocks {
            deployed_at,
            src_withdrawal,
            src_public_withdrawal,
            src_cancellation,
            src_public_cancellation,
            dst_withdrawal,
            dst_public_withdrawal,
            dst_cancellation,
        }
    }

    /// Replaces the deployment timestamp, keeping every offset.
    pub fn set_deployed_at(&mut self, value: u32)
        ensures
            *final(self) == (Timelocks { deployed_at: value, ..*old(self) }),
    {
        self.deployed_at = value;
    }

    /// The deployment timestamp (the highest lane of the packed word).
    pub fn get_deployed_at(&self) -> (r: u32)
        ensures
            r == self.deployed_at,
    {
        self.deployed_at
    }

    /// The raw offset of a stage, relative to the deployment timestamp.
    pub fn get_stage_offset(&self, stage: Stage) -> (r: u32)
        ensures
            r == offset_of(*self, stage),
    {
        match stage {
            Stage::SrcWithdrawal => self.src_withdrawal,
            Stage::SrcPublicWithdrawal => self.src_public_withdrawal,
            Stage::SrcCancellation => self.src_cancellation,
            Stage::SrcPublicCancellation => self.src_public_cancellation,
            Stage::DstWithdrawal => self.dst_withdrawal,
            Stage::DstPublicWithdrawal => self.dst_public_withdrawal,
            Stage::DstCancellation => self.dst_cancellation,
        }
    }

    /// The absolute time at which a stage begins: `deployed_at + offset`,
    /// added with overflow checking (two 32-bit values always fit in 64 bits).
    pub fn get_stage_timestamp(&self, stage: Stage) -> (r: Result<u64, TimeLockError>)
        ensures
            r matches Ok(v) && v == deadline(*self, stage),
    {
        let deployed_at = self.get_deployed_at() as u64;
        let offset = self.get_stage_offset(stage) as u64;
        match deployed_at.checked_add(offset) {
            Some(v) => Ok(v),
            None => Err(TimeLockError::TimelockValueOverflow),
        }
    }

    /// The packed 256-bit word as 32 big-endian bytes.
    pub fn to_bytes(&self) -> (r: [u8; 32])
        ensures
            r@ == packed(*self),
    {
        let a = be32_bytes(self.deployed_at);
        let b = be32_bytes(self.src_withdrawal);
        let c = be32_bytes(self.src_public_withdrawal);
        let d = be32_bytes(self.src_cancellation);
        let e = be32_bytes(self.src_public_cancellation);
        let f = be32_bytes(self.dst_withdrawal);
        let g = be32_bytes(self.dst_public_withdrawal);
        let h = be32_bytes(self.dst_cancellation);
        let r = [
            a[0], a[1], a[2], a[3], b[0], b[1], b[2], b[3],
            c[0], c[1], c[2], c[3], d[0], d[1], d[2], d[3],
            e[0], e[1], e[2], e[3], f[0], f[1], f[2], f[3],
            g[0], g[1], g[2], g[3], h[0], h[1], h[2], h[3],
        ];
        assert(r@ =~= packed(*self));
        r
    }

    /// Reads timelocks back from their packed 32-byte form.
    pub fn from_bytes(bytes: [u8; 32]) -> (r: Timelocks)
        ensures
            r == unpacked(bytes@),
    {
        Timelocks {
            deployed_at: read_lane(&bytes, 0),
            src_withdrawal: read_lane(&bytes, 1),
            src_public_withdrawal: read_lane(&bytes, 2),
            src_cancellation: read_lane(&bytes, 3),
            src_public_cancellation: read_lane(&bytes, 4),
            dst_withdrawal: read_lane(&bytes, 5),
            dst_public_withdrawal: read_lane(&bytes, 6),
            dst_cancellation: read_lane(&bytes, 7),
        }
    }
}

/// The time from which funds may be rescued: `deployed_at + rescue_delay`,
/// or `RescueStartOverflow` where that sum does not fit in 64 bits.
pub fn rescue_start(timelocks: &Timelocks, rescue_delay: u64) -> (r: Result<u64, TimeLockError>)
    ensures
        timelocks.deployed_at as int + rescue_delay as int <= u64::MAX ==> r == Ok::<
            u64,
            TimeLockError,
        >((timelocks.deployed_at as int + rescue_delay as int) as u64),
        timelocks.deployed_at as int + rescue_delay as int > u64::MAX ==> r == Err::<
            u64,
            TimeLockError,
        >(TimeLockError::RescueStartOverflow),
{
    let deployed_at = timelocks.get_deployed_at() as u64;
    match deployed_at.checked_add(rescue_delay) {
        Some(v) => Ok(v),
        None => Err(TimeLockError::RescueStartOverflow),
    }
}

/// The absolute time at which `stage` begins.
pub fn get(timelocks: &Timelocks, stage: Stage) -> (r: Result<u64, TimeLockError>)
    ensures
        r matches Ok(v) && v == deadline(*timelocks, stage),
{
    timelocks.get_stage_timestamp(stage)
}

/// Checks that the timelocks were deployed and that each chain's stages are in
/// strictly increasing order; the first rule broken is reported.
pub fn validate_timelocks(timelocks: &Timelocks) -> (r: Result<(), TimeLockError>)
    ensures
        r == validation_result(*timelocks),
        r is Ok <==> timelocks_valid(*timelocks),
{
    if timelocks.get_deployed_at() == 0 {
        return Err(TimeLockError::DeploymentTimestampNotSet);
    }
    let src_withdrawal = timelocks.get_stage_offset(Stage::SrcWithdrawal);
    let src_public_withdrawal = timelocks.get_stage_offset(Stage::SrcPublicWithdrawal);
    let src_cancellation = timelocks.get_stage_offset(Stage::SrcCancellation);
    let src_public_cancellation = timelocks.get_stage_offset(Stage::SrcPublicCancellation);
    if src_withdrawal >= src_public_withdrawal || src_public_withdrawal >= src_cancellation
        || src_cancellation >= src_public_cancellation {
        return Err(TimeLockError::InvalidSourceChainTimelockOrdering);
    }
    let dst_withdrawal = timelocks.get_stage_offset(Stage::DstWithdrawal);
    let dst_public_withdrawal = timelocks.get_stage_offset(Stage::DstPublicWithdrawal);
    let dst_cancellation = timelocks.get_stage_offset(Stage::DstCancellation);
    if dst_withdrawal >= dst_public_withdrawal || dst_public_withdrawal >= dst_cancellation {
        return Err(TimeLockError::InvalidDestinationChainTimelockOrdering);
    }
    Ok(())
}

/// Every stage of valid timelocks begins at `deployed_at` plus its offset, and
/// two stages begin at the same time exactly when their offsets are equal.
pub proof fn lemma_stage_deadlines(t: Timelocks, s1: Stage, s2: Stage)
    requires
        timelocks_valid(t),
    ensures
        deadline(t, s1) == t.deployed_at + offset_of(t, s1),
        deadline(t, s1) <= u64::MAX,
        deadline(t, s1) == deadline(t, s2) <==> offset_of(t, s1) == offset_of(t, s2),
{
}

/// Validation reports a source ordering error exactly when the four source
/// offsets are not strictly increasing (for deployed timelocks), and a
/// destination ordering error exactly when the source side is ordered and the
/// three destination offsets are not.
pub proof fn lemma_ordering_errors(t: Timelocks)
    requires
        t.deployed_at != 0,
    ensures
        validation_result(t) == Err::<(), TimeLockError>(
            TimeLockError::InvalidSourceChainTimelockOrdering,
        ) <==> !src_ordered(t),
        validation_result(t) == Err::<(), TimeLockError>(
            TimeLockError::InvalidDestinationChainTimelockOrdering,
        ) <==> (src_ordered(t) && !dst_ordered(t)),
{
}


} // verus!
