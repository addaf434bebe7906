//! The full instruction-processing path over plain values: validate the
//! caller's authorization, check the supplied storage address against the
//! derived one, initialize or decode the record, apply the mutation, and
//! produce the exact bytes to commit. The enclosing runtime performs the
//! storage operations; on any error it discards all attempted effects.

use crate::address::derive_user_stats_address;
use crate::address::supplied_address_valid;
use crate::error::StatsError;
use crate::instruction::CarepanionInstruction;
use crate::instruction::instruction_well_formed;
use crate::record::REWARD_LAMPORTS;
use crate::record::UserStats;
use crate::record::bytes32_eq;
use crate::record::fresh_stats;
use crate::record::lemma_stats_accumulation;
use crate::record::run_stats;
use crate::record::stats_bytes;
use crate::record::updated_stats;
use crate::record::stats_bytes_well_formed;
use vstd::bytes::spec_u64_from_le_bytes;
use vstd::prelude::*;

verus! {

broadcast use vstd::array::group_array_axioms;

/// The minimum balance the runtime requires for a slot of the given size to
/// remain alive indefinitely, under the runtime's default storage-rent rules.
pub open spec fn spec_rent_minimum(space: int) -> int {
    (128 + space) * 6960
}

/// Whether one more label can be accrued into the record encoded in `data`
/// without overflowing its counters; trivially true of bytes that do not
/// decode, since those are rejected before any mutation.
pub open spec fn can_accrue(data: Seq<u8>) -> bool {
    stats_bytes_well_formed(data) ==> {
        &&& spec_u64_from_le_bytes(data.subrange(32, 40)) < u64::MAX
        &&& spec_u64_from_le_bytes(data.subrange(48, 56)) + REWARD_LAMPORTS <= u64::MAX
    }
}

/// `can_accrue` lifted to an optional slot content.
pub open spec fn slot_can_accrue(slot: Option<Seq<u8>>) -> bool {
    match slot {
        Some(d) => can_accrue(d),
        None => true,
    }
}

/// The contents of an optional slot.
pub open spec fn slot_view(slot_data: Option<&Vec<u8>>) -> Option<Seq<u8>> {
    match slot_data {
        Some(d) => Some(d@),
        None => None,
    }
}

/// Everything a successful invocation asks of the runtime: the updated
/// record, the exact bytes to commit at the storage address, whether the
/// slot must first be created and with how much funding, and the request
/// fields carried through for observability.
#[derive(Debug)]
pub struct LabelOutcome {
    /// The record after the mutation.
    pub record: UserStats,
    /// The record in its fixed 57-byte layout, to be committed whole.
    pub record_bytes: Vec<u8>,
    /// Whether the slot was empty and must be created before the commit.
    pub created: bool,
    /// Funding owed for the creation; zero when no slot is created.
    pub fund_lamports: u64,
    /// Hash of the label data, from the request.
    pub label_hash: [u8; 32],
    /// Audio file identifier, from the request.
    pub audio_id: u64,
}

/// The fields a successful invocation leaves in the record, given the slot
/// contents it started from: on an empty slot, the caller's fresh record
/// after its first label; on a populated slot, the stored record with one
/// more label and one more fixed reward. In either case the record is
/// stamped with the invocation's trusted timestamp.
pub open spec fn record_after_invocation(
    rec: UserStats,
    slot: Option<Seq<u8>>,
    caller: Seq<u8>,
    timestamp: i64,
) -> bool {
    &&& match slot {
        None => {
            &&& rec.owner@ == caller
            &&& rec.total_labels == 1
            &&& rec.total_rewards_earned == REWARD_LAMPORTS
            &&& rec.is_initialized
        },
        Some(d) => {
            &&& rec.owner@ == d.subrange(0, 32)
            &&& rec.total_labels == spec_u64_from_le_bytes(d.subrange(32, 40)) + 1
            &&& rec.total_rewards_earned == spec_u64_from_le_bytes(d.subrange(48, 56))
                + REWARD_LAMPORTS
            &&& rec.is_initialized == (d[56] == 1)
        },
    }
    &&& rec.last_label_time == timestamp
}

/// What processing one `RecordLabel` request returns, for every combination
/// of inputs: each error comes exactly on the inputs stated here, and a
/// success pins every field of the outcome.
pub open spec fn record_label_post(
    r: Result<LabelOutcome, StatsError>,
    program_id: Seq<u8>,
    caller: Seq<u8>,
    caller_is_signer: bool,
    supplied_address: Seq<u8>,
    slot: Option<Seq<u8>>,
    timestamp: i64,
    label_hash: Seq<u8>,
    audio_id: u64,
) -> bool {
    &&& (r is Ok <==> {
        &&& caller_is_signer
        &&& supplied_address_valid(caller, program_id, supplied_address)
        &&& (slot matches Some(d) ==> stats_bytes_well_formed(d))
    })
    &&& (!caller_is_signer ==> r == Err::<LabelOutcome, StatsError>(
        StatsError::MissingAuthorization,
    ))
    &&& (caller_is_signer && !supplied_address_valid(caller, program_id, supplied_address)
        ==> r == Err::<LabelOutcome, StatsError>(StatsError::AddressMismatch))
    &&& (r is Err && caller_is_signer && supplied_address_valid(
        caller,
        program_id,
        supplied_address,
    ) ==> r == Err::<LabelOutcome, StatsError>(StatsError::CorruptRecord))
    &&& (r matches Ok(o) ==> {
        &&& record_after_invocation(o.record, slot, caller, timestamp)
        &&& o.created == (slot is None)
        &&& o.fund_lamports == if slot is None {
            spec_rent_minimum(57)
        } else {
            0
        }
        &&& o.record_bytes@ == stats_bytes(o.record)
        &&& o.record_bytes@.len() == 57
        &&& o.label_hash@ == label_hash
        &&& o.audio_id == audio_id
    })
}

/// Relies on `solana_program::rent::Rent::minimum_balance` of the runtime's
/// default rent configuration (`Rent::default()`): 6960 native units per
/// byte-equivalent at an exemption threshold of one, so the minimum balance
/// for `space` bytes is `(128 + space) * 6960`, the 128 covering the
/// account's storage overhead; sizes up to 10 MiB are accepted.
#[verifier::external_body]
fn rent_minimum_balance(space: u64) -> (r: u64)
    requires
        space <= 10485760,
    ensures
        r == spec_rent_minimum(space as int),
{
    solana_program::rent::Rent::default().minimum_balance(space as usize)
}

/// Processes one validated `RecordLabel` request: checks authorization and
/// the storage address, starts from a zero record on an empty slot or
/// decodes the existing one, and applies the mutation. Pure with respect to
/// storage: the caller commits `record_bytes` (and creates the slot first,
/// when asked) only on success.
pub fn process_record_label(
    program_id: &[u8; 32],
    caller: &[u8; 32],
    caller_is_signer: bool,
    supplied_address: &[u8; 32],
    slot_data: Option<&Vec<u8>>,
    timestamp: i64,
    label_hash: &[u8; 32],
    audio_id: u64,
) -> (r: Result<LabelOutcome, StatsError>)
    requires
        slot_can_accrue(slot_view(slot_data)),
    ensures
        record_label_post(
            r,
            program_id@,
            caller@,
            caller_is_signer,
            supplied_address@,
            slot_view(slot_data),
            timestamp,
            label_hash@,
            audio_id,
        ),
{
    if !caller_is_signer {
        return Err(StatsError::MissingAuthorization);
    }
    let derived = derive_user_stats_address(caller, program_id);
    let address_ok = match &derived {
        Some(p) => bytes32_eq(&p.0, supplied_address),
        None => false,
    };
    if !address_ok {
        return Err(StatsError::AddressMismatch);
    }
    let (mut record, created, fund_lamports) = match slot_data {
        None => (fresh_record(caller), true, rent_minimum_balance(57)),
        Some(d) => match UserStats::deserialize_record(d.as_slice()) {
            Some(s) => (s, false, 0u64),
            None => {
                return Err(StatsError::CorruptRecord);
            },
        },
    };
    record.total_labels = record.total_labels + 1;
    record.last_label_time = timestamp;
    record.total_rewards_earned = record.total_rewards_earned + REWARD_LAMPORTS;
    let record_bytes = record.serialize_record();
    Ok(
        LabelOutcome {
            record,
            record_bytes,
            created,
            fund_lamports,
            label_hash: *label_hash,
            audio_id,
        },
    )
}

/// The zero-valued record a fresh slot starts from.
fn fresh_record(owner: &[u8; 32]) -> (r: UserStats)
    ensures
        r == fresh_stats(*owner),
{
    UserStats {
        owner: *owner,
        total_labels: 0,
        last_label_time: 0,
        total_rewards_earned: 0,
        is_initialized: true,
    }
}

/// Decodes the instruction payload and processes the request it carries.
/// This is the whole path of one invocation, from opaque payload to the
/// bytes to commit.
pub fn process_instruction(
    program_id: &[u8; 32],
    caller: &[u8; 32],
    caller_is_signer: bool,
    supplied_address: &[u8; 32],
    slot_data: Option<&Vec<u8>>,
    timestamp: i64,
    instruction_data: &[u8],
) -> (r: Result<LabelOutcome, StatsError>)
    requires
        slot_can_accrue(slot_view(slot_data)),
    ensures
        !instruction_well_formed(instruction_data@) ==> r == Err::<LabelOutcome, StatsError>(
            StatsError::MalformedRequest,
        ),
        instruction_well_formed(instruction_data@) ==> record_label_post(
            r,
            program_id@,
            caller@,
            caller_is_signer,
            supplied_address@,
            slot_view(slot_data),
            timestamp,
            instruction_data@.subrange(1, 33),
            spec_u64_from_le_bytes(instruction_data@.subrange(33, 41)),
        ),
{
    let decoded = CarepanionInstruction::decode(instruction_data);
    match decoded {
        Err(e) => Err(e),
        Ok(CarepanionInstruction::RecordLabel { label_hash, audio_id }) => process_record_label(
            program_id,
            caller,
            caller_is_signer,
            supplied_address,
            slot_data,
            timestamp,
            &label_hash,
            audio_id,
        ),
    }
}

/// Monotonic accumulation, end to end: when a slot holds the record left by
/// `timestamps.len()` consecutive successful invocations (none when there
/// were none yet), the record a further successful invocation leaves is
/// exactly the one after `timestamps.len() + 1` of them — so `n` successful
/// invocations yield `total_labels == n` and `total_rewards_earned ==
/// n * REWARD_LAMPORTS`, by `lemma_stats_accumulation`.
pub proof fn lemma_invocation_extends_run(
    owner: [u8; 32],
    timestamps: Seq<i64>,
    rec: UserStats,
    timestamp: i64,
)
    requires
        (timestamps.len() + 1) * REWARD_LAMPORTS <= u64::MAX,
        record_after_invocation(
            rec,
            if timestamps.len() == 0 {
                None
            } else {
                Some(stats_bytes(run_stats(owner, timestamps)))
            },
            owner@,
            timestamp,
        ),
    ensures
        rec == run_stats(owner, timestamps.push(timestamp)),
{
    let n = timestamps.len();
    assert(n * REWARD_LAMPORTS + REWARD_LAMPORTS == (n + 1) * REWARD_LAMPORTS) by (nonlinear_arith);
    assert(n + 1 <= (n + 1) * REWARD_LAMPORTS) by (nonlinear_arith)
        requires
            REWARD_LAMPORTS >= 1,
    ;
    if n == 0 {
        crate::record::lemma_first_step_is_fresh_update(owner, rec, timestamp);
        assert(timestamps.push(timestamp) =~= seq![timestamp]);
    } else {
        lemma_stats_accumulation(owner, timestamps);
        let s0 = run_stats(owner, timestamps);
        crate::record::lemma_record_round_trip(s0);
        crate::record::lemma_step_is_update(s0, rec, stats_bytes(s0), timestamp);
        assert(timestamps.push(timestamp).drop_last() =~= timestamps);
        assert(run_stats(owner, timestamps.push(timestamp)) == updated_stats(s0, timestamp));
    }
}

} // verus!
