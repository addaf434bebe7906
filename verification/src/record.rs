//! The persisted per-user statistics record and its fixed 57-byte layout:
//! owner identity (32 bytes), total labels (8 bytes, unsigned little-endian),
//! last label time (8 bytes, signed little-endian), total rewards earned
//! (8 bytes, unsigned little-endian), initialization flag (1 byte).

use vstd::bytes::lemma_auto_spec_u64_to_from_le_bytes;
use vstd::bytes::spec_u64_from_le_bytes;
use vstd::bytes::spec_u64_to_le_bytes;
use vstd::bytes::u64_from_le_bytes;
use vstd::bytes::u64_to_le_bytes;
use vstd::prelude::*;
use vstd::slice::slice_subrange;

verus! {

broadcast use vstd::array::group_array_axioms;

/// Reward, in native currency units, credited for each recorded label.
pub const REWARD_LAMPORTS: u64 = 1_000_000;

/// Byte length of the persisted record: 32 + 8 + 8 + 8 + 1.
pub const USER_STATS_LEN: usize = 57;

/// Cumulative statistics stored for one user.
#[derive(Clone, Copy, Debug)]
pub struct UserStats {
    /// Identity of the user this record belongs to; immutable once set.
    pub owner: [u8; 32],
    /// Number of labels submitted; grows by exactly one per invocation.
    pub total_labels: u64,
    /// Trusted clock value of the latest successful invocation.
    pub last_label_time: i64,
    /// Accumulated reward entitlement, in native currency units.
    pub total_rewards_earned: u64,
    /// Distinguishes a freshly created slot from one already in use.
    pub is_initialized: bool,
}

/// The byte that encodes the initialization flag.
pub open spec fn flag_byte(b: bool) -> u8 {
    if b {
        1u8
    } else {
        0u8
    }
}

/// Little-endian encoding of a signed 64-bit value (two's complement).
pub open spec fn spec_i64_to_le_bytes(x: i64) -> Seq<u8> {
    spec_u64_to_le_bytes(x as u64)
}

/// The signed 64-bit value read from an 8-byte little-endian encoding.
pub open spec fn spec_i64_from_le_bytes(s: Seq<u8>) -> i64
    recommends
        s.len() == 8,
{
    spec_u64_from_le_bytes(s) as i64
}

/// The exact serialized form of a record.
pub open spec fn stats_bytes(s: UserStats) -> Seq<u8> {
    s.owner@ + spec_u64_to_le_bytes(s.total_labels) + spec_i64_to_le_bytes(s.last_label_time)
        + spec_u64_to_le_bytes(s.total_rewards_earned) + seq![flag_byte(s.is_initialized)]
}

/// Whether a byte string conforms to the fixed record layout: exactly 57
/// bytes, with a valid flag byte at the end.
pub open spec fn stats_bytes_well_formed(data: Seq<u8>) -> bool {
    &&& data.len() == 57
    &&& (data[56] == 0 || data[56] == 1)
}

/// Whether record `s` holds exactly the fields encoded in `data`.
pub open spec fn stats_matches(s: UserStats, data: Seq<u8>) -> bool {
    &&& data.len() == 57
    &&& s.owner@ == data.subrange(0, 32)
    &&& s.total_labels == spec_u64_from_le_bytes(data.subrange(32, 40))
    &&& s.last_label_time == spec_i64_from_le_bytes(data.subrange(40, 48))
    &&& s.total_rewards_earned == spec_u64_from_le_bytes(data.subrange(48, 56))
    &&& s.is_initialized == (data[56] == 1)
}

/// The zero-valued record a fresh slot starts from, owned by its creator.
pub open spec fn fresh_stats(owner: [u8; 32]) -> UserStats {
    UserStats {
        owner,
        total_labels: 0,
        last_label_time: 0,
        total_rewards_earned: 0,
        is_initialized: true,
    }
}

/// The mutation applied by one successful invocation: one more label, the
/// current trusted timestamp, one more fixed reward.
pub open spec fn updated_stats(s: UserStats, timestamp: i64) -> UserStats {
    UserStats {
        total_labels: (s.total_labels + 1) as u64,
        last_label_time: timestamp,
        total_rewards_earned: (s.total_rewards_earned + REWARD_LAMPORTS) as u64,
        ..s
    }
}

/// The record after `timestamps.len()` consecutive successful invocations by
/// `owner`, the first of which created the slot.
pub open spec fn run_stats(owner: [u8; 32], timestamps: Seq<i64>) -> UserStats
    decreases timestamps.len(),
{
    if timestamps.len() == 0 {
        fresh_stats(owner)
    } else {
        updated_stats(run_stats(owner, timestamps.drop_last()), timestamps.last())
    }
}

/// Monotonic accumulation: after `n` consecutive successful invocations the
/// record belongs to its owner, counts exactly `n` labels, has earned exactly
/// `n` times the fixed reward, and is stamped with the latest timestamp.
pub proof fn lemma_stats_accumulation(owner: [u8; 32], timestamps: Seq<i64>)
    requires
        timestamps.len() * REWARD_LAMPORTS <= u64::MAX,
    ensures
        run_stats(owner, timestamps).owner == owner,
        run_stats(owner, timestamps).is_initialized,
        run_stats(owner, timestamps).total_labels == timestamps.len(),
        run_stats(owner, timestamps).total_rewards_earned == timestamps.len() * REWARD_LAMPORTS,
        timestamps.len() > 0 ==> run_stats(owner, timestamps).last_label_time == timestamps.last(),
    decreases timestamps.len(),
{
    if timestamps.len() > 0 {
        assert((timestamps.len() - 1) * REWARD_LAMPORTS == timestamps.len() * REWARD_LAMPORTS
            - REWARD_LAMPORTS) by (nonlinear_arith);
        lemma_stats_accumulation(owner, timestamps.drop_last());
    }
}

/// A record whose fields equal those of the record encoded in `d`, except for
/// one more label, the given timestamp and one more fixed reward, is exactly
/// the invocation's update of the record that matches `d`.
pub proof fn lemma_step_is_update(s0: UserStats, rec: UserStats, d: Seq<u8>, timestamp: i64)
    requires
        stats_matches(s0, d),
        s0.total_labels < u64::MAX,
        s0.total_rewards_earned + REWARD_LAMPORTS <= u64::MAX,
        rec.owner@ == d.subrange(0, 32),
        rec.total_labels == spec_u64_from_le_bytes(d.subrange(32, 40)) + 1,
        rec.last_label_time == timestamp,
        rec.total_rewards_earned == spec_u64_from_le_bytes(d.subrange(48, 56)) + REWARD_LAMPORTS,
        rec.is_initialized == (d[56] == 1),
    ensures
        rec == updated_stats(s0, timestamp),
{
    assert(rec.owner =~= s0.owner);
}

/// A record owned by the caller with one label, one fixed reward and the
/// given timestamp is exactly the first invocation's update of the fresh
/// zero record.
pub proof fn lemma_first_step_is_fresh_update(owner: [u8; 32], rec: UserStats, timestamp: i64)
    requires
        rec.owner@ == owner@,
        rec.total_labels == 1,
        rec.last_label_time == timestamp,
        rec.total_rewards_earned == REWARD_LAMPORTS,
        rec.is_initialized,
    ensures
        rec == updated_stats(fresh_stats(owner), timestamp),
        rec == run_stats(owner, seq![timestamp]),
{
    assert(rec.owner =~= owner);
    let ts = seq![timestamp];
    assert(ts.drop_last() =~= Seq::<i64>::empty());
    assert(run_stats(owner, ts.drop_last()) == fresh_stats(owner));
    assert(run_stats(owner, ts) == updated_stats(run_stats(owner, ts.drop_last()), ts.last()));
}

impl UserStats {
    /// Serializes the record into its exact fixed 57-byte layout.
    pub fn serialize_record(&self) -> (out: Vec<u8>)
        ensures
            out@ == stats_bytes(*self),
            out@.len() == 57,
    {
        proof {
            lemma_auto_spec_u64_to_from_le_bytes();
        }
        let mut out: Vec<u8> = Vec::new();
        out.extend_from_slice(self.owner.as_slice());
        let labels = u64_to_le_bytes(self.total_labels);
        out.extend_from_slice(labels.as_slice());
        let time_bits: u64 = #[verifier::truncate] (self.last_label_time as u64);
        let time = u64_to_le_bytes(time_bits);
        out.extend_from_slice(time.as_slice());
        let rewards = u64_to_le_bytes(self.total_rewards_earned);
        out.extend_from_slice(rewards.as_slice());
        out.push(if self.is_initialized { 1u8 } else { 0u8 });
        proof {
            assert(out@ =~= stats_bytes(*self));
        }
        out
    }

    /// Decodes a record from its fixed 57-byte layout; `None` on any byte
    /// string that does not conform to it.
    pub fn deserialize_record(data: &[u8]) -> (r: Option<UserStats>)
        ensures
            r is Some <==> stats_bytes_well_formed(data@),
            r matches Some(s) ==> stats_matches(s, data@) && stats_bytes(s) == data@,
    {
        if data.len() != 57 {
            return None;
        }
        let flag = *vstd::slice::slice_index_get(data, 56);
        if flag != 0 && flag != 1 {
            return None;
        }
        let mut owner: [u8; 32] = [0u8; 32];
        let mut i: usize = 0;
        while i < 32
            invariant
                0 <= i <= 32,
                data@.len() == 57,
                forall|j: int| 0 <= j < i ==> owner@[j] == data@[j],
            decreases 32 - i,
        {
            owner[i] = *vstd::slice::slice_index_get(data, i);
            i = i + 1;
        }
        let total_labels = u64_from_le_bytes(slice_subrange(data, 32, 40));
        let time_bits = u64_from_le_bytes(slice_subrange(data, 40, 48));
        let last_label_time: i64 = #[verifier::truncate] (time_bits as i64);
        let total_rewards_earned = u64_from_le_bytes(slice_subrange(data, 48, 56));
        let s = UserStats {
            owner,
            total_labels,
            last_label_time,
            total_rewards_earned,
            is_initialized: flag == 1,
        };
        proof {
            assert(s.owner@ =~= data@.subrange(0, 32));
            let tb = spec_u64_from_le_bytes(data@.subrange(40, 48));
            assert(((tb as i64) as u64) == tb) by (bit_vector);
            lemma_stats_matches_bytes(s, data@);
        }
        Some(s)
    }
}

/// A record that matches a well-formed byte string serializes back to exactly
/// that byte string.
pub proof fn lemma_stats_matches_bytes(s: UserStats, data: Seq<u8>)
    requires
        stats_matches(s, data),
        stats_bytes_well_formed(data),
    ensures
        stats_bytes(s) == data,
{
    lemma_auto_spec_u64_to_from_le_bytes();
    assert(spec_u64_to_le_bytes(s.total_labels) == data.subrange(32, 40));
    let tb = spec_u64_from_le_bytes(data.subrange(40, 48));
    assert(((tb as i64) as u64) == tb) by (bit_vector);
    assert(spec_i64_to_le_bytes(s.last_label_time) == data.subrange(40, 48));
    assert(spec_u64_to_le_bytes(s.total_rewards_earned) == data.subrange(48, 56));
    assert(stats_bytes(s) =~= data);
}

/// At most one record matches a given byte string.
pub proof fn lemma_stats_matches_unique(s1: UserStats, s2: UserStats, data: Seq<u8>)
    requires
        stats_matches(s1, data),
        stats_matches(s2, data),
    ensures
        s1 == s2,
{
    assert(s1.owner =~= s2.owner);
}

/// Round-trip stability: every record's serialized form is well formed,
/// encodes exactly the record's fields, and decodes to no other record.
pub proof fn lemma_record_round_trip(s: UserStats)
    ensures
        stats_bytes(s).len() == 57,
        stats_bytes_well_formed(stats_bytes(s)),
        stats_matches(s, stats_bytes(s)),
        forall|s2: UserStats| stats_matches(s2, stats_bytes(s)) ==> s2 == s,
{
    lemma_auto_spec_u64_to_from_le_bytes();
    let data = stats_bytes(s);
    assert(data.subrange(0, 32) =~= s.owner@);
    assert(data.subrange(32, 40) =~= spec_u64_to_le_bytes(s.total_labels));
    assert(data.subrange(40, 48) =~= spec_i64_to_le_bytes(s.last_label_time));
    assert(data.subrange(48, 56) =~= spec_u64_to_le_bytes(s.total_rewards_earned));
    let x = s.last_label_time;
    assert(((x as u64) as i64) == x) by (bit_vector);
    assert(stats_matches(s, data));
    assert forall|s2: UserStats| stats_matches(s2, data) implies s2 == s by {
        lemma_stats_matches_unique(s2, s, data);
    }
}

/// Compares two 32-byte identities.
pub fn bytes32_eq(a: &[u8; 32], b: &[u8; 32]) -> (r: bool)
    ensures
        r == (a@ == b@),
{
    let mut i: usize = 0;
    while i < 32
        invariant
            0 <= i <= 32,
            forall|j: int| 0 <= j < i ==> a@[j] == b@[j],
        decreases 32 - i,
    {
        if a[i] != b[i] {
            return false;
        }
        i = i + 1;
    }
    proof {
        assert(a@ =~= b@);
    }
    true
}

} // verus!
