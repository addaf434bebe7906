//! Deterministic derivation of the per-user storage address. Given the
//! caller's identity and the program's identity, the derivation searches a
//! one-byte disambiguator ("bump") until the hash-derived address falls
//! outside the space of externally constructible addresses; the result is a
//! pure function of its inputs, reproducible by any party.

use vstd::prelude::*;

verus! {

broadcast use vstd::array::group_array_axioms;

/// The address and disambiguation byte derived for the given seed, owner
/// identity and program identity, or `None` in the statistically improbable
/// event that no disambiguator yields a usable address. Deriving twice with
/// the same inputs yields the same result.
pub uninterp spec fn derived_address(seed: Seq<u8>, owner: Seq<u8>, program_id: Seq<u8>) -> Option<
    (Seq<u8>, u8),
>;

/// The fixed textual seed of the per-user statistics slot: `"user_stats"`.
pub open spec fn user_stats_seed() -> Seq<u8> {
    seq![117u8, 115u8, 101u8, 114u8, 95u8, 115u8, 116u8, 97u8, 116u8, 115u8]
}

/// Relies on `solana_program::pubkey::Pubkey::try_find_program_address` with
/// the seed slices `[seed, owner]`: it probes disambiguation bytes from 255
/// downward and returns the first SHA-256-derived address that is not on the
/// ed25519 curve, together with that byte, or `None` when no byte works; the
/// outcome depends on the seed slices and the program identity alone.
#[verifier::external_body]
fn find_program_derived_address(seed: &[u8], owner: &[u8; 32], program_id: &[u8; 32]) -> (r: Option<
    ([u8; 32], u8),
>)
    ensures
        match r {
            Some(p) => derived_address(seed@, owner@, program_id@) == Some((p.0@, p.1)),
            None => derived_address(seed@, owner@, program_id@) is None,
        },
{
    let program = solana_program::pubkey::Pubkey::new_from_array(*program_id);
    solana_program::pubkey::Pubkey::try_find_program_address(
        &[seed, owner.as_slice()],
        &program,
    ).map(|(address, bump)| (address.to_bytes(), bump))
}

/// Derives the storage address and disambiguation byte of the statistics
/// record of `owner` under the program identified by `program_id`.
pub fn derive_user_stats_address(owner: &[u8; 32], program_id: &[u8; 32]) -> (r: Option<
    ([u8; 32], u8),
>)
    ensures
        match r {
            Some(p) => derived_address(user_stats_seed(), owner@, program_id@) == Some(
                (p.0@, p.1),
            ),
            None => derived_address(user_stats_seed(), owner@, program_id@) is None,
        },
{
    // The bytes of "user_stats".
    let seed: [u8; 10] = [117u8, 115u8, 101u8, 114u8, 95u8, 115u8, 116u8, 97u8, 116u8, 115u8];
    proof {
        assert(seed@ =~= user_stats_seed());
    }
    find_program_derived_address(seed.as_slice(), owner, program_id)
}

/// Whether a supplied storage address equals the address derived for the
/// caller; when no address can be derived, nothing matches.
pub open spec fn supplied_address_valid(owner: Seq<u8>, program_id: Seq<u8>, supplied: Seq<u8>) -> bool {
    match derived_address(user_stats_seed(), owner, program_id) {
        Some(p) => p.0 == supplied,
        None => false,
    }
}

/// Determinism of the derivation: any two results of deriving the storage
/// address for the same owner and program identity are identical, in both
/// the address and the disambiguation byte.
pub proof fn lemma_derivation_deterministic(
    owner: Seq<u8>,
    program_id: Seq<u8>,
    r1: Option<(Seq<u8>, u8)>,
    r2: Option<(Seq<u8>, u8)>,
)
    requires
        r1 == derived_address(user_stats_seed(), owner, program_id),
        r2 == derived_address(user_stats_seed(), owner, program_id),
    ensures
        r1 == r2,
{
}

} // verus!
