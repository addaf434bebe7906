//! A model of the runtime-owned storage this program depends on: one fixed
//! 57-byte slot per derived address, with an explicit create-if-absent
//! operation funded from the caller's balance. Running an invocation against
//! a slot shows the all-or-nothing contract the runtime enforces: either the
//! whole updated record is committed, or the slot and the balance are left
//! exactly as they were.

use crate::address::supplied_address_valid;
use crate::error::StatsError;
use crate::instruction::instruction_well_formed;
use crate::processor::process_instruction;
use crate::processor::record_after_invocation;
use crate::processor::slot_can_accrue;
use crate::processor::spec_rent_minimum;
use crate::record::UserStats;
use crate::record::stats_bytes;
use crate::record::stats_bytes_well_formed;
use vstd::prelude::*;

verus! {

/// One storage slot of the runtime's account store.
pub struct StorageSlot {
    /// The slot's contents; `None` while the slot has never been allocated.
    pub data: Option<Vec<u8>>,
}

/// The bytes a slot holds, if it has been allocated.
pub open spec fn stored(slot: StorageSlot) -> Option<Seq<u8>> {
    match slot.data {
        Some(d) => Some(d@),
        None => None,
    }
}

/// Runs one whole invocation against a storage slot, funding any creation
/// from the caller's balance. All effects land exactly when the invocation
/// succeeds; on any error the slot and the balance are unchanged.
pub fn record_label_invocation(
    slot: &mut StorageSlot,
    payer_lamports: &mut u64,
    program_id: &[u8; 32],
    caller: &[u8; 32],
    caller_is_signer: bool,
    supplied_address: &[u8; 32],
    timestamp: i64,
    instruction_data: &[u8],
) -> (r: Result<(), StatsError>)
    requires
        slot_can_accrue(stored(*old(slot))),
    ensures
        r is Ok <==> {
            &&& instruction_well_formed(instruction_data@)
            &&& caller_is_signer
            &&& supplied_address_valid(caller@, program_id@, supplied_address@)
            &&& match stored(*old(slot)) {
                Some(d) => stats_bytes_well_formed(d),
                None => *old(payer_lamports) >= spec_rent_minimum(57),
            }
        },
        r is Err ==> stored(*final(slot)) == stored(*old(slot)) && *final(payer_lamports) == *old(
            payer_lamports,
        ),
        !instruction_well_formed(instruction_data@) ==> r == Err::<(), StatsError>(
            StatsError::MalformedRequest,
        ),
        instruction_well_formed(instruction_data@) && !caller_is_signer ==> r == Err::<
            (),
            StatsError,
        >(StatsError::MissingAuthorization),
        instruction_well_formed(instruction_data@) && caller_is_signer
            && !supplied_address_valid(caller@, program_id@, supplied_address@) ==> r == Err::<
            (),
            StatsError,
        >(StatsError::AddressMismatch),
        instruction_well_formed(instruction_data@) && caller_is_signer && supplied_address_valid(
            caller@,
            program_id@,
            supplied_address@,
        ) && (stored(*old(slot)) matches Some(d) && !stats_bytes_well_formed(d)) ==> r == Err::<
            (),
            StatsError,
        >(StatsError::CorruptRecord),
        instruction_well_formed(instruction_data@) && caller_is_signer && supplied_address_valid(
            caller@,
            program_id@,
            supplied_address@,
        ) && stored(*old(slot)) is None && *old(payer_lamports) < spec_rent_minimum(57) ==> r
            == Err::<(), StatsError>(StatsError::AllocationFailed),
        r is Ok ==> exists|rec: UserStats|
            {
                &&& stored(*final(slot)) == Some(#[trigger] stats_bytes(rec))
                &&& record_after_invocation(rec, stored(*old(slot)), caller@, timestamp)
            },
        r is Ok ==> *final(payer_lamports) == if stored(*old(slot)) is None {
            *old(payer_lamports) - spec_rent_minimum(57)
        } else {
            *old(payer_lamports) as int
        },
{
    let outcome = process_instruction(
        program_id,
        caller,
        caller_is_signer,
        supplied_address,
        slot.data.as_ref(),
        timestamp,
        instruction_data,
    );
    match outcome {
        Err(e) => Err(e),
        Ok(o) => {
            if o.created {
                if *payer_lamports < o.fund_lamports {
                    return Err(StatsError::AllocationFailed);
                }
                *payer_lamports = *payer_lamports - o.fund_lamports;
            }
            slot.data = Some(o.record_bytes);
            Ok(())
        },
    }
}

} // verus!
