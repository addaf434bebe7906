//! The request decoder: parses the opaque instruction payload into a typed
//! request. The single supported operation is encoded as a fixed 41-byte
//! layout: a one-byte variant tag, a 32-byte label hash, and an 8-byte
//! little-endian unsigned audio identifier.

use crate::error::StatsError;
use vstd::bytes::lemma_auto_spec_u64_to_from_le_bytes;
use vstd::bytes::spec_u64_from_le_bytes;
use vstd::bytes::spec_u64_to_le_bytes;
use vstd::bytes::u64_from_le_bytes;
use vstd::bytes::u64_to_le_bytes;
use vstd::prelude::*;
use vstd::slice::slice_subrange;

verus! {

broadcast use vstd::array::group_array_axioms;

/// A typed request to this program.
#[derive(Clone, Copy, Debug)]
pub enum CarepanionInstruction {
    /// Record one label submission for the calling user.
    RecordLabel {
        /// Hash of the label data, carried for observability.
        label_hash: [u8; 32],
        /// Audio file identifier assigned by the backend, carried for
        /// observability.
        audio_id: u64,
    },
}

/// The exact payload encoding of a `RecordLabel` request.
pub open spec fn instruction_bytes(label_hash: Seq<u8>, audio_id: u64) -> Seq<u8> {
    seq![0u8] + label_hash + spec_u64_to_le_bytes(audio_id)
}

/// Whether a payload decodes as a supported request: exactly 41 bytes under
/// the `RecordLabel` variant tag.
pub open spec fn instruction_well_formed(data: Seq<u8>) -> bool {
    &&& data.len() == 41
    &&& data[0] == 0
}

impl CarepanionInstruction {
    /// The label hash of the request.
    pub open spec fn spec_label_hash(self) -> Seq<u8> {
        match self {
            CarepanionInstruction::RecordLabel { label_hash, .. } => label_hash@,
        }
    }

    /// The audio identifier of the request.
    pub open spec fn spec_audio_id(self) -> u64 {
        match self {
            CarepanionInstruction::RecordLabel { audio_id, .. } => audio_id,
        }
    }

    /// Decodes the instruction payload; rejects anything but the exact
    /// 41-byte `RecordLabel` layout.
    pub fn decode(data: &[u8]) -> (r: Result<CarepanionInstruction, StatsError>)
        ensures
            r is Ok <==> instruction_well_formed(data@),
            r matches Ok(req) ==> {
                &&& req.spec_label_hash() == data@.subrange(1, 33)
                &&& req.spec_audio_id() == spec_u64_from_le_bytes(data@.subrange(33, 41))
            },
            r matches Err(e) ==> e == StatsError::MalformedRequest,
    {
        if data.len() != 41 {
            return Err(StatsError::MalformedRequest);
        }
        let tag = *vstd::slice::slice_index_get(data, 0);
        if tag != 0 {
            return Err(StatsError::MalformedRequest);
        }
        let mut label_hash: [u8; 32] = [0u8; 32];
        let mut i: usize = 0;
        while i < 32
            invariant
                0 <= i <= 32,
                data@.len() == 41,
                forall|j: int| 0 <= j < i ==> label_hash@[j] == data@[j + 1],
            decreases 32 - i,
        {
            label_hash[i] = *vstd::slice::slice_index_get(data, i + 1);
            i = i + 1;
        }
        let audio_id = u64_from_le_bytes(slice_subrange(data, 33, 41));
        proof {
            assert(label_hash@ =~= data@.subrange(1, 33));
        }
        Ok(CarepanionInstruction::RecordLabel { label_hash, audio_id })
    }

    /// Encodes the request into its exact 41-byte payload layout.
    pub fn encode(&self) -> (out: Vec<u8>)
        ensures
            out@ == instruction_bytes(self.spec_label_hash(), self.spec_audio_id()),
            instruction_well_formed(out@),
    {
        proof {
            lemma_auto_spec_u64_to_from_le_bytes();
        }
        match self {
            CarepanionInstruction::RecordLabel { label_hash, audio_id } => {
                let mut out: Vec<u8> = Vec::new();
                out.push(0u8);
                out.extend_from_slice(label_hash.as_slice());
                let id_bytes = u64_to_le_bytes(*audio_id);
                out.extend_from_slice(id_bytes.as_slice());
                proof {
                    assert(out@ =~= instruction_bytes(self.spec_label_hash(),
                            self.spec_audio_id()));
                }
                out
            },
        }
    }
}

} // verus!
