use carepanion_stats::error::StatsError;
use carepanion_stats::instruction::CarepanionInstruction;

fn fields(req: &CarepanionInstruction) -> ([u8; 32], u64) {
    match req {
        CarepanionInstruction::RecordLabel { label_hash, audio_id } => (*label_hash, *audio_id),
    }
}

#[test]
fn encode_is_tag_hash_and_le_id() {
    let req = CarepanionInstruction::RecordLabel { label_hash: [9u8; 32], audio_id: 42 };
    let bytes = req.encode();
    assert_eq!(bytes.len(), 41);
    assert_eq!(bytes[0], 0);
    assert_eq!(&bytes[1..33], &[9u8; 32]);
    assert_eq!(&bytes[33..41], &[42, 0, 0, 0, 0, 0, 0, 0]);
}

#[test]
fn encode_matches_borsh_encoding() {
    // The payload layout is exactly the borsh serialization of the request:
    // a one-byte variant tag, then the fields.
    let req = CarepanionInstruction::RecordLabel {
        label_hash: [0x5Au8; 32],
        audio_id: 0x0102030405060708,
    };
    let reference = borsh::to_vec(&(0u8, [0x5Au8; 32], 0x0102030405060708u64)).unwrap();
    assert_eq!(req.encode(), reference);
}

#[test]
fn decode_round_trips() {
    let req = CarepanionInstruction::RecordLabel { label_hash: [3u8; 32], audio_id: 77 };
    let bytes = req.encode();
    let back = CarepanionInstruction::decode(&bytes).expect("own encoding must decode");
    let (hash, id) = fields(&back);
    assert_eq!(hash, [3u8; 32]);
    assert_eq!(id, 77);
}

#[test]
fn decode_rejects_wrong_length() {
    let bytes = CarepanionInstruction::RecordLabel { label_hash: [0u8; 32], audio_id: 1 }.encode();
    assert_eq!(
        CarepanionInstruction::decode(&bytes[..40]).unwrap_err(),
        StatsError::MalformedRequest
    );
    let mut longer = bytes.clone();
    longer.push(0);
    assert_eq!(
        CarepanionInstruction::decode(&longer).unwrap_err(),
        StatsError::MalformedRequest
    );
    assert_eq!(
        CarepanionInstruction::decode(&[]).unwrap_err(),
        StatsError::MalformedRequest
    );
}

#[test]
fn decode_rejects_unknown_tag() {
    let mut bytes = CarepanionInstruction::RecordLabel { label_hash: [0u8; 32], audio_id: 1 }.encode();
    bytes[0] = 1;
    assert_eq!(
        CarepanionInstruction::decode(&bytes).unwrap_err(),
        StatsError::MalformedRequest
    );
}
