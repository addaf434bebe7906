use carepanion_stats::record::{bytes32_eq, UserStats, REWARD_LAMPORTS, USER_STATS_LEN};

fn sample_record() -> UserStats {
    UserStats {
        owner: [7u8; 32],
        total_labels: 3,
        last_label_time: 1_700_000_123,
        total_rewards_earned: 3 * REWARD_LAMPORTS,
        is_initialized: true,
    }
}

#[test]
fn record_serializes_to_57_bytes() {
    let bytes = sample_record().serialize_record();
    assert_eq!(bytes.len(), 57);
    assert_eq!(bytes.len(), USER_STATS_LEN);
}

#[test]
fn record_layout_is_fixed_offsets() {
    let rec = UserStats {
        owner: [0xAB; 32],
        total_labels: 0x0102030405060708,
        last_label_time: 0x1112131415161718,
        total_rewards_earned: 0x2122232425262728,
        is_initialized: true,
    };
    let bytes = rec.serialize_record();
    assert_eq!(&bytes[0..32], &[0xAB; 32]);
    // Little-endian field encodings at their fixed offsets.
    assert_eq!(&bytes[32..40], &[8, 7, 6, 5, 4, 3, 2, 1]);
    assert_eq!(&bytes[40..48], &[0x18, 0x17, 0x16, 0x15, 0x14, 0x13, 0x12, 0x11]);
    assert_eq!(&bytes[48..56], &[0x28, 0x27, 0x26, 0x25, 0x24, 0x23, 0x22, 0x21]);
    assert_eq!(bytes[56], 1);
}

#[test]
fn record_round_trip_is_identical() {
    let rec = sample_record();
    let bytes = rec.serialize_record();
    let back = UserStats::deserialize_record(&bytes).expect("well-formed record must decode");
    assert_eq!(back.owner, rec.owner);
    assert_eq!(back.total_labels, rec.total_labels);
    assert_eq!(back.last_label_time, rec.last_label_time);
    assert_eq!(back.total_rewards_earned, rec.total_rewards_earned);
    assert_eq!(back.is_initialized, rec.is_initialized);
    // And byte-identical after a second pass.
    assert_eq!(back.serialize_record(), bytes);
}

#[test]
fn record_round_trip_negative_timestamp() {
    let rec = UserStats {
        owner: [1u8; 32],
        total_labels: 1,
        last_label_time: -62_135_596_800,
        total_rewards_earned: REWARD_LAMPORTS,
        is_initialized: false,
    };
    let bytes = rec.serialize_record();
    let back = UserStats::deserialize_record(&bytes).expect("well-formed record must decode");
    assert_eq!(back.last_label_time, -62_135_596_800);
    assert!(!back.is_initialized);
    assert_eq!(back.serialize_record(), bytes);
}

#[test]
fn record_matches_borsh_encoding() {
    // The fixed layout is exactly what the borsh serialization of the record's
    // fields produces, so existing stored records stay readable.
    let rec = sample_record();
    let ours = rec.serialize_record();
    let reference = borsh::to_vec(&(
        rec.owner,
        rec.total_labels,
        rec.last_label_time,
        rec.total_rewards_earned,
        rec.is_initialized,
    ))
    .unwrap();
    assert_eq!(ours, reference);
}

#[test]
fn record_rejects_wrong_length() {
    let bytes = sample_record().serialize_record();
    assert!(UserStats::deserialize_record(&bytes[..56]).is_none());
    let mut longer = bytes.clone();
    longer.push(0);
    assert!(UserStats::deserialize_record(&longer).is_none());
    assert!(UserStats::deserialize_record(&[]).is_none());
}

#[test]
fn record_rejects_bad_flag_byte() {
    let mut bytes = sample_record().serialize_record();
    bytes[56] = 7;
    assert!(UserStats::deserialize_record(&bytes).is_none());
    bytes[56] = 0;
    let back = UserStats::deserialize_record(&bytes).expect("flag 0 is well-formed");
    assert!(!back.is_initialized);
}

#[test]
fn bytes32_eq_compares_contents() {
    let a = [5u8; 32];
    let mut b = [5u8; 32];
    assert!(bytes32_eq(&a, &b));
    b[31] = 6;
    assert!(!bytes32_eq(&a, &b));
}
