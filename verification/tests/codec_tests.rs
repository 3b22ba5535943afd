use ephemeral_oracle::codec::{deserialize_record, serialize_record, RECORD_SERIALIZED_LEN};
use ephemeral_oracle::price_feed::{
    PriceFeedMessage, PriceUpdateV3, VerificationLevel,
};

fn sample_record() -> PriceUpdateV3 {
    PriceUpdateV3 {
        write_authority: [7u8; 32],
        verification_level: VerificationLevel::Full,
        price_message: PriceFeedMessage {
            feed_id: [3u8; 32],
            ema_conf: 11,
            ema_price: -22,
            price: 15_230_000_000,
            conf: 33,
            exponent: -8,
            prev_publish_time: 1_700_000_000,
            publish_time: 1_700_000_005,
        },
        posted_slot: 4242,
    }
}

#[test]
fn serialized_layout_is_wire_exact() {
    let record = sample_record();
    let bytes = serialize_record(&record);
    assert_eq!(bytes.len(), RECORD_SERIALIZED_LEN);
    // account-type discriminator
    assert_eq!(&bytes[0..8], &[234, 161, 14, 36, 172, 239, 15, 232]);
    // write authority
    assert_eq!(&bytes[8..40], &[7u8; 32]);
    // verification level: Full
    assert_eq!(bytes[40], 1);
    // feed id
    assert_eq!(&bytes[41..73], &[3u8; 32]);
    // price, little endian
    assert_eq!(&bytes[89..97], &15_230_000_000i64.to_le_bytes());
    // a negative field is two's complement little endian
    assert_eq!(&bytes[81..89], &(-22i64).to_le_bytes());
    // exponent
    assert_eq!(&bytes[105..109], &(-8i32).to_le_bytes());
    // posted slot
    assert_eq!(&bytes[125..133], &4242u64.to_le_bytes());
}

#[test]
fn record_round_trips_through_bytes() {
    let record = sample_record();
    let bytes = serialize_record(&record);
    let parsed = deserialize_record(&bytes).unwrap();
    assert_eq!(parsed, record);
}

#[test]
fn partial_verification_round_trips() {
    let mut record = sample_record();
    record.verification_level = VerificationLevel::Partial;
    let bytes = serialize_record(&record);
    assert_eq!(bytes[40], 0);
    assert_eq!(deserialize_record(&bytes).unwrap(), record);
}

#[test]
fn extreme_values_round_trip() {
    let mut record = sample_record();
    record.price_message.price = i64::MIN;
    record.price_message.ema_price = i64::MAX;
    record.price_message.exponent = i32::MIN;
    record.price_message.publish_time = -1;
    record.posted_slot = u64::MAX;
    let bytes = serialize_record(&record);
    assert_eq!(deserialize_record(&bytes).unwrap(), record);
}

#[test]
fn wrong_length_is_rejected() {
    let record = sample_record();
    let mut bytes = serialize_record(&record);
    bytes.pop();
    assert!(deserialize_record(&bytes).is_none());
    assert!(deserialize_record(&[]).is_none());
}

#[test]
fn wrong_discriminator_is_rejected() {
    let record = sample_record();
    let mut bytes = serialize_record(&record);
    bytes[3] ^= 0xff;
    assert!(deserialize_record(&bytes).is_none());
}

#[test]
fn unknown_verification_byte_is_rejected() {
    let record = sample_record();
    let mut bytes = serialize_record(&record);
    bytes[40] = 2;
    assert!(deserialize_record(&bytes).is_none());
}
