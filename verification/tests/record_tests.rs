use ephemeral_oracle::price_feed::{
    initialize_price_feed, quantized_to_price, update_price_feed, OracleError, PriceUpdateV3,
    TemporalNumericValue, UpdateData, VerificationLevel,
};

const ORACLE: [u8; 32] = [7u8; 32];
const STRANGER: [u8; 32] = [9u8; 32];
const FEED_ID: [u8; 32] = [3u8; 32];

fn update(symbol: &str, quantized_value: u64, timestamp_ns: u64) -> UpdateData {
    UpdateData {
        symbol: symbol.to_string(),
        temporal_numeric_value: TemporalNumericValue { timestamp_ns, quantized_value },
    }
}

#[test]
fn initialize_zeroes_price_fields() {
    let record = initialize_price_feed(&ORACLE, &FEED_ID, -8, 1_700_000_000);
    assert_eq!(record.write_authority, ORACLE);
    assert_eq!(record.verification_level, VerificationLevel::Full);
    assert_eq!(record.price_message.price, 0);
    assert_eq!(record.price_message.conf, 0);
    assert_eq!(record.price_message.ema_price, 0);
    assert_eq!(record.price_message.ema_conf, 0);
    assert_eq!(record.price_message.exponent, -8);
    assert_eq!(record.price_message.publish_time, 1_700_000_000);
    assert_eq!(record.price_message.prev_publish_time, 1_700_000_000);
    assert_eq!(record.posted_slot, 0);
}

// Scenario: initialize for (provider="pyth-lazer", symbol="SOLUSD"), update
// with price 15230000000 at exponent -8, and read the stored fields back.
#[test]
fn initialize_then_update_stores_price() {
    let t0 = 1_700_000_000i64;
    let mut record: PriceUpdateV3 = initialize_price_feed(&ORACLE, &FEED_ID, -8, t0);
    let u = update("SOLUSD", 15_230_000_000, 42);
    let result = update_price_feed(&mut record, &ORACLE, &ORACLE, &u, 100, t0 + 5);
    assert!(result.is_ok());
    assert_eq!(record.price_message.price, 15_230_000_000);
    assert_eq!(record.price_message.exponent, -8);
    assert_eq!(record.price_message.prev_publish_time, t0);
    assert_eq!(record.price_message.publish_time, t0 + 5);
    assert_eq!(record.posted_slot, 100);
}

// Monotonicity across a sequence of writes: posted_slot and publish_time
// never decrease, prev_publish_time chains the publish times.
#[test]
fn update_sequence_is_monotone() {
    let mut record = initialize_price_feed(&ORACLE, &FEED_ID, -8, 10);
    let steps: [(u64, u64, i64); 3] = [(111, 50, 20), (222, 60, 25), (333, 60, 25)];
    let mut last_slot = record.posted_slot;
    let mut last_time = record.price_message.publish_time;
    for (value, slot, now) in steps {
        let u = update("SOLUSD", value, 1);
        update_price_feed(&mut record, &ORACLE, &ORACLE, &u, slot, now).unwrap();
        assert!(record.posted_slot >= last_slot);
        assert!(record.price_message.publish_time >= last_time);
        assert_eq!(record.price_message.prev_publish_time, last_time);
        last_slot = record.posted_slot;
        last_time = record.price_message.publish_time;
    }
    assert_eq!(record.price_message.price, 333);
}

// A duplicated frame: the same parsed update applied twice only advances
// the record further forward.
#[test]
fn duplicate_update_keeps_monotonicity() {
    let mut record = initialize_price_feed(&ORACLE, &FEED_ID, -8, 10);
    let u = update("SOLUSD", 555, 77);
    update_price_feed(&mut record, &ORACLE, &ORACLE, &u, 20, 30).unwrap();
    let after_first = record;
    update_price_feed(&mut record, &ORACLE, &ORACLE, &u, 21, 31).unwrap();
    assert!(record.posted_slot >= after_first.posted_slot);
    assert!(record.price_message.publish_time >= after_first.price_message.publish_time);
    assert_eq!(
        record.price_message.prev_publish_time,
        after_first.price_message.publish_time
    );
    assert_eq!(record.price_message.price, after_first.price_message.price);
}

// An update signed by anyone but the recognized oracle identity is
// rejected and the record is left unchanged.
#[test]
fn update_by_stranger_is_rejected() {
    let mut record = initialize_price_feed(&ORACLE, &FEED_ID, -8, 10);
    let before = record;
    let u = update("SOLUSD", 555, 77);
    let result = update_price_feed(&mut record, &STRANGER, &ORACLE, &u, 20, 30);
    assert_eq!(result, Err(OracleError::Unauthorized));
    assert_eq!(record, before);
}

#[test]
fn quantized_value_reinterpreted_as_signed() {
    assert_eq!(quantized_to_price(15_230_000_000), 15_230_000_000);
    assert_eq!(quantized_to_price(u64::MAX), -1);
    assert_eq!(quantized_to_price(0x8000_0000_0000_0000), i64::MIN);
    assert_eq!(quantized_to_price(0), 0);
}
