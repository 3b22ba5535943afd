//! The persistent price-feed record and the rules by which it is created
//! and updated.

use vstd::prelude::*;

verus! {

/// Provenance tag of the last write to a record.
#[derive(Clone, Copy, PartialEq, Eq, Structural, Debug)]
pub enum VerificationLevel {
    Partial,
    Full,
}

/// The latest price observation carried by a record.
#[derive(Clone, Copy, PartialEq, Eq, Debug)]
pub struct PriceFeedMessage {
    pub feed_id: [u8; 32],
    pub ema_conf: i64,
    pub ema_price: i64,
    pub price: i64,
    pub conf: u64,
    pub exponent: i32,
    pub prev_publish_time: i64,
    pub publish_time: i64,
}

/// The persistent record kept for one provider+symbol pair.
#[derive(Clone, Copy, PartialEq, Eq, Debug)]
pub struct PriceUpdateV3 {
    pub write_authority: [u8; 32],
    pub verification_level: VerificationLevel,
    pub price_message: PriceFeedMessage,
    pub posted_slot: u64,
}

/// Rejection raised by a privileged operation invoked by anyone other than
/// the recognized oracle identity.
#[derive(Clone, Copy, PartialEq, Eq, Structural, Debug)]
pub enum OracleError {
    Unauthorized,
}

/// A quantized price observation as a provider parser hands it over.
#[derive(Clone, PartialEq, Eq, Debug)]
pub struct TemporalNumericValue {
    pub timestamp_ns: u64,
    pub quantized_value: u64,
}

/// One parsed update for a single symbol.
#[derive(Clone, PartialEq, Eq, Debug)]
pub struct UpdateData {
    pub symbol: String,
    pub temporal_numeric_value: TemporalNumericValue,
}

/// The quantized (unsigned) wire value reinterpreted as the record's signed
/// price, keeping the 64-bit pattern as it is.
pub open spec fn quantized_as_price(q: u64) -> i64 {
    if q < 0x8000_0000_0000_0000 {
        q as i64
    } else {
        (q - 0x1_0000_0000_0000_0000) as i64
    }
}

/// Reinterprets the quantized wire value as a signed price.
pub fn quantized_to_price(q: u64) -> (price: i64)
    ensures
        price == quantized_as_price(q),
{
    if q < 0x8000_0000_0000_0000 {
        q as i64
    } else {
        ((q as i128) - 0x1_0000_0000_0000_0000i128) as i64
    }
}

/// Whether two 32-byte account keys are the same.
pub fn keys_equal(a: &[u8; 32], b: &[u8; 32]) -> (eq: bool)
    ensures
        eq == (a@ == b@),
{
    let mut i: usize = 0;
    while i < 32
        invariant
            i <= 32,
            forall|j: int| 0 <= j < i ==> a@[j] == b@[j],
        decreases 32 - i,
    {
        if a[i] != b[i] {
            return false;
        }
        i += 1;
    }
    proof {
        assert(a@ =~= b@);
    }
    true
}

/// The record that a successful update leaves behind: the new price and
/// ledger coordinates are written, `prev_publish_time` takes the prior
/// `publish_time`, and every field the update does not carry is kept.
pub open spec fn applied_update(
    record: PriceUpdateV3,
    update: UpdateData,
    slot: u64,
    now: i64,
) -> PriceUpdateV3 {
    PriceUpdateV3 {
        write_authority: record.write_authority,
        verification_level: VerificationLevel::Full,
        price_message: PriceFeedMessage {
            feed_id: record.price_message.feed_id,
            ema_conf: record.price_message.ema_conf,
            ema_price: record.price_message.ema_price,
            price: quantized_as_price(update.temporal_numeric_value.quantized_value),
            conf: record.price_message.conf,
            exponent: record.price_message.exponent,
            prev_publish_time: record.price_message.publish_time,
            publish_time: now,
        },
        posted_slot: slot,
    }
}

/// Creates the record for a new price feed, as the initialize operation
/// leaves it on the ledger: price fields zeroed, `posted_slot` zero, and
/// both publish times equal to the ledger time of creation.
pub fn initialize_price_feed(
    payer: &[u8; 32],
    feed_id: &[u8; 32],
    exponent: i32,
    now: i64,
) -> (record: PriceUpdateV3)
    ensures
        record.write_authority@ == payer@,
        record.verification_level == VerificationLevel::Full,
        record.price_message.feed_id@ == feed_id@,
        record.price_message.ema_conf == 0,
        record.price_message.ema_price == 0,
        record.price_message.price == 0,
        record.price_message.conf == 0,
        record.price_message.exponent == exponent,
        record.price_message.prev_publish_time == now,
        record.price_message.publish_time == now,
        record.posted_slot == 0,
{
    PriceUpdateV3 {
        write_authority: *payer,
        verification_level: VerificationLevel::Full,
        price_message: PriceFeedMessage {
            feed_id: *feed_id,
            ema_conf: 0,
            ema_price: 0,
            price: 0,
            conf: 0,
            exponent,
            prev_publish_time: now,
            publish_time: now,
        },
        posted_slot: 0,
    }
}

/// Writes one parsed update into the record, provided the caller is the
/// recognized oracle identity; any other caller is rejected and the record
/// is left exactly as it was. The ledger clock never runs backwards, which
/// the `requires` states.
pub fn update_price_feed(
    price_feed: &mut PriceUpdateV3,
    payer: &[u8; 32],
    oracle_identity: &[u8; 32],
    update_data: &UpdateData,
    slot: u64,
    now: i64,
) -> (result: Result<(), OracleError>)
    requires
        old(price_feed).posted_slot <= slot,
        old(price_feed).price_message.publish_time <= now,
    ensures
        payer@ == oracle_identity@ ==> result is Ok && *final(price_feed) == applied_update(
            *old(price_feed),
            *update_data,
            slot,
            now,
        ),
        payer@ != oracle_identity@ ==> result == Err::<(), OracleError>(OracleError::Unauthorized)
            && *final(price_feed) == *old(price_feed),
        final(price_feed).posted_slot >= old(price_feed).posted_slot,
        final(price_feed).price_message.publish_time >= old(
            price_feed,
        ).price_message.publish_time,
{
    if !keys_equal(payer, oracle_identity) {
        return Err(OracleError::Unauthorized);
    }
    let new_price = quantized_to_price(update_data.temporal_numeric_value.quantized_value);
    let prev = price_feed.price_message;
    price_feed.posted_slot = slot;
    price_feed.price_message = PriceFeedMessage {
        feed_id: prev.feed_id,
        ema_conf: prev.ema_conf,
        ema_price: prev.ema_price,
        price: new_price,
        conf: prev.conf,
        exponent: prev.exponent,
        prev_publish_time: prev.publish_time,
        publish_time: now,
    };
    price_feed.verification_level = VerificationLevel::Full;
    Ok(())
}

/// The record left after a whole sequence of authorized writes, each given
/// as the parsed update together with the ledger slot and time of the write.
pub open spec fn record_after(
    record: PriceUpdateV3,
    steps: Seq<(UpdateData, u64, i64)>,
) -> PriceUpdateV3
    decreases steps.len(),
{
    if steps.len() == 0 {
        record
    } else {
        applied_update(
            record_after(record, steps.drop_last()),
            steps.last().0,
            steps.last().1,
            steps.last().2,
        )
    }
}

/// Each write in the sequence happens at a ledger slot and time no earlier
/// than the record it overwrites — the ledger clock never runs backwards.
pub open spec fn clock_monotone_steps(
    record: PriceUpdateV3,
    steps: Seq<(UpdateData, u64, i64)>,
) -> bool {
    forall|i: int|
        0 <= i < steps.len() ==> {
            &&& record_after(record, steps.take(i)).posted_slot <= #[trigger] steps[i].1
            &&& record_after(record, steps.take(i)).price_message.publish_time <= steps[i].2
        }
}

/// For every sequence of valid updates delivered in order, the record's
/// `posted_slot` and `publish_time` never decrease from one write to the
/// next, and after each write `prev_publish_time` equals the publish time
/// the record carried just before it.
pub proof fn lemma_record_chain_monotone(
    record: PriceUpdateV3,
    steps: Seq<(UpdateData, u64, i64)>,
    i: int,
)
    requires
        clock_monotone_steps(record, steps),
        0 <= i < steps.len(),
    ensures
        record_after(record, steps.take(i + 1)).posted_slot >= record_after(
            record,
            steps.take(i),
        ).posted_slot,
        record_after(record, steps.take(i + 1)).price_message.publish_time >= record_after(
            record,
            steps.take(i),
        ).price_message.publish_time,
        record_after(record, steps.take(i + 1)).price_message.prev_publish_time == record_after(
            record,
            steps.take(i),
        ).price_message.publish_time,
{
    let pre = steps.take(i + 1);
    assert(pre.drop_last() =~= steps.take(i));
    assert(pre.last() == steps[i]);
}

/// Submitting the same parsed update twice — a duplicated network frame —
/// keeps `posted_slot` and `publish_time` monotone: the second write only
/// advances the record, writes the same price again, and chains the publish
/// times as any other write would.
pub proof fn lemma_duplicate_update_harmless(
    record: PriceUpdateV3,
    update: UpdateData,
    slot1: u64,
    now1: i64,
    slot2: u64,
    now2: i64,
)
    requires
        record.posted_slot <= slot1,
        record.price_message.publish_time <= now1,
        slot1 <= slot2,
        now1 <= now2,
    ensures
        ({
            let once = applied_update(record, update, slot1, now1);
            let twice = applied_update(once, update, slot2, now2);
            &&& once.posted_slot >= record.posted_slot
            &&& twice.posted_slot >= once.posted_slot
            &&& twice.price_message.publish_time >= once.price_message.publish_time
            &&& twice.price_message.prev_publish_time == once.price_message.publish_time
            &&& twice.price_message.price == once.price_message.price
        }),
{
}

} // verus!
