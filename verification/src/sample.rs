//! Reading a posted price back out of a persisted record: parse the
//! account bytes, check that they carry the expected feed, and reject a
//! price older than the caller tolerates.

use vstd::prelude::*;
use crate::codec::{
    deserialize_record, lemma_serialize_record_injective, spec_serialize_record,
    spec_wf_record_bytes,
};
use crate::price_feed::{keys_equal, PriceFeedMessage, PriceUpdateV3};

verus! {

/// Why a posted price could not be read.
#[derive(Clone, Copy, PartialEq, Eq, Structural, Debug)]
pub enum SampleError {
    /// The account bytes are not a well-formed record.
    MalformedRecord,
    /// The record belongs to a different feed.
    WrongFeed,
    /// The record's price is older than the caller tolerates.
    PriceTooOld,
}

/// Whether a record carries the expected feed and a price no older than
/// `maximum_age` seconds at time `now`.
pub open spec fn spec_fresh_for(
    r: PriceUpdateV3,
    feed_id: Seq<u8>,
    now: i64,
    maximum_age: u64,
) -> bool {
    &&& r.price_message.feed_id@ == feed_id
    &&& now - r.price_message.publish_time <= maximum_age
}

/// Reads the price message out of a persisted record, provided the bytes
/// parse, the record is for the expected feed, and its price is at most
/// `maximum_age` seconds old at time `now`.
pub fn sample(
    record_bytes: &[u8],
    expected_feed_id: &[u8; 32],
    now: i64,
    maximum_age: u64,
) -> (result: Result<PriceFeedMessage, SampleError>)
    ensures
        result matches Ok(m) ==> exists|r: PriceUpdateV3|
            {
                &&& spec_serialize_record(r) == record_bytes@
                &&& m == r.price_message
                &&& spec_fresh_for(r, expected_feed_id@, now, maximum_age)
            },
        result == Err::<PriceFeedMessage, SampleError>(SampleError::MalformedRecord)
            <==> !spec_wf_record_bytes(record_bytes@),
        result == Err::<PriceFeedMessage, SampleError>(SampleError::WrongFeed) <==> exists|
            r: PriceUpdateV3,
        |
            {
                &&& #[trigger] spec_serialize_record(r) == record_bytes@
                &&& r.price_message.feed_id@ != expected_feed_id@
            },
        result == Err::<PriceFeedMessage, SampleError>(SampleError::PriceTooOld) <==> exists|
            r: PriceUpdateV3,
        |
            {
                &&& #[trigger] spec_serialize_record(r) == record_bytes@
                &&& r.price_message.feed_id@ == expected_feed_id@
                &&& now - r.price_message.publish_time > maximum_age
            },
{
    let parsed = deserialize_record(record_bytes);
    match parsed {
        None => {
            proof {
                assert forall|r: PriceUpdateV3| spec_serialize_record(r)
                    != record_bytes@ by {
                    crate::codec::lemma_serialized_bytes_wf(r);
                }
            }
            Err(SampleError::MalformedRecord)
        },
        Some(record) => {
            proof {
                assert forall|r: PriceUpdateV3| spec_serialize_record(r) == record_bytes@
                    implies r == record by {
                    lemma_serialize_record_injective(r, record);
                }
            }
            if !keys_equal(&record.price_message.feed_id, expected_feed_id) {
                return Err(SampleError::WrongFeed);
            }
            let age: i128 = (now as i128) - (record.price_message.publish_time as i128);
            if age > maximum_age as i128 {
                return Err(SampleError::PriceTooOld);
            }
            Ok(record.price_message)
        },
    }
}

} // verus!
