//! The wire-exact persisted layout of a price-feed record: an 8-byte
//! account-type discriminator, the write authority, the verification level,
//! the price message, and the posted slot, with every integer little-endian.

use vstd::prelude::*;
use vstd::bytes::{
    spec_u32_from_le_bytes, spec_u32_to_le_bytes, spec_u64_from_le_bytes, spec_u64_to_le_bytes,
    lemma_auto_spec_u32_to_from_le_bytes, lemma_auto_spec_u64_to_from_le_bytes, u32_from_le_bytes,
    u32_to_le_bytes, u64_from_le_bytes, u64_to_le_bytes,
};
use vstd::slice::slice_subrange;
use crate::price_feed::{PriceFeedMessage, PriceUpdateV3, VerificationLevel};

verus! {

/// Number of bytes a serialized record occupies.
pub const RECORD_SERIALIZED_LEN: usize = 133;

/// The 8-byte account-type discriminator that prefixes every record.
pub open spec fn spec_discriminator() -> Seq<u8> {
    seq![234u8, 161u8, 14u8, 36u8, 172u8, 239u8, 15u8, 232u8]
}

/// The byte that stands for a verification level on the wire.
pub open spec fn spec_level_byte(level: VerificationLevel) -> u8 {
    match level {
        VerificationLevel::Partial => 0u8,
        VerificationLevel::Full => 1u8,
    }
}

/// A signed 64-bit value reinterpreted as its unsigned 64-bit pattern.
pub open spec fn spec_i64_as_u64(x: i64) -> u64 {
    if x >= 0 {
        x as u64
    } else {
        (x + 0x1_0000_0000_0000_0000) as u64
    }
}

/// An unsigned 64-bit pattern reinterpreted as a signed 64-bit value.
pub open spec fn spec_u64_as_i64(u: u64) -> i64 {
    if u < 0x8000_0000_0000_0000 {
        u as i64
    } else {
        (u - 0x1_0000_0000_0000_0000) as i64
    }
}

/// A signed 32-bit value reinterpreted as its unsigned 32-bit pattern.
pub open spec fn spec_i32_as_u32(x: i32) -> u32 {
    if x >= 0 {
        x as u32
    } else {
        (x + 0x1_0000_0000) as u32
    }
}

/// An unsigned 32-bit pattern reinterpreted as a signed 32-bit value.
pub open spec fn spec_u32_as_i32(u: u32) -> i32 {
    if u < 0x8000_0000 {
        u as i32
    } else {
        (u - 0x1_0000_0000) as i32
    }
}

/// Reinterpreting a signed value as a pattern and back is the identity,
/// and so is the other direction.
pub proof fn lemma_i64_u64_reinterpret(x: i64, u: u64)
    ensures
        spec_u64_as_i64(spec_i64_as_u64(x)) == x,
        spec_i64_as_u64(spec_u64_as_i64(u)) == u,
{
}

/// The 32-bit counterpart of `lemma_i64_u64_reinterpret`.
pub proof fn lemma_i32_u32_reinterpret(x: i32, u: u32)
    ensures
        spec_u32_as_i32(spec_i32_as_u32(x)) == x,
        spec_i32_as_u32(spec_u32_as_i32(u)) == u,
{
}

fn i64_to_u64_bits(x: i64) -> (u: u64)
    ensures
        u == spec_i64_as_u64(x),
{
    if x >= 0 {
        x as u64
    } else {
        ((x as i128) + 0x1_0000_0000_0000_0000i128) as u64
    }
}

fn u64_to_i64_bits(u: u64) -> (x: i64)
    ensures
        x == spec_u64_as_i64(u),
{
    if u < 0x8000_0000_0000_0000 {
        u as i64
    } else {
        ((u as i128) - 0x1_0000_0000_0000_0000i128) as i64
    }
}

fn i32_to_u32_bits(x: i32) -> (u: u32)
    ensures
        u == spec_i32_as_u32(x),
{
    if x >= 0 {
        x as u32
    } else {
        ((x as i64) + 0x1_0000_0000i64) as u32
    }
}

fn u32_to_i32_bits(u: u32) -> (x: i32)
    ensures
        x == spec_u32_as_i32(u),
{
    if u < 0x8000_0000 {
        u as i32
    } else {
        ((u as i64) - 0x1_0000_0000i64) as i32
    }
}

/// The serialized price message: feed id, EMA fields, price, confidence,
/// exponent and the two publish times, in wire order.
pub open spec fn spec_serialize_message(m: PriceFeedMessage) -> Seq<u8> {
    m.feed_id@ + spec_u64_to_le_bytes(spec_i64_as_u64(m.ema_conf)) + spec_u64_to_le_bytes(
        spec_i64_as_u64(m.ema_price),
    ) + spec_u64_to_le_bytes(spec_i64_as_u64(m.price)) + spec_u64_to_le_bytes(m.conf)
        + spec_u32_to_le_bytes(spec_i32_as_u32(m.exponent)) + spec_u64_to_le_bytes(
        spec_i64_as_u64(m.prev_publish_time),
    ) + spec_u64_to_le_bytes(spec_i64_as_u64(m.publish_time))
}

/// The serialized record, exactly as it is persisted.
pub open spec fn spec_serialize_record(r: PriceUpdateV3) -> Seq<u8> {
    spec_discriminator() + r.write_authority@ + seq![spec_level_byte(r.verification_level)]
        + spec_serialize_message(r.price_message) + spec_u64_to_le_bytes(r.posted_slot)
}

/// Whether a byte string is the serialization of some record: right length,
/// right discriminator, and a known verification-level byte.
pub open spec fn spec_wf_record_bytes(b: Seq<u8>) -> bool {
    &&& b.len() == RECORD_SERIALIZED_LEN
    &&& b.subrange(0, 8) == spec_discriminator()
    &&& (b[40] == 0 || b[40] == 1)
}

/// Where each component of a serialized record lies.
pub proof fn lemma_record_layout(r: PriceUpdateV3)
    ensures
        spec_serialize_record(r).len() == RECORD_SERIALIZED_LEN,
        spec_serialize_record(r).subrange(0, 8) == spec_discriminator(),
        spec_serialize_record(r).subrange(8, 40) == r.write_authority@,
        spec_serialize_record(r)[40] == spec_level_byte(r.verification_level),
        spec_serialize_record(r).subrange(41, 125) == spec_serialize_message(r.price_message),
        spec_serialize_record(r).subrange(41, 73) == r.price_message.feed_id@,
        spec_serialize_record(r).subrange(73, 81) == spec_u64_to_le_bytes(
            spec_i64_as_u64(r.price_message.ema_conf),
        ),
        spec_serialize_record(r).subrange(81, 89) == spec_u64_to_le_bytes(
            spec_i64_as_u64(r.price_message.ema_price),
        ),
        spec_serialize_record(r).subrange(89, 97) == spec_u64_to_le_bytes(
            spec_i64_as_u64(r.price_message.price),
        ),
        spec_serialize_record(r).subrange(97, 105) == spec_u64_to_le_bytes(r.price_message.conf),
        spec_serialize_record(r).subrange(105, 109) == spec_u32_to_le_bytes(
            spec_i32_as_u32(r.price_message.exponent),
        ),
        spec_serialize_record(r).subrange(109, 117) == spec_u64_to_le_bytes(
            spec_i64_as_u64(r.price_message.prev_publish_time),
        ),
        spec_serialize_record(r).subrange(117, 125) == spec_u64_to_le_bytes(
            spec_i64_as_u64(r.price_message.publish_time),
        ),
        spec_serialize_record(r).subrange(125, 133) == spec_u64_to_le_bytes(r.posted_slot),
{
    lemma_auto_spec_u64_to_from_le_bytes();
    lemma_auto_spec_u32_to_from_le_bytes();
    let b = spec_serialize_record(r);
    assert(b.len() == 133);
    assert(b.subrange(0, 8) =~= spec_discriminator());
    assert(b.subrange(8, 40) =~= r.write_authority@);
    assert(b.subrange(41, 125) =~= spec_serialize_message(r.price_message));
    assert(b.subrange(41, 73) =~= r.price_message.feed_id@);
    assert(b.subrange(73, 81) =~= spec_u64_to_le_bytes(spec_i64_as_u64(r.price_message.ema_conf)));
    assert(b.subrange(81, 89) =~= spec_u64_to_le_bytes(spec_i64_as_u64(r.price_message.ema_price)));
    assert(b.subrange(89, 97) =~= spec_u64_to_le_bytes(spec_i64_as_u64(r.price_message.price)));
    assert(b.subrange(97, 105) =~= spec_u64_to_le_bytes(r.price_message.conf));
    assert(b.subrange(105, 109) =~= spec_u32_to_le_bytes(spec_i32_as_u32(r.price_message.exponent)));
    assert(b.subrange(109, 117) =~= spec_u64_to_le_bytes(
        spec_i64_as_u64(r.price_message.prev_publish_time),
    ));
    assert(b.subrange(117, 125) =~= spec_u64_to_le_bytes(
        spec_i64_as_u64(r.price_message.publish_time),
    ));
    assert(b.subrange(125, 133) =~= spec_u64_to_le_bytes(r.posted_slot));
}

/// Two records with the same serialization are the same record.
pub proof fn lemma_serialize_record_injective(r1: PriceUpdateV3, r2: PriceUpdateV3)
    requires
        spec_serialize_record(r1) == spec_serialize_record(r2),
    ensures
        r1 == r2,
{
    lemma_auto_spec_u64_to_from_le_bytes();
    lemma_auto_spec_u32_to_from_le_bytes();
    lemma_record_layout(r1);
    lemma_record_layout(r2);
    assert(r1.write_authority@ == r2.write_authority@);
    assert(r1.write_authority =~= r2.write_authority);
    assert(spec_level_byte(r1.verification_level) == spec_level_byte(r2.verification_level));
    assert(r1.verification_level == r2.verification_level);
    assert(r1.price_message.feed_id =~= r2.price_message.feed_id);
    lemma_i64_u64_reinterpret(r1.price_message.ema_conf, 0);
    lemma_i64_u64_reinterpret(r2.price_message.ema_conf, 0);
    assert(spec_u64_from_le_bytes(spec_u64_to_le_bytes(spec_i64_as_u64(r1.price_message.ema_conf)))
        == spec_i64_as_u64(r1.price_message.ema_conf));
    assert(r1.price_message.ema_conf == r2.price_message.ema_conf);
    assert(r1.price_message.ema_price == r2.price_message.ema_price);
    assert(r1.price_message.price == r2.price_message.price);
    assert(r1.price_message.conf == r2.price_message.conf);
    assert(r1.price_message.exponent == r2.price_message.exponent);
    assert(r1.price_message.prev_publish_time == r2.price_message.prev_publish_time);
    assert(r1.price_message.publish_time == r2.price_message.publish_time);
    assert(r1.posted_slot == r2.posted_slot);
    assert(r1.price_message =~= r2.price_message);
    assert(r1 =~= r2);
}

pub(crate) fn push_bytes32(out: &mut Vec<u8>, a: &[u8; 32])
    ensures
        final(out)@ == old(out)@ + a@,
{
    out.extend_from_slice(a.as_slice());
}

pub(crate) fn push_u64_le(out: &mut Vec<u8>, v: u64)
    ensures
        final(out)@ == old(out)@ + spec_u64_to_le_bytes(v),
{
    let mut tmp = u64_to_le_bytes(v);
    out.append(&mut tmp);
}

fn push_i64_le(out: &mut Vec<u8>, x: i64)
    ensures
        final(out)@ == old(out)@ + spec_u64_to_le_bytes(spec_i64_as_u64(x)),
{
    push_u64_le(out, i64_to_u64_bits(x));
}

pub(crate) fn push_u32_le(out: &mut Vec<u8>, v: u32)
    ensures
        final(out)@ == old(out)@ + spec_u32_to_le_bytes(v),
{
    let mut tmp = u32_to_le_bytes(v);
    out.append(&mut tmp);
}

/// Serializes a record into its persisted byte layout.
pub fn serialize_record(r: &PriceUpdateV3) -> (out: Vec<u8>)
    ensures
        out@ == spec_serialize_record(*r),
        out@.len() == RECORD_SERIALIZED_LEN,
{
    let mut out: Vec<u8> = Vec::new();
    out.push(234u8);
    out.push(161u8);
    out.push(14u8);
    out.push(36u8);
    out.push(172u8);
    out.push(239u8);
    out.push(15u8);
    out.push(232u8);
    assert(out@ =~= spec_discriminator());
    push_bytes32(&mut out, &r.write_authority);
    let level_byte: u8 = match r.verification_level {
        VerificationLevel::Partial => 0u8,
        VerificationLevel::Full => 1u8,
    };
    out.push(level_byte);
    push_bytes32(&mut out, &r.price_message.feed_id);
    push_i64_le(&mut out, r.price_message.ema_conf);
    push_i64_le(&mut out, r.price_message.ema_price);
    push_i64_le(&mut out, r.price_message.price);
    push_u64_le(&mut out, r.price_message.conf);
    push_u32_le(&mut out, i32_to_u32_bits(r.price_message.exponent));
    push_i64_le(&mut out, r.price_message.prev_publish_time);
    push_i64_le(&mut out, r.price_message.publish_time);
    push_u64_le(&mut out, r.posted_slot);
    proof {
        lemma_record_layout(*r);
        assert(out@ =~= spec_serialize_record(*r));
    }
    out
}

fn read_array32(bytes: &[u8], start: usize) -> (a: [u8; 32])
    requires
        start + 32 <= bytes@.len(),
    ensures
        a@ == bytes@.subrange(start as int, start + 32),
{
    let n = bytes.len();
    let mut a: [u8; 32] = [0u8; 32];
    let mut i: usize = 0;
    while i < 32
        invariant
            i <= 32,
            start + 32 <= n == bytes@.len(),
            forall|j: int| 0 <= j < i ==> a@[j] == bytes@[start + j],
        decreases 32 - i,
    {
        a[i] = bytes[start + i];
        i += 1;
    }
    proof {
        assert(a@ =~= bytes@.subrange(start as int, start + 32));
    }
    a
}

/// Parses a persisted record. Returns the record exactly when the bytes are
/// a well-formed serialization, and in that case the bytes are exactly that
/// record's serialization.
pub fn deserialize_record(bytes: &[u8]) -> (result: Option<PriceUpdateV3>)
    ensures
        result is Some <==> spec_wf_record_bytes(bytes@),
        result matches Some(r) ==> spec_serialize_record(r) == bytes@,
{
    proof {
        lemma_auto_spec_u64_to_from_le_bytes();
        lemma_auto_spec_u32_to_from_le_bytes();
    }
    if bytes.len() != RECORD_SERIALIZED_LEN {
        return None;
    }
    if bytes[0] != 234 || bytes[1] != 161 || bytes[2] != 14 || bytes[3] != 36 || bytes[4] != 172
        || bytes[5] != 239 || bytes[6] != 15 || bytes[7] != 232 {
        proof {
            assert(bytes@.subrange(0, 8) != spec_discriminator());
        }
        return None;
    }
    let verification_level = match bytes[40] {
        0u8 => VerificationLevel::Partial,
        1u8 => VerificationLevel::Full,
        _ => {
            return None;
        },
    };
    let write_authority = read_array32(bytes, 8);
    let feed_id = read_array32(bytes, 41);
    let ema_conf = u64_to_i64_bits(u64_from_le_bytes(slice_subrange(bytes, 73, 81)));
    let ema_price = u64_to_i64_bits(u64_from_le_bytes(slice_subrange(bytes, 81, 89)));
    let price = u64_to_i64_bits(u64_from_le_bytes(slice_subrange(bytes, 89, 97)));
    let conf = u64_from_le_bytes(slice_subrange(bytes, 97, 105));
    let exponent = u32_to_i32_bits(u32_from_le_bytes(slice_subrange(bytes, 105, 109)));
    let prev_publish_time = u64_to_i64_bits(u64_from_le_bytes(slice_subrange(bytes, 109, 117)));
    let publish_time = u64_to_i64_bits(u64_from_le_bytes(slice_subrange(bytes, 117, 125)));
    let posted_slot = u64_from_le_bytes(slice_subrange(bytes, 125, 133));
    let record = PriceUpdateV3 {
        write_authority,
        verification_level,
        price_message: PriceFeedMessage {
            feed_id,
            ema_conf,
            ema_price,
            price,
            conf,
            exponent,
            prev_publish_time,
            publish_time,
        },
        posted_slot,
    };
    proof {
        assert(bytes@.subrange(0, 8) =~= spec_discriminator());
        lemma_record_layout(record);
        lemma_i64_u64_reinterpret(0, spec_u64_from_le_bytes(bytes@.subrange(73, 81)));
        lemma_i64_u64_reinterpret(0, spec_u64_from_le_bytes(bytes@.subrange(81, 89)));
        lemma_i64_u64_reinterpret(0, spec_u64_from_le_bytes(bytes@.subrange(89, 97)));
        lemma_i32_u32_reinterpret(0, spec_u32_from_le_bytes(bytes@.subrange(105, 109)));
        lemma_i64_u64_reinterpret(0, spec_u64_from_le_bytes(bytes@.subrange(109, 117)));
        lemma_i64_u64_reinterpret(0, spec_u64_from_le_bytes(bytes@.subrange(117, 125)));
        assert(spec_serialize_record(record) =~= bytes@);
    }
    Some(record)
}

/// Serialization always yields well-formed record bytes, so parsing what was
/// serialized gives back exactly the original record.
pub proof fn lemma_serialized_bytes_wf(r: PriceUpdateV3)
    ensures
        spec_wf_record_bytes(spec_serialize_record(r)),
{
    lemma_record_layout(r);
    let b = spec_serialize_record(r);
    assert(b[40] == spec_level_byte(r.verification_level));
}

} // verus!
