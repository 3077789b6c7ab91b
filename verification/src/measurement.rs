//! Decoder for the payload of one heart-rate measurement notification.
//!
//! The payload starts with a flags byte. Bit 0 selects the width of the
//! heart-rate value that follows (one byte, or two in little-endian order),
//! bit 2 says whether the sensor can tell skin contact, and bit 1 carries the
//! contact state when it can. Whatever follows the value is not consulted.

use vstd::prelude::*;

verus! {

/// Flag bit 0: the heart-rate value takes two bytes.
pub const WIDE_VALUE: u8 = 0x01;

/// Flag bit 1: the sensor has skin contact (meaningful with bit 2 only).
pub const CONTACT_DETECTED: u8 = 0x02;

/// Flag bit 2: the sensor reports whether it has skin contact.
pub const CONTACT_SUPPORTED: u8 = 0x04;

/// One decoded measurement.
#[derive(Clone, Copy, Debug, PartialEq, Eq)]
pub struct HeartRateReading {
    /// Beats per minute.
    pub heart_rate: u16,
    /// Skin contact, `None` where the sensor does not report it.
    pub sensor_contact: Option<bool>,
}

/// Why a payload could not be decoded.
#[derive(Clone, Copy, Debug, PartialEq, Eq)]
pub enum DecodeError {
    /// The payload ends before the heart-rate value does.
    TooShort,
}

/// Whether the flags announce a two-byte heart-rate value.
pub open spec fn has_wide_value(flags: u8) -> bool {
    flags & WIDE_VALUE != 0
}

/// Whether the flags announce that skin contact is reported.
pub open spec fn contact_supported(flags: u8) -> bool {
    flags & CONTACT_SUPPORTED != 0
}

/// The contact bit of the flags.
pub open spec fn contact_detected(flags: u8) -> bool {
    flags & CONTACT_DETECTED != 0
}

/// Number of leading bytes that a payload with these flags must hold, and
/// the only ones that decoding looks at.
pub open spec fn consumed_len(flags: u8) -> nat {
    if has_wide_value(flags) {
        3
    } else {
        2
    }
}

/// Whether a payload holds its flags and its whole heart-rate value.
pub open spec fn is_complete(bytes: Seq<u8>) -> bool {
    bytes.len() >= 2 && bytes.len() >= consumed_len(bytes[0])
}

/// The heart-rate value of a complete payload.
pub open spec fn heart_rate_of(bytes: Seq<u8>) -> int {
    if has_wide_value(bytes[0]) {
        bytes[1] + 256 * bytes[2]
    } else {
        bytes[1] as int
    }
}

/// The contact field that the flags stand for.
pub open spec fn contact_of(flags: u8) -> Option<bool> {
    if contact_supported(flags) {
        Some(contact_detected(flags))
    } else {
        None
    }
}

/// What a payload decodes to.
pub open spec fn decoded(bytes: Seq<u8>) -> Result<HeartRateReading, DecodeError> {
    if is_complete(bytes) {
        Ok(
            HeartRateReading {
                heart_rate: heart_rate_of(bytes) as u16,
                sensor_contact: contact_of(bytes[0]),
            },
        )
    } else {
        Err(DecodeError::TooShort)
    }
}

/// Decodes one notification payload.
pub fn decode(bytes: &[u8]) -> (result: Result<HeartRateReading, DecodeError>)
    ensures
        result == decoded(bytes@),
        result matches Ok(reading) ==> reading.heart_rate == heart_rate_of(bytes@),
{
    if bytes.len() < 2 {
        return Err(DecodeError::TooShort);
    }
    let flags = bytes[0];
    let mut heart_rate: u16 = bytes[1] as u16;
    if flags & WIDE_VALUE != 0 {
        if bytes.len() < 3 {
            return Err(DecodeError::TooShort);
        }
        heart_rate = heart_rate + 256 * (bytes[2] as u16);
    }
    let sensor_contact = if flags & CONTACT_SUPPORTED != 0 {
        Some(flags & CONTACT_DETECTED != 0)
    } else {
        None
    };
    Ok(HeartRateReading { heart_rate, sensor_contact })
}

/// A payload of the flags and one value byte, with the width bit clear,
/// decodes to that byte as the heart rate; the contact field is present
/// exactly when bit 2 is set, and then equals bit 1.
pub proof fn lemma_narrow_payload(flags: u8, value: u8)
    requires
        flags & 0x01 == 0,
    ensures
        decoded(seq![flags, value]) matches Ok(reading) && reading.heart_rate == value && (
        reading.sensor_contact is Some <==> flags & 0x04 != 0) && (reading.sensor_contact
            matches Some(contact) ==> contact == (flags & 0x02 != 0)),
{
}

/// A payload with the width bit set and two value bytes decodes to the
/// little-endian value of those bytes; the contact field is read from the
/// flags as for a one-byte value.
pub proof fn lemma_wide_payload(flags: u8, low: u8, high: u8)
    ensures
        decoded(seq![flags | 0x01, low, high]) matches Ok(reading) && reading.heart_rate == low
            + 256 * high && reading.sensor_contact == contact_of(flags),
{
    assert((flags | 0x01) & 0x01 != 0) by (bit_vector);
    assert((flags | 0x01) & 0x04 == flags & 0x04) by (bit_vector);
    assert((flags | 0x01) & 0x02 == flags & 0x02) by (bit_vector);
}

/// Decoding fails, and then for want of bytes, exactly on payloads of fewer
/// than two bytes and on payloads of two bytes whose width bit is set.
pub proof fn lemma_too_short(bytes: Seq<u8>)
    ensures
        decoded(bytes) is Err <==> bytes.len() < 2 || (bytes.len() == 2 && bytes[0] & 0x01 != 0),
        decoded(bytes) is Err ==> decoded(bytes) == Err::<HeartRateReading, DecodeError>(
            DecodeError::TooShort,
        ),
{
}

/// Bytes that follow a complete payload change nothing: the longer payload
/// decodes, and to the same reading.
pub proof fn lemma_trailing_bytes_ignored(bytes: Seq<u8>, trailing: Seq<u8>)
    requires
        is_complete(bytes),
    ensures
        decoded(bytes + trailing) is Ok,
        decoded(bytes + trailing) == decoded(bytes),
{
    let longer = bytes + trailing;
    assert(longer[0] == bytes[0]);
    assert(longer[1] == bytes[1]);
    if has_wide_value(bytes[0]) {
        assert(longer[2] == bytes[2]);
    }
}

/// A complete payload decodes as its consumed prefix alone does: the flags,
/// and the one or two value bytes that the flags announce.
pub proof fn lemma_only_prefix_consulted(bytes: Seq<u8>)
    requires
        is_complete(bytes),
    ensures
        decoded(bytes) == decoded(bytes.take(consumed_len(bytes[0]) as int)),
{
    let prefix = bytes.take(consumed_len(bytes[0]) as int);
    assert(prefix[0] == bytes[0]);
    assert(prefix[1] == bytes[1]);
    if has_wide_value(bytes[0]) {
        assert(prefix[2] == bytes[2]);
    }
}

/// Decoding is a function of the bytes: whatever two calls of [`decode`] on
/// payloads of equal content return, they return the same.
pub proof fn lemma_decode_deterministic(
    first_input: &[u8],
    second_input: &[u8],
    first: Result<HeartRateReading, DecodeError>,
    second: Result<HeartRateReading, DecodeError>,
)
    requires
        first_input@ == second_input@,
        call_ensures(decode, (first_input,), first),
        call_ensures(decode, (second_input,), second),
    ensures
        first == second,
{
}

} // verus!
