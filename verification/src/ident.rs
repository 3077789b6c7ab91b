//! The identifiers of the heart-rate service and of its measurement
//! characteristic.
//!
//! Standard services are named by a 16-bit number. On the radio, and in the
//! requests of a session, the number stands in its 128-bit form: the bits 96
//! to 111 of a fixed base identifier.

use vstd::prelude::*;

verus! {

/// The base identifier that every 16-bit identifier is placed into.
pub const BASE_ID: u128 = 0x0000_0000_0000_1000_8000_0080_5f9b_34fb;

/// The value of bit 96, the lowest bit of a 16-bit identifier in its 128-bit form.
pub const SHORT_ID_UNIT: u128 = 0x1_0000_0000_0000_0000_0000_0000;

/// The 16-bit identifier of the heart-rate service.
pub const HEART_RATE_SERVICE: u16 = 0x180D;

/// The 16-bit identifier of the heart-rate measurement characteristic.
pub const HEART_RATE_MEASUREMENT: u16 = 0x2A37;

/// The 128-bit form of a 16-bit identifier.
pub open spec fn full_id(short: u16) -> u128 {
    (BASE_ID + short * SHORT_ID_UNIT) as u128
}

/// The 128-bit form of the heart-rate service's identifier.
pub open spec fn service_id() -> u128 {
    full_id(HEART_RATE_SERVICE)
}

/// The 128-bit form of the measurement characteristic's identifier.
pub open spec fn measurement_id() -> u128 {
    full_id(HEART_RATE_MEASUREMENT)
}

/// Places a 16-bit identifier into the base identifier.
pub fn full_identifier(short: u16) -> (result: u128)
    ensures
        result == full_id(short),
        result == BASE_ID + short * SHORT_ID_UNIT,
        result == (short as u128) << 96 | BASE_ID,
{
    let wide = short as u128;
    assert(wide * 0x1_0000_0000_0000_0000_0000_0000u128 == wide << 96 && (wide << 96)
        + 0x0000_0000_0000_1000_8000_0080_5f9b_34fbu128 == (wide << 96
        | 0x0000_0000_0000_1000_8000_0080_5f9b_34fbu128)) by (bit_vector)
        requires
            wide < 0x1_0000u128,
    ;
    BASE_ID + wide * SHORT_ID_UNIT
}

/// The identifier by which a session asks for the heart-rate service.
pub fn heart_rate_service_id() -> (result: u128)
    ensures
        result == service_id(),
        result == 0x0000_180d_0000_1000_8000_0080_5f9b_34fb,
{
    full_identifier(HEART_RATE_SERVICE)
}

/// The identifier by which a session asks for the measurement characteristic.
pub fn heart_rate_measurement_id() -> (result: u128)
    ensures
        result == measurement_id(),
        result == 0x0000_2a37_0000_1000_8000_0080_5f9b_34fb,
{
    full_identifier(HEART_RATE_MEASUREMENT)
}

} // verus!
