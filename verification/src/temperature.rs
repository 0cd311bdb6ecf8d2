//! Conversion of raw temperature readings.
//!
//! The chips report temperature in steps of 0.02 K. A reading `raw` stands
//! for `raw * 0.02 - 273.15` degrees Celsius; kept in hundredths of a degree
//! that is the whole number `2 * raw - 27315`, with nothing lost.

use vstd::prelude::*;
use crate::transfer::{word_from_bytes, word_reply};
use crate::types::Error;

verus! {

/// The temperature a raw reading stands for, in hundredths of a degree
/// Celsius.
pub open spec fn celsius_hundredths(raw: u16) -> int {
    2 * raw - 27315
}

/// Converts a raw reading into hundredths of a degree Celsius.
///
/// Every 16-bit reading is converted; nothing is clamped.
pub fn to_celsius_hundredths(raw: u16) -> (hundredths: i32)
    ensures
        hundredths == celsius_hundredths(raw),
{
    2 * (raw as i32) - 27315
}

/// What the read of a temperature register comes to: the temperature in
/// hundredths of a degree Celsius, or the bus's error wrapped unchanged.
pub fn temperature_reply<E>(reply: Result<[u8; 2], E>) -> (temperature: Result<i32, Error<E>>)
    ensures
        reply matches Ok(data) ==> temperature is Ok && temperature->Ok_0 == celsius_hundredths(
            word_from_bytes(data[0], data[1]),
        ),
        reply matches Err(e) ==> temperature == Err::<i32, Error<E>>(Error::BusError(e)),
{
    match word_reply(reply) {
        Ok(raw) => Ok(to_celsius_hundredths(raw)),
        Err(e) => Err(e),
    }
}

} // verus!
