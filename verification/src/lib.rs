//! Verified core of a thermocouple temperature logger.
use vstd::prelude::*;

pub mod displayctl;
pub mod logger;
pub mod profile;
pub mod sensor;
pub mod templogs;
pub mod text;
pub mod thread;
pub mod transfer;

verus! {

/// Battery voltage in millivolts from a raw ADC reading taken through the
/// board's one-to-two voltage divider.
pub fn battery_millivolts(raw: u16) -> (mv: u32)
    ensures
        mv == 2 * raw,
{
    (raw as u32) * 2
}

} // verus!
