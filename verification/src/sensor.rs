//! Decoding of the thermocouple converter's 32-bit SPI frame.
use vstd::prelude::*;

verus! {

/// A fault that the converter reports in the low three bits of the frame.
#[derive(Clone, Copy, Debug, PartialEq, Eq, Structural)]
pub enum SensorFault {
    /// The thermocouple is not connected (bit 0).
    OpenCircuit,
    /// The thermocouple is shorted to ground (bit 1).
    ShortToGround,
    /// The thermocouple is shorted to the supply (bit 2).
    ShortToVcc,
}

/// A decoded reading, in exact fixed point: `tr` is one hundred times and
/// `ta` sixteen times the temperature in degrees, with no rounding, for every
/// frame.
pub struct Temperature {
    /// Cold-junction (internal) temperature, in sixteenths of a degree Celsius.
    pub ta: i32,
    /// Thermocouple temperature, in hundredths of a degree Celsius.
    pub tr: i32,
    /// "OK" for a good reading, else the fault's message.
    pub msg: String,
}

/// The value of a byte read as a two's complement `i8`.
pub open spec fn signed_byte(b: u8) -> int {
    if b < 128 { b as int } else { b - 256 }
}

/// The fault that the low three bits of the last byte report. Only a single
/// set bit names a fault; any other pattern reads as no fault.
pub open spec fn frame_fault(b3: u8) -> Option<SensorFault> {
    let bits = b3 % 8;
    if bits == 1 {
        Some(SensorFault::OpenCircuit)
    } else if bits == 2 {
        Some(SensorFault::ShortToGround)
    } else if bits == 4 {
        Some(SensorFault::ShortToVcc)
    } else {
        None
    }
}

/// The 14-bit signed thermocouple reading of a frame, in quarters of a degree.
pub open spec fn thermocouple_quarters(frame: Seq<u8>) -> int {
    signed_byte(frame[0]) * 64 + frame[1] / 4
}

/// The 12-bit signed cold-junction reading of a frame, in sixteenths of a degree.
pub open spec fn internal_sixteenths(frame: Seq<u8>) -> int {
    signed_byte(frame[2]) * 16 + frame[3] / 16
}

/// The message that names a fault.
pub open spec fn fault_message(f: SensorFault) -> Seq<char> {
    match f {
        SensorFault::OpenCircuit => "OC ERROR"@,
        SensorFault::ShortToGround => "SCG ERROR"@,
        SensorFault::ShortToVcc => "SCV ERROR"@,
    }
}

/// Decodes a frame read from the converter: the thermocouple and
/// cold-junction temperatures, or the fault that the frame reports.
pub fn get_temp(temp: &[u8; 4]) -> (res: Result<Temperature, Temperature>)
    ensures
        match frame_fault(temp@[3]) {
            None => res matches Ok(t) && t.tr == 25 * thermocouple_quarters(temp@)
                && t.ta == internal_sixteenths(temp@) && t.msg@ == "OK"@,
            Some(f) => res matches Err(t) && t.tr == 0 && t.ta == 0 && t.msg@ == fault_message(f),
        },
{
    let msg;
    let b0 = temp[0];
    let b1 = temp[1];
    let b2 = temp[2];
    let b3 = temp[3];
    let bits = b3 & 0x7;
    assert(bits == b3 % 8) by (bit_vector)
        requires
            bits == b3 & 0x7,
    ;
    match bits {
        0x01 => {
            msg = "OC ERROR";
        },
        0x02 => {
            msg = "SCG ERROR";
        },
        0x04 => {
            msg = "SCV ERROR";
        },
        _ => {
            let tempval: i32 = (((b0 as i8) as i32) << 6) | ((b1 >> 2) as i32);
            let intempval: i32 = (((b2 as i8) as i32) << 4) | ((b3 >> 4) as i32);
            assert(tempval == (if b0 < 128 { b0 as int } else { b0 as i32 - 256 }) * 64 + (b1
                / 4) as int) by (bit_vector)
                requires
                    tempval == (((b0 as i8) as i32) << 6) | ((b1 >> 2) as i32),
            ;
            assert(intempval == (if b2 < 128 { b2 as int } else { b2 as i32 - 256 }) * 16 + (b3
                / 16) as int) by (bit_vector)
                requires
                    intempval == (((b2 as i8) as i32) << 4) | ((b3 >> 4) as i32),
            ;
            return Ok(Temperature { ta: intempval, tr: tempval * 25, msg: String::from_str("OK") });
        },
    }
    Err(Temperature { ta: 0, tr: 0, msg: String::from_str(msg) })
}


/// The readings span the converter's ranges: the thermocouple from -2048.00
/// to 2047.75 degrees in steps of a quarter, the cold junction from -128.0
/// to 127.9375 degrees in steps of a sixteenth.
pub proof fn reading_ranges(frame: Seq<u8>)
    requires
        frame.len() == 4,
    ensures
        -8192 <= thermocouple_quarters(frame) <= 8191,
        -2048 <= internal_sixteenths(frame) <= 2047,
{
}

} // verus!
