//! Conversion of a validated frame into a temperature and humidity reading.

use vstd::prelude::*;
use crate::frame::{DecodeError, RawFrame};

verus! {

/// Value of both fields of the reading that stands for "no valid data".
pub const SENTINEL: i16 = 1001;

/// Every reading that comes from a frame is below this limit in both fields;
/// the sentinel is not.
pub const PLAUSIBLE_LIMIT: i16 = 1000;

/// A temperature in whole degrees Celsius and a relative humidity in whole
/// percent.
#[derive(Clone, Copy, Debug, PartialEq, Eq, Structural)]
pub struct Reading {
    pub temperature: i16,
    pub humidity: i16,
}

/// The fractional contribution of the low seven bits of the temperature
/// fraction byte, by the sensor's three-band rule with integer division:
/// a tenth of a value up to 9, a hundredth of a value up to 100, a thousandth
/// of anything larger.
pub open spec fn fraction_term(low: int) -> int {
    if low <= 9 {
        low / 10
    } else if low <= 100 {
        low / 100
    } else {
        low / 1000
    }
}

/// The temperature that data bytes 2 and 3 encode: the integral part plus the
/// fractional contribution, negated when the high bit of byte 3 is set.
pub open spec fn temperature_of(integral: u8, fraction: u8) -> int {
    let magnitude = integral + fraction_term((fraction % 128) as int);
    if fraction >= 128 {
        -magnitude
    } else {
        magnitude
    }
}

/// The reading that a frame's bytes encode. The humidity is byte 0 as a whole
/// number; byte 1 contributes nothing.
pub open spec fn reading_of(bytes: Seq<u8>) -> Reading {
    Reading {
        temperature: temperature_of(bytes[2], bytes[3]) as i16,
        humidity: bytes[0] as i16,
    }
}

impl Reading {
    /// The reading that stands for "no valid data yet" or "the decode
    /// failed".
    pub fn sentinel() -> (reading: Reading)
        ensures
            reading == (Reading { temperature: SENTINEL, humidity: SENTINEL }),
            !reading.spec_is_plausible(),
    {
        Reading { temperature: SENTINEL, humidity: SENTINEL }
    }

    /// Whether both fields are below the limit that separates readings from
    /// the sentinel.
    pub open spec fn spec_is_plausible(&self) -> bool {
        self.temperature < PLAUSIBLE_LIMIT && self.humidity < PLAUSIBLE_LIMIT
    }

    /// Whether both fields are below the limit that separates readings from
    /// the sentinel.
    #[verifier::when_used_as_spec(spec_is_plausible)]
    pub fn is_plausible(&self) -> (plausible: bool)
        ensures
            plausible == self.spec_is_plausible(),
    {
        self.temperature < PLAUSIBLE_LIMIT && self.humidity < PLAUSIBLE_LIMIT
    }
}

/// Computes the fractional contribution of the low seven bits of the
/// temperature fraction byte. It is 1 for the value 100 and 0 for every
/// other value.
pub fn fraction(low: u8) -> (term: u8)
    ensures
        term == fraction_term(low as int),
        term == if low == 100 { 1int } else { 0int },
{
    if low <= 9 {
        low / 10
    } else if low <= 100 {
        low / 100
    } else {
        (low as u16 / 1000) as u8
    }
}

/// Converts a validated frame into a reading.
pub fn convert(frame: &RawFrame) -> (reading: Reading)
    ensures
        reading == reading_of(frame@),
        reading.temperature == temperature_of(frame@[2], frame@[3]),
        frame@[3] >= 128 ==> reading.temperature <= 0,
        frame@[3] < 128 ==> reading.temperature >= 0,
        reading.humidity == frame@[0],
        -256 <= reading.temperature <= 256,
        0 <= reading.humidity <= 255,
        reading.is_plausible(),
{
    let bytes = frame.bytes();
    let magnitude: i16 = bytes[2] as i16 + fraction(bytes[3] % 128) as i16;
    let temperature: i16 = if bytes[3] >= 128 {
        -magnitude
    } else {
        magnitude
    };
    Reading { temperature, humidity: bytes[0] as i16 }
}

/// The reading to report for the outcome of a decode: the converted frame,
/// or the sentinel when the decode failed.
pub fn reading_or_sentinel(outcome: &Result<RawFrame, DecodeError>) -> (reading: Reading)
    ensures
        outcome matches Ok(frame) ==> reading == reading_of(frame@),
        outcome is Err ==> reading == (Reading { temperature: SENTINEL, humidity: SENTINEL }),
        reading.is_plausible() <==> outcome is Ok,
{
    match outcome {
        Ok(frame) => convert(frame),
        Err(_) => Reading::sentinel(),
    }
}

/// The most recent reading, for a display to show.
#[derive(Clone, Copy, Debug, PartialEq, Eq)]
pub struct LastReading {
    reading: Reading,
}

impl View for LastReading {
    type V = Reading;

    closed spec fn view(&self) -> Reading {
        self.reading
    }
}

impl LastReading {
    /// The state before the first decode: zero degrees, zero percent.
    pub fn new() -> (last: LastReading)
        ensures
            last@ == (Reading { temperature: 0, humidity: 0 }),
    {
        LastReading { reading: Reading { temperature: 0, humidity: 0 } }
    }

    /// Takes in what a decode has yielded: the reading of a frame, or the
    /// sentinel after a failed decode. Either replaces the stored reading as
    /// a whole, so what is stored after a failure is no reading that a frame
    /// can give.
    pub fn record(&mut self, reading: Reading)
        ensures
            final(self)@ == reading,
            final(self)@.is_plausible() <==> reading.is_plausible(),
    {
        self.reading = reading;
    }

    /// The stored reading.
    pub fn get(&self) -> (reading: Reading)
        ensures
            reading == self@,
    {
        self.reading
    }
}

/// The sentinel is told apart from every reading that a frame can give: the
/// temperature of a frame lies within 256 degrees of zero and its humidity is
/// at most 255, so both stay below the limit that the sentinel is above.
pub proof fn lemma_sentinel_is_no_reading(bytes: Seq<u8>)
    ensures
        -256 <= reading_of(bytes).temperature <= 256,
        0 <= reading_of(bytes).humidity <= 255,
        reading_of(bytes).is_plausible(),
        reading_of(bytes) != (Reading { temperature: SENTINEL, humidity: SENTINEL }),
        !(Reading { temperature: SENTINEL, humidity: SENTINEL }).is_plausible(),
{
}

/// A set sign flag never yields a positive temperature, and a clear one never
/// a negative temperature.
pub proof fn lemma_sign_flag_decides_sign(integral: u8, fraction: u8)
    ensures
        fraction >= 128 ==> temperature_of(integral, fraction) <= 0,
        fraction < 128 ==> temperature_of(integral, fraction) >= 0,
{
}

/// Setting the sign flag negates the temperature and leaves its magnitude as
/// it was.
pub proof fn lemma_sign_flag_keeps_magnitude(integral: u8, fraction: u8)
    requires
        fraction < 128,
    ensures
        temperature_of(integral, (fraction + 128) as u8) == -temperature_of(integral, fraction),
{
}

/// The three-band rule contributes nothing, so the magnitude of the
/// temperature is the integral byte alone. This holds for every fraction byte
/// but those whose low seven bits are exactly 100, where the hundredth band
/// yields 1.
pub proof fn lemma_fraction_term_is_zero(integral: u8, fraction: u8)
    requires
        fraction % 128 != 100,
    ensures
        fraction_term((fraction % 128) as int) == 0,
        temperature_of(integral, fraction) == if fraction >= 128 {
            -(integral as int)
        } else {
            integral as int
        },
{
}

} // verus!
