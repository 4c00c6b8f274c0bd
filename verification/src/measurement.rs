//! One reading of the sensor, held as the two 20-bit fields it was sent in.
//!
//! The physical quantities are fractions over `FIELD_SPAN`: a humidity field
//! `h` stands for `h / 2^20 * 100` percent relative humidity, a temperature
//! field `t` for `t / 2^20 * 200 - 50` degrees Celsius. The functions here
//! give those quantities exactly, as integers scaled by `FIELD_SPAN`; the
//! division is left to the caller.

use vstd::prelude::*;
use crate::frame::FIELD_SPAN;

verus! {

/// The fields of one decoded frame.
#[derive(Clone, Copy, Debug, PartialEq, Eq, Structural)]
pub struct Measurement {
    /// The temperature field, below `FIELD_SPAN`.
    pub raw_temperature: u32,
    /// The humidity field, below `FIELD_SPAN`.
    pub raw_humidity: u32,
}

impl Measurement {
    /// Both fields fit in 20 bits.
    pub open spec fn wf(&self) -> bool {
        &&& self.raw_temperature < FIELD_SPAN
        &&& self.raw_humidity < FIELD_SPAN
    }

    /// Relative humidity in percent, times `FIELD_SPAN`.
    pub open spec fn humidity_scaled(&self) -> int {
        self.raw_humidity * 100
    }

    /// Temperature in degrees Celsius, times `FIELD_SPAN`.
    pub open spec fn temperature_scaled(&self) -> int {
        self.raw_temperature * 200 - 50 * FIELD_SPAN
    }
}

/// Humidity runs from 0 percent, reached by a field of zero, to just under
/// 100 percent: the largest field stands for 100 percent less one step of
/// `100 / 2^20`.
pub proof fn lemma_humidity_range(m: Measurement)
    requires
        m.wf(),
    ensures
        0 <= m.humidity_scaled() <= 100 * FIELD_SPAN - 100,
        m.raw_humidity == 0 <==> m.humidity_scaled() == 0,
        m.raw_humidity == FIELD_SPAN - 1 <==> m.humidity_scaled() == 100 * FIELD_SPAN - 100,
{
}

/// Temperature runs from -50 degrees, reached by a field of zero, to just
/// under 150 degrees: the largest field stands for 150 degrees less one step
/// of `200 / 2^20`.
pub proof fn lemma_temperature_range(m: Measurement)
    requires
        m.wf(),
    ensures
        -50 * FIELD_SPAN <= m.temperature_scaled() <= 150 * FIELD_SPAN - 200,
        m.raw_temperature == 0 <==> m.temperature_scaled() == -50 * FIELD_SPAN,
        m.raw_temperature == FIELD_SPAN - 1 <==> m.temperature_scaled() == 150 * FIELD_SPAN - 200,
{
}

/// A larger humidity field is a strictly larger humidity, and the other way
/// round, whatever the temperature fields are.
pub proof fn lemma_humidity_monotonic(a: Measurement, b: Measurement)
    ensures
        a.raw_humidity < b.raw_humidity <==> a.humidity_scaled() < b.humidity_scaled(),
        a.raw_humidity < b.raw_humidity ==> b.humidity_scaled() - a.humidity_scaled() >= 100,
{
}

/// A larger temperature field is a strictly larger temperature, and the other
/// way round, whatever the humidity fields are.
pub proof fn lemma_temperature_monotonic(a: Measurement, b: Measurement)
    ensures
        a.raw_temperature < b.raw_temperature <==> a.temperature_scaled() < b.temperature_scaled(),
        a.raw_temperature < b.raw_temperature ==> b.temperature_scaled() - a.temperature_scaled()
            >= 200,
{
}

} // verus!
