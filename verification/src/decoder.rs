//! The frame decoder: from the bytes of one reply to a measurement, or to the
//! reason why there is none.
//!
//! Decoding is done in unsigned integers throughout. The checks come in a
//! fixed order: first the length, then the status bit, and only then are the
//! fields taken apart.

use vstd::prelude::*;
use crate::error::ProtocolError;
use crate::frame::{
    is_busy, lemma_fields_bounded, lemma_nibbles_are_shift_and_mask, raw_humidity,
    raw_temperature, RawFrame, FIELD_SPAN, FRAME_LEN,
};
use crate::measurement::Measurement;
use crate::power::pow2;

verus! {

/// What a sequence of bytes decodes to.
///
/// A sequence that is not exactly one frame long is a length fault, whatever
/// it holds. A frame whose status byte is busy is a busy fault, whatever the
/// payload. Every other frame yields its two fields; the last byte is not
/// examined.
pub open spec fn decode_spec(frame: Seq<u8>) -> Result<Measurement, ProtocolError> {
    if frame.len() != FRAME_LEN {
        Err(ProtocolError::FrameLengthFault)
    } else if is_busy(frame[0]) {
        Err(ProtocolError::BusyFault)
    } else {
        Ok(
            Measurement {
                raw_temperature: raw_temperature(frame) as u32,
                raw_humidity: raw_humidity(frame) as u32,
            },
        )
    }
}

/// What the outcome of a cycle decodes to: a fault of the cycle is passed
/// on as it is, a frame is decoded.
pub open spec fn decode_outcome_spec(outcome: Result<RawFrame, ProtocolError>) -> Result<
    Measurement,
    ProtocolError,
> {
    match outcome {
        Ok(frame) => decode_spec(frame@),
        Err(fault) => Err(fault),
    }
}

/// Decodes the bytes of one reply. Any slice is accepted; none makes the
/// decoder read past its end.
pub fn decode(frame: &[u8]) -> (r: Result<Measurement, ProtocolError>)
    ensures
        r == decode_spec(frame@),
        frame@.len() != FRAME_LEN ==> r == Err::<Measurement, ProtocolError>(
            ProtocolError::FrameLengthFault,
        ),
        frame@.len() == FRAME_LEN && frame@[0] % 2 == 1 ==> r == Err::<Measurement, ProtocolError>(
            ProtocolError::BusyFault,
        ),
        frame@.len() == FRAME_LEN && frame@[0] % 2 == 0 ==> r is Ok,
        r matches Ok(m) ==> {
            &&& m.wf()
            &&& m.raw_humidity == raw_humidity(frame@)
            &&& m.raw_temperature == raw_temperature(frame@)
        },
{
    if frame.len() != FRAME_LEN {
        return Err(ProtocolError::FrameLengthFault);
    }
    let status: u8 = frame[0];
    proof {
        lemma_nibbles_are_shift_and_mask(status);
    }
    if (status & 0x01) != 0 {
        return Err(ProtocolError::BusyFault);
    }
    let shared: u8 = frame[3];
    proof {
        vstd::arithmetic::power2::lemma2_to64();
        lemma_nibbles_are_shift_and_mask(shared);
        lemma_fields_bounded(frame@);
    }
    let s_rh: u32 = (frame[1] as u32) * pow2(8 + 4) + (frame[2] as u32) * pow2(4) + ((shared
        >> 4) as u32);
    let s_t: u32 = ((shared & 0x0f) as u32) * pow2(8 + 8) + (frame[4] as u32) * pow2(8) + (
    frame[5] as u32);
    Ok(Measurement { raw_temperature: s_t, raw_humidity: s_rh })
}

/// Decodes a complete frame. Its length is right by construction, so the
/// result is a measurement or a busy fault.
pub fn decode_frame(frame: &RawFrame) -> (r: Result<Measurement, ProtocolError>)
    ensures
        r == decode_spec(frame@),
        r is Err <==> is_busy(frame.bytes[0]),
        r is Err ==> r == Err::<Measurement, ProtocolError>(ProtocolError::BusyFault),
{
    decode(&frame.bytes)
}

/// Turns the outcome of a cycle into a measurement, or into the reason why
/// there is none.
pub fn decode_outcome(outcome: Result<RawFrame, ProtocolError>) -> (r: Result<
    Measurement,
    ProtocolError,
>)
    ensures
        r == decode_outcome_spec(outcome),
{
    match outcome {
        Ok(frame) => decode_frame(&frame),
        Err(fault) => Err(fault),
    }
}

/// Decoding depends on the bytes alone: two sequences of the same length
/// that hold the same byte at every index decode to the same result.
pub proof fn lemma_decode_deterministic(a: Seq<u8>, b: Seq<u8>)
    requires
        a.len() == b.len(),
        forall|i: int| 0 <= i < a.len() ==> a[i] == b[i],
    ensures
        decode_spec(a) == decode_spec(b),
{
    assert(a =~= b);
}

/// A sequence of any length but that of a frame is a length fault.
pub proof fn lemma_wrong_length_is_fault(frame: Seq<u8>)
    requires
        frame.len() != FRAME_LEN,
    ensures
        decode_spec(frame) == Err::<Measurement, ProtocolError>(ProtocolError::FrameLengthFault),
{
}

/// A frame whose first byte is odd is a busy fault, whatever else it holds,
/// and never a measurement.
pub proof fn lemma_busy_is_fault(frame: Seq<u8>)
    requires
        frame.len() == FRAME_LEN,
        frame[0] % 2 == 1,
    ensures
        decode_spec(frame) == Err::<Measurement, ProtocolError>(ProtocolError::BusyFault),
        !(decode_spec(frame) is Ok),
{
}

/// A measurement comes out exactly for a frame of the right length whose
/// status bit is clear. Its fields are those of the frame, unchanged and
/// within 20 bits.
pub proof fn lemma_decode_success(frame: Seq<u8>)
    ensures
        decode_spec(frame) is Ok <==> frame.len() == FRAME_LEN && !is_busy(frame[0]),
        decode_spec(frame) matches Ok(m) ==> {
            &&& m.wf()
            &&& m.raw_humidity == raw_humidity(frame)
            &&& m.raw_temperature == raw_temperature(frame)
        },
{
    if frame.len() == FRAME_LEN {
        lemma_fields_bounded(frame);
    }
}

/// The decoder reports length and busy faults and no others.
pub proof fn lemma_decode_errors(frame: Seq<u8>)
    ensures
        decode_spec(frame) matches Err(e) ==> e == ProtocolError::FrameLengthFault || e
            == ProtocolError::BusyFault,
{
}

/// The ends of the ranges. A frame whose humidity field is zero decodes to
/// 0 percent, one whose field is full to one step under 100 percent; a
/// temperature field of zero decodes to -50 degrees, a full one to one step
/// under 150 degrees. All values are exact, as multiples of `1 / 2^20`.
pub proof fn lemma_decoded_range_ends(frame: Seq<u8>)
    requires
        decode_spec(frame) is Ok,
    ensures
        ({
            let m = decode_spec(frame)->Ok_0;
            &&& 0 <= m.humidity_scaled() < 100 * FIELD_SPAN
            &&& -50 * FIELD_SPAN <= m.temperature_scaled() < 150 * FIELD_SPAN
            &&& raw_humidity(frame) == 0 ==> m.humidity_scaled() == 0
            &&& raw_humidity(frame) == FIELD_SPAN - 1 ==> m.humidity_scaled() == 100 * FIELD_SPAN
                - 100
            &&& raw_temperature(frame) == 0 ==> m.temperature_scaled() == -50 * FIELD_SPAN
            &&& raw_temperature(frame) == FIELD_SPAN - 1 ==> m.temperature_scaled() == 150
                * FIELD_SPAN - 200
        }),
{
    lemma_decode_success(frame);
}

/// Of two frames that decode, the one with the larger humidity field decodes
/// to the strictly larger humidity; if their temperature fields are equal,
/// so are the decoded temperatures.
pub proof fn lemma_decoded_humidity_monotonic(a: Seq<u8>, b: Seq<u8>)
    requires
        decode_spec(a) is Ok,
        decode_spec(b) is Ok,
        raw_humidity(a) < raw_humidity(b),
    ensures
        decode_spec(a)->Ok_0.humidity_scaled() < decode_spec(b)->Ok_0.humidity_scaled(),
        raw_temperature(a) == raw_temperature(b) ==> decode_spec(a)->Ok_0.temperature_scaled()
            == decode_spec(b)->Ok_0.temperature_scaled(),
{
    lemma_decode_success(a);
    lemma_decode_success(b);
}

/// Of two frames that decode, the one with the larger temperature field
/// decodes to the strictly larger temperature; if their humidity fields are
/// equal, so are the decoded humidities.
pub proof fn lemma_decoded_temperature_monotonic(a: Seq<u8>, b: Seq<u8>)
    requires
        decode_spec(a) is Ok,
        decode_spec(b) is Ok,
        raw_temperature(a) < raw_temperature(b),
    ensures
        decode_spec(a)->Ok_0.temperature_scaled() < decode_spec(b)->Ok_0.temperature_scaled(),
        raw_humidity(a) == raw_humidity(b) ==> decode_spec(a)->Ok_0.humidity_scaled()
            == decode_spec(b)->Ok_0.humidity_scaled(),
{
    lemma_decode_success(a);
    lemma_decode_success(b);
}

} // verus!
