//! The layout of the sensor's reply: a status byte, two 20-bit fields packed
//! into five bytes, and a trailing byte that is carried but not examined.
//!
//! ```text
//! index   0        1        2        3          4        5        6
//!       status  hhhhhhhh hhhhhhhh hhhh tttt  tttttttt tttttttt  (unused)
//! ```

use vstd::prelude::*;

verus! {

/// The number of bytes in a complete frame.
pub const FRAME_LEN: usize = 7;

/// One more than the largest value of a 20-bit field: two to the power 20.
pub const FIELD_SPAN: u32 = 0x10_0000;

/// The bytes of one complete reply, as one read handed them over.
#[derive(Clone, Copy, Debug, PartialEq, Eq)]
pub struct RawFrame {
    pub bytes: [u8; FRAME_LEN],
}

impl View for RawFrame {
    type V = Seq<u8>;

    open spec fn view(&self) -> Seq<u8> {
        self.bytes@
    }
}

/// Whether a status byte says that the measurement is still in progress:
/// its lowest bit is set.
pub open spec fn is_busy(status: u8) -> bool {
    status % 2 == 1
}

/// The humidity field of a frame: bytes 1 and 2 and the high nibble of
/// byte 3, most significant first.
pub open spec fn raw_humidity(frame: Seq<u8>) -> nat
    recommends
        frame.len() == FRAME_LEN,
{
    (frame[1] * 0x1000 + frame[2] * 0x10 + frame[3] / 0x10) as nat
}

/// The temperature field of a frame: the low nibble of byte 3 and bytes 4
/// and 5, most significant first.
pub open spec fn raw_temperature(frame: Seq<u8>) -> nat
    recommends
        frame.len() == FRAME_LEN,
{
    ((frame[3] % 0x10) * 0x1_0000 + frame[4] * 0x100 + frame[5]) as nat
}

/// Bytes 1 to 5 of a frame read as one 40-bit number, most significant
/// byte first.
pub open spec fn payload(frame: Seq<u8>) -> nat
    recommends
        frame.len() == FRAME_LEN,
{
    (frame[1] * 0x1_0000_0000 + frame[2] * 0x100_0000 + frame[3] * 0x1_0000 + frame[4] * 0x100
        + frame[5]) as nat
}

/// The arithmetic above in terms of bits: the busy flag is the lowest bit of
/// the status byte, the high nibble of a byte is the byte shifted right by
/// four, and the low nibble is the byte masked with `0x0F`.
pub proof fn lemma_nibbles_are_shift_and_mask(byte: u8)
    ensures
        is_busy(byte) <==> byte & 0x01 != 0,
        byte / 0x10 == byte >> 4,
        byte % 0x10 == byte & 0x0f,
{
    assert((byte % 2 == 1) <==> byte & 0x01 != 0) by (bit_vector);
    assert(byte / 0x10 == byte >> 4) by (bit_vector);
    assert(byte % 0x10 == byte & 0x0f) by (bit_vector);
}

/// `FIELD_SPAN` is two to the power 20.
pub proof fn lemma_field_span_is_power_of_two()
    ensures
        FIELD_SPAN == vstd::arithmetic::power2::pow2(20),
{
    vstd::arithmetic::power2::lemma2_to64();
}

/// Both fields of a frame fit in 20 bits.
pub proof fn lemma_fields_bounded(frame: Seq<u8>)
    requires
        frame.len() == FRAME_LEN,
    ensures
        raw_humidity(frame) < FIELD_SPAN,
        raw_temperature(frame) < FIELD_SPAN,
{
}

/// The two fields are the upper and the lower half of the 40-bit payload.
pub proof fn lemma_fields_split_payload(frame: Seq<u8>)
    requires
        frame.len() == FRAME_LEN,
    ensures
        payload(frame) == raw_humidity(frame) * FIELD_SPAN + raw_temperature(frame),
        raw_humidity(frame) == payload(frame) / (FIELD_SPAN as nat),
        raw_temperature(frame) == payload(frame) % (FIELD_SPAN as nat),
{
}

/// The fields lose nothing: two frames with the same humidity and temperature
/// fields agree on every payload byte.
pub proof fn lemma_fields_determine_payload(a: Seq<u8>, b: Seq<u8>)
    requires
        a.len() == FRAME_LEN,
        b.len() == FRAME_LEN,
        raw_humidity(a) == raw_humidity(b),
        raw_temperature(a) == raw_temperature(b),
    ensures
        forall|i: int| 1 <= i <= 5 ==> a[i] == b[i],
{
    // Each field is a number in mixed radix, so equal fields have equal
    // digits, taken from the most significant one down.
    assert(a[1] == b[1]);
    assert(a[2] == b[2]);
    assert(a[3] / 0x10 == b[3] / 0x10);
    assert(a[3] % 0x10 == b[3] % 0x10);
    assert(a[4] == b[4]);
    assert(a[5] == b[5]);
}

/// The humidity field reads nothing but bytes 1 and 2 and the high nibble of
/// byte 3: whatever else differs between two frames leaves it unchanged.
pub proof fn lemma_humidity_reads_its_bits_only(a: Seq<u8>, b: Seq<u8>)
    requires
        a.len() == FRAME_LEN,
        b.len() == FRAME_LEN,
        a[1] == b[1],
        a[2] == b[2],
        a[3] / 0x10 == b[3] / 0x10,
    ensures
        raw_humidity(a) == raw_humidity(b),
{
}

/// The temperature field reads nothing but the low nibble of byte 3 and
/// bytes 4 and 5.
pub proof fn lemma_temperature_reads_its_bits_only(a: Seq<u8>, b: Seq<u8>)
    requires
        a.len() == FRAME_LEN,
        b.len() == FRAME_LEN,
        a[3] % 0x10 == b[3] % 0x10,
        a[4] == b[4],
        a[5] == b[5],
    ensures
        raw_temperature(a) == raw_temperature(b),
{
}

} // verus!
