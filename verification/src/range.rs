//! From two end-stop readings to a travel range, the offset of its centre
//! from the middle of the encoder scale, and the 12-bit sign-magnitude
//! form in which the actuator stores that offset.

use crate::bus::{MAX_POSITION, MIDPOINT, REVOLUTION};
use vstd::prelude::*;

verus! {

/// Sign flag of the stored offset: bit 11.
pub const OFFSET_SIGN_BIT: u16 = 0x800;

/// Magnitude bits of the stored offset: bits 0 to 10.
pub const OFFSET_MAGNITUDE_MASK: u16 = 0x7FF;

/// The travel range between the two end-stops, in encoder counts.
///
/// When the backward stop reads at or above the forward stop, the travel
/// crosses the encoder's zero and the upper limit is carried one revolution
/// up, so that it always lies above the lower one.
#[derive(Clone, Copy, Debug, PartialEq, Eq)]
pub struct CalibrationRange {
    pub min_angle: u16,
    pub max_angle: u16,
}

/// The range spanned by a forward and a backward end-stop reading.
pub open spec fn range_of(forward: u16, backward: u16) -> CalibrationRange {
    CalibrationRange {
        min_angle: backward,
        max_angle: if forward <= backward {
            (forward + REVOLUTION) as u16
        } else {
            forward
        },
    }
}

/// The sign-magnitude code of an offset: the magnitude, cut to eleven bits,
/// plus the sign flag for a negative offset.
pub open spec fn sign_magnitude(offset: int) -> int {
    let magnitude = if offset < 0 {
        -offset
    } else {
        offset
    };
    if offset < 0 {
        magnitude % 2048 + 2048
    } else {
        magnitude % 2048
    }
}

/// The offset that a 12-bit sign-magnitude code stands for. Bits above the
/// sign flag are not part of the code.
pub open spec fn sign_magnitude_value(encoded: int) -> int {
    let magnitude = encoded % 2048;
    if (encoded / 2048) % 2 == 1 {
        -magnitude
    } else {
        magnitude
    }
}

impl CalibrationRange {
    /// A range is well formed when it is the range of two encoder
    /// readings: the lower limit is a reading, the upper limit lies above
    /// it, and the upper limit is either a reading itself or a reading, not
    /// above the lower limit, carried one revolution up.
    pub open spec fn wf(self) -> bool {
        &&& self.min_angle <= MAX_POSITION
        &&& self.min_angle < self.max_angle
        &&& (self.max_angle <= MAX_POSITION || (REVOLUTION <= self.max_angle
            && self.max_angle - REVOLUTION <= self.min_angle))
    }

    /// Half the width of the range, rounded down.
    pub open spec fn half_width(self) -> int {
        (self.max_angle - self.min_angle) / 2
    }

    /// Where the centre of the range lies relative to the middle of the
    /// encoder scale.
    pub open spec fn center_offset(self) -> int {
        self.min_angle + self.half_width() - MIDPOINT
    }

    /// The centre offset in the form in which the actuator stores it.
    pub open spec fn offset_code(self) -> int {
        sign_magnitude(self.center_offset())
    }

    /// Whether the range is well formed.
    pub fn is_valid(&self) -> (ok: bool)
        ensures
            ok == self.wf(),
    {
        self.min_angle <= MAX_POSITION && self.min_angle < self.max_angle && (self.max_angle
            <= MAX_POSITION || (REVOLUTION <= self.max_angle && self.max_angle - REVOLUTION
            <= self.min_angle))
    }

    /// Half the width of the range, rounded down.
    pub fn center_distance(&self) -> (d: u16)
        requires
            self.wf(),
        ensures
            d == self.half_width(),
            d == (self.max_angle - self.min_angle) / 2,
            d <= 2048,
    {
        (self.max_angle - self.min_angle) / 2
    }

    /// Where the centre of the range lies relative to the middle of the
    /// encoder scale: `min_angle + center_distance - 2048`.
    pub fn offset(&self) -> (o: i16)
        requires
            self.wf(),
        ensures
            o == self.center_offset(),
            o == self.min_angle + (self.max_angle - self.min_angle) / 2 - 2048,
            -2048 <= o <= 4095,
            self.max_angle <= MAX_POSITION ==> o <= 2047,
    {
        let center: i32 = self.min_angle as i32 + self.center_distance() as i32;
        (center - MIDPOINT as i32) as i16
    }

    /// The centre offset in the form in which the actuator stores it.
    pub fn encoded_offset(&self) -> (e: u16)
        requires
            self.wf(),
        ensures
            e == self.offset_code(),
            e < 4096,
    {
        encode_offset(self.offset())
    }
}

/// Turns the readings at the forward and the backward end-stop into the
/// travel range. The backward reading is the lower limit; the forward
/// reading is the upper limit, carried one revolution up where it does not
/// lie above the backward one.
pub fn compute_range(forward_boundary: u16, backward_boundary: u16) -> (range: CalibrationRange)
    requires
        forward_boundary <= MAX_POSITION,
        backward_boundary <= MAX_POSITION,
    ensures
        range == range_of(forward_boundary, backward_boundary),
        range.min_angle == backward_boundary,
        backward_boundary < forward_boundary ==> range.max_angle == forward_boundary,
        backward_boundary >= forward_boundary ==> range.max_angle == forward_boundary + 4096,
        range.max_angle > range.min_angle,
        range.wf(),
{
    let min_angle: u16 = backward_boundary;
    let mut max_angle: u16 = forward_boundary;
    if max_angle <= min_angle {
        max_angle = max_angle + REVOLUTION;
    }
    CalibrationRange { min_angle, max_angle }
}

/// Encodes an offset as 12-bit sign-magnitude: bits 0 to 10 hold the
/// magnitude, bit 11 is set for a negative offset. A magnitude beyond
/// eleven bits loses its upper bits.
pub fn encode_offset(offset: i16) -> (encoded: u16)
    ensures
        encoded == sign_magnitude(offset as int),
        encoded < 4096,
        offset >= 0 ==> encoded == offset % 2048,
        offset < 0 ==> encoded == (-offset) % 2048 + 2048,
{
    let negative: bool = offset < 0;
    let magnitude: u16 = if negative {
        (-(offset as i32)) as u16
    } else {
        offset as u16
    };
    let low: u16 = magnitude & OFFSET_MAGNITUDE_MASK;
    assert(magnitude & 0x7FF == magnitude % 2048) by (bit_vector);
    if negative {
        assert(low < 2048 ==> low | 0x800 == low + 2048) by (bit_vector);
        low | OFFSET_SIGN_BIT
    } else {
        low
    }
}

/// Decodes a 12-bit sign-magnitude code. Bits above the sign flag are
/// ignored.
pub fn decode_offset(encoded: u16) -> (offset: i16)
    ensures
        offset == sign_magnitude_value(encoded as int),
        -2047 <= offset <= 2047,
{
    let magnitude: u16 = encoded & OFFSET_MAGNITUDE_MASK;
    let flag: u16 = encoded & OFFSET_SIGN_BIT;
    assert(encoded & 0x7FF == encoded % 2048) by (bit_vector);
    assert(encoded & 0x800 == 0 || encoded & 0x800 == 0x800) by (bit_vector);
    assert((encoded & 0x800 == 0x800) <==> ((encoded / 2048) % 2 == 1)) by (bit_vector);
    if flag != 0 {
        -(magnitude as i16)
    } else {
        magnitude as i16
    }
}

/// Decoding the code of an offset gives the offset back, for every offset
/// whose magnitude fits the eleven magnitude bits.
pub proof fn lemma_offset_round_trip(offset: int)
    requires
        -2047 <= offset <= 2047,
    ensures
        0 <= sign_magnitude(offset) < 4096,
        sign_magnitude_value(sign_magnitude(offset)) == offset,
{
}

/// The code has no form of its own for -2048: its magnitude does not fit
/// eleven bits, so it is stored as the bare sign flag and reads back as 0.
pub proof fn lemma_offset_lowest_is_not_kept()
    ensures
        sign_magnitude(-2048) == 0x800,
        sign_magnitude_value(sign_magnitude(-2048)) == 0,
{
}

/// Encoding a code's value gives the code back, but for the bare sign flag
/// ("minus zero"), which encodes as plain zero.
pub proof fn lemma_code_round_trip(encoded: int)
    requires
        0 <= encoded < 4096,
        encoded != 0x800,
    ensures
        sign_magnitude(sign_magnitude_value(encoded)) == encoded,
{
}

/// The centre offset of a well-formed range always has a code, and when
/// the travel does not cross the encoder's zero the offset lies within
/// `-2048..=2047`.
pub proof fn lemma_center_offset_bounds(range: CalibrationRange)
    requires
        range.wf(),
    ensures
        -2048 <= range.center_offset() <= 4095,
        range.max_angle <= MAX_POSITION ==> range.center_offset() <= 2047,
        range.min_angle <= range.min_angle + range.half_width() < range.max_angle,
        0 <= range.offset_code() < 4096,
{
}

} // verus!
