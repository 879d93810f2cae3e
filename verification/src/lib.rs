//! Decoder for GPS / QZSS L1 C/A navigation-message bitstreams.
//!
//! A navigation message is a stream of 30-bit words packed MSB-first into a
//! byte buffer with no padding, so no word or field is byte aligned.  The
//! crate reads arbitrary bit ranges out of such a buffer, decodes each word
//! into its named subfields through fixed shift/mask pipelines, sign-extends
//! the two's-complement fields, reassembles the fields that are split across
//! non-adjacent words, and composes the result into one structured frame.

use vstd::prelude::*;

mod bits;
mod decoder;
mod errors;
mod frame1;
mod frame2;
mod frame3;
mod frame_id;
mod how;
mod parity;
mod tlm;

pub use bits::extract;
pub use bits::extract_bits;
pub use bits::bit_at;
pub use bits::bits_val;
pub use decoder::GpsDecoderState;
pub use decoder::GpsQzssDecoder;
pub use decoder::decode_frame;
pub use errors::GpsError;
pub use frame1::GpsQzssFrame1;
pub use frame1::Word3;
pub use frame1::Word4;
pub use frame1::Word5;
pub use frame1::Word6;
pub use frame1::Word7;
pub use frame1::Word8;
pub use frame1::Word9;
pub use frame1::Word10;
pub use frame2::GpsQzssFrame2;
pub use frame3::GpsQzssFrame3;
pub use frame_id::GpsQzssFrameId;
pub use how::GpsQzssHow;
pub use parity::check_parity;
pub use parity::parity_encoding;
pub use tlm::GpsQzssTelemetry;

verus! {

/// GPS uses 30-bit data words; nothing in the stream is byte aligned.
pub const GPS_WORD_SIZE: usize = 30;

/// Minimum number of bits that holds one complete GPS data frame (ten words).
pub const GPS_MIN_SIZE: usize = GPS_WORD_SIZE * 10;

/// Fixed preamble pattern that opens the telemetry word of every subframe.
pub const GPS_PREAMBLE: u8 = 0x8B;

/// Signed value denoted by the raw field `value` under two's complement,
/// where `mask` covers the whole field and `sign_mask` its top bit.
pub open spec fn spec_twos_complement(value: u32, mask: u32, sign_mask: u32) -> int {
    if value & sign_mask != 0 {
        value - (mask + 1)
    } else {
        value as int
    }
}

/// Sign-extends an N-bit two's-complement raw field.
///
/// `mask` covers the whole field (low `N` ones) and `sign_mask` is the
/// field's top bit.  When the sign bit is set the result is
/// `value - (mask + 1)`, otherwise `value` unchanged.
pub fn twos_complement(value: u32, mask: u32, sign_mask: u32) -> (r: i32)
    requires
        value <= mask,
        mask <= 0x7fffffff,
    ensures
        r as int == spec_twos_complement(value, mask, sign_mask),
{
    if value & sign_mask != 0 {
        ((value as i64) - (mask as i64) - 1) as i32
    } else {
        value as i32
    }
}

/// A raw field with its sign bit set decodes to a negative value; with the
/// sign bit clear it decodes to the raw field itself, which is nonnegative.
pub proof fn lemma_twos_complement_sign(value: u32, mask: u32, sign_mask: u32)
    requires
        value <= mask,
    ensures
        value & sign_mask != 0 ==> spec_twos_complement(value, mask, sign_mask) < 0,
        value & sign_mask == 0 ==> spec_twos_complement(value, mask, sign_mask) == value as int,
        value & sign_mask == 0 ==> spec_twos_complement(value, mask, sign_mask) >= 0,
{
}

/// Folds a signed value back onto an `N`-bit field whose mask is `mask`:
/// the inverse of sign extension for in-range values.
pub open spec fn spec_sign_fold(v: int, mask: u32) -> int {
    if v < 0 {
        v + mask + 1
    } else {
        v
    }
}

/// Sign extension loses no information: folding the decoded value back onto
/// the field width restores the raw field exactly.
pub proof fn lemma_twos_complement_round_trip(value: u32, mask: u32, sign_mask: u32)
    requires
        value <= mask,
    ensures
        spec_sign_fold(spec_twos_complement(value, mask, sign_mask), mask) == value,
{
}

/// Signed value denoted by a full 32-bit raw value under two's complement.
pub open spec fn spec_sign_extend32(value: u32) -> int {
    if value >= 0x80000000 {
        value - 0x100000000
    } else {
        value as int
    }
}

/// Reinterprets a full 32-bit raw value as its two's-complement signed
/// value; used for the parameters whose 32 bits are split across two words.
pub fn sign_extend32(value: u32) -> (r: i32)
    ensures
        r as int == spec_sign_extend32(value),
{
    if value >= 0x80000000 {
        -((0xffffffffu32 - value) as i32) - 1
    } else {
        value as i32
    }
}

/// A shifted-and-masked field never exceeds its mask.
pub(crate) proof fn lemma_shr_and_bound(w: u32, sh: u32, m: u32)
    ensures
        (w >> sh) & m <= m,
{
    assert((w >> sh) & m <= m) by (bit_vector);
}

/// For each field width the word layouts use, the sign bit splits the raw
/// values at the half-range point.
pub(crate) proof fn lemma_sign_bit_bounds(raw: u32)
    ensures
        raw & 0x80 != 0 ==> raw >= 0x80,
        raw <= 0xff && raw & 0x80 == 0 ==> raw < 0x80,
        raw & 0x2000 != 0 ==> raw >= 0x2000,
        raw <= 0x3fff && raw & 0x2000 == 0 ==> raw < 0x2000,
        raw & 0x8000 != 0 ==> raw >= 0x8000,
        raw <= 0xffff && raw & 0x8000 == 0 ==> raw < 0x8000,
        raw & 0x200000 != 0 ==> raw >= 0x200000,
        raw <= 0x3fffff && raw & 0x200000 == 0 ==> raw < 0x200000,
        raw & 0x800000 != 0 ==> raw >= 0x800000,
        raw <= 0xffffff && raw & 0x800000 == 0 ==> raw < 0x800000,
{
    assert((raw & 0x80 != 0 ==> raw >= 0x80) && (raw <= 0xff && raw & 0x80 == 0 ==> raw < 0x80)
        && (raw & 0x2000 != 0 ==> raw >= 0x2000) && (raw <= 0x3fff && raw & 0x2000 == 0 ==> raw
        < 0x2000) && (raw & 0x8000 != 0 ==> raw >= 0x8000) && (raw <= 0xffff && raw & 0x8000 == 0
        ==> raw < 0x8000) && (raw & 0x200000 != 0 ==> raw >= 0x200000) && (raw <= 0x3fffff && raw
        & 0x200000 == 0 ==> raw < 0x200000) && (raw & 0x800000 != 0 ==> raw >= 0x800000) && (raw
        <= 0xffffff && raw & 0x800000 == 0 ==> raw < 0x800000)) by (bit_vector);
}

/// GPS / QZSS interpreted frame: one complete 300-bit subframe.
#[derive(Clone, Copy, Debug, PartialEq, Eq, Structural)]
pub struct GpsQzssFrame {
    /// Handover word describing the following subframe body.
    pub how: GpsQzssHow,
    /// Telemetry word opening the subframe.
    pub telemetry: GpsQzssTelemetry,
    /// Subframe body, selected by the handover word's subframe id.
    pub subframe: GpsQzssSubframe,
}

/// GPS / QZSS interpreted subframe bodies: the closed set of the three
/// modeled subframes, matched exhaustively at the point of use.
#[derive(Clone, Copy, Debug, PartialEq, Eq, Structural)]
pub enum GpsQzssSubframe {
    /// Subframe 1: clock parameters.
    Ephemeris1(GpsQzssFrame1),
    /// Subframe 2: first half of the ephemeris.
    Ephemeris2(GpsQzssFrame2),
    /// Subframe 3: second half of the ephemeris.
    Ephemeris3(GpsQzssFrame3),
}

impl GpsQzssSubframe {
    /// Borrows the subframe-1 body, when this is one.
    pub fn as_eph1(&self) -> (r: Option<&GpsQzssFrame1>)
        ensures
            match *self {
                GpsQzssSubframe::Ephemeris1(f) => (r matches Some(p) && *p == f),
                _ => r is None,
            },
    {
        match self {
            GpsQzssSubframe::Ephemeris1(frame) => Some(frame),
            _ => None,
        }
    }

    /// Borrows the subframe-2 body, when this is one.
    pub fn as_eph2(&self) -> (r: Option<&GpsQzssFrame2>)
        ensures
            match *self {
                GpsQzssSubframe::Ephemeris2(f) => (r matches Some(p) && *p == f),
                _ => r is None,
            },
    {
        match self {
            GpsQzssSubframe::Ephemeris2(frame) => Some(frame),
            _ => None,
        }
    }

    /// Borrows the subframe-3 body, when this is one.
    pub fn as_eph3(&self) -> (r: Option<&GpsQzssFrame3>)
        ensures
            match *self {
                GpsQzssSubframe::Ephemeris3(f) => (r matches Some(p) && *p == f),
                _ => r is None,
            },
    {
        match self {
            GpsQzssSubframe::Ephemeris3(frame) => Some(frame),
            _ => None,
        }
    }
}

impl Default for GpsQzssSubframe {
    /// An all-zero subframe 1.
    fn default() -> (r: GpsQzssSubframe)
        ensures
            r == GpsQzssSubframe::Ephemeris1(GpsQzssFrame1::spec_default()),
    {
        GpsQzssSubframe::Ephemeris1(Default::default())
    }
}

} // verus!
