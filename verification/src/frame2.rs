use vstd::prelude::*;

use crate::lemma_shr_and_bound;
use crate::lemma_sign_bit_bounds;
use crate::lemma_twos_complement_round_trip;
use crate::sign_extend32;
use crate::spec_sign_extend32;
use crate::spec_sign_fold;
use crate::spec_twos_complement;
use crate::twos_complement;

verus! {

/// Fields physically present in word 3 of subframe 2: the issue-of-data
/// tag and the signed orbit-radius sine-correction term.
#[derive(Clone, Copy, Debug, PartialEq, Eq, Structural)]
pub struct Word3 {
    /// 8-bit IODE.
    pub iode: u8,
    /// Orbit radius sine correction, raw signed value; meters are
    /// `crs * 2^-5`.
    pub crs: i16,
}

impl Word3 {
    /// Field layout of word 3 as a pure function of the raw word.
    pub open spec fn spec_decode(dword: u32) -> Word3 {
        Word3 {
            iode: ((dword >> 22) & 0xff) as u8,
            crs: spec_twos_complement((dword >> 6) & 0xffff, 0xffff, 0x8000) as i16,
        }
    }

    /// Places the raw fields back at their bit positions.
    pub open spec fn spec_encode(w: Word3) -> u32 {
        ((w.iode as u32) << 22) | ((spec_sign_fold(w.crs as int, 0xffff) as u32) << 6)
    }

    /// Decodes one raw word 3; total on any word.
    pub fn decode(dword: u32) -> (r: Word3)
        ensures
            r == Word3::spec_decode(dword),
    {
        let raw_crs: u32 = (dword >> 6) & 0xffff;
        proof {
            lemma_shr_and_bound(dword, 22, 0xff);
            lemma_shr_and_bound(dword, 6, 0xffff);
            lemma_sign_bit_bounds(raw_crs);
        }
        let crs: i32 = twos_complement(raw_crs, 0xffff, 0x8000);
        Word3 { iode: ((dword >> 22) & 0xff) as u8, crs: crs as i16 }
    }
}

/// Re-encoding the decoded fields of word 3 reproduces the word's data
/// region exactly.
pub proof fn lemma_word3_round_trip(dword: u32)
    ensures
        Word3::spec_encode(Word3::spec_decode(dword)) == dword & 0x3fffffc0,
{
    let raw = (dword >> 6) & 0xffff;
    lemma_shr_and_bound(dword, 22, 0xff);
    lemma_shr_and_bound(dword, 6, 0xffff);
    lemma_sign_bit_bounds(raw);
    lemma_twos_complement_round_trip(raw, 0xffff, 0x8000);
    assert((((dword >> 22) & 0xff) << 22) | (((dword >> 6) & 0xffff) << 6) == dword & 0x3fffffc0)
        by (bit_vector);
}

/// Fields physically present in word 4 of subframe 2: the signed mean
/// motion difference and the top byte of the mean anomaly.
#[derive(Clone, Copy, Debug, PartialEq, Eq, Structural)]
pub struct Word4 {
    /// Mean motion difference, raw signed value; semicircles/s are
    /// `dn * 2^-43`.
    pub dn: i16,
    /// 8 most significant bits of the mean anomaly, to be joined with
    /// word 5.
    pub m0_msb: u8,
}

impl Word4 {
    /// Field layout of word 4 as a pure function of the raw word.
    pub open spec fn spec_decode(dword: u32) -> Word4 {
        Word4 {
            dn: spec_twos_complement((dword >> 14) & 0xffff, 0xffff, 0x8000) as i16,
            m0_msb: ((dword >> 6) & 0xff) as u8,
        }
    }

    /// Places the raw fields back at their bit positions.
    pub open spec fn spec_encode(w: Word4) -> u32 {
        ((spec_sign_fold(w.dn as int, 0xffff) as u32) << 14) | ((w.m0_msb as u32) << 6)
    }

    /// Decodes one raw word 4; total on any word.
    pub fn decode(dword: u32) -> (r: Word4)
        ensures
            r == Word4::spec_decode(dword),
    {
        let raw_dn: u32 = (dword >> 14) & 0xffff;
        proof {
            lemma_shr_and_bound(dword, 14, 0xffff);
            lemma_shr_and_bound(dword, 6, 0xff);
            lemma_sign_bit_bounds(raw_dn);
        }
        let dn: i32 = twos_complement(raw_dn, 0xffff, 0x8000);
        Word4 { dn: dn as i16, m0_msb: ((dword >> 6) & 0xff) as u8 }
    }
}

/// Re-encoding the decoded fields of word 4 reproduces the word's data
/// region exactly.
pub proof fn lemma_word4_round_trip(dword: u32)
    ensures
        Word4::spec_encode(Word4::spec_decode(dword)) == dword & 0x3fffffc0,
{
    let raw = (dword >> 14) & 0xffff;
    lemma_shr_and_bound(dword, 14, 0xffff);
    lemma_shr_and_bound(dword, 6, 0xff);
    lemma_sign_bit_bounds(raw);
    lemma_twos_complement_round_trip(raw, 0xffff, 0x8000);
    assert((((dword >> 14) & 0xffff) << 14) | (((dword >> 6) & 0xff) << 6) == dword & 0x3fffffc0)
        by (bit_vector);
}

/// Word 5 of subframe 2 carries the 24 least significant bits of the mean
/// anomaly.
#[derive(Clone, Copy, Debug, PartialEq, Eq, Structural)]
pub struct Word5 {
    /// 24 least significant bits of the mean anomaly, to be joined with
    /// word 4.
    pub m0_lsb: u32,
}

impl Word5 {
    /// Field layout of word 5 as a pure function of the raw word.
    pub open spec fn spec_decode(dword: u32) -> Word5 {
        Word5 { m0_lsb: (dword >> 6) & 0xffffff }
    }

    /// Places the raw field back at its bit position.
    pub open spec fn spec_encode(w: Word5) -> u32 {
        w.m0_lsb << 6
    }

    /// Decodes one raw word 5; total on any word.
    pub fn decode(dword: u32) -> (r: Word5)
        ensures
            r == Word5::spec_decode(dword),
            r.m0_lsb < 0x1000000,
    {
        proof {
            lemma_shr_and_bound(dword, 6, 0xffffff);
        }
        Word5 { m0_lsb: (dword >> 6) & 0xffffff }
    }
}

/// Re-encoding the decoded field of word 5 reproduces the word's data
/// region exactly.
pub proof fn lemma_word5_round_trip(dword: u32)
    ensures
        Word5::spec_encode(Word5::spec_decode(dword)) == dword & 0x3fffffc0,
{
    assert((((dword >> 6) & 0xffffff) << 6) == dword & 0x3fffffc0) by (bit_vector);
}

/// Fields physically present in word 6 of subframe 2: the signed latitude
/// cosine-correction term and the top byte of the eccentricity.
#[derive(Clone, Copy, Debug, PartialEq, Eq, Structural)]
pub struct Word6 {
    /// Argument-of-latitude cosine correction, raw signed value; radians
    /// are `cuc * 2^-29`.
    pub cuc: i16,
    /// 8 most significant bits of the eccentricity, to be joined with
    /// word 7.
    pub e_msb: u8,
}

impl Word6 {
    /// Field layout of word 6 as a pure function of the raw word.
    pub open spec fn spec_decode(dword: u32) -> Word6 {
        Word6 {
            cuc: spec_twos_complement((dword >> 14) & 0xffff, 0xffff, 0x8000) as i16,
            e_msb: ((dword >> 6) & 0xff) as u8,
        }
    }

    /// Places the raw fields back at their bit positions.
    pub open spec fn spec_encode(w: Word6) -> u32 {
        ((spec_sign_fold(w.cuc as int, 0xffff) as u32) << 14) | ((w.e_msb as u32) << 6)
    }

    /// Decodes one raw word 6; total on any word.
    pub fn decode(dword: u32) -> (r: Word6)
        ensures
            r == Word6::spec_decode(dword),
    {
        let raw_cuc: u32 = (dword >> 14) & 0xffff;
        proof {
            lemma_shr_and_bound(dword, 14, 0xffff);
            lemma_shr_and_bound(dword, 6, 0xff);
            lemma_sign_bit_bounds(raw_cuc);
        }
        let cuc: i32 = twos_complement(raw_cuc, 0xffff, 0x8000);
        Word6 { cuc: cuc as i16, e_msb: ((dword >> 6) & 0xff) as u8 }
    }
}

/// Re-encoding the decoded fields of word 6 reproduces the word's data
/// region exactly.
pub proof fn lemma_word6_round_trip(dword: u32)
    ensures
        Word6::spec_encode(Word6::spec_decode(dword)) == dword & 0x3fffffc0,
{
    let raw = (dword >> 14) & 0xffff;
    lemma_shr_and_bound(dword, 14, 0xffff);
    lemma_shr_and_bound(dword, 6, 0xff);
    lemma_sign_bit_bounds(raw);
    lemma_twos_complement_round_trip(raw, 0xffff, 0x8000);
    assert((((dword >> 14) & 0xffff) << 14) | (((dword >> 6) & 0xff) << 6) == dword & 0x3fffffc0)
        by (bit_vector);
}

/// Word 7 of subframe 2 carries the 24 least significant bits of the
/// eccentricity.
#[derive(Clone, Copy, Debug, PartialEq, Eq, Structural)]
pub struct Word7 {
    /// 24 least significant bits of the eccentricity, to be joined with
    /// word 6.
    pub e_lsb: u32,
}

impl Word7 {
    /// Field layout of word 7 as a pure function of the raw word.
    pub open spec fn spec_decode(dword: u32) -> Word7 {
        Word7 { e_lsb: (dword >> 6) & 0xffffff }
    }

    /// Places the raw field back at its bit position.
    pub open spec fn spec_encode(w: Word7) -> u32 {
        w.e_lsb << 6
    }

    /// Decodes one raw word 7; total on any word.
    pub fn decode(dword: u32) -> (r: Word7)
        ensures
            r == Word7::spec_decode(dword),
            r.e_lsb < 0x1000000,
    {
        proof {
            lemma_shr_and_bound(dword, 6, 0xffffff);
        }
        Word7 { e_lsb: (dword >> 6) & 0xffffff }
    }
}

/// Re-encoding the decoded field of word 7 reproduces the word's data
/// region exactly.
pub proof fn lemma_word7_round_trip(dword: u32)
    ensures
        Word7::spec_encode(Word7::spec_decode(dword)) == dword & 0x3fffffc0,
{
    assert((((dword >> 6) & 0xffffff) << 6) == dword & 0x3fffffc0) by (bit_vector);
}

/// Fields physically present in word 8 of subframe 2: the signed latitude
/// sine-correction term and the top byte of the square root of the
/// semi-major axis.
#[derive(Clone, Copy, Debug, PartialEq, Eq, Structural)]
pub struct Word8 {
    /// Argument-of-latitude sine correction, raw signed value; radians are
    /// `cus * 2^-29`.
    pub cus: i16,
    /// 8 most significant bits of the square root of the semi-major axis,
    /// to be joined with word 9.
    pub sqrt_a_msb: u8,
}

impl Word8 {
    /// Field layout of word 8 as a pure function of the raw word.
    pub open spec fn spec_decode(dword: u32) -> Word8 {
        Word8 {
            cus: spec_twos_complement((dword >> 14) & 0xffff, 0xffff, 0x8000) as i16,
            sqrt_a_msb: ((dword >> 6) & 0xff) as u8,
        }
    }

    /// Places the raw fields back at their bit positions.
    pub open spec fn spec_encode(w: Word8) -> u32 {
        ((spec_sign_fold(w.cus as int, 0xffff) as u32) << 14) | ((w.sqrt_a_msb as u32) << 6)
    }

    /// Decodes one raw word 8; total on any word.
    pub fn decode(dword: u32) -> (r: Word8)
        ensures
            r == Word8::spec_decode(dword),
    {
        let raw_cus: u32 = (dword >> 14) & 0xffff;
        proof {
            lemma_shr_and_bound(dword, 14, 0xffff);
            lemma_shr_and_bound(dword, 6, 0xff);
            lemma_sign_bit_bounds(raw_cus);
        }
        let cus: i32 = twos_complement(raw_cus, 0xffff, 0x8000);
        Word8 { cus: cus as i16, sqrt_a_msb: ((dword >> 6) & 0xff) as u8 }
    }
}

/// Re-encoding the decoded fields of word 8 reproduces the word's data
/// region exactly.
pub proof fn lemma_word8_round_trip(dword: u32)
    ensures
        Word8::spec_encode(Word8::spec_decode(dword)) == dword & 0x3fffffc0,
{
    let raw = (dword >> 14) & 0xffff;
    lemma_shr_and_bound(dword, 14, 0xffff);
    lemma_shr_and_bound(dword, 6, 0xff);
    lemma_sign_bit_bounds(raw);
    lemma_twos_complement_round_trip(raw, 0xffff, 0x8000);
    assert((((dword >> 14) & 0xffff) << 14) | (((dword >> 6) & 0xff) << 6) == dword & 0x3fffffc0)
        by (bit_vector);
}

/// Word 9 of subframe 2 carries the 24 least significant bits of the square
/// root of the semi-major axis.
#[derive(Clone, Copy, Debug, PartialEq, Eq, Structural)]
pub struct Word9 {
    /// 24 least significant bits of the square root of the semi-major axis,
    /// to be joined with word 8.
    pub sqrt_a_lsb: u32,
}

impl Word9 {
    /// Field layout of word 9 as a pure function of the raw word.
    pub open spec fn spec_decode(dword: u32) -> Word9 {
        Word9 { sqrt_a_lsb: (dword >> 6) & 0xffffff }
    }

    /// Places the raw field back at its bit position.
    pub open spec fn spec_encode(w: Word9) -> u32 {
        w.sqrt_a_lsb << 6
    }

    /// Decodes one raw word 9; total on any word.
    pub fn decode(dword: u32) -> (r: Word9)
        ensures
            r == Word9::spec_decode(dword),
            r.sqrt_a_lsb < 0x1000000,
    {
        proof {
            lemma_shr_and_bound(dword, 6, 0xffffff);
        }
        Word9 { sqrt_a_lsb: (dword >> 6) & 0xffffff }
    }
}

/// Re-encoding the decoded field of word 9 reproduces the word's data
/// region exactly.
pub proof fn lemma_word9_round_trip(dword: u32)
    ensures
        Word9::spec_encode(Word9::spec_decode(dword)) == dword & 0x3fffffc0,
{
    assert((((dword >> 6) & 0xffffff) << 6) == dword & 0x3fffffc0) by (bit_vector);
}

/// Fields physically present in word 10 of subframe 2: the raw time of
/// ephemeris, the fit-interval flag and the age of data offset.
#[derive(Clone, Copy, Debug, PartialEq, Eq, Structural)]
pub struct Word10 {
    /// Raw 16-bit time of ephemeris; seconds are `toe * 16`.
    pub toe: u16,
    /// Fit interval flag.
    pub fit_interval: bool,
    /// 5-bit age of data offset, preserved verbatim.
    pub aodo: u8,
}

impl Word10 {
    /// Field layout of word 10 as a pure function of the raw word.
    pub open spec fn spec_decode(dword: u32) -> Word10 {
        Word10 {
            toe: ((dword >> 14) & 0xffff) as u16,
            fit_interval: (dword >> 13) & 1 == 1,
            aodo: ((dword >> 8) & 0x1f) as u8,
        }
    }

    /// Places the raw fields back at their bit positions.
    pub open spec fn spec_encode(w: Word10) -> u32 {
        ((w.toe as u32) << 14) | ((if w.fit_interval {
            1u32
        } else {
            0u32
        }) << 13) | ((w.aodo as u32) << 8)
    }

    /// Decodes one raw word 10; total on any word.
    pub fn decode(dword: u32) -> (r: Word10)
        ensures
            r == Word10::spec_decode(dword),
            r.aodo < 32,
    {
        proof {
            lemma_shr_and_bound(dword, 14, 0xffff);
            lemma_shr_and_bound(dword, 8, 0x1f);
        }
        Word10 {
            toe: ((dword >> 14) & 0xffff) as u16,
            fit_interval: (dword >> 13) & 1 == 1,
            aodo: ((dword >> 8) & 0x1f) as u8,
        }
    }
}

/// Re-encoding the decoded fields of word 10 reproduces the word's data
/// region above the two trailing data bits, which word 10 does not use.
pub proof fn lemma_word10_round_trip(dword: u32)
    ensures
        Word10::spec_encode(Word10::spec_decode(dword)) == dword & 0x3fffff00,
{
    lemma_shr_and_bound(dword, 14, 0xffff);
    lemma_shr_and_bound(dword, 8, 0x1f);
    assert((((dword >> 14) & 0xffff) << 14) | (((dword >> 13) & 1) << 13) | (((dword >> 8) & 0x1f)
        << 8) == dword & 0x3fffff00) by (bit_vector);
    assert((dword >> 13) & 1 == 1 || (dword >> 13) & 1 == 0) by (bit_vector);
}

/// GPS / QZSS subframe 2 interpretation: the first half of the ephemeris.
///
/// Fields split across two words (mean anomaly, eccentricity, square root
/// of the semi-major axis) are reconstructed MSB-first; all values are kept
/// at their raw integer widths with the scale exponent noted on each field.
#[derive(Clone, Copy, Debug, PartialEq, Eq, Structural)]
pub struct GpsQzssFrame2 {
    /// 8-bit IODE.
    pub iode: u8,
    /// Orbit radius sine correction; meters are `crs * 2^-5`.
    pub crs: i16,
    /// Mean motion difference; semicircles/s are `dn * 2^-43`.
    pub dn: i16,
    /// Mean anomaly at reference time, 32-bit signed reconstruction of
    /// word 4 (MSB) and word 5 (LSB); semicircles are `m0 * 2^-31`.
    pub m0: i32,
    /// Argument-of-latitude cosine correction; radians are `cuc * 2^-29`.
    pub cuc: i16,
    /// Eccentricity, 32-bit reconstruction of word 6 (MSB) and word 7
    /// (LSB); the dimensionless value is `e * 2^-33`.
    pub e: u32,
    /// Argument-of-latitude sine correction; radians are `cus * 2^-29`.
    pub cus: i16,
    /// Square root of the semi-major axis, 32-bit reconstruction of word 8
    /// (MSB) and word 9 (LSB); sqrt-meters are `sqrt_a * 2^-19`.
    pub sqrt_a: u32,
    /// Time of ephemeris in seconds (raw 16-bit field times 2^4).
    pub toe: u32,
    /// Fit interval flag.
    pub fit_interval: bool,
    /// 5-bit age of data offset, preserved verbatim.
    pub aodo: u8,
}

/// 32-bit value rebuilt from an 8-bit MSB part and a 24-bit LSB part,
/// MSB-first.
pub open spec fn spec_join32(msb: u8, lsb: u32) -> u32 {
    ((msb as u32) * 0x1000000 + lsb) as u32
}

impl GpsQzssFrame2 {
    /// The frame assembled from the eight data words of subframe 2:
    /// per-word decoding followed by the three cross-word reconstructions
    /// and the integer time-of-ephemeris scaling.
    pub open spec fn spec_from_words(
        w3: u32,
        w4: u32,
        w5: u32,
        w6: u32,
        w7: u32,
        w8: u32,
        w9: u32,
        w10: u32,
    ) -> GpsQzssFrame2 {
        let d3 = Word3::spec_decode(w3);
        let d4 = Word4::spec_decode(w4);
        let d5 = Word5::spec_decode(w5);
        let d6 = Word6::spec_decode(w6);
        let d7 = Word7::spec_decode(w7);
        let d8 = Word8::spec_decode(w8);
        let d9 = Word9::spec_decode(w9);
        let d10 = Word10::spec_decode(w10);
        GpsQzssFrame2 {
            iode: d3.iode,
            crs: d3.crs,
            dn: d4.dn,
            m0: spec_sign_extend32(spec_join32(d4.m0_msb, d5.m0_lsb)) as i32,
            cuc: d6.cuc,
            e: spec_join32(d6.e_msb, d7.e_lsb),
            cus: d8.cus,
            sqrt_a: spec_join32(d8.sqrt_a_msb, d9.sqrt_a_lsb),
            toe: ((d10.toe as u32) * 16) as u32,
            fit_interval: d10.fit_interval,
            aodo: d10.aodo,
        }
    }

    /// Assembles subframe 2 from its eight data words (words 3 through 10).
    pub fn from_words(w3: u32, w4: u32, w5: u32, w6: u32, w7: u32, w8: u32, w9: u32, w10: u32) -> (r:
        GpsQzssFrame2)
        ensures
            r == GpsQzssFrame2::spec_from_words(w3, w4, w5, w6, w7, w8, w9, w10),
            r.aodo < 32,
    {
        let d3 = Word3::decode(w3);
        let d4 = Word4::decode(w4);
        let d5 = Word5::decode(w5);
        let d6 = Word6::decode(w6);
        let d7 = Word7::decode(w7);
        let d8 = Word8::decode(w8);
        let d9 = Word9::decode(w9);
        let d10 = Word10::decode(w10);
        GpsQzssFrame2 {
            iode: d3.iode,
            crs: d3.crs,
            dn: d4.dn,
            m0: sign_extend32((d4.m0_msb as u32) * 0x1000000 + d5.m0_lsb),
            cuc: d6.cuc,
            e: (d6.e_msb as u32) * 0x1000000 + d7.e_lsb,
            cus: d8.cus,
            sqrt_a: (d8.sqrt_a_msb as u32) * 0x1000000 + d9.sqrt_a_lsb,
            toe: (d10.toe as u32) * 16,
            fit_interval: d10.fit_interval,
            aodo: d10.aodo,
        }
    }
}

impl GpsQzssFrame2 {
    /// The all-zero frame: every field at its raw zero value.
    pub open spec fn spec_default() -> GpsQzssFrame2 {
        GpsQzssFrame2 {
            iode: 0u8,
            crs: 0i16,
            dn: 0i16,
            m0: 0i32,
            cuc: 0i16,
            e: 0u32,
            cus: 0i16,
            sqrt_a: 0u32,
            toe: 0u32,
            fit_interval: false,
            aodo: 0u8,
        }
    }
}

impl Default for GpsQzssFrame2 {
    /// The all-zero frame: every field at its raw zero value.
    fn default() -> (r: GpsQzssFrame2)
        ensures
            r == GpsQzssFrame2::spec_default(),
    {
        GpsQzssFrame2 {
            iode: 0,
            crs: 0,
            dn: 0,
            m0: 0,
            cuc: 0,
            e: 0,
            cus: 0,
            sqrt_a: 0,
            toe: 0,
            fit_interval: false,
            aodo: 0,
        }
    }
}

} // verus!
