use vstd::prelude::*;

use crate::lemma_shr_and_bound;
use crate::lemma_sign_bit_bounds;
use crate::lemma_twos_complement_round_trip;
use crate::sign_extend32;
use crate::spec_sign_extend32;
use crate::spec_sign_fold;
use crate::spec_twos_complement;
use crate::twos_complement;

use crate::frame2::spec_join32;

verus! {

/// Fields physically present in word 3 of subframe 3: the signed
/// inclination cosine-correction term and the top byte of the longitude of
/// the ascending node.
#[derive(Clone, Copy, Debug, PartialEq, Eq, Structural)]
pub struct Word3 {
    /// Inclination cosine correction, raw signed value; radians are
    /// `cic * 2^-29`.
    pub cic: i16,
    /// 8 most significant bits of the longitude of the ascending node, to
    /// be joined with word 4.
    pub omega0_msb: u8,
}

impl Word3 {
    /// Field layout of word 3 as a pure function of the raw word.
    pub open spec fn spec_decode(dword: u32) -> Word3 {
        Word3 {
            cic: spec_twos_complement((dword >> 14) & 0xffff, 0xffff, 0x8000) as i16,
            omega0_msb: ((dword >> 6) & 0xff) as u8,
        }
    }

    /// Places the raw fields back at their bit positions.
    pub open spec fn spec_encode(w: Word3) -> u32 {
        ((spec_sign_fold(w.cic as int, 0xffff) as u32) << 14) | ((w.omega0_msb as u32) << 6)
    }

    /// Decodes one raw word 3; total on any word.
    pub fn decode(dword: u32) -> (r: Word3)
        ensures
            r == Word3::spec_decode(dword),
    {
        let raw_cic: u32 = (dword >> 14) & 0xffff;
        proof {
            lemma_shr_and_bound(dword, 14, 0xffff);
            lemma_shr_and_bound(dword, 6, 0xff);
            lemma_sign_bit_bounds(raw_cic);
        }
        let cic: i32 = twos_complement(raw_cic, 0xffff, 0x8000);
        Word3 { cic: cic as i16, omega0_msb: ((dword >> 6) & 0xff) as u8 }
    }
}

/// Re-encoding the decoded fields of word 3 reproduces the word's data
/// region exactly.
pub proof fn lemma_word3_round_trip(dword: u32)
    ensures
        Word3::spec_encode(Word3::spec_decode(dword)) == dword & 0x3fffffc0,
{
    let raw = (dword >> 14) & 0xffff;
    lemma_shr_and_bound(dword, 14, 0xffff);
    lemma_shr_and_bound(dword, 6, 0xff);
    lemma_sign_bit_bounds(raw);
    lemma_twos_complement_round_trip(raw, 0xffff, 0x8000);
    assert((((dword >> 14) & 0xffff) << 14) | (((dword >> 6) & 0xff) << 6) == dword & 0x3fffffc0)
        by (bit_vector);
}

/// Word 4 of subframe 3 carries the 24 least significant bits of the
/// longitude of the ascending node.
#[derive(Clone, Copy, Debug, PartialEq, Eq, Structural)]
pub struct Word4 {
    /// 24 least significant bits of the longitude of the ascending node,
    /// to be joined with word 3.
    pub omega0_lsb: u32,
}

impl Word4 {
    /// Field layout of word 4 as a pure function of the raw word.
    pub open spec fn spec_decode(dword: u32) -> Word4 {
        Word4 { omega0_lsb: (dword >> 6) & 0xffffff }
    }

    /// Places the raw field back at its bit position.
    pub open spec fn spec_encode(w: Word4) -> u32 {
        w.omega0_lsb << 6
    }

    /// Decodes one raw word 4; total on any word.
    pub fn decode(dword: u32) -> (r: Word4)
        ensures
            r == Word4::spec_decode(dword),
            r.omega0_lsb < 0x1000000,
    {
        proof {
            lemma_shr_and_bound(dword, 6, 0xffffff);
        }
        Word4 { omega0_lsb: (dword >> 6) & 0xffffff }
    }
}

/// Re-encoding the decoded field of word 4 reproduces the word's data
/// region exactly.
pub proof fn lemma_word4_round_trip(dword: u32)
    ensures
        Word4::spec_encode(Word4::spec_decode(dword)) == dword & 0x3fffffc0,
{
    assert((((dword >> 6) & 0xffffff) << 6) == dword & 0x3fffffc0) by (bit_vector);
}

/// Fields physically present in word 5 of subframe 3: the signed
/// inclination sine-correction term and the top byte of the inclination
/// angle.
#[derive(Clone, Copy, Debug, PartialEq, Eq, Structural)]
pub struct Word5 {
    /// Inclination sine correction, raw signed value; radians are
    /// `cis * 2^-29`.
    pub cis: i16,
    /// 8 most significant bits of the inclination angle, to be joined with
    /// word 6.
    pub i0_msb: u8,
}

impl Word5 {
    /// Field layout of word 5 as a pure function of the raw word.
    pub open spec fn spec_decode(dword: u32) -> Word5 {
        Word5 {
            cis: spec_twos_complement((dword >> 14) & 0xffff, 0xffff, 0x8000) as i16,
            i0_msb: ((dword >> 6) & 0xff) as u8,
        }
    }

    /// Places the raw fields back at their bit positions.
    pub open spec fn spec_encode(w: Word5) -> u32 {
        ((spec_sign_fold(w.cis as int, 0xffff) as u32) << 14) | ((w.i0_msb as u32) << 6)
    }

    /// Decodes one raw word 5; total on any word.
    pub fn decode(dword: u32) -> (r: Word5)
        ensures
            r == Word5::spec_decode(dword),
    {
        let raw_cis: u32 = (dword >> 14) & 0xffff;
        proof {
            lemma_shr_and_bound(dword, 14, 0xffff);
            lemma_shr_and_bound(dword, 6, 0xff);
            lemma_sign_bit_bounds(raw_cis);
        }
        let cis: i32 = twos_complement(raw_cis, 0xffff, 0x8000);
        Word5 { cis: cis as i16, i0_msb: ((dword >> 6) & 0xff) as u8 }
    }
}

/// Re-encoding the decoded fields of word 5 reproduces the word's data
/// region exactly.
pub proof fn lemma_word5_round_trip(dword: u32)
    ensures
        Word5::spec_encode(Word5::spec_decode(dword)) == dword & 0x3fffffc0,
{
    let raw = (dword >> 14) & 0xffff;
    lemma_shr_and_bound(dword, 14, 0xffff);
    lemma_shr_and_bound(dword, 6, 0xff);
    lemma_sign_bit_bounds(raw);
    lemma_twos_complement_round_trip(raw, 0xffff, 0x8000);
    assert((((dword >> 14) & 0xffff) << 14) | (((dword >> 6) & 0xff) << 6) == dword & 0x3fffffc0)
        by (bit_vector);
}

/// Word 6 of subframe 3 carries the 24 least significant bits of the
/// inclination angle.
#[derive(Clone, Copy, Debug, PartialEq, Eq, Structural)]
pub struct Word6 {
    /// 24 least significant bits of the inclination angle, to be joined
    /// with word 5.
    pub i0_lsb: u32,
}

impl Word6 {
    /// Field layout of word 6 as a pure function of the raw word.
    pub open spec fn spec_decode(dword: u32) -> Word6 {
        Word6 { i0_lsb: (dword >> 6) & 0xffffff }
    }

    /// Places the raw field back at its bit position.
    pub open spec fn spec_encode(w: Word6) -> u32 {
        w.i0_lsb << 6
    }

    /// Decodes one raw word 6; total on any word.
    pub fn decode(dword: u32) -> (r: Word6)
        ensures
            r == Word6::spec_decode(dword),
            r.i0_lsb < 0x1000000,
    {
        proof {
            lemma_shr_and_bound(dword, 6, 0xffffff);
        }
        Word6 { i0_lsb: (dword >> 6) & 0xffffff }
    }
}

/// Re-encoding the decoded field of word 6 reproduces the word's data
/// region exactly.
pub proof fn lemma_word6_round_trip(dword: u32)
    ensures
        Word6::spec_encode(Word6::spec_decode(dword)) == dword & 0x3fffffc0,
{
    assert((((dword >> 6) & 0xffffff) << 6) == dword & 0x3fffffc0) by (bit_vector);
}

/// Fields physically present in word 7 of subframe 3: the signed orbit
/// radius cosine-correction term and the top byte of the argument of
/// perigee.
#[derive(Clone, Copy, Debug, PartialEq, Eq, Structural)]
pub struct Word7 {
    /// Orbit radius cosine correction, raw signed value; meters are
    /// `crc * 2^-5`.
    pub crc: i16,
    /// 8 most significant bits of the argument of perigee, to be joined
    /// with word 8.
    pub omega_msb: u8,
}

impl Word7 {
    /// Field layout of word 7 as a pure function of the raw word.
    pub open spec fn spec_decode(dword: u32) -> Word7 {
        Word7 {
            crc: spec_twos_complement((dword >> 14) & 0xffff, 0xffff, 0x8000) as i16,
            omega_msb: ((dword >> 6) & 0xff) as u8,
        }
    }

    /// Places the raw fields back at their bit positions.
    pub open spec fn spec_encode(w: Word7) -> u32 {
        ((spec_sign_fold(w.crc as int, 0xffff) as u32) << 14) | ((w.omega_msb as u32) << 6)
    }

    /// Decodes one raw word 7; total on any word.
    pub fn decode(dword: u32) -> (r: Word7)
        ensures
            r == Word7::spec_decode(dword),
    {
        let raw_crc: u32 = (dword >> 14) & 0xffff;
        proof {
            lemma_shr_and_bound(dword, 14, 0xffff);
            lemma_shr_and_bound(dword, 6, 0xff);
            lemma_sign_bit_bounds(raw_crc);
        }
        let crc: i32 = twos_complement(raw_crc, 0xffff, 0x8000);
        Word7 { crc: crc as i16, omega_msb: ((dword >> 6) & 0xff) as u8 }
    }
}

/// Re-encoding the decoded fields of word 7 reproduces the word's data
/// region exactly.
pub proof fn lemma_word7_round_trip(dword: u32)
    ensures
        Word7::spec_encode(Word7::spec_decode(dword)) == dword & 0x3fffffc0,
{
    let raw = (dword >> 14) & 0xffff;
    lemma_shr_and_bound(dword, 14, 0xffff);
    lemma_shr_and_bound(dword, 6, 0xff);
    lemma_sign_bit_bounds(raw);
    lemma_twos_complement_round_trip(raw, 0xffff, 0x8000);
    assert((((dword >> 14) & 0xffff) << 14) | (((dword >> 6) & 0xff) << 6) == dword & 0x3fffffc0)
        by (bit_vector);
}

/// Word 8 of subframe 3 carries the 24 least significant bits of the
/// argument of perigee.
#[derive(Clone, Copy, Debug, PartialEq, Eq, Structural)]
pub struct Word8 {
    /// 24 least significant bits of the argument of perigee, to be joined
    /// with word 7.
    pub omega_lsb: u32,
}

impl Word8 {
    /// Field layout of word 8 as a pure function of the raw word.
    pub open spec fn spec_decode(dword: u32) -> Word8 {
        Word8 { omega_lsb: (dword >> 6) & 0xffffff }
    }

    /// Places the raw field back at its bit position.
    pub open spec fn spec_encode(w: Word8) -> u32 {
        w.omega_lsb << 6
    }

    /// Decodes one raw word 8; total on any word.
    pub fn decode(dword: u32) -> (r: Word8)
        ensures
            r == Word8::spec_decode(dword),
            r.omega_lsb < 0x1000000,
    {
        proof {
            lemma_shr_and_bound(dword, 6, 0xffffff);
        }
        Word8 { omega_lsb: (dword >> 6) & 0xffffff }
    }
}

/// Re-encoding the decoded field of word 8 reproduces the word's data
/// region exactly.
pub proof fn lemma_word8_round_trip(dword: u32)
    ensures
        Word8::spec_encode(Word8::spec_decode(dword)) == dword & 0x3fffffc0,
{
    assert((((dword >> 6) & 0xffffff) << 6) == dword & 0x3fffffc0) by (bit_vector);
}

/// Word 9 of subframe 3 carries the signed 24-bit rate of right ascension.
#[derive(Clone, Copy, Debug, PartialEq, Eq, Structural)]
pub struct Word9 {
    /// Rate of right ascension, raw signed 24-bit value; semicircles/s are
    /// `omega_dot * 2^-43`.
    pub omega_dot: i32,
}

impl Word9 {
    /// Field layout of word 9 as a pure function of the raw word.
    pub open spec fn spec_decode(dword: u32) -> Word9 {
        Word9 {
            omega_dot: spec_twos_complement((dword >> 6) & 0xffffff, 0xffffff, 0x800000) as i32,
        }
    }

    /// Places the raw field back at its bit position, folding the signed
    /// value onto its 24-bit width.
    pub open spec fn spec_encode(w: Word9) -> u32 {
        (spec_sign_fold(w.omega_dot as int, 0xffffff) as u32) << 6
    }

    /// Decodes one raw word 9; total on any word.
    pub fn decode(dword: u32) -> (r: Word9)
        ensures
            r == Word9::spec_decode(dword),
    {
        let raw: u32 = (dword >> 6) & 0xffffff;
        proof {
            lemma_shr_and_bound(dword, 6, 0xffffff);
            lemma_sign_bit_bounds(raw);
        }
        let omega_dot: i32 = twos_complement(raw, 0xffffff, 0x800000);
        Word9 { omega_dot }
    }
}

/// Re-encoding the decoded field of word 9 reproduces the word's data
/// region exactly.
pub proof fn lemma_word9_round_trip(dword: u32)
    ensures
        Word9::spec_encode(Word9::spec_decode(dword)) == dword & 0x3fffffc0,
{
    let raw = (dword >> 6) & 0xffffff;
    lemma_shr_and_bound(dword, 6, 0xffffff);
    lemma_sign_bit_bounds(raw);
    lemma_twos_complement_round_trip(raw, 0xffffff, 0x800000);
    assert((((dword >> 6) & 0xffffff) << 6) == dword & 0x3fffffc0) by (bit_vector);
}

/// Fields physically present in word 10 of subframe 3: the issue-of-data
/// tag and the signed rate of inclination.
#[derive(Clone, Copy, Debug, PartialEq, Eq, Structural)]
pub struct Word10 {
    /// 8-bit IODE.
    pub iode: u8,
    /// Rate of inclination, raw signed 14-bit value; semicircles/s are
    /// `idot * 2^-43`.
    pub idot: i16,
}

impl Word10 {
    /// Field layout of word 10 as a pure function of the raw word.
    pub open spec fn spec_decode(dword: u32) -> Word10 {
        Word10 {
            iode: ((dword >> 22) & 0xff) as u8,
            idot: spec_twos_complement((dword >> 8) & 0x3fff, 0x3fff, 0x2000) as i16,
        }
    }

    /// Places the raw fields back at their bit positions.
    pub open spec fn spec_encode(w: Word10) -> u32 {
        ((w.iode as u32) << 22) | ((spec_sign_fold(w.idot as int, 0x3fff) as u32) << 8)
    }

    /// Decodes one raw word 10; total on any word.
    pub fn decode(dword: u32) -> (r: Word10)
        ensures
            r == Word10::spec_decode(dword),
    {
        let raw_idot: u32 = (dword >> 8) & 0x3fff;
        proof {
            lemma_shr_and_bound(dword, 22, 0xff);
            lemma_shr_and_bound(dword, 8, 0x3fff);
            lemma_sign_bit_bounds(raw_idot);
        }
        let idot: i32 = twos_complement(raw_idot, 0x3fff, 0x2000);
        Word10 { iode: ((dword >> 22) & 0xff) as u8, idot: idot as i16 }
    }
}

/// Re-encoding the decoded fields of word 10 reproduces the word's data
/// region above the two trailing data bits, which word 10 does not use.
pub proof fn lemma_word10_round_trip(dword: u32)
    ensures
        Word10::spec_encode(Word10::spec_decode(dword)) == dword & 0x3fffff00,
{
    let raw = (dword >> 8) & 0x3fff;
    lemma_shr_and_bound(dword, 22, 0xff);
    lemma_shr_and_bound(dword, 8, 0x3fff);
    lemma_sign_bit_bounds(raw);
    lemma_twos_complement_round_trip(raw, 0x3fff, 0x2000);
    assert((((dword >> 22) & 0xff) << 22) | (((dword >> 8) & 0x3fff) << 8) == dword & 0x3fffff00)
        by (bit_vector);
}

/// GPS / QZSS subframe 3 interpretation: the second half of the ephemeris.
///
/// Fields split across two words (longitude of the ascending node,
/// inclination angle, argument of perigee) are reconstructed MSB-first;
/// all values are kept at their raw integer widths with the scale exponent
/// noted on each field.
#[derive(Clone, Copy, Debug, PartialEq, Eq, Structural)]
pub struct GpsQzssFrame3 {
    /// Inclination cosine correction; radians are `cic * 2^-29`.
    pub cic: i16,
    /// Longitude of the ascending node, 32-bit signed reconstruction of
    /// word 3 (MSB) and word 4 (LSB); semicircles are `omega0 * 2^-31`.
    pub omega0: i32,
    /// Inclination sine correction; radians are `cis * 2^-29`.
    pub cis: i16,
    /// Inclination angle, 32-bit signed reconstruction of word 5 (MSB) and
    /// word 6 (LSB); semicircles are `i0 * 2^-31`.
    pub i0: i32,
    /// Orbit radius cosine correction; meters are `crc * 2^-5`.
    pub crc: i16,
    /// Argument of perigee, 32-bit signed reconstruction of word 7 (MSB)
    /// and word 8 (LSB); semicircles are `omega * 2^-31`.
    pub omega: i32,
    /// Rate of right ascension; semicircles/s are `omega_dot * 2^-43`.
    pub omega_dot: i32,
    /// 8-bit IODE.
    pub iode: u8,
    /// Rate of inclination; semicircles/s are `idot * 2^-43`.
    pub idot: i16,
}

impl GpsQzssFrame3 {
    /// The frame assembled from the eight data words of subframe 3:
    /// per-word decoding followed by the three cross-word reconstructions.
    pub open spec fn spec_from_words(
        w3: u32,
        w4: u32,
        w5: u32,
        w6: u32,
        w7: u32,
        w8: u32,
        w9: u32,
        w10: u32,
    ) -> GpsQzssFrame3 {
        let d3 = Word3::spec_decode(w3);
        let d4 = Word4::spec_decode(w4);
        let d5 = Word5::spec_decode(w5);
        let d6 = Word6::spec_decode(w6);
        let d7 = Word7::spec_decode(w7);
        let d8 = Word8::spec_decode(w8);
        let d9 = Word9::spec_decode(w9);
        let d10 = Word10::spec_decode(w10);
        GpsQzssFrame3 {
            cic: d3.cic,
            omega0: spec_sign_extend32(spec_join32(d3.omega0_msb, d4.omega0_lsb)) as i32,
            cis: d5.cis,
            i0: spec_sign_extend32(spec_join32(d5.i0_msb, d6.i0_lsb)) as i32,
            crc: d7.crc,
            omega: spec_sign_extend32(spec_join32(d7.omega_msb, d8.omega_lsb)) as i32,
            omega_dot: d9.omega_dot,
            iode: d10.iode,
            idot: d10.idot,
        }
    }

    /// Assembles subframe 3 from its eight data words (words 3 through 10).
    pub fn from_words(w3: u32, w4: u32, w5: u32, w6: u32, w7: u32, w8: u32, w9: u32, w10: u32) -> (r:
        GpsQzssFrame3)
        ensures
            r == GpsQzssFrame3::spec_from_words(w3, w4, w5, w6, w7, w8, w9, w10),
    {
        let d3 = Word3::decode(w3);
        let d4 = Word4::decode(w4);
        let d5 = Word5::decode(w5);
        let d6 = Word6::decode(w6);
        let d7 = Word7::decode(w7);
        let d8 = Word8::decode(w8);
        let d9 = Word9::decode(w9);
        let d10 = Word10::decode(w10);
        GpsQzssFrame3 {
            cic: d3.cic,
            omega0: sign_extend32((d3.omega0_msb as u32) * 0x1000000 + d4.omega0_lsb),
            cis: d5.cis,
            i0: sign_extend32((d5.i0_msb as u32) * 0x1000000 + d6.i0_lsb),
            crc: d7.crc,
            omega: sign_extend32((d7.omega_msb as u32) * 0x1000000 + d8.omega_lsb),
            omega_dot: d9.omega_dot,
            iode: d10.iode,
            idot: d10.idot,
        }
    }
}

impl GpsQzssFrame3 {
    /// The all-zero frame: every field at its raw zero value.
    pub open spec fn spec_default() -> GpsQzssFrame3 {
        GpsQzssFrame3 {
            cic: 0i16,
            omega0: 0i32,
            cis: 0i16,
            i0: 0i32,
            crc: 0i16,
            omega: 0i32,
            omega_dot: 0i32,
            iode: 0u8,
            idot: 0i16,
        }
    }
}

impl Default for GpsQzssFrame3 {
    /// The all-zero frame: every field at its raw zero value.
    fn default() -> (r: GpsQzssFrame3)
        ensures
            r == GpsQzssFrame3::spec_default(),
    {
        GpsQzssFrame3 {
            cic: 0,
            omega0: 0,
            cis: 0,
            i0: 0,
            crc: 0,
            omega: 0,
            omega_dot: 0,
            iode: 0,
            idot: 0,
        }
    }
}

} // verus!
