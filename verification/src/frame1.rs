use vstd::prelude::*;

use crate::lemma_shr_and_bound;
use crate::lemma_sign_bit_bounds;
use crate::lemma_twos_complement_round_trip;
use crate::spec_sign_fold;
use crate::spec_twos_complement;
use crate::twos_complement;

verus! {

/// Fields physically present in word 3 of subframe 1, at their raw widths.
///
/// Within the 30-bit word the 24 data bits occupy bits 29..=6 and the
/// parity region bits 5..=0; the ten week bits sit at the top of the data
/// region, followed by the L2 code, URA, health and IODC-MSB fields.
#[derive(Clone, Copy, Debug, PartialEq, Eq, Structural)]
pub struct Word3 {
    /// 10-bit week counter.
    pub week: u16,
    /// 2-bit C/A or P on L2 indicator.
    pub ca_or_p_l2: u8,
    /// 4-bit URA index.
    pub ura: u8,
    /// 6-bit SV health; 0 means all signals healthy.
    pub health: u8,
    /// 2-bit IODC MSB, to be joined with the LSB carried by word 8.
    pub iodc_msb: u8,
}

impl Word3 {
    /// Field layout of word 3 as a pure function of the raw word.
    pub open spec fn spec_decode(dword: u32) -> Word3 {
        Word3 {
            week: ((dword >> 20) & 0x3ff) as u16,
            ca_or_p_l2: ((dword >> 18) & 0x3) as u8,
            ura: ((dword >> 14) & 0xf) as u8,
            health: ((dword >> 8) & 0x3f) as u8,
            iodc_msb: ((dword >> 6) & 0x3) as u8,
        }
    }

    /// Places the raw fields back at their bit positions; the parity region
    /// stays clear.
    pub open spec fn spec_encode(w: Word3) -> u32 {
        ((w.week as u32) << 20) | ((w.ca_or_p_l2 as u32) << 18) | ((w.ura as u32) << 14) | ((
        w.health as u32) << 8) | ((w.iodc_msb as u32) << 6)
    }

    /// Decodes one raw word 3; total on any word.
    pub fn decode(dword: u32) -> (r: Word3)
        ensures
            r == Word3::spec_decode(dword),
            r.week < 1024,
            r.ca_or_p_l2 < 4,
            r.ura < 16,
            r.health < 64,
            r.iodc_msb < 4,
    {
        proof {
            lemma_shr_and_bound(dword, 20, 0x3ff);
            lemma_shr_and_bound(dword, 18, 0x3);
            lemma_shr_and_bound(dword, 14, 0xf);
            lemma_shr_and_bound(dword, 8, 0x3f);
            lemma_shr_and_bound(dword, 6, 0x3);
        }
        Word3 {
            week: ((dword >> 20) & 0x3ff) as u16,
            ca_or_p_l2: ((dword >> 18) & 0x3) as u8,
            ura: ((dword >> 14) & 0xf) as u8,
            health: ((dword >> 8) & 0x3f) as u8,
            iodc_msb: ((dword >> 6) & 0x3) as u8,
        }
    }
}

/// Re-encoding the decoded fields of word 3 reproduces the word's data
/// region exactly: decoding loses nothing but the parity bits.
pub proof fn lemma_word3_round_trip(dword: u32)
    ensures
        Word3::spec_encode(Word3::spec_decode(dword)) == dword & 0x3fffffc0,
{
    lemma_shr_and_bound(dword, 20, 0x3ff);
    lemma_shr_and_bound(dword, 18, 0x3);
    lemma_shr_and_bound(dword, 14, 0xf);
    lemma_shr_and_bound(dword, 8, 0x3f);
    lemma_shr_and_bound(dword, 6, 0x3);
    assert((((dword >> 20) & 0x3ff) << 20) | (((dword >> 18) & 0x3) << 18) | (((dword >> 14)
        & 0xf) << 14) | (((dword >> 8) & 0x3f) << 8) | (((dword >> 6) & 0x3) << 6) == dword
        & 0x3fffffc0) by (bit_vector);
}

/// Each field of word 3 decodes back independently from a word built out of
/// in-range field values.
pub proof fn lemma_word3_fields_round_trip(w: Word3)
    requires
        w.week < 1024,
        w.ca_or_p_l2 < 4,
        w.ura < 16,
        w.health < 64,
        w.iodc_msb < 4,
    ensures
        Word3::spec_decode(Word3::spec_encode(w)) == w,
{
    let week = w.week;
    let ca = w.ca_or_p_l2;
    let ura = w.ura;
    let health = w.health;
    let iodc = w.iodc_msb;
    assert({
        let e = ((week as u32) << 20) | ((ca as u32) << 18) | ((ura as u32) << 14) | ((
        health as u32) << 8) | ((iodc as u32) << 6);
        ((e >> 20) & 0x3ff) == week && ((e >> 18) & 0x3) == ca && ((e >> 14) & 0xf) == ura && ((e
            >> 8) & 0x3f) == health && ((e >> 6) & 0x3) == iodc
    }) by (bit_vector)
        requires
            week < 1024,
            ca < 4,
            ura < 16,
            health < 64,
            iodc < 4,
    ;
}

/// Fields physically present in word 4 of subframe 1: the L2 P-code data
/// flag at the top of the data region and a 23-bit reserved field.
#[derive(Clone, Copy, Debug, PartialEq, Eq, Structural)]
pub struct Word4 {
    /// When set, the NAV data stream was commanded off on the L2 P-code.
    pub l2_p_data_flag: bool,
    /// 23-bit reserved field, preserved verbatim.
    pub reserved: u32,
}

impl Word4 {
    /// Field layout of word 4 as a pure function of the raw word.
    pub open spec fn spec_decode(dword: u32) -> Word4 {
        Word4 { l2_p_data_flag: (dword >> 29) & 1 == 1, reserved: (dword >> 6) & 0x7fffff }
    }

    /// Places the raw fields back at their bit positions.
    pub open spec fn spec_encode(w: Word4) -> u32 {
        ((if w.l2_p_data_flag {
            1u32
        } else {
            0u32
        }) << 29) | (w.reserved << 6)
    }

    /// Decodes one raw word 4; total on any word.
    pub fn decode(dword: u32) -> (r: Word4)
        ensures
            r == Word4::spec_decode(dword),
            r.reserved < 0x800000,
    {
        proof {
            lemma_shr_and_bound(dword, 6, 0x7fffff);
        }
        Word4 { l2_p_data_flag: (dword >> 29) & 1 == 1, reserved: (dword >> 6) & 0x7fffff }
    }
}

/// Re-encoding the decoded fields of word 4 reproduces the word's data
/// region exactly.
pub proof fn lemma_word4_round_trip(dword: u32)
    ensures
        Word4::spec_encode(Word4::spec_decode(dword)) == dword & 0x3fffffc0,
{
    assert((((dword >> 29) & 1) << 29) | (((dword >> 6) & 0x7fffff) << 6) == dword & 0x3fffffc0)
        by (bit_vector);
    assert((dword >> 29) & 1 == 1 || (dword >> 29) & 1 == 0) by (bit_vector);
}

/// Word 5 of subframe 1 carries a single 24-bit reserved field.
#[derive(Clone, Copy, Debug, PartialEq, Eq, Structural)]
pub struct Word5 {
    /// 24-bit reserved field, preserved verbatim.
    pub reserved: u32,
}

impl Word5 {
    /// Field layout of word 5 as a pure function of the raw word.
    pub open spec fn spec_decode(dword: u32) -> Word5 {
        Word5 { reserved: (dword >> 6) & 0xffffff }
    }

    /// Places the raw field back at its bit position.
    pub open spec fn spec_encode(w: Word5) -> u32 {
        w.reserved << 6
    }

    /// Decodes one raw word 5; total on any word.
    pub fn decode(dword: u32) -> (r: Word5)
        ensures
            r == Word5::spec_decode(dword),
            r.reserved < 0x1000000,
    {
        proof {
            lemma_shr_and_bound(dword, 6, 0xffffff);
        }
        Word5 { reserved: (dword >> 6) & 0xffffff }
    }
}

/// Re-encoding the decoded field of word 5 reproduces the word's data
/// region exactly.
pub proof fn lemma_word5_round_trip(dword: u32)
    ensures
        Word5::spec_encode(Word5::spec_decode(dword)) == dword & 0x3fffffc0,
{
    assert((((dword >> 6) & 0xffffff) << 6) == dword & 0x3fffffc0) by (bit_vector);
}

/// Word 6 of subframe 1 carries a single 24-bit reserved field.
#[derive(Clone, Copy, Debug, PartialEq, Eq, Structural)]
pub struct Word6 {
    /// 24-bit reserved field, preserved verbatim.
    pub reserved: u32,
}

impl Word6 {
    /// Field layout of word 6 as a pure function of the raw word.
    pub open spec fn spec_decode(dword: u32) -> Word6 {
        Word6 { reserved: (dword >> 6) & 0xffffff }
    }

    /// Places the raw field back at its bit position.
    pub open spec fn spec_encode(w: Word6) -> u32 {
        w.reserved << 6
    }

    /// Decodes one raw word 6; total on any word.
    pub fn decode(dword: u32) -> (r: Word6)
        ensures
            r == Word6::spec_decode(dword),
            r.reserved < 0x1000000,
    {
        proof {
            lemma_shr_and_bound(dword, 6, 0xffffff);
        }
        Word6 { reserved: (dword >> 6) & 0xffffff }
    }
}

/// Re-encoding the decoded field of word 6 reproduces the word's data
/// region exactly.
pub proof fn lemma_word6_round_trip(dword: u32)
    ensures
        Word6::spec_encode(Word6::spec_decode(dword)) == dword & 0x3fffffc0,
{
    assert((((dword >> 6) & 0xffffff) << 6) == dword & 0x3fffffc0) by (bit_vector);
}

/// Fields physically present in word 7 of subframe 1: a 16-bit reserved
/// field and the signed 8-bit group-delay term.
#[derive(Clone, Copy, Debug, PartialEq, Eq, Structural)]
pub struct Word7 {
    /// 16-bit reserved field, preserved verbatim.
    pub reserved: u16,
    /// Group delay differential, raw signed value; seconds are
    /// `tgd * 2^-31`.
    pub tgd: i8,
}

impl Word7 {
    /// Field layout of word 7 as a pure function of the raw word.
    pub open spec fn spec_decode(dword: u32) -> Word7 {
        Word7 {
            reserved: ((dword >> 14) & 0xffff) as u16,
            tgd: spec_twos_complement((dword >> 6) & 0xff, 0xff, 0x80) as i8,
        }
    }

    /// Places the raw fields back at their bit positions, folding the signed
    /// group delay onto its 8-bit width.
    pub open spec fn spec_encode(w: Word7) -> u32 {
        ((w.reserved as u32) << 14) | ((spec_sign_fold(w.tgd as int, 0xff) as u32) << 6)
    }

    /// Decodes one raw word 7; total on any word.
    pub fn decode(dword: u32) -> (r: Word7)
        ensures
            r == Word7::spec_decode(dword),
    {
        let raw_tgd: u32 = (dword >> 6) & 0xff;
        proof {
            lemma_shr_and_bound(dword, 14, 0xffff);
            lemma_shr_and_bound(dword, 6, 0xff);
            lemma_sign_bit_bounds(raw_tgd);
        }
        let tgd: i32 = twos_complement(raw_tgd, 0xff, 0x80);
        Word7 { reserved: ((dword >> 14) & 0xffff) as u16, tgd: tgd as i8 }
    }
}

/// Re-encoding the decoded fields of word 7 reproduces the word's data
/// region exactly.
pub proof fn lemma_word7_round_trip(dword: u32)
    ensures
        Word7::spec_encode(Word7::spec_decode(dword)) == dword & 0x3fffffc0,
{
    let raw = (dword >> 6) & 0xff;
    lemma_shr_and_bound(dword, 6, 0xff);
    lemma_shr_and_bound(dword, 14, 0xffff);
    lemma_sign_bit_bounds(raw);
    lemma_twos_complement_round_trip(raw, 0xff, 0x80);
    assert((((dword >> 14) & 0xffff) << 14) | (((dword >> 6) & 0xff) << 6) == dword & 0x3fffffc0)
        by (bit_vector);
}

/// Fields physically present in word 8 of subframe 1: the 8-bit IODC LSB
/// and the 16-bit raw time of clock.
#[derive(Clone, Copy, Debug, PartialEq, Eq, Structural)]
pub struct Word8 {
    /// 8-bit IODC LSB, to be joined with the MSB carried by word 3.
    pub iodc_lsb: u8,
    /// Raw 16-bit time of clock; seconds are `toc * 16`.
    pub toc: u16,
}

impl Word8 {
    /// Field layout of word 8 as a pure function of the raw word.
    pub open spec fn spec_decode(dword: u32) -> Word8 {
        Word8 {
            iodc_lsb: ((dword >> 22) & 0xff) as u8,
            toc: ((dword >> 6) & 0xffff) as u16,
        }
    }

    /// Places the raw fields back at their bit positions.
    pub open spec fn spec_encode(w: Word8) -> u32 {
        ((w.iodc_lsb as u32) << 22) | ((w.toc as u32) << 6)
    }

    /// Decodes one raw word 8; total on any word.
    pub fn decode(dword: u32) -> (r: Word8)
        ensures
            r == Word8::spec_decode(dword),
    {
        proof {
            lemma_shr_and_bound(dword, 22, 0xff);
            lemma_shr_and_bound(dword, 6, 0xffff);
        }
        Word8 { iodc_lsb: ((dword >> 22) & 0xff) as u8, toc: ((dword >> 6) & 0xffff) as u16 }
    }
}

/// Re-encoding the decoded fields of word 8 reproduces the word's data
/// region exactly.
pub proof fn lemma_word8_round_trip(dword: u32)
    ensures
        Word8::spec_encode(Word8::spec_decode(dword)) == dword & 0x3fffffc0,
{
    lemma_shr_and_bound(dword, 22, 0xff);
    lemma_shr_and_bound(dword, 6, 0xffff);
    assert((((dword >> 22) & 0xff) << 22) | (((dword >> 6) & 0xffff) << 6) == dword & 0x3fffffc0)
        by (bit_vector);
}

/// Fields physically present in word 9 of subframe 1: the signed 8-bit
/// clock drift rate and the signed 16-bit clock drift.
#[derive(Clone, Copy, Debug, PartialEq, Eq, Structural)]
pub struct Word9 {
    /// Clock drift rate, raw signed value; s/s^2 are `af2 * 2^-55`.
    pub af2: i8,
    /// Clock drift, raw signed value; s/s are `af1 * 2^-43`.
    pub af1: i16,
}

impl Word9 {
    /// Field layout of word 9 as a pure function of the raw word.
    pub open spec fn spec_decode(dword: u32) -> Word9 {
        Word9 {
            af2: spec_twos_complement((dword >> 22) & 0xff, 0xff, 0x80) as i8,
            af1: spec_twos_complement((dword >> 6) & 0xffff, 0xffff, 0x8000) as i16,
        }
    }

    /// Places the raw fields back at their bit positions, folding the signed
    /// values onto their widths.
    pub open spec fn spec_encode(w: Word9) -> u32 {
        ((spec_sign_fold(w.af2 as int, 0xff) as u32) << 22) | ((spec_sign_fold(
            w.af1 as int,
            0xffff,
        ) as u32) << 6)
    }

    /// Decodes one raw word 9; total on any word.
    pub fn decode(dword: u32) -> (r: Word9)
        ensures
            r == Word9::spec_decode(dword),
    {
        let raw_af2: u32 = (dword >> 22) & 0xff;
        let raw_af1: u32 = (dword >> 6) & 0xffff;
        proof {
            lemma_shr_and_bound(dword, 22, 0xff);
            lemma_shr_and_bound(dword, 6, 0xffff);
            lemma_sign_bit_bounds(raw_af2);
            lemma_sign_bit_bounds(raw_af1);
        }
        let af2: i32 = twos_complement(raw_af2, 0xff, 0x80);
        let af1: i32 = twos_complement(raw_af1, 0xffff, 0x8000);
        Word9 { af2: af2 as i8, af1: af1 as i16 }
    }
}

/// Re-encoding the decoded fields of word 9 reproduces the word's data
/// region exactly.
pub proof fn lemma_word9_round_trip(dword: u32)
    ensures
        Word9::spec_encode(Word9::spec_decode(dword)) == dword & 0x3fffffc0,
{
    let raw_af2 = (dword >> 22) & 0xff;
    let raw_af1 = (dword >> 6) & 0xffff;
    lemma_shr_and_bound(dword, 22, 0xff);
    lemma_shr_and_bound(dword, 6, 0xffff);
    lemma_sign_bit_bounds(raw_af2);
    lemma_sign_bit_bounds(raw_af1);
    lemma_twos_complement_round_trip(raw_af2, 0xff, 0x80);
    lemma_twos_complement_round_trip(raw_af1, 0xffff, 0x8000);
    assert((((dword >> 22) & 0xff) << 22) | (((dword >> 6) & 0xffff) << 6) == dword & 0x3fffffc0)
        by (bit_vector);
}

/// Word 10 of subframe 1 carries the signed 22-bit clock bias.
#[derive(Clone, Copy, Debug, PartialEq, Eq, Structural)]
pub struct Word10 {
    /// Clock bias, raw signed value; seconds are `af0 * 2^-31`.
    pub af0: i32,
}

impl Word10 {
    /// Field layout of word 10 as a pure function of the raw word.
    pub open spec fn spec_decode(dword: u32) -> Word10 {
        Word10 { af0: spec_twos_complement((dword >> 8) & 0x3fffff, 0x3fffff, 0x200000) as i32 }
    }

    /// Places the raw field back at its bit position, folding the signed
    /// value onto its 22-bit width.
    pub open spec fn spec_encode(w: Word10) -> u32 {
        (spec_sign_fold(w.af0 as int, 0x3fffff) as u32) << 8
    }

    /// Decodes one raw word 10; total on any word.
    pub fn decode(dword: u32) -> (r: Word10)
        ensures
            r == Word10::spec_decode(dword),
    {
        let raw_af0: u32 = (dword >> 8) & 0x3fffff;
        proof {
            lemma_shr_and_bound(dword, 8, 0x3fffff);
            lemma_sign_bit_bounds(raw_af0);
        }
        let af0: i32 = twos_complement(raw_af0, 0x3fffff, 0x200000);
        Word10 { af0 }
    }
}

/// Re-encoding the decoded field of word 10 reproduces the word's data
/// region above the two trailing data bits, which word 10 does not use.
pub proof fn lemma_word10_round_trip(dword: u32)
    ensures
        Word10::spec_encode(Word10::spec_decode(dword)) == dword & 0x3fffff00,
{
    let raw = (dword >> 8) & 0x3fffff;
    lemma_shr_and_bound(dword, 8, 0x3fffff);
    lemma_sign_bit_bounds(raw);
    lemma_twos_complement_round_trip(raw, 0x3fffff, 0x200000);
    assert((((dword >> 8) & 0x3fffff) << 8) == dword & 0x3fffff00) by (bit_vector);
}

/// 10-bit IODC rebuilt from its 2-bit MSB (word 3) and 8-bit LSB (word 8),
/// MSB-first.
pub open spec fn spec_iodc(iodc_msb: u8, iodc_lsb: u8) -> u16 {
    ((iodc_msb as u16) * 256 + (iodc_lsb as u16)) as u16
}

/// The IODC reconstructed from any valid 2-bit MSB and 8-bit LSB lies in
/// `0..=1023`.
pub proof fn lemma_iodc_range(iodc_msb: u8, iodc_lsb: u8)
    requires
        iodc_msb < 4,
    ensures
        spec_iodc(iodc_msb, iodc_lsb) <= 1023,
{
}

/// GPS / QZSS subframe 1 interpretation: clock parameters.
///
/// Raw integer fields (week, health, URA index, IODC, reserved bits) are
/// passed through unscaled.  The clock-correction terms are kept as raw
/// signed integers; their physical values carry a fixed power-of-two scale
/// noted on each field.
#[derive(Clone, Copy, Debug, PartialEq, Eq, Structural)]
pub struct GpsQzssFrame1 {
    /// 10-bit week counter, exactly as broadcast (no rollover compensation).
    pub week: u16,
    /// 2-bit C/A or P on L2.  When asserted, the NAV data stream was
    /// commanded off on the L2 channel P-code.
    pub ca_or_p_l2: u8,
    /// 4-bit URA index: an ordinal accuracy class, lower is better.  The
    /// ICD maps each index to an error bound in meters:
    /// - 0: 0 < ura <= 2.4
    /// - 1: 2.4 < ura <= 3.4
    /// - 2: 3.4 < ura <= 4.85
    /// - 3: 4.85 < ura <= 6.85
    /// - 4: 6.85 < ura <= 9.65
    /// - 5: 9.65 < ura <= 13.65
    /// - 6: 13.65 < ura <= 24.00
    /// - 7: 24.00 < ura <= 48.00
    /// - 8: 48.00 < ura <= 96.00
    /// - 9: 96.00 < ura <= 192.00
    /// - 10: 192.00 < ura <= 384.00
    /// - 11: 384.00 < ura <= 768.00
    /// - 12: 768.00 < ura <= 1536.00
    /// - 13: 1536.00 < ura <= 3072.00
    /// - 14: 3072.00 < ura <= 6144.00
    /// - 15: 6144.00 < ura
    pub ura: u8,
    /// 6-bit SV health; 0 means all signals healthy, any nonzero value is
    /// preserved verbatim for the caller to interpret.
    pub health: u8,
    /// 10-bit IODC, rebuilt from word 3 (MSB) and word 8 (LSB).
    pub iodc: u16,
    /// Time of clock in seconds (raw 16-bit field times 2^4).
    pub toc: u32,
    /// Group delay differential, raw signed 8-bit value; seconds are
    /// `tgd * 2^-31`.
    pub tgd: i8,
    /// Clock drift rate, raw signed 8-bit value; s/s^2 are `af2 * 2^-55`.
    pub af2: i8,
    /// Clock drift, raw signed 16-bit value; s/s are `af1 * 2^-43`.
    pub af1: i16,
    /// Clock bias, raw signed 22-bit value; seconds are `af0 * 2^-31`.
    pub af0: i32,
    /// 23-bit reserved field of word 4, preserved verbatim.
    pub reserved_word4: u32,
    /// L2 P-code data flag of word 4.
    pub l2_p_data_flag: bool,
    /// 24-bit reserved field of word 5, preserved verbatim.
    pub reserved_word5: u32,
    /// 24-bit reserved field of word 6, preserved verbatim.
    pub reserved_word6: u32,
    /// 16-bit reserved field of word 7, preserved verbatim.
    pub reserved_word7: u16,
}

impl GpsQzssFrame1 {
    /// The frame assembled from the eight data words of subframe 1:
    /// per-word decoding followed by the cross-word IODC reconstruction and
    /// the integer time-of-clock scaling.
    pub open spec fn spec_from_words(
        w3: u32,
        w4: u32,
        w5: u32,
        w6: u32,
        w7: u32,
        w8: u32,
        w9: u32,
        w10: u32,
    ) -> GpsQzssFrame1 {
        let d3 = Word3::spec_decode(w3);
        let d4 = Word4::spec_decode(w4);
        let d5 = Word5::spec_decode(w5);
        let d6 = Word6::spec_decode(w6);
        let d7 = Word7::spec_decode(w7);
        let d8 = Word8::spec_decode(w8);
        let d9 = Word9::spec_decode(w9);
        let d10 = Word10::spec_decode(w10);
        GpsQzssFrame1 {
            week: d3.week,
            ca_or_p_l2: d3.ca_or_p_l2,
            ura: d3.ura,
            health: d3.health,
            iodc: spec_iodc(d3.iodc_msb, d8.iodc_lsb),
            toc: ((d8.toc as u32) * 16) as u32,
            tgd: d7.tgd,
            af2: d9.af2,
            af1: d9.af1,
            af0: d10.af0,
            reserved_word4: d4.reserved,
            l2_p_data_flag: d4.l2_p_data_flag,
            reserved_word5: d5.reserved,
            reserved_word6: d6.reserved,
            reserved_word7: d7.reserved,
        }
    }

    /// Assembles subframe 1 from its eight data words (words 3 through 10).
    ///
    /// Total on any words: every failure a decode can report is raised
    /// before assembly.
    pub fn from_words(w3: u32, w4: u32, w5: u32, w6: u32, w7: u32, w8: u32, w9: u32, w10: u32) -> (r:
        GpsQzssFrame1)
        ensures
            r == GpsQzssFrame1::spec_from_words(w3, w4, w5, w6, w7, w8, w9, w10),
            r.week < 1024,
            r.ura < 16,
            r.health < 64,
            r.iodc < 1024,
    {
        let d3 = Word3::decode(w3);
        let d4 = Word4::decode(w4);
        let d5 = Word5::decode(w5);
        let d6 = Word6::decode(w6);
        let d7 = Word7::decode(w7);
        let d8 = Word8::decode(w8);
        let d9 = Word9::decode(w9);
        let d10 = Word10::decode(w10);
        GpsQzssFrame1 {
            week: d3.week,
            ca_or_p_l2: d3.ca_or_p_l2,
            ura: d3.ura,
            health: d3.health,
            iodc: (d3.iodc_msb as u16) * 256 + (d8.iodc_lsb as u16),
            toc: (d8.toc as u32) * 16,
            tgd: d7.tgd,
            af2: d9.af2,
            af1: d9.af1,
            af0: d10.af0,
            reserved_word4: d4.reserved,
            l2_p_data_flag: d4.l2_p_data_flag,
            reserved_word5: d5.reserved,
            reserved_word6: d6.reserved,
            reserved_word7: d7.reserved,
        }
    }

    /// Whether the SV health field reports all signals healthy: exactly
    /// the value 0.  Any nonzero 6-bit code stays verbatim in `health` for
    /// the caller to interpret against the full ICD health-code table.
    pub fn is_healthy(&self) -> (r: bool)
        ensures
            r <==> self.health == 0,
    {
        self.health == 0
    }

    /// Copy of `self` with the week counter replaced.
    pub fn with_week(self, week: u16) -> (r: GpsQzssFrame1)
        ensures
            r == (GpsQzssFrame1 { week, ..self }),
    {
        let mut r = self;
        r.week = week;
        r
    }

    /// Copy of `self` with the SV health replaced.
    pub fn with_health(self, health: u8) -> (r: GpsQzssFrame1)
        ensures
            r == (GpsQzssFrame1 { health, ..self }),
    {
        let mut r = self;
        r.health = health;
        r
    }

    /// Copy of `self` with the time of clock replaced.
    pub fn with_toc(self, toc: u32) -> (r: GpsQzssFrame1)
        ensures
            r == (GpsQzssFrame1 { toc, ..self }),
    {
        let mut r = self;
        r.toc = toc;
        r
    }

    /// Copy of `self` with the raw group delay replaced.
    pub fn with_tgd(self, tgd: i8) -> (r: GpsQzssFrame1)
        ensures
            r == (GpsQzssFrame1 { tgd, ..self }),
    {
        let mut r = self;
        r.tgd = tgd;
        r
    }

    /// Copy of `self` with the URA index replaced.
    pub fn with_ura(self, ura: u8) -> (r: GpsQzssFrame1)
        ensures
            r == (GpsQzssFrame1 { ura, ..self }),
    {
        let mut r = self;
        r.ura = ura;
        r
    }

    /// Copy of `self` with the raw clock bias replaced.
    pub fn with_af0(self, af0: i32) -> (r: GpsQzssFrame1)
        ensures
            r == (GpsQzssFrame1 { af0, ..self }),
    {
        let mut r = self;
        r.af0 = af0;
        r
    }

    /// Copy of `self` with the raw clock drift replaced.
    pub fn with_af1(self, af1: i16) -> (r: GpsQzssFrame1)
        ensures
            r == (GpsQzssFrame1 { af1, ..self }),
    {
        let mut r = self;
        r.af1 = af1;
        r
    }

    /// Copy of `self` with the raw clock drift rate replaced.
    pub fn with_af2(self, af2: i8) -> (r: GpsQzssFrame1)
        ensures
            r == (GpsQzssFrame1 { af2, ..self }),
    {
        let mut r = self;
        r.af2 = af2;
        r
    }
}

impl GpsQzssFrame1 {
    /// The all-zero frame: every field at its raw zero value.
    pub open spec fn spec_default() -> GpsQzssFrame1 {
        GpsQzssFrame1 {
            week: 0u16,
            ca_or_p_l2: 0u8,
            ura: 0u8,
            health: 0u8,
            iodc: 0u16,
            toc: 0u32,
            tgd: 0i8,
            af2: 0i8,
            af1: 0i16,
            af0: 0i32,
            reserved_word4: 0u32,
            l2_p_data_flag: false,
            reserved_word5: 0u32,
            reserved_word6: 0u32,
            reserved_word7: 0u16,
        }
    }
}

impl Default for GpsQzssFrame1 {
    /// The all-zero frame: every field at its raw zero value.
    fn default() -> (r: GpsQzssFrame1)
        ensures
            r == GpsQzssFrame1::spec_default(),
    {
        GpsQzssFrame1 {
            week: 0,
            ca_or_p_l2: 0,
            ura: 0,
            health: 0,
            iodc: 0,
            toc: 0,
            tgd: 0,
            af2: 0,
            af1: 0,
            af0: 0,
            reserved_word4: 0,
            l2_p_data_flag: false,
            reserved_word5: 0,
            reserved_word6: 0,
            reserved_word7: 0,
        }
    }
}

} // verus!
