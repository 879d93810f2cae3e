use vstd::prelude::*;

use crate::lemma_shr_and_bound;

verus! {

/// Handover word (word 2), the second word of every subframe: the
/// truncated time-of-week count, two flags and the subframe identifier.
#[derive(Clone, Copy, Debug, PartialEq, Eq, Structural)]
pub struct GpsQzssHow {
    /// 17-bit truncated time-of-week count, exactly as broadcast.
    pub tow: u32,
    /// Alert flag.
    pub alert: bool,
    /// Anti-spoofing flag.
    pub anti_spoof: bool,
    /// 3-bit subframe identifier; subframes 1 through 3 are modeled here.
    pub subframe_id: u8,
}

impl GpsQzssHow {
    /// Field layout of the handover word as a pure function of the raw
    /// word.
    pub open spec fn spec_decode(dword: u32) -> GpsQzssHow {
        GpsQzssHow {
            tow: (dword >> 13) & 0x1ffff,
            alert: (dword >> 12) & 1 == 1,
            anti_spoof: (dword >> 11) & 1 == 1,
            subframe_id: ((dword >> 8) & 0x7) as u8,
        }
    }

    /// Places the raw fields back at their bit positions; the two solved
    /// trailing bits and the parity region stay clear.
    pub open spec fn spec_encode(w: GpsQzssHow) -> u32 {
        (w.tow << 13) | ((if w.alert {
            1u32
        } else {
            0u32
        }) << 12) | ((if w.anti_spoof {
            1u32
        } else {
            0u32
        }) << 11) | ((w.subframe_id as u32) << 8)
    }

    /// Decodes one raw handover word; total on any word.  Validation of
    /// the subframe id is a separate step.
    pub fn decode(dword: u32) -> (r: GpsQzssHow)
        ensures
            r == GpsQzssHow::spec_decode(dword),
            r.tow < 0x20000,
            r.subframe_id < 8,
    {
        proof {
            lemma_shr_and_bound(dword, 13, 0x1ffff);
            lemma_shr_and_bound(dword, 8, 0x7);
        }
        GpsQzssHow {
            tow: (dword >> 13) & 0x1ffff,
            alert: (dword >> 12) & 1 == 1,
            anti_spoof: (dword >> 11) & 1 == 1,
            subframe_id: ((dword >> 8) & 0x7) as u8,
        }
    }
}

/// Re-encoding the decoded fields of the handover word reproduces the
/// word's data region above the two solved trailing bits, which carry no
/// field.
pub proof fn lemma_how_round_trip(dword: u32)
    ensures
        GpsQzssHow::spec_encode(GpsQzssHow::spec_decode(dword)) == dword & 0x3fffff00,
{
    lemma_shr_and_bound(dword, 13, 0x1ffff);
    lemma_shr_and_bound(dword, 8, 0x7);
    assert((((dword >> 13) & 0x1ffff) << 13) | (((dword >> 12) & 1) << 12) | (((dword >> 11) & 1)
        << 11) | (((dword >> 8) & 0x7) << 8) == dword & 0x3fffff00) by (bit_vector);
    assert(((dword >> 12) & 1 == 1 || (dword >> 12) & 1 == 0) && ((dword >> 11) & 1 == 1 || (dword
        >> 11) & 1 == 0)) by (bit_vector);
}

} // verus!
