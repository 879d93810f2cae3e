use vstd::prelude::*;

use crate::lemma_shr_and_bound;

verus! {

/// Telemetry word (word 1), the first word of every subframe: the sync
/// preamble, the telemetry message and two flag bits.
#[derive(Clone, Copy, Debug, PartialEq, Eq, Structural)]
pub struct GpsQzssTelemetry {
    /// 8-bit sync pattern; a frame boundary carries
    /// [`crate::GPS_PREAMBLE`] here.
    pub preamble: u8,
    /// 14-bit telemetry message, preserved verbatim.
    pub message: u16,
    /// Integrity status flag.
    pub integrity: bool,
    /// Reserved bit, preserved verbatim.
    pub reserved: bool,
}

impl GpsQzssTelemetry {
    /// Field layout of the telemetry word as a pure function of the raw
    /// word.
    pub open spec fn spec_decode(dword: u32) -> GpsQzssTelemetry {
        GpsQzssTelemetry {
            preamble: ((dword >> 22) & 0xff) as u8,
            message: ((dword >> 8) & 0x3fff) as u16,
            integrity: (dword >> 7) & 1 == 1,
            reserved: (dword >> 6) & 1 == 1,
        }
    }

    /// Places the raw fields back at their bit positions.
    pub open spec fn spec_encode(w: GpsQzssTelemetry) -> u32 {
        ((w.preamble as u32) << 22) | ((w.message as u32) << 8) | ((if w.integrity {
            1u32
        } else {
            0u32
        }) << 7) | ((if w.reserved {
            1u32
        } else {
            0u32
        }) << 6)
    }

    /// Decodes one raw telemetry word; total on any word.  A preamble
    /// mismatch is not an error here: scanning callers treat it as "no
    /// frame boundary at this offset".
    pub fn decode(dword: u32) -> (r: GpsQzssTelemetry)
        ensures
            r == GpsQzssTelemetry::spec_decode(dword),
            r.message < 0x4000,
    {
        proof {
            lemma_shr_and_bound(dword, 22, 0xff);
            lemma_shr_and_bound(dword, 8, 0x3fff);
        }
        GpsQzssTelemetry {
            preamble: ((dword >> 22) & 0xff) as u8,
            message: ((dword >> 8) & 0x3fff) as u16,
            integrity: (dword >> 7) & 1 == 1,
            reserved: (dword >> 6) & 1 == 1,
        }
    }
}

/// Re-encoding the decoded fields of the telemetry word reproduces the
/// word's data region exactly.
pub proof fn lemma_telemetry_round_trip(dword: u32)
    ensures
        GpsQzssTelemetry::spec_encode(GpsQzssTelemetry::spec_decode(dword)) == dword & 0x3fffffc0,
{
    lemma_shr_and_bound(dword, 22, 0xff);
    lemma_shr_and_bound(dword, 8, 0x3fff);
    assert((((dword >> 22) & 0xff) << 22) | (((dword >> 8) & 0x3fff) << 8) | (((dword >> 7) & 1)
        << 7) | (((dword >> 6) & 1) << 6) == dword & 0x3fffffc0) by (bit_vector);
    assert(((dword >> 7) & 1 == 1 || (dword >> 7) & 1 == 0) && ((dword >> 6) & 1 == 1 || (dword
        >> 6) & 1 == 0)) by (bit_vector);
}

} // verus!
