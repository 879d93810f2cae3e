use vstd::prelude::*;

use crate::errors::GpsError;

verus! {

/// The subframe variants this crate models, selected by the 3-bit subframe
/// identifier of the handover word.
///
/// Subframes 4 and 5 (almanac and system data) are recognized structurally
/// but not modeled: their identifiers, like every other out-of-range value,
/// surface as [`GpsError::UnsupportedSubframeId`].
#[derive(Clone, Copy, Debug, PartialEq, Eq, Structural)]
pub enum GpsQzssFrameId {
    /// Subframe 1: clock parameters.
    Ephemeris1,
    /// Subframe 2: first half of the ephemeris.
    Ephemeris2,
    /// Subframe 3: second half of the ephemeris.
    Ephemeris3,
}

impl GpsQzssFrameId {
    /// The variant named by a raw subframe identifier, if any.
    pub open spec fn spec_from_id(id: u8) -> Option<GpsQzssFrameId> {
        if id == 1 {
            Some(GpsQzssFrameId::Ephemeris1)
        } else if id == 2 {
            Some(GpsQzssFrameId::Ephemeris2)
        } else if id == 3 {
            Some(GpsQzssFrameId::Ephemeris3)
        } else {
            None
        }
    }

    /// Maps a raw subframe identifier onto the supported variant set.
    /// Exactly the identifiers 1, 2 and 3 succeed; everything else is
    /// reported as [`GpsError::UnsupportedSubframeId`].
    pub fn from_id(id: u8) -> (r: Result<GpsQzssFrameId, GpsError>)
        ensures
            id == 1 <==> r == Ok::<GpsQzssFrameId, GpsError>(GpsQzssFrameId::Ephemeris1),
            id == 2 <==> r == Ok::<GpsQzssFrameId, GpsError>(GpsQzssFrameId::Ephemeris2),
            id == 3 <==> r == Ok::<GpsQzssFrameId, GpsError>(GpsQzssFrameId::Ephemeris3),
            !(1 <= id <= 3) <==> r == Err::<GpsQzssFrameId, GpsError>(
                GpsError::UnsupportedSubframeId,
            ),
    {
        if id == 1 {
            Ok(GpsQzssFrameId::Ephemeris1)
        } else if id == 2 {
            Ok(GpsQzssFrameId::Ephemeris2)
        } else if id == 3 {
            Ok(GpsQzssFrameId::Ephemeris3)
        } else {
            Err(GpsError::UnsupportedSubframeId)
        }
    }

    /// The raw subframe identifier that names this variant.
    pub fn id(self) -> (r: u8)
        ensures
            GpsQzssFrameId::spec_from_id(r) == Some(self),
    {
        match self {
            GpsQzssFrameId::Ephemeris1 => 1,
            GpsQzssFrameId::Ephemeris2 => 2,
            GpsQzssFrameId::Ephemeris3 => 3,
        }
    }
}

} // verus!
