use vstd::prelude::*;
use vstd::arithmetic::power2::lemma2_to64;

use crate::GPS_MIN_SIZE;
use crate::GPS_PREAMBLE;
use crate::GpsQzssFrame;
use crate::GpsQzssSubframe;
use crate::bits::bits_val;
use crate::bits::extract_bits;
use crate::bits::lemma_bits_val_bound;
use crate::errors::GpsError;
use crate::frame1::GpsQzssFrame1;
use crate::frame2::GpsQzssFrame2;
use crate::frame3::GpsQzssFrame3;
use crate::frame_id::GpsQzssFrameId;
use crate::how::GpsQzssHow;
use crate::parity::check_parity;
use crate::parity::spec_parity_ok;
use crate::tlm::GpsQzssTelemetry;

verus! {

/// Whether a whole frame is addressable at bit `off`: [`GPS_MIN_SIZE`]
/// bits lie inside the buffer, at offsets a `usize` can express.
pub open spec fn has_frame_bits(s: Seq<u8>, off: nat) -> bool {
    off + GPS_MIN_SIZE <= 8 * s.len() && off + GPS_MIN_SIZE <= usize::MAX
}

/// The `k`-th 30-bit word of the frame starting at bit `off`.
pub open spec fn word_at(s: Seq<u8>, off: int, k: int) -> u32 {
    bits_val(s, off + 30 * k, 30) as u32
}

/// Telemetry decoded from the frame's first word.
pub open spec fn spec_telemetry_at(s: Seq<u8>, off: int) -> GpsQzssTelemetry {
    GpsQzssTelemetry::spec_decode(word_at(s, off, 0))
}

/// Handover word decoded from the frame's second word.
pub open spec fn spec_how_at(s: Seq<u8>, off: int) -> GpsQzssHow {
    GpsQzssHow::spec_decode(word_at(s, off, 1))
}

/// Whether the telemetry word at `off` opens with [`GPS_PREAMBLE`].
pub open spec fn spec_preamble_ok(s: Seq<u8>, off: int) -> bool {
    spec_telemetry_at(s, off).preamble == GPS_PREAMBLE
}

/// Whether all ten words of the frame at `off` pass the structural parity
/// check.
pub open spec fn spec_parity_all_ok(s: Seq<u8>, off: int) -> bool {
    forall|k: int| 0 <= k < 10 ==> spec_parity_ok(#[trigger] word_at(s, off, k))
}

/// The subframe body assembled from words 3 through 10, selected by the
/// handover word's subframe id (which must be 1, 2 or 3).
pub open spec fn spec_subframe_at(s: Seq<u8>, off: int) -> GpsQzssSubframe {
    let id = spec_how_at(s, off).subframe_id;
    if id == 1 {
        GpsQzssSubframe::Ephemeris1(
            GpsQzssFrame1::spec_from_words(
                word_at(s, off, 2),
                word_at(s, off, 3),
                word_at(s, off, 4),
                word_at(s, off, 5),
                word_at(s, off, 6),
                word_at(s, off, 7),
                word_at(s, off, 8),
                word_at(s, off, 9),
            ),
        )
    } else if id == 2 {
        GpsQzssSubframe::Ephemeris2(
            GpsQzssFrame2::spec_from_words(
                word_at(s, off, 2),
                word_at(s, off, 3),
                word_at(s, off, 4),
                word_at(s, off, 5),
                word_at(s, off, 6),
                word_at(s, off, 7),
                word_at(s, off, 8),
                word_at(s, off, 9),
            ),
        )
    } else {
        GpsQzssSubframe::Ephemeris3(
            GpsQzssFrame3::spec_from_words(
                word_at(s, off, 2),
                word_at(s, off, 3),
                word_at(s, off, 4),
                word_at(s, off, 5),
                word_at(s, off, 6),
                word_at(s, off, 7),
                word_at(s, off, 8),
                word_at(s, off, 9),
            ),
        )
    }
}

/// The complete frame assembled at `off`.
pub open spec fn spec_frame_at(s: Seq<u8>, off: int) -> GpsQzssFrame {
    GpsQzssFrame {
        how: spec_how_at(s, off),
        telemetry: spec_telemetry_at(s, off),
        subframe: spec_subframe_at(s, off),
    }
}

/// Complete result of decoding one subframe at `off`: the buffer-length,
/// preamble and subframe-id validations in order, the optional parity
/// validation, then the assembled frame together with the bit offset
/// immediately after it.
pub open spec fn spec_decode(s: Seq<u8>, off: nat, parity_check: bool) -> Result<
    (GpsQzssFrame, usize),
    GpsError,
> {
    if !has_frame_bits(s, off) {
        Err(GpsError::InsufficientBuffer)
    } else if !spec_preamble_ok(s, off as int) {
        Err(GpsError::PreambleMismatch)
    } else if !(1 <= spec_how_at(s, off as int).subframe_id <= 3) {
        Err(GpsError::UnsupportedSubframeId)
    } else if parity_check && !spec_parity_all_ok(s, off as int) {
        Err(GpsError::ParityFailure)
    } else {
        Ok((spec_frame_at(s, off as int), (off + GPS_MIN_SIZE) as usize))
    }
}

/// A buffer with fewer than [`GPS_MIN_SIZE`] bits past the offset is always
/// refused as [`GpsError::InsufficientBuffer`], never decoded partially,
/// whatever its bytes hold and whether or not parity is checked.
pub proof fn lemma_short_buffer_insufficient(s: Seq<u8>, off: nat, parity_check: bool)
    requires
        8 * s.len() < off + GPS_MIN_SIZE,
    ensures
        spec_decode(s, off, parity_check) == Err::<(GpsQzssFrame, usize), GpsError>(
            GpsError::InsufficientBuffer,
        ),
{
}

/// Decodes exactly one subframe starting at `bit_offset`, returning the
/// composed frame together with the bit offset immediately following it,
/// so that a caller can advance through a longer buffer.
///
/// The buffer is only borrowed and never mutated; the call is a pure
/// function of its arguments.  With `parity_check` set, every word of the
/// frame must carry valid structural parity.
pub fn decode_frame(buffer: &[u8], bit_offset: usize, parity_check: bool) -> (r: Result<
    (GpsQzssFrame, usize),
    GpsError,
>)
    ensures
        r == spec_decode(buffer@, bit_offset as nat, parity_check),
{
    let ghost s = buffer@;
    let ghost off = bit_offset as int;
    if bit_offset > usize::MAX - GPS_MIN_SIZE || (bit_offset as u128) + (GPS_MIN_SIZE as u128)
        > 8u128 * (buffer.len() as u128) {
        return Err(GpsError::InsufficientBuffer);
    }
    let mut words: Vec<u32> = Vec::new();
    let mut k: usize = 0;
    while k < 10
        invariant
            k <= 10,
            words@.len() == k as int,
            s == buffer@,
            off == bit_offset as int,
            bit_offset + GPS_MIN_SIZE <= 8 * s.len(),
            bit_offset + GPS_MIN_SIZE <= usize::MAX,
            forall|j: int| 0 <= j < k ==> words@[j] == word_at(s, off, j),
        decreases 10 - k,
    {
        let w = extract_bits(buffer, bit_offset + 30 * k, 30);
        proof {
            lemma_bits_val_bound(s, off + 30 * (k as int), 30);
            lemma2_to64();
        }
        words.push(w);
        k = k + 1;
    }
    let telemetry = GpsQzssTelemetry::decode(words[0]);
    if telemetry.preamble != GPS_PREAMBLE {
        return Err(GpsError::PreambleMismatch);
    }
    let how = GpsQzssHow::decode(words[1]);
    let frame_id = match GpsQzssFrameId::from_id(how.subframe_id) {
        Ok(id) => id,
        Err(e) => {
            return Err(e);
        },
    };
    if parity_check {
        let mut j: usize = 0;
        while j < 10
            invariant
                j <= 10,
                words@.len() == 10,
                s == buffer@,
                off == bit_offset as int,
                parity_check,
                has_frame_bits(s, bit_offset as nat),
                spec_preamble_ok(s, off),
                1 <= spec_how_at(s, off).subframe_id <= 3,
                forall|i: int| 0 <= i < 10 ==> words@[i] == word_at(s, off, i),
                forall|i: int| 0 <= i < j ==> spec_parity_ok(#[trigger] word_at(s, off, i)),
            decreases 10 - j,
        {
            if !check_parity(words[j]) {
                proof {
                    assert(!spec_parity_ok(word_at(s, off, j as int)));
                }
                return Err(GpsError::ParityFailure);
            }
            j = j + 1;
        }
    }
    let subframe = match frame_id {
        GpsQzssFrameId::Ephemeris1 => GpsQzssSubframe::Ephemeris1(
            GpsQzssFrame1::from_words(
                words[2],
                words[3],
                words[4],
                words[5],
                words[6],
                words[7],
                words[8],
                words[9],
            ),
        ),
        GpsQzssFrameId::Ephemeris2 => GpsQzssSubframe::Ephemeris2(
            GpsQzssFrame2::from_words(
                words[2],
                words[3],
                words[4],
                words[5],
                words[6],
                words[7],
                words[8],
                words[9],
            ),
        ),
        GpsQzssFrameId::Ephemeris3 => GpsQzssSubframe::Ephemeris3(
            GpsQzssFrame3::from_words(
                words[2],
                words[3],
                words[4],
                words[5],
                words[6],
                words[7],
                words[8],
                words[9],
            ),
        ),
    };
    Ok((GpsQzssFrame { how, telemetry, subframe }, bit_offset + GPS_MIN_SIZE))
}

/// Decoder cursor across calls: scanning for a frame boundary, or
/// consuming consecutive subframes from a known-good position.
#[derive(Clone, Copy, Debug, PartialEq, Eq, Structural)]
pub enum GpsDecoderState {
    /// Scanning for a valid preamble-aligned frame start.
    Seeking,
    /// Consuming consecutive subframes from a known-good cursor.
    Synchronized,
}

/// GPS / QZSS navigation-message decoder.
///
/// Each call borrows the caller's buffer for one decode and keeps no
/// reference to it; the only state carried across calls is the
/// [`GpsDecoderState`] cursor and the parity-checking switch.
#[derive(Clone, Copy, Debug, PartialEq, Eq, Structural)]
pub struct GpsQzssDecoder {
    /// Whether each word's structural parity is verified before assembly.
    /// Enabled on a fresh decoder: silently accepting corrupted navigation
    /// data defeats the decoder's purpose.
    pub parity_check: bool,
    /// Synchronization cursor, owned by this decoder value alone.
    pub state: GpsDecoderState,
}

impl GpsQzssDecoder {
    /// A decoder in the seeking state with parity checking enabled.
    pub fn new() -> (r: GpsQzssDecoder)
        ensures
            r == (GpsQzssDecoder { parity_check: true, state: GpsDecoderState::Seeking }),
    {
        GpsQzssDecoder { parity_check: true, state: GpsDecoderState::Seeking }
    }

    /// Copy of `self` with parity checking switched on or off.
    pub fn with_parity_check(self, parity_check: bool) -> (r: GpsQzssDecoder)
        ensures
            r == (GpsQzssDecoder { parity_check, ..self }),
    {
        let mut r = self;
        r.parity_check = parity_check;
        r
    }

    /// Drops synchronization: the next decode scans afresh.
    pub fn reset(&mut self)
        ensures
            *final(self) == (GpsQzssDecoder { state: GpsDecoderState::Seeking, ..*old(self) }),
    {
        self.state = GpsDecoderState::Seeking;
    }

    /// Decodes one subframe from `buffer` at `bit_offset` and tracks lock:
    /// a successful decode synchronizes the cursor, a framing failure
    /// (preamble, subframe id or parity) drops it back to seeking, and a
    /// short buffer leaves it unchanged.
    pub fn decode(&mut self, buffer: &[u8], bit_offset: usize) -> (r: Result<
        (GpsQzssFrame, usize),
        GpsError,
    >)
        ensures
            r == spec_decode(buffer@, bit_offset as nat, old(self).parity_check),
            final(self).parity_check == old(self).parity_check,
            r is Ok ==> final(self).state == GpsDecoderState::Synchronized,
            (r matches Err(e) && e != GpsError::InsufficientBuffer) ==> final(self).state
                == GpsDecoderState::Seeking,
            (r matches Err(e) && e == GpsError::InsufficientBuffer) ==> final(self).state
                == old(self).state,
    {
        let r = decode_frame(buffer, bit_offset, self.parity_check);
        match r {
            Ok(_) => {
                self.state = GpsDecoderState::Synchronized;
            },
            Err(GpsError::InsufficientBuffer) => {
            },
            Err(_) => {
                self.state = GpsDecoderState::Seeking;
            },
        }
        r
    }
}

impl Default for GpsQzssDecoder {
    /// A decoder in the seeking state with parity checking enabled.
    fn default() -> (r: GpsQzssDecoder)
        ensures
            r == (GpsQzssDecoder { parity_check: true, state: GpsDecoderState::Seeking }),
    {
        GpsQzssDecoder { parity_check: true, state: GpsDecoderState::Seeking }
    }
}

} // verus!
