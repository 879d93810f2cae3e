use vstd::prelude::*;
use vstd::arithmetic::power2::lemma2_to64;
use vstd::arithmetic::power2::lemma_pow2_strictly_increases;
use vstd::arithmetic::power2::lemma_pow2_unfold;
use vstd::arithmetic::power2::pow2;

use crate::errors::GpsError;

verus! {

/// Value (0 or 1) of bit `i` of the buffer, counting bits MSB-first from
/// the first byte: bit 0 is the top bit of byte 0.
pub open spec fn bit_at(s: Seq<u8>, i: int) -> u32 {
    ((s[i / 8] as u32) >> ((7 - i % 8) as u32)) & 1
}

/// Unsigned value of the `width` bits starting at bit `off`, MSB-first:
/// the first bit of the range becomes the most significant bit of the
/// result, which is right-aligned.
pub open spec fn bits_val(s: Seq<u8>, off: int, width: nat) -> nat
    decreases width,
{
    if width == 0 {
        0
    } else {
        bits_val(s, off, (width - 1) as nat) * 2 + bit_at(s, off + width - 1) as nat
    }
}

/// A single bit denotes 0 or 1.
pub proof fn lemma_bit_at_le_one(s: Seq<u8>, i: int)
    ensures
        bit_at(s, i) <= 1,
{
    let x = s[i / 8] as u32;
    let sh = (7 - i % 8) as u32;
    assert((x >> sh) & 1 <= 1) by (bit_vector);
}

/// A `width`-bit range denotes a value below `pow2(width)`.
pub proof fn lemma_bits_val_bound(s: Seq<u8>, off: int, width: nat)
    ensures
        bits_val(s, off, width) < pow2(width),
    decreases width,
{
    lemma2_to64();
    if width > 0 {
        lemma_bits_val_bound(s, off, (width - 1) as nat);
        lemma_pow2_unfold(width);
        lemma_bit_at_le_one(s, off + width - 1);
    }
}

/// Reads the `bit_width` bits starting at `bit_offset` out of an in-bounds
/// region of `buffer`, MSB-first, returning them right-aligned.
pub fn extract_bits(buffer: &[u8], bit_offset: usize, bit_width: usize) -> (r: u32)
    requires
        1 <= bit_width <= 32,
        bit_offset + bit_width <= 8 * buffer@.len(),
    ensures
        r == bits_val(buffer@, bit_offset as int, bit_width as nat),
{
    let ghost s = buffer@;
    let mut acc: u32 = 0;
    let mut byte_i: usize = bit_offset / 8;
    let mut bit_i: usize = bit_offset % 8;
    let mut j: usize = 0;
    proof {
        lemma2_to64();
    }
    while j < bit_width
        invariant
            j <= bit_width,
            1 <= bit_width <= 32,
            bit_offset + bit_width <= 8 * s.len(),
            s == buffer@,
            bit_i < 8,
            8 * byte_i + bit_i == bit_offset + j,
            acc == bits_val(s, bit_offset as int, j as nat),
            acc < pow2(j as nat),
        decreases bit_width - j,
    {
        proof {
            lemma2_to64();
            if j < 31 {
                lemma_pow2_strictly_increases(j as nat, 31);
            }
        }
        let b: u8 = buffer[byte_i];
        let sh: u32 = (7 - bit_i) as u32;
        let bit: u32 = ((b as u32) >> sh) & 1;
        proof {
            assert((bit_offset + j) as int / 8 == byte_i as int && (bit_offset + j) as int % 8
                == bit_i as int) by (nonlinear_arith)
                requires
                    8 * (byte_i as int) + bit_i as int == bit_offset as int + j as int,
                    bit_i < 8,
            ;
            assert(bit == bit_at(s, bit_offset + j));
            lemma_bit_at_le_one(s, bit_offset + j);
            lemma_pow2_unfold((j + 1) as nat);
        }
        acc = acc * 2 + bit;
        j = j + 1;
        bit_i = bit_i + 1;
        if bit_i == 8 {
            bit_i = 0;
            byte_i = byte_i + 1;
        }
    }
    acc
}

/// Reads an arbitrary contiguous bit range out of `buffer`.
///
/// Bits are addressed MSB-first from the start of the buffer and the result
/// is right-aligned.  `bit_width` must lie in `1..=32`, and the range must
/// lie inside the buffer; otherwise the call is refused with
/// [`GpsError::OutOfRange`] and nothing is read.
pub fn extract(buffer: &[u8], bit_offset: usize, bit_width: usize) -> (r: Result<u32, GpsError>)
    ensures
        (1 <= bit_width <= 32 && bit_offset + bit_width <= 8 * buffer@.len()) ==> r == Ok::<
            u32,
            GpsError,
        >(bits_val(buffer@, bit_offset as int, bit_width as nat) as u32),
        !(1 <= bit_width <= 32 && bit_offset + bit_width <= 8 * buffer@.len()) ==> r == Err::<
            u32,
            GpsError,
        >(GpsError::OutOfRange),
{
    if bit_width < 1 || bit_width > 32 {
        return Err(GpsError::OutOfRange);
    }
    if (bit_offset as u128) + (bit_width as u128) > 8u128 * (buffer.len() as u128) {
        return Err(GpsError::OutOfRange);
    }
    proof {
        lemma_bits_val_bound(buffer@, bit_offset as int, bit_width as nat);
        lemma2_to64();
        if bit_width < 32 {
            lemma_pow2_strictly_increases(bit_width as nat, 32);
        }
    }
    Ok(extract_bits(buffer, bit_offset, bit_width))
}

} // verus!
