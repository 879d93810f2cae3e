use vstd::prelude::*;

use crate::lemma_shr_and_bound;

verus! {

/// One division step of the parity generator polynomial over the 30-bit
/// register window: when the top data bit is set, the generator is
/// subtracted before the window shifts on.
pub open spec fn parity_step(reg: u32) -> u32 {
    if reg & 0x20000000 != 0 {
        (reg ^ 0x30800000) << 1
    } else {
        reg << 1
    }
}

/// The register after `n` division steps.
pub open spec fn parity_iter(reg: u32, n: nat) -> u32
    decreases n,
{
    if n == 0 {
        reg
    } else {
        parity_step(parity_iter(reg, (n - 1) as nat))
    }
}

/// 6-bit parity of a 24-bit data value: the remainder left in the register
/// window after all 24 data bits have been consumed.
pub open spec fn spec_parity(data: u32) -> u8 {
    ((parity_iter((data & 0xffffff) << 6, 24) >> 24) & 0x3f) as u8
}

/// Whether a 30-bit word carries, in its low six bits, the parity of its
/// 24-bit data region.
pub open spec fn spec_parity_ok(word: u32) -> bool {
    (spec_parity((word >> 6) & 0xffffff) as u32) == (word & 0x3f)
}

/// Encodes the 24-bit data value (right-aligned) into its 6-bit parity
/// (right-aligned): polynomial division by the parity generator.
pub fn parity_encoding(value: u32) -> (r: u8)
    ensures
        r == spec_parity(value),
{
    let mut reg: u32 = (value & 0xffffff) << 6;
    let mut i: usize = 0;
    while i < 24
        invariant
            i <= 24,
            reg == parity_iter((value & 0xffffff) << 6, i as nat),
        decreases 24 - i,
    {
        if reg & 0x20000000 != 0 {
            reg = (reg ^ 0x30800000) << 1;
        } else {
            reg = reg << 1;
        }
        i = i + 1;
    }
    proof {
        lemma_shr_and_bound(reg, 24, 0x3f);
    }
    ((reg >> 24) & 0x3f) as u8
}

/// Verifies that a 30-bit word's low six bits hold the parity of its
/// 24-bit data region.
pub fn check_parity(word: u32) -> (r: bool)
    ensures
        r == spec_parity_ok(word),
{
    let parity = parity_encoding((word >> 6) & 0xffffff);
    (parity as u32) == (word & 0x3f)
}

} // verus!
