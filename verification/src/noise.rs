//! Noise channel pseudo-random source: a 15-bit linear-feedback shift
//! register with a long (tap 1) and a short (tap 6) feedback mode, plus the
//! NTSC period table.

use vstd::prelude::*;

verus! {

/// Timer period for a 4-bit noise period index.
pub open spec fn spec_noise_period_tbl(i: u8) -> u16 {
    match i {
        0u8 => 0x0002u16,
        1u8 => 0x0004u16,
        2u8 => 0x0008u16,
        3u8 => 0x0010u16,
        4u8 => 0x0020u16,
        5u8 => 0x0030u16,
        6u8 => 0x0040u16,
        7u8 => 0x0050u16,
        8u8 => 0x0065u16,
        9u8 => 0x007Fu16,
        10u8 => 0x00BEu16,
        11u8 => 0x00FEu16,
        12u8 => 0x017Du16,
        13u8 => 0x01FCu16,
        14u8 => 0x03F9u16,
        _ => 0x07F2u16,
    }
}

/// Looks up the NTSC noise timer period for a 4-bit index.
pub fn noise_period_tbl(i: u8) -> (r: u16)
    requires
        i < 16,
    ensures
        r == spec_noise_period_tbl(i),
{
    match i {
        0u8 => 0x0002u16,
        1u8 => 0x0004u16,
        2u8 => 0x0008u16,
        3u8 => 0x0010u16,
        4u8 => 0x0020u16,
        5u8 => 0x0030u16,
        6u8 => 0x0040u16,
        7u8 => 0x0050u16,
        8u8 => 0x0065u16,
        9u8 => 0x007Fu16,
        10u8 => 0x00BEu16,
        11u8 => 0x00FEu16,
        12u8 => 0x017Du16,
        13u8 => 0x01FCu16,
        14u8 => 0x03F9u16,
        _ => 0x07F2u16,
    }
}

/// 15-bit linear-feedback shift register, seeded with 1.
#[derive(Clone, Copy, Debug, PartialEq)]
pub struct NoiseRandom {
    pub bit: u8,
    pub value: u16,
}

/// One shift: feedback is bit 0 xor the tap bit; the register shifts right
/// and the feedback enters at bit 14.
pub open spec fn noise_next_spec(n: NoiseRandom) -> NoiseRandom {
    let b = (n.value & 0x01) ^ ((n.value >> (n.bit as u16)) & 0x01);
    NoiseRandom { bit: n.bit, value: (n.value >> 1u16) & 0x3FFF | (b << 14u16) }
}

impl NoiseRandom {
    /// Long mode: feedback taps bit 1; period 32767.
    pub fn long() -> (r: Self)
        ensures
            r == (NoiseRandom { bit: 1u8, value: 1u16 }),
    {
        NoiseRandom { bit: 1, value: 1 }
    }

    /// Short mode: feedback taps bit 6; period 93.
    pub fn short() -> (r: Self)
        ensures
            r == (NoiseRandom { bit: 6u8, value: 1u16 }),
    {
        NoiseRandom { bit: 6, value: 1 }
    }

    /// Shifts once and reports bit 0 of the new register value.
    pub fn next(&mut self) -> (r: bool)
        requires
            old(self).bit < 16,
        ensures
            *final(self) == noise_next_spec(*old(self)),
            r == (final(self).value & 0x01 != 0),
    {
        let b: u16 = (self.value & 0x01) ^ ((self.value >> (self.bit as u16)) & 0x01);
        self.value = self.value >> 1u16;
        self.value = self.value & 0x3FFF | (b << 14u16);
        self.value & 0x01 != 0
    }
}

} // verus!
