//! Per-channel APU register files: bit-exact decode of host writes at
//! $4000-$400F into named fields.

use vstd::prelude::*;

verus! {

/// Field bounds that follow from the masks of the register decode.
pub proof fn lemma_reg_field_bounds()
    by (bit_vector)
    ensures
        forall|v: u8| #[trigger] (v & 0x0F) <= 15,
        forall|v: u8| #[trigger] (v & 0x7F) <= 127,
        forall|v: u8| #[trigger] ((v & 0xC0) >> 6u8) <= 3,
        forall|v: u8| #[trigger] ((v & 0x70) >> 4u8) <= 7,
        forall|v: u8| #[trigger] ((v & 0x08) >> 3u8) <= 1,
        forall|v: u8| #[trigger] (v & 0x07) <= 7,
        forall|v: u8| #[trigger] ((v & 0xF8) >> 3u8) <= 31,
        forall|f: u16, v: u8| #[trigger] ((f & 0x0700) | (v as u16)) <= 0x7FF,
        forall|f: u16, v: u8| #[trigger] ((f & 0x00FF) | (((v as u16) & 0x07) << 8u16)) <= 0x7FF,
{
}

/// Register layout shared by the two square channels.
#[derive(Clone, Copy, Debug, PartialEq)]
pub struct SquareRegister {
    pub volume: u8,
    pub envelope_flag: bool,
    pub key_off_counter_flag: bool,
    pub duty: u8,
    pub sweep_change_amount: u8,
    pub sweep_direction: u8,
    pub sweep_timer_count: u8,
    pub sweep_enabled: bool,
    pub frequency: u16,
    pub key_off_count: u8,
}

/// Square register file with all fields cleared.
pub open spec fn square_reg_zero() -> SquareRegister {
    SquareRegister {
        volume: 0u8,
        envelope_flag: false,
        key_off_counter_flag: false,
        duty: 0u8,
        sweep_change_amount: 0u8,
        sweep_direction: 0u8,
        sweep_timer_count: 0u8,
        sweep_enabled: false,
        frequency: 0u16,
        key_off_count: 0u8,
    }
}

/// Well-formed square register file: every field fits its bit width.
pub open spec fn square_wf(r: SquareRegister) -> bool {
    &&& r.volume <= 15
    &&& r.duty <= 3
    &&& r.sweep_change_amount <= 7
    &&& r.sweep_direction <= 1
    &&& r.sweep_timer_count <= 7
    &&& r.frequency <= 0x7FF
    &&& r.key_off_count <= 31
}

/// Decode of one write to a square channel, with `base` the channel's
/// first register address (the write goes to `base ..= base + 3`).
pub open spec fn square_write_spec(r: SquareRegister, base: u16, addr: u16, v: u8) -> SquareRegister {
    if addr == base {
        SquareRegister {
            volume: v & 0x0F,
            envelope_flag: (v & 0x10) == 0,
            key_off_counter_flag: (v & 0x20) == 0,
            duty: (v & 0xC0) >> 6u8,
            ..r
        }
    } else if addr == base + 1 {
        SquareRegister {
            sweep_change_amount: v & 0x07,
            sweep_direction: (v & 0x08) >> 3u8,
            sweep_timer_count: (v & 0x70) >> 4u8,
            sweep_enabled: (v & 0x80) != 0,
            ..r
        }
    } else if addr == base + 2 {
        SquareRegister { frequency: (r.frequency & 0x0700) | (v as u16), ..r }
    } else {
        SquareRegister {
            frequency: (r.frequency & 0x00FF) | (((v as u16) & 0x07) << 8u16),
            key_off_count: (v & 0xF8) >> 3u8,
            ..r
        }
    }
}

impl SquareRegister {
    /// All fields cleared.
    pub fn new() -> (r: Self)
        ensures
            r == square_reg_zero(),
            square_wf(r),
    {
        SquareRegister {
            volume: 0,
            envelope_flag: false,
            key_off_counter_flag: false,
            duty: 0,
            sweep_change_amount: 0,
            sweep_direction: 0,
            sweep_timer_count: 0,
            sweep_enabled: false,
            frequency: 0,
            key_off_count: 0,
        }
    }

    /// Decodes a write at `base ..= base + 3` into the register fields.
    pub fn write(&mut self, base: u16, addr: u16, value: u8)
        requires
            base <= addr <= base + 3,
            base + 3 <= 0xFFFF,
            square_wf(*old(self)),
        ensures
            *final(self) == square_write_spec(*old(self), base, addr, value),
            square_wf(*final(self)),
    {
        proof {
            lemma_reg_field_bounds();
        }
        if addr == base {
            self.volume = value & 0x0F;
            self.envelope_flag = (value & 0x10) == 0;
            self.key_off_counter_flag = (value & 0x20) == 0;
            self.duty = (value & 0xC0) >> 6u8;
        } else if addr == base + 1 {
            self.sweep_change_amount = value & 0x07;
            self.sweep_direction = (value & 0x08) >> 3u8;
            self.sweep_timer_count = (value & 0x70) >> 4u8;
            self.sweep_enabled = (value & 0x80) != 0;
        } else if addr == base + 2 {
            self.frequency = (self.frequency & 0x0700) | (value as u16);
        } else {
            self.frequency = (self.frequency & 0x00FF) | (((value as u16) & 0x07) << 8u16);
            self.key_off_count = (value & 0xF8) >> 3u8;
        }
    }
}

/// Square channel 1 register file ($4000-$4003).
#[derive(Clone, Copy, Debug, PartialEq)]
pub struct Ch1Register {
    pub reg: SquareRegister,
}

impl Ch1Register {
    /// All fields cleared.
    pub fn new() -> (r: Self)
        ensures
            r.reg == square_reg_zero(),
            square_wf(r.reg),
    {
        Ch1Register { reg: SquareRegister::new() }
    }

    /// Decodes a write at $4000-$4003 into the register fields.
    pub fn write(&mut self, addr: u16, value: u8)
        requires
            0x4000 <= addr <= 0x4003,
            square_wf(old(self).reg),
        ensures
            final(self).reg == square_write_spec(old(self).reg, 0x4000, addr, value),
            square_wf(final(self).reg),
    {
        self.reg.write(0x4000, addr, value);
    }
}

/// Square channel 2 register file ($4004-$4007).
#[derive(Clone, Copy, Debug, PartialEq)]
pub struct Ch2Register {
    pub reg: SquareRegister,
}

impl Ch2Register {
    /// All fields cleared.
    pub fn new() -> (r: Self)
        ensures
            r.reg == square_reg_zero(),
            square_wf(r.reg),
    {
        Ch2Register { reg: SquareRegister::new() }
    }

    /// Decodes a write at $4004-$4007 into the register fields.
    pub fn write(&mut self, addr: u16, value: u8)
        requires
            0x4004 <= addr <= 0x4007,
            square_wf(old(self).reg),
        ensures
            final(self).reg == square_write_spec(old(self).reg, 0x4004, addr, value),
            square_wf(final(self).reg),
    {
        self.reg.write(0x4004, addr, value);
    }
}

/// Triangle channel register file ($4008-$400B).
#[derive(Clone, Copy, Debug, PartialEq)]
pub struct Ch3Register {
    pub length: u8,
    pub key_off_counter_flag: bool,
    pub frequency: u16,
    pub key_off_count: u8,
}

/// Well-formed triangle register file.
pub open spec fn ch3_wf(r: Ch3Register) -> bool {
    &&& r.length <= 127
    &&& r.frequency <= 0x7FF
    &&& r.key_off_count <= 31
}

/// Decode of one write to the triangle channel; $4009 is unused and inert.
pub open spec fn ch3_write_spec(r: Ch3Register, addr: u16, v: u8) -> Ch3Register {
    if addr == 0x4008 {
        Ch3Register { length: v & 0x7F, key_off_counter_flag: (v & 0x80) == 0, ..r }
    } else if addr == 0x4009 {
        r
    } else if addr == 0x400A {
        Ch3Register { frequency: (r.frequency & 0x0700) | (v as u16), ..r }
    } else {
        Ch3Register {
            frequency: (r.frequency & 0x00FF) | (((v as u16) & 0x07) << 8u16),
            key_off_count: (v & 0xF8) >> 3u8,
            ..r
        }
    }
}

impl Ch3Register {
    /// All fields cleared.
    pub fn new() -> (r: Self)
        ensures
            r == (Ch3Register {
                length: 0u8,
                key_off_counter_flag: false,
                frequency: 0u16,
                key_off_count: 0u8,
            }),
            ch3_wf(r),
    {
        Ch3Register { length: 0, key_off_counter_flag: false, frequency: 0, key_off_count: 0 }
    }

    /// Decodes a write at $4008-$400B into the register fields.
    pub fn write(&mut self, addr: u16, value: u8)
        requires
            0x4008 <= addr <= 0x400B,
            ch3_wf(*old(self)),
        ensures
            *final(self) == ch3_write_spec(*old(self), addr, value),
            ch3_wf(*final(self)),
    {
        proof {
            lemma_reg_field_bounds();
        }
        match addr {
            0x4008u16 => {
                self.length = value & 0x7F;
                self.key_off_counter_flag = (value & 0x80) == 0;
            },
            0x4009u16 => {},
            0x400Au16 => {
                self.frequency = (self.frequency & 0x0700) | (value as u16);
            },
            _ => {
                self.frequency = (self.frequency & 0x00FF) | (((value as u16) & 0x07) << 8u16);
                self.key_off_count = (value & 0xF8) >> 3u8;
            },
        }
    }
}

/// Feedback mode of the noise shift register.
#[derive(Clone, Copy, Debug, PartialEq, Eq, Structural)]
pub enum NoiseKind {
    Long,
    Short,
}

/// Noise channel register file ($400C-$400F).
#[derive(Clone, Copy, Debug, PartialEq)]
pub struct Ch4Register {
    pub volume: u8,
    pub envelope_flag: bool,
    pub key_off_counter_flag: bool,
    pub frequency: u8,
    pub kind: NoiseKind,
    pub key_off_count: u8,
}

/// Well-formed noise register file.
pub open spec fn ch4_wf(r: Ch4Register) -> bool {
    &&& r.volume <= 15
    &&& r.frequency <= 15
    &&& r.key_off_count <= 31
}

/// Decode of one write to the noise channel; $400D is unused and inert.
pub open spec fn ch4_write_spec(r: Ch4Register, addr: u16, v: u8) -> Ch4Register {
    if addr == 0x400C {
        Ch4Register {
            volume: v & 0x0F,
            envelope_flag: (v & 0x10) == 0,
            key_off_counter_flag: (v & 0x20) == 0,
            ..r
        }
    } else if addr == 0x400E {
        Ch4Register {
            frequency: v & 0x0F,
            kind: if v & 0x80 == 0 {
                NoiseKind::Long
            } else {
                NoiseKind::Short
            },
            ..r
        }
    } else if addr == 0x400F {
        Ch4Register { key_off_count: (v & 0xF8) >> 3u8, ..r }
    } else {
        r
    }
}

impl Ch4Register {
    /// All fields cleared; long feedback mode.
    pub fn new() -> (r: Self)
        ensures
            r == (Ch4Register {
                volume: 0u8,
                envelope_flag: false,
                key_off_counter_flag: false,
                frequency: 0u8,
                kind: NoiseKind::Long,
                key_off_count: 0u8,
            }),
            ch4_wf(r),
    {
        Ch4Register {
            volume: 0,
            envelope_flag: false,
            key_off_counter_flag: false,
            frequency: 0,
            kind: NoiseKind::Long,
            key_off_count: 0,
        }
    }

    /// Decodes a write at $400C-$400F into the register fields.
    pub fn write(&mut self, addr: u16, value: u8)
        requires
            0x400C <= addr <= 0x400F,
            ch4_wf(*old(self)),
        ensures
            *final(self) == ch4_write_spec(*old(self), addr, value),
            ch4_wf(*final(self)),
    {
        proof {
            lemma_reg_field_bounds();
        }
        match addr {
            0x400Cu16 => {
                self.volume = value & 0x0F;
                self.envelope_flag = (value & 0x10) == 0;
                self.key_off_counter_flag = (value & 0x20) == 0;
            },
            0x400Eu16 => {
                self.frequency = value & 0x0F;
                self.kind = if value & 0x80 == 0 {
                    NoiseKind::Long
                } else {
                    NoiseKind::Short
                };
            },
            0x400Fu16 => {
                self.key_off_count = (value & 0xF8) >> 3u8;
            },
            _ => {},
        }
    }
}

} // verus!
