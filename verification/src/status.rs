//! Processor status register of the 6502-class CPU.
//!
//! The eight flags live in one byte: N(7), V(6), R(5, always 1 when read),
//! B(4), D(3), I(2), Z(1), C(0).  The composite helpers are the only code
//! paths that touch several flags at once, so arithmetic instructions keep
//! the flags synchronized by going through them.

use vstd::prelude::*;

verus! {

pub const NEGATIVE_FLG: u8 = 0x80;
pub const OVERFLOW_FLG: u8 = 0x40;
pub const R_FLG: u8 = 0x20;
pub const BREAK_COMMAND_FLG: u8 = 0x10;
pub const DECIMAL_MODE_FLG: u8 = 0x08;
pub const INTERRUPT_DISABLE_FLG: u8 = 0x04;
pub const ZERO_FLG: u8 = 0x02;
pub const CARRY_FLG: u8 = 0x01;

/// True when any bit of `f` is set in the status byte `p`.
pub open spec fn has_flag(p: u8, f: u8) -> bool {
    p & f != 0
}

/// Status byte after the Z and N flags are refreshed from the value `v`.
pub open spec fn spec_upd_nz(p: u8, v: u8) -> u8 {
    let pz = if v == 0 {
        p | ZERO_FLG
    } else {
        p & !ZERO_FLG
    };
    if v & 0x80 != 0 {
        pz | NEGATIVE_FLG
    } else {
        pz & !NEGATIVE_FLG
    }
}

/// Status byte after the carry flag is set from the condition `c`.
pub open spec fn spec_upd_c(p: u8, c: bool) -> u8 {
    if c {
        p | CARRY_FLG
    } else {
        p & !CARRY_FLG
    }
}

/// Status byte after the overflow flag is set from the condition `v`.
pub open spec fn spec_upd_v(p: u8, v: bool) -> u8 {
    if v {
        p | OVERFLOW_FLG
    } else {
        p & !OVERFLOW_FLG
    }
}

/// Signed-overflow rule of two's-complement addition: with `r` the low byte
/// of the sum, overflow happened iff both addends agree in sign with each
/// other but disagree with the result.
pub open spec fn spec_add_overflows(a: u8, m: u8, r: u8) -> bool {
    (a ^ r) & (m ^ r) & 0x80 != 0
}

/// Basic facts about setting, clearing and testing flag masks in one byte.
pub proof fn lemma_flag_bits()
    by (bit_vector)
    ensures
        forall|p: u8, f: u8, g: u8| f & g == 0 ==> #[trigger] ((p | f) & g) == p & g,
        forall|p: u8, f: u8, g: u8| f & g == 0 ==> #[trigger] ((p & !f) & g) == p & g,
        forall|p: u8, f: u8| #[trigger] ((p | f) & f) == f,
        forall|p: u8, f: u8| #[trigger] ((p & !f) & f) == 0,
{
}

/// The processor status register.
pub struct StatusRegister {
    pub p_reg: u8,
}

impl StatusRegister {
    /// Fresh status byte: only the reserved bit is set.
    pub fn new() -> (r: Self)
        ensures
            r.p_reg == R_FLG,
    {
        StatusRegister { p_reg: R_FLG }
    }

    /// Clears every flag of the mask `flg`.
    pub fn cls_status_flg(&mut self, flg: u8)
        ensures
            final(self).p_reg == old(self).p_reg & !flg,
    {
        self.p_reg = self.p_reg & !flg;
    }

    /// Sets every flag of the mask `flg`.
    pub fn set_status_flg(&mut self, flg: u8)
        ensures
            final(self).p_reg == old(self).p_reg | flg,
    {
        self.p_reg = self.p_reg | flg;
    }

    /// Tests whether any flag of the mask `flg` is set.
    pub fn get_status_flg(&self, flg: u8) -> (r: bool)
        ensures
            r == has_flag(self.p_reg, flg),
    {
        (self.p_reg & flg) != 0
    }

    /// Reads the whole status byte.
    pub fn get_status_flg_all(&self) -> (r: u8)
        ensures
            r == self.p_reg,
    {
        self.p_reg
    }

    /// Writes the whole status byte; the reserved bit reads back as 1.
    pub fn set_status_flg_all(&mut self, val: u8)
        ensures
            final(self).p_reg == val | R_FLG,
    {
        self.p_reg = val | R_FLG;
    }

    /// Refreshes Z and N from the value `val`.
    pub fn nzv_flg_update(&mut self, val: u8)
        ensures
            final(self).p_reg == spec_upd_nz(old(self).p_reg, val),
    {
        if val == 0 {
            self.set_status_flg(ZERO_FLG);
        } else {
            self.cls_status_flg(ZERO_FLG);
        }
        if (val & 0x80) != 0 {
            self.set_status_flg(NEGATIVE_FLG);
        } else {
            self.cls_status_flg(NEGATIVE_FLG);
        }
    }

    /// Adds two bytes, stores the carry out of bit 7 in C, and returns the
    /// low byte of the sum.
    pub fn c_flg_update_add(&mut self, val_a: u8, val_b: u8) -> (r: u8)
        ensures
            r == (val_a + val_b) % 256,
            final(self).p_reg == spec_upd_c(old(self).p_reg, val_a + val_b > 255),
    {
        let sum: u16 = val_a as u16 + val_b as u16;
        if sum > 0x00FF {
            self.set_status_flg(CARRY_FLG);
        } else {
            self.cls_status_flg(CARRY_FLG);
        }
        (sum % 0x100) as u8
    }

    /// Shifts left by one, storing the outgoing bit 7 in C.
    pub fn c_flg_update_l_shift(&mut self, val: u8) -> (r: u8)
        ensures
            r == val << 1u8,
            final(self).p_reg == spec_upd_c(old(self).p_reg, val & 0x80 != 0),
    {
        if (val & 0x80) != 0 {
            self.set_status_flg(CARRY_FLG);
        } else {
            self.cls_status_flg(CARRY_FLG);
        }
        val << 1u8
    }

    /// Shifts right by one, storing the outgoing bit 0 in C.
    pub fn c_flg_update_r_shift(&mut self, val: u8) -> (r: u8)
        ensures
            r == val >> 1u8,
            final(self).p_reg == spec_upd_c(old(self).p_reg, val & 0x01 != 0),
    {
        if (val & 0x01) != 0 {
            self.set_status_flg(CARRY_FLG);
        } else {
            self.cls_status_flg(CARRY_FLG);
        }
        val >> 1u8
    }

    /// Stores the signed-overflow verdict of an addition in V.  `r` must be
    /// the low byte of the sum of `val_a` and `val_b`.
    pub fn v_flg_update_add(&mut self, val_a: u8, val_b: u8, r: u8)
        ensures
            final(self).p_reg == spec_upd_v(old(self).p_reg, spec_add_overflows(val_a, val_b, r)),
    {
        if ((val_a ^ r) & (val_b ^ r) & 0x80) != 0 {
            self.set_status_flg(OVERFLOW_FLG);
        } else {
            self.cls_status_flg(OVERFLOW_FLG);
        }
    }
}

} // verus!
