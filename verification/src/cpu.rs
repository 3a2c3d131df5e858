//! 6502-class CPU core: fetch/decode/execute over the decode table, the
//! thirteen addressing modes, the page-1 stack, and the three interrupt
//! entries.  Every step of the interpreter is specified by a functional
//! model over `CpuView`; `step` is proved equal to `step_spec`.

use vstd::prelude::*;
use crate::EmuError;
use crate::bus::MemView;
use crate::bus::NESMemory;
use crate::bus::mem_init;
use crate::bus::mem_read_post;
use crate::bus::mem_read_result;
use crate::bus::mem_wf;
use crate::bus::mem_write_post;
use crate::bus::mem_write_result;
use crate::decode::AddrMode;
use crate::decode::OpcodeType;
use crate::decode::decode_instruction;
use crate::decode::operand_len;
use crate::decode::spec_decode;
use crate::decode::spec_operand_len;
use crate::status::BREAK_COMMAND_FLG;
use crate::status::CARRY_FLG;
use crate::status::DECIMAL_MODE_FLG;
use crate::status::INTERRUPT_DISABLE_FLG;
use crate::status::NEGATIVE_FLG;
use crate::status::OVERFLOW_FLG;
use crate::status::R_FLG;
use crate::status::StatusRegister;
use crate::status::ZERO_FLG;
use crate::status::has_flag;
use crate::status::spec_add_overflows;
use crate::status::spec_upd_c;
use crate::status::spec_upd_nz;
use crate::status::spec_upd_v;

verus! {

pub const ADDR_PRG_ROM: u16 = 0x8000;
pub const ADDR_VEC_TBL_NMI: u16 = 0xFFFA;
pub const ADDR_VEC_TBL_RST: u16 = 0xFFFC;
pub const ADDR_VEC_TBL_IRQ: u16 = 0xFFFE;

/// The program counter: always the address of the next byte to fetch.
pub struct ProgramCounter {
    pub pc: u16,
}

impl ProgramCounter {
    /// Starts at the top of cartridge program ROM.
    pub fn new() -> (r: Self)
        ensures
            r.pc == ADDR_PRG_ROM,
    {
        ProgramCounter { pc: ADDR_PRG_ROM }
    }
}

/// Mathematical state of the CPU: registers, status byte, program
/// counter, halt latch, and the whole memory view.
#[verifier::ext_equal]
pub ghost struct CpuView {
    pub a: u8,
    pub x: u8,
    pub y: u8,
    pub sp: u8,
    pub p: u8,
    pub pc: u16,
    pub halted: bool,
    pub mem: MemView,
}

/// Well-formed CPU state: the memory regions have their mapped sizes.
pub open spec fn cpu_wf(s: CpuView) -> bool {
    mem_wf(s.mem)
}

/// One bus read: the state after it and the byte (or error) it returns.
pub open spec fn read_byte_spec(s: CpuView, addr: u16) -> (CpuView, Result<u8, EmuError>) {
    (CpuView { mem: mem_read_post(s.mem, addr), ..s }, mem_read_result(s.mem, addr))
}

/// One bus write: the state after it and its success.
pub open spec fn write_byte_spec(s: CpuView, addr: u16, v: u8) -> (CpuView, Result<
    (),
    EmuError,
>) {
    (CpuView { mem: mem_write_post(s.mem, addr, v), ..s }, mem_write_result(addr))
}

/// One instruction-stream fetch: read at PC, then advance PC.
pub open spec fn fetch_spec(s: CpuView) -> (CpuView, Result<u8, EmuError>) {
    let (s1, r) = read_byte_spec(s, s.pc);
    match r {
        Ok(v) => (CpuView { pc: s.pc.wrapping_add(1), ..s1 }, Ok(v)),
        Err(e) => (s1, Err(e)),
    }
}

/// The 16-bit little-endian word stored in program ROM at `vec`
/// (`vec` and `vec + 1` must lie in $8000-$FFFF).
pub open spec fn vec16(m: MemView, vec: u16) -> u16 {
    (m.prg_rom[vec - 0x8000] as u16) | ((m.prg_rom[vec + 1 - 0x8000] as u16) << 8u16)
}

/// What operand resolution produced: nothing, the accumulator, an
/// immediate byte, or an effective address.
#[derive(Clone, Copy, Debug, PartialEq)]
pub enum OperandRef {
    NoOperand,
    Accumulator,
    Immediate(u8),
    Address(u16),
}

/// Operand resolution per addressing mode: consumes the operand bytes
/// from the instruction stream and resolves pointers.  Zero-page
/// pointers wrap within the zero page; the absolute-indirect pointer is
/// read linearly (without the page-wrap quirk of the original silicon).
pub open spec fn resolve_spec(s: CpuView, mode: AddrMode) -> (CpuView, Result<
    OperandRef,
    EmuError,
>) {
    match mode {
        AddrMode::ACC => (s, Ok(OperandRef::Accumulator)),
        AddrMode::IMPL => (s, Ok(OperandRef::NoOperand)),
        AddrMode::IMM => {
            let (s1, r) = fetch_spec(s);
            match r {
                Ok(v) => (s1, Ok(OperandRef::Immediate(v))),
                Err(e) => (s1, Err(e)),
            }
        },
        AddrMode::ZPG => {
            let (s1, r) = fetch_spec(s);
            match r {
                Ok(b0) => (s1, Ok(OperandRef::Address(b0 as u16))),
                Err(e) => (s1, Err(e)),
            }
        },
        AddrMode::ZpgX => {
            let (s1, r) = fetch_spec(s);
            match r {
                Ok(b0) => (s1, Ok(OperandRef::Address(b0.wrapping_add(s.x) as u16))),
                Err(e) => (s1, Err(e)),
            }
        },
        AddrMode::ZpgY => {
            let (s1, r) = fetch_spec(s);
            match r {
                Ok(b0) => (s1, Ok(OperandRef::Address(b0.wrapping_add(s.y) as u16))),
                Err(e) => (s1, Err(e)),
            }
        },
        AddrMode::ABS => {
            let (s1, r) = fetch_spec(s);
            match r {
                Ok(lo) => {
                    let (s2, r2) = fetch_spec(s1);
                    match r2 {
                        Ok(hi) => (s2, Ok(
                            OperandRef::Address((lo as u16) | ((hi as u16) << 8u16)),
                        )),
                        Err(e) => (s2, Err(e)),
                    }
                },
                Err(e) => (s1, Err(e)),
            }
        },
        AddrMode::AbsX => {
            let (s1, r) = fetch_spec(s);
            match r {
                Ok(lo) => {
                    let (s2, r2) = fetch_spec(s1);
                    match r2 {
                        Ok(hi) => (s2, Ok(
                            OperandRef::Address(
                                ((lo as u16) | ((hi as u16) << 8u16)).wrapping_add(s.x as u16),
                            ),
                        )),
                        Err(e) => (s2, Err(e)),
                    }
                },
                Err(e) => (s1, Err(e)),
            }
        },
        AddrMode::AbsY => {
            let (s1, r) = fetch_spec(s);
            match r {
                Ok(lo) => {
                    let (s2, r2) = fetch_spec(s1);
                    match r2 {
                        Ok(hi) => (s2, Ok(
                            OperandRef::Address(
                                ((lo as u16) | ((hi as u16) << 8u16)).wrapping_add(s.y as u16),
                            ),
                        )),
                        Err(e) => (s2, Err(e)),
                    }
                },
                Err(e) => (s1, Err(e)),
            }
        },
        AddrMode::IND => {
            let (s1, r) = fetch_spec(s);
            match r {
                Ok(lo) => {
                    let (s2, r2) = fetch_spec(s1);
                    match r2 {
                        Ok(hi) => {
                            let ptr = (lo as u16) | ((hi as u16) << 8u16);
                            let (s3, r3) = read_byte_spec(s2, ptr);
                            match r3 {
                                Ok(l2) => {
                                    let (s4, r4) = read_byte_spec(s3, ptr.wrapping_add(1));
                                    match r4 {
                                        Ok(h2) => (s4, Ok(
                                            OperandRef::Address(
                                                (l2 as u16) | ((h2 as u16) << 8u16),
                                            ),
                                        )),
                                        Err(e) => (s4, Err(e)),
                                    }
                                },
                                Err(e) => (s3, Err(e)),
                            }
                        },
                        Err(e) => (s2, Err(e)),
                    }
                },
                Err(e) => (s1, Err(e)),
            }
        },
        AddrMode::IndX => {
            let (s1, r) = fetch_spec(s);
            match r {
                Ok(b0) => {
                    let ptr = b0.wrapping_add(s.x);
                    let (s2, r2) = read_byte_spec(s1, ptr as u16);
                    match r2 {
                        Ok(lo) => {
                            let (s3, r3) = read_byte_spec(s2, ptr.wrapping_add(1) as u16);
                            match r3 {
                                Ok(hi) => (s3, Ok(
                                    OperandRef::Address((lo as u16) | ((hi as u16) << 8u16)),
                                )),
                                Err(e) => (s3, Err(e)),
                            }
                        },
                        Err(e) => (s2, Err(e)),
                    }
                },
                Err(e) => (s1, Err(e)),
            }
        },
        AddrMode::IndY => {
            let (s1, r) = fetch_spec(s);
            match r {
                Ok(b0) => {
                    let (s2, r2) = read_byte_spec(s1, b0 as u16);
                    match r2 {
                        Ok(lo) => {
                            let (s3, r3) = read_byte_spec(s2, b0.wrapping_add(1) as u16);
                            match r3 {
                                Ok(hi) => (s3, Ok(
                                    OperandRef::Address(
                                        ((lo as u16) | ((hi as u16) << 8u16)).wrapping_add(
                                            s.y as u16,
                                        ),
                                    ),
                                )),
                                Err(e) => (s3, Err(e)),
                            }
                        },
                        Err(e) => (s2, Err(e)),
                    }
                },
                Err(e) => (s1, Err(e)),
            }
        },
        AddrMode::REL => {
            let (s1, r) = fetch_spec(s);
            match r {
                Ok(off) => {
                    let t = if off < 0x80 {
                        s1.pc.wrapping_add(off as u16)
                    } else {
                        s1.pc.wrapping_add(off as u16).wrapping_sub(0x0100)
                    };
                    (s1, Ok(OperandRef::Address(t)))
                },
                Err(e) => (s1, Err(e)),
            }
        },
    }
}

/// The operand value an instruction reads through its operand reference.
pub open spec fn load_val_spec(s: CpuView, opref: OperandRef) -> (CpuView, Result<
    u8,
    EmuError,
>) {
    match opref {
        OperandRef::Accumulator => (s, Ok(s.a)),
        OperandRef::Immediate(v) => (s, Ok(v)),
        OperandRef::Address(a) => read_byte_spec(s, a),
        OperandRef::NoOperand => (s, Ok(0u8)),
    }
}

/// ADC: add the operand and the carry into A; C from the carry out of
/// bit 7, V from the signed-overflow rule, N and Z from the result.
pub open spec fn adc_spec(s: CpuView, m: u8) -> CpuView {
    let c: u8 = if has_flag(s.p, CARRY_FLG) {
        1u8
    } else {
        0u8
    };
    let r = ((s.a + m + c) % 256) as u8;
    let p1 = spec_upd_c(s.p, s.a + m + c > 255);
    let p2 = spec_upd_v(p1, spec_add_overflows(s.a, m, r));
    CpuView { a: r, p: spec_upd_nz(p2, r), ..s }
}

/// CMP/CPX/CPY flag update: C iff the register is not below the operand,
/// N and Z from the wrapped difference.
pub open spec fn compare_spec(p: u8, reg: u8, m: u8) -> u8 {
    spec_upd_nz(spec_upd_c(p, reg >= m), reg.wrapping_sub(m))
}

/// BIT flag update: Z from A AND the operand, N from bit 7 of the
/// operand, V from bit 6 of the operand.
pub open spec fn bit_spec(p: u8, a: u8, m: u8) -> u8 {
    let p1 = if a & m == 0 {
        p | ZERO_FLG
    } else {
        p & !ZERO_FLG
    };
    let p2 = if m & 0x80 != 0 {
        p1 | NEGATIVE_FLG
    } else {
        p1 & !NEGATIVE_FLG
    };
    if m & 0x40 != 0 {
        p2 | OVERFLOW_FLG
    } else {
        p2 & !OVERFLOW_FLG
    }
}

/// Result value and status byte of the read-modify-write group applied to
/// one byte.
pub open spec fn shift_spec(op: OpcodeType, p: u8, v: u8) -> (u8, u8) {
    match op {
        OpcodeType::ASL => {
            let r = v << 1u8;
            (r, spec_upd_nz(spec_upd_c(p, v & 0x80 != 0), r))
        },
        OpcodeType::LSR => {
            let r = v >> 1u8;
            (r, spec_upd_nz(spec_upd_c(p, v & 0x01 != 0), r))
        },
        OpcodeType::ROL => {
            let c: u8 = if has_flag(p, CARRY_FLG) {
                1u8
            } else {
                0u8
            };
            let r = (v << 1u8) | c;
            (r, spec_upd_nz(spec_upd_c(p, v & 0x80 != 0), r))
        },
        OpcodeType::ROR => {
            let c: u8 = if has_flag(p, CARRY_FLG) {
                0x80u8
            } else {
                0u8
            };
            let r = (v >> 1u8) | c;
            (r, spec_upd_nz(spec_upd_c(p, v & 0x01 != 0), r))
        },
        OpcodeType::INC => {
            let r = v.wrapping_add(1);
            (r, spec_upd_nz(p, r))
        },
        OpcodeType::DEC => {
            let r = v.wrapping_sub(1);
            (r, spec_upd_nz(p, r))
        },
        _ => (v, p),
    }
}

/// Register and flag effect of the operand-reading instructions.
pub open spec fn value_op_spec(s: CpuView, op: OpcodeType, m: u8) -> CpuView {
    match op {
        OpcodeType::LDA => CpuView { a: m, p: spec_upd_nz(s.p, m), ..s },
        OpcodeType::LDX => CpuView { x: m, p: spec_upd_nz(s.p, m), ..s },
        OpcodeType::LDY => CpuView { y: m, p: spec_upd_nz(s.p, m), ..s },
        OpcodeType::AND => CpuView { a: s.a & m, p: spec_upd_nz(s.p, s.a & m), ..s },
        OpcodeType::ORA => CpuView { a: s.a | m, p: spec_upd_nz(s.p, s.a | m), ..s },
        OpcodeType::EOR => CpuView { a: s.a ^ m, p: spec_upd_nz(s.p, s.a ^ m), ..s },
        OpcodeType::BIT => CpuView { p: bit_spec(s.p, s.a, m), ..s },
        OpcodeType::ADC => adc_spec(s, m),
        OpcodeType::SBC => adc_spec(s, !m),
        OpcodeType::CMP => CpuView { p: compare_spec(s.p, s.a, m), ..s },
        OpcodeType::CPX => CpuView { p: compare_spec(s.p, s.x, m), ..s },
        OpcodeType::CPY => CpuView { p: compare_spec(s.p, s.y, m), ..s },
        _ => s,
    }
}

/// A store through the operand reference.
pub open spec fn store_spec(s: CpuView, v: u8, opref: OperandRef) -> (CpuView, Result<
    (),
    EmuError,
>) {
    match opref {
        OperandRef::Address(a) => write_byte_spec(s, a, v),
        _ => (s, Ok(())),
    }
}

/// The read-modify-write group on the accumulator or on memory.
pub open spec fn rmw_spec(s: CpuView, op: OpcodeType, opref: OperandRef) -> (CpuView, Result<
    (),
    EmuError,
>) {
    match opref {
        OperandRef::Accumulator => {
            let (r, p2) = shift_spec(op, s.p, s.a);
            (CpuView { a: r, p: p2, ..s }, Ok(()))
        },
        OperandRef::Address(ad) => {
            let (s1, rv) = read_byte_spec(s, ad);
            match rv {
                Ok(v) => {
                    let (r, p2) = shift_spec(op, s1.p, v);
                    write_byte_spec(CpuView { p: p2, ..s1 }, ad, r)
                },
                Err(e) => (s1, Err(e)),
            }
        },
        _ => (s, Ok(())),
    }
}

/// One stack push: write at $0100 + SP, then decrement SP (wrapping).
pub open spec fn push_spec(s: CpuView, v: u8) -> CpuView {
    CpuView {
        mem: mem_write_post(s.mem, (0x0100 + s.sp as u16) as u16, v),
        sp: s.sp.wrapping_sub(1),
        ..s
    }
}

/// One stack pop: increment SP (wrapping), then read at $0100 + SP.
pub open spec fn pop_spec(s: CpuView) -> (CpuView, u8) {
    let sp2 = s.sp.wrapping_add(1);
    (CpuView { sp: sp2, ..s }, s.mem.wram[0x0100 + sp2 as int])
}

/// Whether a branch mnemonic takes its branch under the status byte `p`.
pub open spec fn branch_cond(op: OpcodeType, p: u8) -> bool {
    match op {
        OpcodeType::BCC => !has_flag(p, CARRY_FLG),
        OpcodeType::BCS => has_flag(p, CARRY_FLG),
        OpcodeType::BNE => !has_flag(p, ZERO_FLG),
        OpcodeType::BEQ => has_flag(p, ZERO_FLG),
        OpcodeType::BPL => !has_flag(p, NEGATIVE_FLG),
        OpcodeType::BMI => has_flag(p, NEGATIVE_FLG),
        OpcodeType::BVC => !has_flag(p, OVERFLOW_FLG),
        OpcodeType::BVS => has_flag(p, OVERFLOW_FLG),
        _ => false,
    }
}

/// BRK: push PC + 1 (high then low) and the status with B set, set I, and
/// load PC from the IRQ/BRK vector.
pub open spec fn brk_spec(s: CpuView) -> CpuView {
    let ret = s.pc.wrapping_add(1);
    let s1 = push_spec(s, (ret >> 8u16) as u8);
    let s2 = push_spec(s1, (ret & 0x00FF) as u8);
    let s3 = push_spec(s2, s.p | BREAK_COMMAND_FLG);
    CpuView {
        p: s.p | INTERRUPT_DISABLE_FLG,
        pc: vec16(s3.mem, ADDR_VEC_TBL_IRQ),
        ..s3
    }
}

/// A hardware interrupt: push PC (high then low) and the status with B
/// clear, set I, and load PC from `vec`.
pub open spec fn interrupt_spec(s: CpuView, vec: u16) -> CpuView {
    let s1 = push_spec(s, (s.pc >> 8u16) as u8);
    let s2 = push_spec(s1, (s.pc & 0x00FF) as u8);
    let s3 = push_spec(s2, s.p & !BREAK_COMMAND_FLG);
    CpuView {
        p: s.p | INTERRUPT_DISABLE_FLG,
        pc: vec16(s3.mem, vec),
        ..s3
    }
}

/// Effect of one decoded instruction once its operand is resolved.
pub open spec fn exec_op_spec(s: CpuView, op: OpcodeType, opref: OperandRef) -> (CpuView, Result<
    (),
    EmuError,
>) {
    match op {
        OpcodeType::LDA | OpcodeType::LDX | OpcodeType::LDY | OpcodeType::AND | OpcodeType::ORA
            | OpcodeType::EOR | OpcodeType::BIT | OpcodeType::ADC | OpcodeType::SBC
            | OpcodeType::CMP | OpcodeType::CPX | OpcodeType::CPY => {
            let (s1, rv) = load_val_spec(s, opref);
            match rv {
                Ok(m) => (value_op_spec(s1, op, m), Ok(())),
                Err(e) => (s1, Err(e)),
            }
        },
        OpcodeType::STA => store_spec(s, s.a, opref),
        OpcodeType::STX => store_spec(s, s.x, opref),
        OpcodeType::STY => store_spec(s, s.y, opref),
        OpcodeType::ASL | OpcodeType::LSR | OpcodeType::ROL | OpcodeType::ROR | OpcodeType::INC
            | OpcodeType::DEC => rmw_spec(s, op, opref),
        OpcodeType::INX => {
            let r = s.x.wrapping_add(1);
            (CpuView { x: r, p: spec_upd_nz(s.p, r), ..s }, Ok(()))
        },
        OpcodeType::INY => {
            let r = s.y.wrapping_add(1);
            (CpuView { y: r, p: spec_upd_nz(s.p, r), ..s }, Ok(()))
        },
        OpcodeType::DEX => {
            let r = s.x.wrapping_sub(1);
            (CpuView { x: r, p: spec_upd_nz(s.p, r), ..s }, Ok(()))
        },
        OpcodeType::DEY => {
            let r = s.y.wrapping_sub(1);
            (CpuView { y: r, p: spec_upd_nz(s.p, r), ..s }, Ok(()))
        },
        OpcodeType::TAX => (CpuView { x: s.a, p: spec_upd_nz(s.p, s.a), ..s }, Ok(())),
        OpcodeType::TAY => (CpuView { y: s.a, p: spec_upd_nz(s.p, s.a), ..s }, Ok(())),
        OpcodeType::TXA => (CpuView { a: s.x, p: spec_upd_nz(s.p, s.x), ..s }, Ok(())),
        OpcodeType::TYA => (CpuView { a: s.y, p: spec_upd_nz(s.p, s.y), ..s }, Ok(())),
        OpcodeType::TSX => (CpuView { x: s.sp, p: spec_upd_nz(s.p, s.sp), ..s }, Ok(())),
        OpcodeType::TXS => (CpuView { sp: s.x, ..s }, Ok(())),
        OpcodeType::PHA => (push_spec(s, s.a), Ok(())),
        OpcodeType::PHP => (push_spec(s, s.p), Ok(())),
        OpcodeType::PLA => {
            let (s1, v) = pop_spec(s);
            (CpuView { a: v, p: spec_upd_nz(s1.p, v), ..s1 }, Ok(()))
        },
        OpcodeType::PLP => {
            let (s1, v) = pop_spec(s);
            (CpuView { p: v | R_FLG, ..s1 }, Ok(()))
        },
        OpcodeType::CLC => (CpuView { p: s.p & !CARRY_FLG, ..s }, Ok(())),
        OpcodeType::CLD => (CpuView { p: s.p & !DECIMAL_MODE_FLG, ..s }, Ok(())),
        OpcodeType::CLI => (CpuView { p: s.p & !INTERRUPT_DISABLE_FLG, ..s }, Ok(())),
        OpcodeType::CLV => (CpuView { p: s.p & !OVERFLOW_FLG, ..s }, Ok(())),
        OpcodeType::SEC => (CpuView { p: s.p | CARRY_FLG, ..s }, Ok(())),
        OpcodeType::SED => (CpuView { p: s.p | DECIMAL_MODE_FLG, ..s }, Ok(())),
        OpcodeType::SEI => (CpuView { p: s.p | INTERRUPT_DISABLE_FLG, ..s }, Ok(())),
        OpcodeType::JMP => {
            match opref {
                OperandRef::Address(a) => (CpuView { pc: a, ..s }, Ok(())),
                _ => (s, Ok(())),
            }
        },
        OpcodeType::JSR => {
            match opref {
                OperandRef::Address(a) => {
                    let ret = s.pc.wrapping_sub(1);
                    let s1 = push_spec(s, (ret >> 8u16) as u8);
                    let s2 = push_spec(s1, (ret & 0x00FF) as u8);
                    (CpuView { pc: a, ..s2 }, Ok(()))
                },
                _ => (s, Ok(())),
            }
        },
        OpcodeType::RTS => {
            let (s1, lo) = pop_spec(s);
            let (s2, hi) = pop_spec(s1);
            (CpuView { pc: ((lo as u16) | ((hi as u16) << 8u16)).wrapping_add(1), ..s2 }, Ok(()))
        },
        OpcodeType::RTI => {
            let (s1, pv) = pop_spec(s);
            let (s2, lo) = pop_spec(s1);
            let (s3, hi) = pop_spec(s2);
            (CpuView {
                p: (pv | R_FLG) & !BREAK_COMMAND_FLG,
                pc: (lo as u16) | ((hi as u16) << 8u16),
                ..s3
            }, Ok(()))
        },
        OpcodeType::BRK => (brk_spec(s), Ok(())),
        OpcodeType::BCC | OpcodeType::BCS | OpcodeType::BNE | OpcodeType::BEQ | OpcodeType::BPL
            | OpcodeType::BMI | OpcodeType::BVC | OpcodeType::BVS => {
            match opref {
                OperandRef::Address(t) => {
                    if branch_cond(op, s.p) {
                        (CpuView { pc: t, ..s }, Ok(()))
                    } else {
                        (s, Ok(()))
                    }
                },
                _ => (s, Ok(())),
            }
        },
        _ => (s, Ok(())),
    }
}

/// Effect of one decoded instruction: NOP consumes its operand bytes
/// without touching the bus, STP latches the halt, UNK fails; everything
/// else resolves its operand and applies its semantics.
pub open spec fn exec_instr_spec(s: CpuView, op: OpcodeType, mode: AddrMode) -> (CpuView, Result<
    (),
    EmuError,
>) {
    if op == OpcodeType::NOP {
        (CpuView { pc: s.pc.wrapping_add(spec_operand_len(mode)), ..s }, Ok(()))
    } else if op == OpcodeType::STP {
        (CpuView { halted: true, ..s }, Ok(()))
    } else if op == OpcodeType::UNK {
        (s, Err(EmuError::UnknownOpcode))
    } else {
        let (s1, rr) = resolve_spec(s, mode);
        match rr {
            Ok(opref) => exec_op_spec(s1, op, opref),
            Err(e) => (s1, Err(e)),
        }
    }
}

/// One whole CPU step: refuse when halted, otherwise fetch, decode and
/// execute one instruction.
#[verifier::opaque]
pub open spec fn step_spec(s: CpuView) -> (CpuView, Result<(), EmuError>) {
    if s.halted {
        (s, Err(EmuError::Halted))
    } else {
        let (s1, fr) = fetch_spec(s);
        match fr {
            Ok(opb) => exec_instr_spec(s1, spec_decode(opb).0, spec_decode(opb).1),
            Err(e) => (s1, Err(e)),
        }
    }
}

/// Reset: clear the registers, set SP to $FF and P to the reserved bit,
/// release the halt latch, and load PC from the reset vector.
pub open spec fn reset_spec(s: CpuView) -> CpuView {
    CpuView {
        a: 0u8,
        x: 0u8,
        y: 0u8,
        sp: 0xFFu8,
        p: R_FLG,
        pc: vec16(s.mem, ADDR_VEC_TBL_RST),
        halted: false,
        ..s
    }
}

/// The RP2A03 CPU: registers, status, program counter and the memory bus
/// it owns.
pub struct RP2A03 {
    pub a: u8,
    pub x: u8,
    pub y: u8,
    pub sp: u8,
    pub p: StatusRegister,
    pub pc: ProgramCounter,
    pub nes_mem: NESMemory,
    pub halted: bool,
}

impl View for RP2A03 {
    type V = CpuView;

    closed spec fn view(&self) -> CpuView {
        CpuView {
            a: self.a,
            x: self.x,
            y: self.y,
            sp: self.sp,
            p: self.p.p_reg,
            pc: self.pc.pc,
            halted: self.halted,
            mem: self.nes_mem@,
        }
    }
}

impl RP2A03 {
    /// Power-on CPU: cleared registers, SP at $FF, only the reserved
    /// status bit set, PC at the top of program ROM, zeroed memory.
    pub fn new() -> (r: Self)
        ensures
            r@ == (CpuView {
                a: 0u8,
                x: 0u8,
                y: 0u8,
                sp: 0xFFu8,
                p: R_FLG,
                pc: ADDR_PRG_ROM,
                halted: false,
                mem: mem_init(),
            }),
            cpu_wf(r@),
    {
        let r = RP2A03 {
            a: 0,
            x: 0,
            y: 0,
            sp: 0xFF,
            p: StatusRegister::new(),
            pc: ProgramCounter::new(),
            nes_mem: NESMemory::new(),
            halted: false,
        };
        proof {
            assert(r@ =~= (CpuView {
                a: 0u8,
                x: 0u8,
                y: 0u8,
                sp: 0xFFu8,
                p: R_FLG,
                pc: ADDR_PRG_ROM,
                halted: false,
                mem: mem_init(),
            }));
        }
        r
    }

    /// One bus read, threading the CPU state.
    pub fn read(&mut self, address: u16) -> (r: Result<u8, EmuError>)
        requires
            cpu_wf(old(self)@),
        ensures
            cpu_wf(final(self)@),
            final(self)@ == read_byte_spec(old(self)@, address).0,
            r == read_byte_spec(old(self)@, address).1,
    {
        let r = self.nes_mem.mem_read(address);
        proof {
            assert(self@ =~= read_byte_spec(old(self)@, address).0);
        }
        r
    }

    /// One bus write, threading the CPU state.
    pub fn write(&mut self, address: u16, data: u8) -> (r: Result<(), EmuError>)
        requires
            cpu_wf(old(self)@),
        ensures
            cpu_wf(final(self)@),
            final(self)@ == write_byte_spec(old(self)@, address, data).0,
            r == write_byte_spec(old(self)@, address, data).1,
    {
        let r = self.nes_mem.mem_write(address, data);
        proof {
            assert(self@ =~= write_byte_spec(old(self)@, address, data).0);
        }
        r
    }

    /// Reads the opcode byte at PC without advancing.
    pub fn fetch_instruction(&mut self) -> (r: Result<u8, EmuError>)
        requires
            cpu_wf(old(self)@),
        ensures
            cpu_wf(final(self)@),
            final(self)@ == read_byte_spec(old(self)@, old(self)@.pc).0,
            r == read_byte_spec(old(self)@, old(self)@.pc).1,
    {
        let pc = self.pc.pc;
        self.read(pc)
    }

    /// Fetches one instruction-stream byte and advances PC.
    fn fetch_pc(&mut self) -> (r: Result<u8, EmuError>)
        requires
            cpu_wf(old(self)@),
        ensures
            cpu_wf(final(self)@),
            final(self)@ == fetch_spec(old(self)@).0,
            r == fetch_spec(old(self)@).1,
    {
        let pc = self.pc.pc;
        match self.read(pc) {
            Ok(v) => {
                self.pc.pc = pc.wrapping_add(1);
                proof {
                    assert(self@ =~= fetch_spec(old(self)@).0);
                }
                Ok(v)
            },
            Err(e) => Err(e),
        }
    }

    /// Pushes one byte: write at $0100 + SP, then decrement SP.
    pub fn push_stack(&mut self, data: u8)
        requires
            cpu_wf(old(self)@),
        ensures
            cpu_wf(final(self)@),
            final(self)@ == push_spec(old(self)@, data),
    {
        let addr: u16 = 0x0100 + self.sp as u16;
        let _ = self.nes_mem.mem_write(addr, data);
        self.sp = self.sp.wrapping_sub(1);
        proof {
            assert(self@ =~= push_spec(old(self)@, data));
        }
    }

    /// Pops one byte: increment SP, then read at $0100 + SP.
    pub fn pop_stack(&mut self) -> (r: u8)
        requires
            cpu_wf(old(self)@),
        ensures
            cpu_wf(final(self)@),
            final(self)@ == pop_spec(old(self)@).0,
            r == pop_spec(old(self)@).1,
    {
        self.sp = self.sp.wrapping_add(1);
        let addr: u16 = 0x0100 + self.sp as u16;
        let r = match self.nes_mem.mem_read(addr) {
            Ok(v) => v,
            Err(_) => 0,
        };
        proof {
            assert(self@ =~= pop_spec(old(self)@).0);
        }
        r
    }

    /// Resolves the operand of the current instruction per addressing
    /// mode, consuming operand bytes from the instruction stream.
    pub fn read_operand(&mut self, addressing: AddrMode) -> (r: Result<OperandRef, EmuError>)
        requires
            cpu_wf(old(self)@),
        ensures
            cpu_wf(final(self)@),
            final(self)@ == resolve_spec(old(self)@, addressing).0,
            r == resolve_spec(old(self)@, addressing).1,
    {
        match addressing {
            AddrMode::ACC => Ok(OperandRef::Accumulator),
            AddrMode::IMPL => Ok(OperandRef::NoOperand),
            AddrMode::IMM => {
                let v = self.fetch_pc()?;
                Ok(OperandRef::Immediate(v))
            },
            AddrMode::ZPG => {
                let b0 = self.fetch_pc()?;
                Ok(OperandRef::Address(b0 as u16))
            },
            AddrMode::ZpgX => {
                let x = self.x;
                let b0 = self.fetch_pc()?;
                Ok(OperandRef::Address(b0.wrapping_add(x) as u16))
            },
            AddrMode::ZpgY => {
                let y = self.y;
                let b0 = self.fetch_pc()?;
                Ok(OperandRef::Address(b0.wrapping_add(y) as u16))
            },
            AddrMode::ABS => {
                let lo = self.fetch_pc()?;
                let hi = self.fetch_pc()?;
                Ok(OperandRef::Address((lo as u16) | ((hi as u16) << 8u16)))
            },
            AddrMode::AbsX => {
                let x = self.x;
                let lo = self.fetch_pc()?;
                let hi = self.fetch_pc()?;
                Ok(
                    OperandRef::Address(
                        ((lo as u16) | ((hi as u16) << 8u16)).wrapping_add(x as u16),
                    ),
                )
            },
            AddrMode::AbsY => {
                let y = self.y;
                let lo = self.fetch_pc()?;
                let hi = self.fetch_pc()?;
                Ok(
                    OperandRef::Address(
                        ((lo as u16) | ((hi as u16) << 8u16)).wrapping_add(y as u16),
                    ),
                )
            },
            AddrMode::IND => {
                let lo = self.fetch_pc()?;
                let hi = self.fetch_pc()?;
                let ptr = (lo as u16) | ((hi as u16) << 8u16);
                let l2 = self.read(ptr)?;
                let h2 = self.read(ptr.wrapping_add(1))?;
                Ok(OperandRef::Address((l2 as u16) | ((h2 as u16) << 8u16)))
            },
            AddrMode::IndX => {
                let x = self.x;
                let b0 = self.fetch_pc()?;
                let ptr = b0.wrapping_add(x);
                let lo = self.read(ptr as u16)?;
                let hi = self.read(ptr.wrapping_add(1) as u16)?;
                Ok(OperandRef::Address((lo as u16) | ((hi as u16) << 8u16)))
            },
            AddrMode::IndY => {
                let y = self.y;
                let b0 = self.fetch_pc()?;
                let lo = self.read(b0 as u16)?;
                let hi = self.read(b0.wrapping_add(1) as u16)?;
                Ok(
                    OperandRef::Address(
                        ((lo as u16) | ((hi as u16) << 8u16)).wrapping_add(y as u16),
                    ),
                )
            },
            AddrMode::REL => {
                let off = self.fetch_pc()?;
                let pc = self.pc.pc;
                let t = if off < 0x80 {
                    pc.wrapping_add(off as u16)
                } else {
                    pc.wrapping_add(off as u16).wrapping_sub(0x0100)
                };
                Ok(OperandRef::Address(t))
            },
        }
    }

    /// Reads the operand value behind an operand reference.
    fn load_operand(&mut self, opref: OperandRef) -> (r: Result<u8, EmuError>)
        requires
            cpu_wf(old(self)@),
        ensures
            cpu_wf(final(self)@),
            final(self)@ == load_val_spec(old(self)@, opref).0,
            r == load_val_spec(old(self)@, opref).1,
    {
        match opref {
            OperandRef::Accumulator => Ok(self.a),
            OperandRef::Immediate(v) => Ok(v),
            OperandRef::Address(a) => self.read(a),
            OperandRef::NoOperand => Ok(0),
        }
    }

    /// ADC on the accumulator with the given operand byte.
    fn do_adc(&mut self, m: u8)
        ensures
            final(self)@ == adc_spec(old(self)@, m),
    {
        let c: u8 = if self.p.get_status_flg(CARRY_FLG) {
            1
        } else {
            0
        };
        let a0 = self.a;
        let sum: u16 = a0 as u16 + m as u16 + c as u16;
        let r = (sum % 256) as u8;
        if sum > 255 {
            self.p.set_status_flg(CARRY_FLG);
        } else {
            self.p.cls_status_flg(CARRY_FLG);
        }
        self.p.v_flg_update_add(a0, m, r);
        self.p.nzv_flg_update(r);
        self.a = r;
    }

    /// CMP/CPX/CPY flag update for one register value.
    fn do_compare(&mut self, reg: u8, m: u8)
        ensures
            final(self)@ == (CpuView { p: compare_spec(old(self)@.p, reg, m), ..old(self)@ }),
    {
        let d = reg.wrapping_sub(m);
        if reg >= m {
            self.p.set_status_flg(CARRY_FLG);
        } else {
            self.p.cls_status_flg(CARRY_FLG);
        }
        self.p.nzv_flg_update(d);
    }

    /// Applies one instruction of the operand-reading group.
    fn do_value_op(&mut self, op: OpcodeType, m: u8)
        ensures
            final(self)@ == value_op_spec(old(self)@, op, m),
    {
        match op {
            OpcodeType::LDA => {
                self.a = m;
                self.p.nzv_flg_update(m);
            },
            OpcodeType::LDX => {
                self.x = m;
                self.p.nzv_flg_update(m);
            },
            OpcodeType::LDY => {
                self.y = m;
                self.p.nzv_flg_update(m);
            },
            OpcodeType::AND => {
                let r = self.a & m;
                self.a = r;
                self.p.nzv_flg_update(r);
            },
            OpcodeType::ORA => {
                let r = self.a | m;
                self.a = r;
                self.p.nzv_flg_update(r);
            },
            OpcodeType::EOR => {
                let r = self.a ^ m;
                self.a = r;
                self.p.nzv_flg_update(r);
            },
            OpcodeType::BIT => {
                if (self.a & m) == 0 {
                    self.p.set_status_flg(ZERO_FLG);
                } else {
                    self.p.cls_status_flg(ZERO_FLG);
                }
                if (m & 0x80) != 0 {
                    self.p.set_status_flg(NEGATIVE_FLG);
                } else {
                    self.p.cls_status_flg(NEGATIVE_FLG);
                }
                if (m & 0x40) != 0 {
                    self.p.set_status_flg(OVERFLOW_FLG);
                } else {
                    self.p.cls_status_flg(OVERFLOW_FLG);
                }
            },
            OpcodeType::ADC => {
                self.do_adc(m);
            },
            OpcodeType::SBC => {
                self.do_adc(!m);
            },
            OpcodeType::CMP => {
                let a = self.a;
                self.do_compare(a, m);
            },
            OpcodeType::CPX => {
                let x = self.x;
                self.do_compare(x, m);
            },
            OpcodeType::CPY => {
                let y = self.y;
                self.do_compare(y, m);
            },
            _ => {},
        }
    }

    /// Applies one read-modify-write mnemonic to one byte, updating the
    /// flags and returning the rewritten byte.
    fn shift_apply(&mut self, op: OpcodeType, v: u8) -> (r: u8)
        ensures
            r == shift_spec(op, old(self)@.p, v).0,
            final(self)@ == (CpuView { p: shift_spec(op, old(self)@.p, v).1, ..old(self)@ }),
    {
        match op {
            OpcodeType::ASL => {
                let r = self.p.c_flg_update_l_shift(v);
                self.p.nzv_flg_update(r);
                r
            },
            OpcodeType::LSR => {
                let r = self.p.c_flg_update_r_shift(v);
                self.p.nzv_flg_update(r);
                r
            },
            OpcodeType::ROL => {
                let c: u8 = if self.p.get_status_flg(CARRY_FLG) {
                    1
                } else {
                    0
                };
                let r0 = self.p.c_flg_update_l_shift(v);
                let r = r0 | c;
                self.p.nzv_flg_update(r);
                r
            },
            OpcodeType::ROR => {
                let c: u8 = if self.p.get_status_flg(CARRY_FLG) {
                    0x80
                } else {
                    0
                };
                let r0 = self.p.c_flg_update_r_shift(v);
                let r = r0 | c;
                self.p.nzv_flg_update(r);
                r
            },
            OpcodeType::INC => {
                let r = v.wrapping_add(1);
                self.p.nzv_flg_update(r);
                r
            },
            OpcodeType::DEC => {
                let r = v.wrapping_sub(1);
                self.p.nzv_flg_update(r);
                r
            },
            _ => v,
        }
    }

    /// The read-modify-write group on the accumulator or on memory.
    fn do_rmw(&mut self, op: OpcodeType, opref: OperandRef) -> (r: Result<(), EmuError>)
        requires
            cpu_wf(old(self)@),
        ensures
            cpu_wf(final(self)@),
            final(self)@ == rmw_spec(old(self)@, op, opref).0,
            r == rmw_spec(old(self)@, op, opref).1,
    {
        match opref {
            OperandRef::Accumulator => {
                let a = self.a;
                let r = self.shift_apply(op, a);
                self.a = r;
                Ok(())
            },
            OperandRef::Address(ad) => {
                let v = self.read(ad)?;
                let r = self.shift_apply(op, v);
                self.write(ad, r)
            },
            _ => Ok(()),
        }
    }

    /// Applies one decoded instruction to its resolved operand.
    fn apply_op(&mut self, op: OpcodeType, opref: OperandRef) -> (r: Result<(), EmuError>)
        requires
            cpu_wf(old(self)@),
        ensures
            cpu_wf(final(self)@),
            final(self)@ == exec_op_spec(old(self)@, op, opref).0,
            r == exec_op_spec(old(self)@, op, opref).1,
    {
        match op {
            OpcodeType::LDA | OpcodeType::LDX | OpcodeType::LDY | OpcodeType::AND
                | OpcodeType::ORA | OpcodeType::EOR | OpcodeType::BIT | OpcodeType::ADC
                | OpcodeType::SBC | OpcodeType::CMP | OpcodeType::CPX | OpcodeType::CPY => {
                let m = self.load_operand(opref)?;
                self.do_value_op(op, m);
                Ok(())
            },
            OpcodeType::STA => {
                match opref {
                    OperandRef::Address(ad) => {
                        let a = self.a;
                        self.write(ad, a)
                    },
                    _ => Ok(()),
                }
            },
            OpcodeType::STX => {
                match opref {
                    OperandRef::Address(ad) => {
                        let x = self.x;
                        self.write(ad, x)
                    },
                    _ => Ok(()),
                }
            },
            OpcodeType::STY => {
                match opref {
                    OperandRef::Address(ad) => {
                        let y = self.y;
                        self.write(ad, y)
                    },
                    _ => Ok(()),
                }
            },
            OpcodeType::ASL | OpcodeType::LSR | OpcodeType::ROL | OpcodeType::ROR
                | OpcodeType::INC | OpcodeType::DEC => self.do_rmw(op, opref),
            OpcodeType::INX => {
                let r = self.x.wrapping_add(1);
                self.x = r;
                self.p.nzv_flg_update(r);
                Ok(())
            },
            OpcodeType::INY => {
                let r = self.y.wrapping_add(1);
                self.y = r;
                self.p.nzv_flg_update(r);
                Ok(())
            },
            OpcodeType::DEX => {
                let r = self.x.wrapping_sub(1);
                self.x = r;
                self.p.nzv_flg_update(r);
                Ok(())
            },
            OpcodeType::DEY => {
                let r = self.y.wrapping_sub(1);
                self.y = r;
                self.p.nzv_flg_update(r);
                Ok(())
            },
            OpcodeType::TAX => {
                self.x = self.a;
                let v = self.x;
                self.p.nzv_flg_update(v);
                Ok(())
            },
            OpcodeType::TAY => {
                self.y = self.a;
                let v = self.y;
                self.p.nzv_flg_update(v);
                Ok(())
            },
            OpcodeType::TXA => {
                self.a = self.x;
                let v = self.a;
                self.p.nzv_flg_update(v);
                Ok(())
            },
            OpcodeType::TYA => {
                self.a = self.y;
                let v = self.a;
                self.p.nzv_flg_update(v);
                Ok(())
            },
            OpcodeType::TSX => {
                self.x = self.sp;
                let v = self.x;
                self.p.nzv_flg_update(v);
                Ok(())
            },
            OpcodeType::TXS => {
                self.sp = self.x;
                Ok(())
            },
            OpcodeType::PHA => {
                let v = self.a;
                self.push_stack(v);
                Ok(())
            },
            OpcodeType::PHP => {
                let v = self.p.get_status_flg_all();
                self.push_stack(v);
                Ok(())
            },
            OpcodeType::PLA => {
                let v = self.pop_stack();
                self.a = v;
                self.p.nzv_flg_update(v);
                Ok(())
            },
            OpcodeType::PLP => {
                let v = self.pop_stack();
                self.p.set_status_flg_all(v);
                Ok(())
            },
            OpcodeType::CLC => {
                self.p.cls_status_flg(CARRY_FLG);
                Ok(())
            },
            OpcodeType::CLD => {
                self.p.cls_status_flg(DECIMAL_MODE_FLG);
                Ok(())
            },
            OpcodeType::CLI => {
                self.p.cls_status_flg(INTERRUPT_DISABLE_FLG);
                Ok(())
            },
            OpcodeType::CLV => {
                self.p.cls_status_flg(OVERFLOW_FLG);
                Ok(())
            },
            OpcodeType::SEC => {
                self.p.set_status_flg(CARRY_FLG);
                Ok(())
            },
            OpcodeType::SED => {
                self.p.set_status_flg(DECIMAL_MODE_FLG);
                Ok(())
            },
            OpcodeType::SEI => {
                self.p.set_status_flg(INTERRUPT_DISABLE_FLG);
                Ok(())
            },
            OpcodeType::JMP => {
                match opref {
                    OperandRef::Address(ad) => {
                        self.pc.pc = ad;
                        Ok(())
                    },
                    _ => Ok(()),
                }
            },
            OpcodeType::JSR => {
                match opref {
                    OperandRef::Address(ad) => {
                        let ret = self.pc.pc.wrapping_sub(1);
                        self.push_stack((ret >> 8u16) as u8);
                        self.push_stack((ret & 0x00FF) as u8);
                        self.pc.pc = ad;
                        Ok(())
                    },
                    _ => Ok(()),
                }
            },
            OpcodeType::RTS => {
                let lo = self.pop_stack();
                let hi = self.pop_stack();
                self.pc.pc = ((lo as u16) | ((hi as u16) << 8u16)).wrapping_add(1);
                Ok(())
            },
            OpcodeType::RTI => {
                let pv = self.pop_stack();
                let lo = self.pop_stack();
                let hi = self.pop_stack();
                self.p.set_status_flg_all(pv);
                self.p.cls_status_flg(BREAK_COMMAND_FLG);
                self.pc.pc = (lo as u16) | ((hi as u16) << 8u16);
                Ok(())
            },
            OpcodeType::BRK => {
                let p0 = self.p.get_status_flg_all();
                let ret = self.pc.pc.wrapping_add(1);
                self.push_stack((ret >> 8u16) as u8);
                self.push_stack((ret & 0x00FF) as u8);
                self.push_stack(p0 | BREAK_COMMAND_FLG);
                self.p.set_status_flg(INTERRUPT_DISABLE_FLG);
                let lo = match self.read(ADDR_VEC_TBL_IRQ) {
                    Ok(v) => v,
                    Err(_) => 0,
                };
                let hi = match self.read(ADDR_VEC_TBL_IRQ + 1) {
                    Ok(v) => v,
                    Err(_) => 0,
                };
                self.pc.pc = (lo as u16) | ((hi as u16) << 8u16);
                proof {
                    assert(self@ =~= brk_spec(old(self)@));
                }
                Ok(())
            },
            OpcodeType::BCC | OpcodeType::BCS | OpcodeType::BNE | OpcodeType::BEQ
                | OpcodeType::BPL | OpcodeType::BMI | OpcodeType::BVC | OpcodeType::BVS => {
                let taken = match op {
                    OpcodeType::BCC => !self.p.get_status_flg(CARRY_FLG),
                    OpcodeType::BCS => self.p.get_status_flg(CARRY_FLG),
                    OpcodeType::BNE => !self.p.get_status_flg(ZERO_FLG),
                    OpcodeType::BEQ => self.p.get_status_flg(ZERO_FLG),
                    OpcodeType::BPL => !self.p.get_status_flg(NEGATIVE_FLG),
                    OpcodeType::BMI => self.p.get_status_flg(NEGATIVE_FLG),
                    OpcodeType::BVC => !self.p.get_status_flg(OVERFLOW_FLG),
                    _ => self.p.get_status_flg(OVERFLOW_FLG),
                };
                match opref {
                    OperandRef::Address(t) => {
                        if taken {
                            self.pc.pc = t;
                        }
                        Ok(())
                    },
                    _ => Ok(()),
                }
            },
            _ => Ok(()),
        }
    }

    /// Executes one decoded instruction: resolves the operand and applies
    /// the mnemonic; NOP only consumes its operand bytes, STP latches the
    /// halt, UNK reports an unknown opcode.
    #[verifier::rlimit(60)]
    pub fn execute_instruction(&mut self, opcode: OpcodeType, addressing: AddrMode) -> (r: Result<
        (),
        EmuError,
    >)
        requires
            cpu_wf(old(self)@),
        ensures
            cpu_wf(final(self)@),
            final(self)@ == exec_instr_spec(old(self)@, opcode, addressing).0,
            r == exec_instr_spec(old(self)@, opcode, addressing).1,
    {
        match opcode {
            OpcodeType::NOP => {
                let l = operand_len(addressing);
                self.pc.pc = self.pc.pc.wrapping_add(l);
                Ok(())
            },
            OpcodeType::STP => {
                self.halted = true;
                Ok(())
            },
            OpcodeType::UNK => Err(EmuError::UnknownOpcode),
            _ => {
                let opref = self.read_operand(addressing)?;
                self.apply_op(opcode, opref)
            },
        }
    }

    /// One CPU step: fetch, decode, execute.  Refuses to run while
    /// halted.
    pub fn step(&mut self) -> (r: Result<(), EmuError>)
        requires
            cpu_wf(old(self)@),
        ensures
            cpu_wf(final(self)@),
            final(self)@ == step_spec(old(self)@).0,
            r == step_spec(old(self)@).1,
    {
        proof {
            reveal(step_spec);
        }
        if self.halted {
            return Err(EmuError::Halted);
        }
        let opb = self.fetch_pc()?;
        let (op, mode) = decode_instruction(opb);
        self.execute_instruction(op, mode)
    }

    /// Reset entry: clears the registers and loads PC from the reset
    /// vector.
    pub fn reset(&mut self)
        requires
            cpu_wf(old(self)@),
        ensures
            cpu_wf(final(self)@),
            final(self)@ == reset_spec(old(self)@),
    {
        self.a = 0;
        self.x = 0;
        self.y = 0;
        self.sp = 0xFF;
        self.p = StatusRegister::new();
        self.halted = false;
        let lo = match self.read(ADDR_VEC_TBL_RST) {
            Ok(v) => v,
            Err(_) => 0,
        };
        let hi = match self.read(ADDR_VEC_TBL_RST + 1) {
            Ok(v) => v,
            Err(_) => 0,
        };
        self.pc.pc = (lo as u16) | ((hi as u16) << 8u16);
        proof {
            assert(self@ =~= reset_spec(old(self)@));
        }
    }

    /// Maskable interrupt poll: taken only when the I flag is clear.
    pub fn irq(&mut self)
        requires
            cpu_wf(old(self)@),
        ensures
            cpu_wf(final(self)@),
            has_flag(old(self)@.p, INTERRUPT_DISABLE_FLG) ==> final(self)@ == old(self)@,
            !has_flag(old(self)@.p, INTERRUPT_DISABLE_FLG) ==> final(self)@ == interrupt_spec(
                old(self)@,
                ADDR_VEC_TBL_IRQ,
            ),
    {
        if !self.p.get_status_flg(INTERRUPT_DISABLE_FLG) {
            self.do_interrupt(ADDR_VEC_TBL_IRQ);
        }
    }

    /// Non-maskable interrupt entry.
    pub fn nmi(&mut self)
        requires
            cpu_wf(old(self)@),
        ensures
            cpu_wf(final(self)@),
            final(self)@ == interrupt_spec(old(self)@, ADDR_VEC_TBL_NMI),
    {
        self.do_interrupt(ADDR_VEC_TBL_NMI);
    }

    /// Common interrupt sequence: push PC and the status (B clear), set
    /// I, and load PC from the vector.
    fn do_interrupt(&mut self, vec: u16)
        requires
            cpu_wf(old(self)@),
            vec == ADDR_VEC_TBL_IRQ || vec == ADDR_VEC_TBL_NMI,
        ensures
            cpu_wf(final(self)@),
            final(self)@ == interrupt_spec(old(self)@, vec),
    {
        let p0 = self.p.get_status_flg_all();
        let pc0 = self.pc.pc;
        self.push_stack((pc0 >> 8u16) as u8);
        self.push_stack((pc0 & 0x00FF) as u8);
        self.push_stack(p0 & !BREAK_COMMAND_FLG);
        self.p.set_status_flg(INTERRUPT_DISABLE_FLG);
        let lo = match self.read(vec) {
            Ok(v) => v,
            Err(_) => 0,
        };
        let hi = match self.read(vec + 1) {
            Ok(v) => v,
            Err(_) => 0,
        };
        self.pc.pc = (lo as u16) | ((hi as u16) << 8u16);
        proof {
            assert(self@ =~= interrupt_spec(old(self)@, vec));
        }
    }

    /// Debug snapshot: accumulator.
    pub fn get_a(&self) -> (r: u8)
        ensures
            r == self@.a,
    {
        self.a
    }

    /// Debug snapshot: X index register.
    pub fn get_x(&self) -> (r: u8)
        ensures
            r == self@.x,
    {
        self.x
    }

    /// Debug snapshot: Y index register.
    pub fn get_y(&self) -> (r: u8)
        ensures
            r == self@.y,
    {
        self.y
    }

    /// Debug snapshot: stack pointer.
    pub fn get_sp(&self) -> (r: u8)
        ensures
            r == self@.sp,
    {
        self.sp
    }

    /// Debug snapshot: status byte.
    pub fn get_p(&self) -> (r: u8)
        ensures
            r == self@.p,
    {
        self.p.get_status_flg_all()
    }

    /// Debug snapshot: program counter.
    pub fn get_pc(&self) -> (r: u16)
        ensures
            r == self@.pc,
    {
        self.pc.pc
    }
}

/// Disjointness and absorption facts about the concrete flag masks.
proof fn lemma_mask_disjoint()
    by (bit_vector)
    ensures
        0x02u8 & 0x01u8 == 0,
        0x80u8 & 0x01u8 == 0,
        0x40u8 & 0x01u8 == 0,
        0x02u8 & 0x40u8 == 0,
        0x80u8 & 0x40u8 == 0,
        0x01u8 & 0x40u8 == 0,
{
}

/// One step over an `LDA #a` instruction in program ROM.
proof fn lemma_step_lda_imm(s: CpuView, a: u8)
    requires
        cpu_wf(s),
        !s.halted,
        0x8000 <= s.pc,
        s.pc + 2 <= 0xFFFF,
        s.mem.prg_rom[s.pc - 0x8000] == 0xA9,
        s.mem.prg_rom[s.pc + 1 - 0x8000] == a,
    ensures
        step_spec(s).0 == (CpuView { a, p: spec_upd_nz(s.p, a), pc: (s.pc + 2) as u16, ..s }),
        step_spec(s).1 == Ok::<(), EmuError>(()),
{
    reveal(step_spec);
    assert(mem_read_result(s.mem, s.pc) == Ok::<u8, EmuError>(0xA9));
    assert(spec_decode(0xA9) == (OpcodeType::LDA, AddrMode::IMM));
    let s1 = fetch_spec(s).0;
    assert(s1.pc == s.pc + 1 && s1.mem == s.mem);
    assert(mem_read_result(s1.mem, s1.pc) == Ok::<u8, EmuError>(a));
    let s2 = resolve_spec(s1, AddrMode::IMM).0;
    assert(resolve_spec(s1, AddrMode::IMM).1 == Ok::<OperandRef, EmuError>(
        OperandRef::Immediate(a),
    ));
    assert(s2.pc == s.pc + 2 && s2.mem == s.mem);
}

/// One step over a `CLC` instruction in program ROM.
proof fn lemma_step_clc(s: CpuView)
    requires
        cpu_wf(s),
        !s.halted,
        0x8000 <= s.pc,
        s.pc + 1 <= 0xFFFF,
        s.mem.prg_rom[s.pc - 0x8000] == 0x18,
    ensures
        step_spec(s).0 == (CpuView { p: s.p & !CARRY_FLG, pc: (s.pc + 1) as u16, ..s }),
        step_spec(s).1 == Ok::<(), EmuError>(()),
{
    reveal(step_spec);
    assert(mem_read_result(s.mem, s.pc) == Ok::<u8, EmuError>(0x18));
    assert(spec_decode(0x18) == (OpcodeType::CLC, AddrMode::IMPL));
    let s1 = fetch_spec(s).0;
    assert(s1.pc == s.pc + 1 && s1.mem == s.mem);
}

/// One step over an `ADC #b` instruction in program ROM.
proof fn lemma_step_adc_imm(s: CpuView, b: u8)
    requires
        cpu_wf(s),
        !s.halted,
        0x8000 <= s.pc,
        s.pc + 2 <= 0xFFFF,
        s.mem.prg_rom[s.pc - 0x8000] == 0x69,
        s.mem.prg_rom[s.pc + 1 - 0x8000] == b,
    ensures
        step_spec(s).0 == adc_spec(
            CpuView { pc: (s.pc + 2) as u16, ..s },
            b,
        ),
        step_spec(s).1 == Ok::<(), EmuError>(()),
{
    reveal(step_spec);
    assert(mem_read_result(s.mem, s.pc) == Ok::<u8, EmuError>(0x69));
    assert(spec_decode(0x69) == (OpcodeType::ADC, AddrMode::IMM));
    let s1 = fetch_spec(s).0;
    assert(s1.pc == s.pc + 1 && s1.mem == s.mem);
    assert(mem_read_result(s1.mem, s1.pc) == Ok::<u8, EmuError>(b));
    let s2 = resolve_spec(s1, AddrMode::IMM).0;
    assert(resolve_spec(s1, AddrMode::IMM).1 == Ok::<OperandRef, EmuError>(
        OperandRef::Immediate(b),
    ));
    assert(s2 == (CpuView { pc: (s.pc + 2) as u16, ..s }));
}

/// Clearing the carry mask leaves the carry flag clear.
proof fn lemma_clear_carry(p: u8)
    ensures
        !has_flag(p & !CARRY_FLG, CARRY_FLG),
{
    crate::status::lemma_flag_bits();
}

/// Reading C and V back out of the flag chain that ADC writes.
proof fn lemma_adc_flag_readout(p: u8, cb: bool, vb: bool, r: u8)
    ensures
        has_flag(spec_upd_nz(spec_upd_v(spec_upd_c(p, cb), vb), r), CARRY_FLG) == cb,
        has_flag(spec_upd_nz(spec_upd_v(spec_upd_c(p, cb), vb), r), OVERFLOW_FLG) == vb,
{
    crate::status::lemma_flag_bits();
    lemma_mask_disjoint();
    let p_c = spec_upd_c(p, cb);
    let pv = spec_upd_v(p_c, vb);
    let pz = spec_upd_nz(pv, r);
    assert(pz & CARRY_FLG == pv & CARRY_FLG);
    assert(pz & OVERFLOW_FLG == pv & OVERFLOW_FLG);
    assert(pv & CARRY_FLG == p_c & CARRY_FLG);
    assert(has_flag(p_c, CARRY_FLG) == cb);
    assert(has_flag(pv, OVERFLOW_FLG) == vb);
}

/// Additive arithmetic of the instruction sequence `LDA #a; CLC; ADC #b`:
/// afterwards A holds the modular sum, C the carry out of bit 7, and V
/// the signed-overflow verdict.  The five program bytes must lie in
/// program ROM at PC.
#[verifier::rlimit(100)]
pub proof fn lemma_lda_clc_adc(s: CpuView, a: u8, b: u8)
    requires
        cpu_wf(s),
        !s.halted,
        0x8000 <= s.pc,
        s.pc + 5 <= 0xFFFF,
        s.mem.prg_rom[s.pc - 0x8000] == 0xA9,
        s.mem.prg_rom[s.pc + 1 - 0x8000] == a,
        s.mem.prg_rom[s.pc + 2 - 0x8000] == 0x18,
        s.mem.prg_rom[s.pc + 3 - 0x8000] == 0x69,
        s.mem.prg_rom[s.pc + 4 - 0x8000] == b,
    ensures
        ({
            let s3 = step_spec(step_spec(step_spec(s).0).0).0;
            &&& step_spec(s).1 == Ok::<(), EmuError>(())
            &&& step_spec(step_spec(s).0).1 == Ok::<(), EmuError>(())
            &&& step_spec(step_spec(step_spec(s).0).0).1 == Ok::<(), EmuError>(())
            &&& s3.a == (a + b) % 256
            &&& has_flag(s3.p, CARRY_FLG) == (a + b >= 256)
            &&& has_flag(s3.p, OVERFLOW_FLG) == spec_add_overflows(a, b, ((a + b) % 256) as u8)
            &&& s3.mem == s.mem
        }),
{
    lemma_step_lda_imm(s, a);
    let s1 = step_spec(s).0;
    lemma_step_clc(s1);
    let s2 = step_spec(s1).0;
    lemma_step_adc_imm(s2, b);
    let s3 = step_spec(s2).0;
    // the carry into the ADC is clear after CLC
    lemma_clear_carry(spec_upd_nz(s.p, a));
    assert(!has_flag(s2.p, CARRY_FLG));
    let r = ((a + b) % 256) as u8;
    assert(s3.a == r && s3.mem == s.mem);
    lemma_adc_flag_readout(s2.p, a + b > 255, spec_add_overflows(a, b, r), r);
}

/// Stack round trip: a push followed by a pop returns the pushed byte and
/// restores SP, at any SP, with the wrap-around consistent between the
/// two operations.
pub proof fn lemma_stack_round_trip(s: CpuView, v: u8)
    requires
        cpu_wf(s),
    ensures
        ({
            let s1 = push_spec(s, v);
            let (s2, r) = pop_spec(s1);
            &&& r == v
            &&& s2.sp == s.sp
            &&& s2.pc == s.pc
            &&& s2.a == s.a
        }),
{
}

} // verus!
