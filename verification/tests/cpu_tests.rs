//! CPU integration tests: flag handling, register moves, logic, stack,
//! subroutines, interrupts, addressing and the memory map.

use nes_core::EmuError;
use nes_core::cpu::RP2A03;
use nes_core::decode::AddrMode;
use nes_core::decode::OpcodeType;
use nes_core::decode::decode_instruction;
use nes_core::status::CARRY_FLG;
use nes_core::status::NEGATIVE_FLG;
use nes_core::status::OVERFLOW_FLG;
use nes_core::status::StatusRegister;
use nes_core::status::ZERO_FLG;

fn load_at(cpu: &mut RP2A03, base: u16, bytes: &[u8]) {
    let mut addr = base;
    for &b in bytes {
        cpu.nes_mem.mem_write(addr, b).unwrap();
        addr = addr.wrapping_add(1);
    }
}

#[test]
fn cpu_test_func() {
    let mut cpu = RP2A03::new();

    // reset reads the reset vector; point it at the top of program ROM
    cpu.nes_mem.mem_write(0xFFFC, 0x00).unwrap();
    cpu.nes_mem.mem_write(0xFFFD, 0x80).unwrap();
    cpu.reset();
    assert_eq!(cpu.get_pc(), 0x8000);

    // flag ops, register moves, logic chain, and a jump back to the start
    cpu.p.set_status_flg(OVERFLOW_FLG);
    let mut prog: Vec<u8> = Vec::new();
    prog.extend([0x38, 0xF8, 0x78, 0x18, 0xD8, 0x58, 0xB8]);
    prog.extend([0xA9, 0x0A, 0xAA, 0x8A, 0xA9, 0x0B, 0xA8, 0x98]);
    prog.extend([0x09, 0xA0, 0x49, 0xBA, 0x29, 0x44]);
    prog.extend([0x4C, 0x00, 0x80]);
    let len = prog.len();
    load_at(&mut cpu, 0x8000, &prog);

    for _ in 1..len {
        cpu.step().unwrap();
    }
    let a = cpu.get_a();
    let x = cpu.get_x();
    let y = cpu.get_y();
    let p = cpu.get_p();
    // loads and logic refresh N and Z, so Z (from AND #$44 -> 0) is set
    assert_eq!(p, 0b0010_0010, "[ERR]: Test Fail ... Status Reg, Not Match!");
    assert_eq!(x, 0x0A, "[ERR]: Test Fail ... X Reg, Not Match!");
    assert_eq!(y, 0x0B, "[ERR]: Test Fail ... Y Reg, Not Match!");
    assert_eq!(a, 0x00, "[ERR]: Test Fail ... A Reg, Not Match!");
}

#[test]
fn flag_manipulation_sequence() {
    let mut cpu = RP2A03::new();
    cpu.p.set_status_flg(OVERFLOW_FLG);
    assert_eq!(cpu.get_p(), 0x60);
    load_at(&mut cpu, 0x8000, &[0x38, 0xF8, 0x78, 0x18, 0xD8, 0x58, 0xB8]);
    for _ in 0..7 {
        cpu.step().unwrap();
    }
    assert_eq!(cpu.get_p(), 0x20);
}

#[test]
fn register_moves() {
    let mut cpu = RP2A03::new();
    load_at(&mut cpu, 0x8000, &[0xA9, 0x0A, 0xAA, 0x8A, 0xA9, 0x0B, 0xA8, 0x98]);
    for _ in 0..8 {
        cpu.step().unwrap();
    }
    assert_eq!(cpu.get_a(), 0x0B);
    assert_eq!(cpu.get_x(), 0x0A);
    assert_eq!(cpu.get_y(), 0x0B);
}

#[test]
fn logic_chain() {
    let mut cpu = RP2A03::new();
    cpu.a = 0x0B;
    load_at(&mut cpu, 0x8000, &[0x09, 0xA0, 0x49, 0xBA, 0x29, 0x44]);
    cpu.step().unwrap();
    assert_eq!(cpu.get_a(), 0xAB);
    cpu.step().unwrap();
    assert_eq!(cpu.get_a(), 0x11);
    cpu.step().unwrap();
    assert_eq!(cpu.get_a(), 0x00);
    let p = cpu.get_p();
    assert_ne!(p & 0x02, 0, "Z must be set");
    assert_eq!(p & 0x80, 0, "N must be clear");
}

#[test]
fn adc_sum_carry_overflow() {
    // LDA #a; CLC; ADC #b
    let cases: [(u8, u8, u8, bool, bool); 4] = [
        (0x50, 0x50, 0xA0, false, true),
        (0xC8, 0x64, 0x2C, true, false),
        (0x00, 0x00, 0x00, false, false),
        (0xFF, 0xFF, 0xFE, true, false),
    ];
    for (a, b, sum, carry, overflow) in cases {
        let mut cpu = RP2A03::new();
        load_at(&mut cpu, 0x8000, &[0xA9, a, 0x18, 0x69, b]);
        cpu.step().unwrap();
        cpu.step().unwrap();
        cpu.step().unwrap();
        assert_eq!(cpu.get_a(), sum);
        assert_eq!(cpu.get_p() & 0x01 != 0, carry, "carry for {a} + {b}");
        assert_eq!(cpu.get_p() & 0x40 != 0, overflow, "overflow for {a} + {b}");
    }
}

#[test]
fn sbc_borrow() {
    // LDA #$50; SEC; SBC #$10 -> A = $40 with C still set
    let mut cpu = RP2A03::new();
    load_at(&mut cpu, 0x8000, &[0xA9, 0x50, 0x38, 0xE9, 0x10]);
    cpu.step().unwrap();
    cpu.step().unwrap();
    cpu.step().unwrap();
    assert_eq!(cpu.get_a(), 0x40);
    assert_ne!(cpu.get_p() & 0x01, 0);
}

#[test]
fn jsr_rts_round_trip() {
    let mut cpu = RP2A03::new();
    load_at(&mut cpu, 0x8000, &[0x20, 0x06, 0x80, 0x00, 0x00, 0x00, 0x60]);
    cpu.step().unwrap();
    assert_eq!(cpu.get_pc(), 0x8006);
    assert_eq!(cpu.get_sp(), 0xFD);
    assert_eq!(cpu.nes_mem.mem_read(0x01FF).unwrap(), 0x80);
    assert_eq!(cpu.nes_mem.mem_read(0x01FE).unwrap(), 0x02);
    cpu.step().unwrap();
    assert_eq!(cpu.get_pc(), 0x8003);
    assert_eq!(cpu.get_sp(), 0xFF);
}

#[test]
fn brk_rti_round_trip() {
    let mut cpu = RP2A03::new();
    cpu.nes_mem.mem_write(0xFFFE, 0x90).unwrap();
    cpu.nes_mem.mem_write(0xFFFF, 0x80).unwrap();
    cpu.nes_mem.mem_write(0x8000, 0x00).unwrap();
    cpu.nes_mem.mem_write(0x8090, 0x40).unwrap();
    let p0 = cpu.get_p();
    assert_eq!(p0 & 0x04, 0, "I must start clear");

    cpu.step().unwrap();
    assert_eq!(cpu.get_pc(), 0x8090);
    assert_ne!(cpu.get_p() & 0x04, 0, "BRK sets I");
    assert_eq!(cpu.nes_mem.mem_read(0x01FF).unwrap(), 0x80);
    assert_eq!(cpu.nes_mem.mem_read(0x01FE).unwrap(), 0x02);
    assert_eq!(cpu.nes_mem.mem_read(0x01FD).unwrap(), p0 | 0x10);

    cpu.step().unwrap();
    assert_eq!(cpu.get_pc(), 0x8002);
    assert_eq!(cpu.get_p(), p0);
    assert_eq!(cpu.get_sp(), 0xFF);
}

#[test]
fn stack_push_pop_wraps() {
    let mut cpu = RP2A03::new();
    // at the power-on SP
    cpu.push_stack(0xAB);
    assert_eq!(cpu.pop_stack(), 0xAB);
    assert_eq!(cpu.get_sp(), 0xFF);
    // across the wrap-around at SP = 0
    cpu.sp = 0x00;
    cpu.push_stack(0xCD);
    assert_eq!(cpu.get_sp(), 0xFF);
    assert_eq!(cpu.pop_stack(), 0xCD);
    assert_eq!(cpu.get_sp(), 0x00);
}

#[test]
fn ram_write_reads_back_through_mirrors() {
    let mut cpu = RP2A03::new();
    for x in [0x0000u16, 0x0123, 0x07FF] {
        cpu.nes_mem.mem_write(x, 0x5A).unwrap();
        for k in 1u16..=3 {
            assert_eq!(cpu.nes_mem.mem_read(x + 0x0800 * k).unwrap(), 0x5A);
        }
        cpu.nes_mem.mem_write(x, 0x00).unwrap();
    }
    // writing a mirror lands in the same cell
    cpu.nes_mem.mem_write(0x1FFF, 0x77).unwrap();
    assert_eq!(cpu.nes_mem.mem_read(0x07FF).unwrap(), 0x77);
}

#[test]
fn ppu_register_window_mirrors_every_eight() {
    let mut cpu = RP2A03::new();
    cpu.nes_mem.mem_write(0x2001, 0x42).unwrap();
    assert_eq!(cpu.nes_mem.mem_read(0x2009).unwrap(), 0x42);
    assert_eq!(cpu.nes_mem.mem_read(0x3FF9).unwrap(), 0x42);
}

#[test]
fn unmapped_gap_is_invalid() {
    let mut cpu = RP2A03::new();
    assert_eq!(cpu.nes_mem.mem_read(0x4018), Err(EmuError::InvalidAddress));
    assert_eq!(cpu.nes_mem.mem_read(0x401F), Err(EmuError::InvalidAddress));
    assert_eq!(cpu.nes_mem.mem_write(0x4019, 1), Err(EmuError::InvalidAddress));
    // an instruction whose operand points into the gap surfaces the error
    let mut cpu2 = RP2A03::new();
    load_at(&mut cpu2, 0x8000, &[0xAD, 0x18, 0x40]);
    assert_eq!(cpu2.step(), Err(EmuError::InvalidAddress));
}

#[test]
fn stp_halts_until_reset() {
    let mut cpu = RP2A03::new();
    cpu.nes_mem.mem_write(0x8000, 0x02).unwrap();
    assert_eq!(cpu.step(), Ok(()));
    assert!(cpu.halted);
    assert_eq!(cpu.step(), Err(EmuError::Halted));
    cpu.nes_mem.mem_write(0xFFFD, 0x80).unwrap();
    cpu.reset();
    assert!(!cpu.halted);
    assert_eq!(cpu.step(), Ok(()));
}

#[test]
fn unknown_opcode_is_reported() {
    let mut cpu = RP2A03::new();
    cpu.nes_mem.mem_write(0x8000, 0xFF).unwrap();
    assert_eq!(cpu.step(), Err(EmuError::UnknownOpcode));
}

#[test]
fn nop_advances_by_operand_length() {
    let mut cpu = RP2A03::new();
    // $EA: implied NOP; $80: immediate NOP; $0C: absolute NOP
    load_at(&mut cpu, 0x8000, &[0xEA, 0x80, 0x00, 0x0C, 0x00, 0x00]);
    cpu.step().unwrap();
    assert_eq!(cpu.get_pc(), 0x8001);
    cpu.step().unwrap();
    assert_eq!(cpu.get_pc(), 0x8003);
    cpu.step().unwrap();
    assert_eq!(cpu.get_pc(), 0x8006);
}

#[test]
fn decode_table_samples() {
    assert_eq!(decode_instruction(0xA9), (OpcodeType::LDA, AddrMode::IMM));
    assert_eq!(decode_instruction(0x00), (OpcodeType::BRK, AddrMode::IMPL));
    assert_eq!(decode_instruction(0x6C), (OpcodeType::JMP, AddrMode::IND));
    assert_eq!(decode_instruction(0x96), (OpcodeType::STX, AddrMode::ZpgY));
    assert_eq!(decode_instruction(0xB1), (OpcodeType::LDA, AddrMode::IndY));
    assert_eq!(decode_instruction(0xF2), (OpcodeType::STP, AddrMode::IMPL));
    assert_eq!(decode_instruction(0xFF), (OpcodeType::UNK, AddrMode::IMPL));
}

#[test]
fn addressing_zero_page_and_indexed() {
    let mut cpu = RP2A03::new();
    cpu.nes_mem.mem_write(0x0042, 0x33).unwrap();
    load_at(&mut cpu, 0x8000, &[0xA5, 0x42]);
    cpu.step().unwrap();
    assert_eq!(cpu.get_a(), 0x33);

    // LDA $0040,X with X = 2 reads $0042
    let mut cpu2 = RP2A03::new();
    cpu2.x = 0x02;
    cpu2.nes_mem.mem_write(0x0042, 0x44).unwrap();
    load_at(&mut cpu2, 0x8000, &[0xB5, 0x40]);
    cpu2.step().unwrap();
    assert_eq!(cpu2.get_a(), 0x44);

    // STA $0200,Y with Y = 1 writes $0201
    let mut cpu3 = RP2A03::new();
    cpu3.a = 0x99;
    cpu3.y = 0x01;
    load_at(&mut cpu3, 0x8000, &[0x99, 0x00, 0x02]);
    cpu3.step().unwrap();
    assert_eq!(cpu3.nes_mem.mem_read(0x0201).unwrap(), 0x99);
}

#[test]
fn addressing_indirect_indexed() {
    // LDA ($10),Y with ($0010) = $0300 and Y = 4 reads $0304
    let mut cpu = RP2A03::new();
    cpu.y = 0x04;
    cpu.nes_mem.mem_write(0x0010, 0x00).unwrap();
    cpu.nes_mem.mem_write(0x0011, 0x03).unwrap();
    cpu.nes_mem.mem_write(0x0304, 0x7E).unwrap();
    load_at(&mut cpu, 0x8000, &[0xB1, 0x10]);
    cpu.step().unwrap();
    assert_eq!(cpu.get_a(), 0x7E);
}

#[test]
fn jmp_indirect_reads_pointer_linearly() {
    // JMP ($02FF): the pointer is read at $02FF and $0300 (no page wrap)
    let mut cpu = RP2A03::new();
    cpu.nes_mem.mem_write(0x02FF, 0x34).unwrap();
    cpu.nes_mem.mem_write(0x0300, 0x12).unwrap();
    load_at(&mut cpu, 0x8000, &[0x6C, 0xFF, 0x02]);
    cpu.step().unwrap();
    assert_eq!(cpu.get_pc(), 0x1234);
}

#[test]
fn indexed_indirect_wraps_in_zero_page() {
    // LDA ($FE,X) with X = 3: the pointer cell is ($01, $02)
    let mut cpu = RP2A03::new();
    cpu.x = 0x03;
    cpu.nes_mem.mem_write(0x0001, 0x80).unwrap();
    cpu.nes_mem.mem_write(0x0002, 0x03).unwrap();
    cpu.nes_mem.mem_write(0x0380, 0x6D).unwrap();
    load_at(&mut cpu, 0x8000, &[0xA1, 0xFE]);
    cpu.step().unwrap();
    assert_eq!(cpu.get_a(), 0x6D);
}

#[test]
fn branch_taken_and_not_taken() {
    // BNE +2 with Z clear jumps over one byte of padding
    let mut cpu = RP2A03::new();
    load_at(&mut cpu, 0x8000, &[0xD0, 0x02, 0x00, 0x00, 0xEA]);
    cpu.step().unwrap();
    assert_eq!(cpu.get_pc(), 0x8004);

    // BEQ with Z clear falls through
    let mut cpu2 = RP2A03::new();
    load_at(&mut cpu2, 0x8000, &[0xF0, 0x02]);
    cpu2.step().unwrap();
    assert_eq!(cpu2.get_pc(), 0x8002);

    // backwards branch: BNE -2 loops back to its own opcode
    let mut cpu3 = RP2A03::new();
    load_at(&mut cpu3, 0x8000, &[0xD0, 0xFE]);
    cpu3.step().unwrap();
    assert_eq!(cpu3.get_pc(), 0x8000);
}

#[test]
fn shifts_and_rotates_through_carry() {
    // LDA #$81; ASL A -> A = $02, C = 1; ROL A -> A = $05 (carry rotated in)
    let mut cpu = RP2A03::new();
    load_at(&mut cpu, 0x8000, &[0xA9, 0x81, 0x0A, 0x2A]);
    cpu.step().unwrap();
    cpu.step().unwrap();
    assert_eq!(cpu.get_a(), 0x02);
    assert_ne!(cpu.get_p() & 0x01, 0);
    cpu.step().unwrap();
    assert_eq!(cpu.get_a(), 0x05);
    assert_eq!(cpu.get_p() & 0x01, 0);

    // LDA #$01; LSR A -> A = 0, C = 1, Z = 1; ROR A -> A = $80, N = 1
    let mut cpu2 = RP2A03::new();
    load_at(&mut cpu2, 0x8000, &[0xA9, 0x01, 0x4A, 0x6A]);
    cpu2.step().unwrap();
    cpu2.step().unwrap();
    assert_eq!(cpu2.get_a(), 0x00);
    assert_ne!(cpu2.get_p() & 0x01, 0);
    assert_ne!(cpu2.get_p() & 0x02, 0);
    cpu2.step().unwrap();
    assert_eq!(cpu2.get_a(), 0x80);
    assert_ne!(cpu2.get_p() & 0x80, 0);
}

#[test]
fn inc_dec_memory() {
    let mut cpu = RP2A03::new();
    cpu.nes_mem.mem_write(0x0020, 0xFF).unwrap();
    // INC $20 wraps to 0 and sets Z; DEC $20 wraps back to $FF and sets N
    load_at(&mut cpu, 0x8000, &[0xE6, 0x20, 0xC6, 0x20]);
    cpu.step().unwrap();
    assert_eq!(cpu.nes_mem.mem_read(0x0020).unwrap(), 0x00);
    assert_ne!(cpu.get_p() & 0x02, 0);
    cpu.step().unwrap();
    assert_eq!(cpu.nes_mem.mem_read(0x0020).unwrap(), 0xFF);
    assert_ne!(cpu.get_p() & 0x80, 0);
}

#[test]
fn bit_sets_flags_from_operand() {
    let mut cpu = RP2A03::new();
    cpu.a = 0x01;
    cpu.nes_mem.mem_write(0x0030, 0xC0).unwrap();
    load_at(&mut cpu, 0x8000, &[0x24, 0x30]);
    cpu.step().unwrap();
    let p = cpu.get_p();
    assert_ne!(p & 0x02, 0, "Z from A & M == 0");
    assert_ne!(p & 0x80, 0, "N from bit 7 of M");
    assert_ne!(p & 0x40, 0, "V from bit 6 of M");
}

#[test]
fn compare_sets_carry_and_zero() {
    // LDA #$20; CMP #$10 -> C set, Z clear; CMP #$20 -> C and Z set;
    // CMP #$30 -> C clear, N set
    let mut cpu = RP2A03::new();
    load_at(&mut cpu, 0x8000, &[0xA9, 0x20, 0xC9, 0x10, 0xC9, 0x20, 0xC9, 0x30]);
    cpu.step().unwrap();
    cpu.step().unwrap();
    assert_ne!(cpu.get_p() & 0x01, 0);
    assert_eq!(cpu.get_p() & 0x02, 0);
    cpu.step().unwrap();
    assert_ne!(cpu.get_p() & 0x01, 0);
    assert_ne!(cpu.get_p() & 0x02, 0);
    cpu.step().unwrap();
    assert_eq!(cpu.get_p() & 0x01, 0);
    assert_ne!(cpu.get_p() & 0x80, 0);
}

#[test]
fn status_helper_formulas() {
    let mut p = StatusRegister::new();
    assert_eq!(p.get_status_flg_all(), 0x20, "reserved bit reads as 1");

    let r = p.c_flg_update_add(0xF0, 0x20);
    assert_eq!(r, 0x10, "low byte of $F0 + $20");
    assert!(p.get_status_flg(CARRY_FLG));
    let r = p.c_flg_update_add(0x01, 0x02);
    assert_eq!(r, 0x03);
    assert!(!p.get_status_flg(CARRY_FLG));

    let r = p.c_flg_update_l_shift(0x81);
    assert_eq!(r, 0x02);
    assert!(p.get_status_flg(CARRY_FLG));
    let r = p.c_flg_update_r_shift(0x03);
    assert_eq!(r, 0x01);
    assert!(p.get_status_flg(CARRY_FLG));
    let r = p.c_flg_update_r_shift(0x02);
    assert_eq!(r, 0x01);
    assert!(!p.get_status_flg(CARRY_FLG));

    p.nzv_flg_update(0x00);
    assert!(p.get_status_flg(ZERO_FLG));
    assert!(!p.get_status_flg(NEGATIVE_FLG));
    p.nzv_flg_update(0x80);
    assert!(!p.get_status_flg(ZERO_FLG));
    assert!(p.get_status_flg(NEGATIVE_FLG));
}

#[test]
fn fetch_does_not_advance_pc() {
    let mut cpu = RP2A03::new();
    cpu.nes_mem.mem_write(0x8000, 0xA9).unwrap();
    assert_eq!(cpu.fetch_instruction().unwrap(), 0xA9);
    assert_eq!(cpu.get_pc(), 0x8000);
}

#[test]
fn irq_and_nmi_vectors() {
    let mut cpu = RP2A03::new();
    cpu.nes_mem.mem_write(0xFFFE, 0x34).unwrap();
    cpu.nes_mem.mem_write(0xFFFF, 0x12).unwrap();
    cpu.nes_mem.mem_write(0xFFFA, 0x78).unwrap();
    cpu.nes_mem.mem_write(0xFFFB, 0x56).unwrap();
    cpu.irq();
    assert_eq!(cpu.get_pc(), 0x1234);
    assert_ne!(cpu.get_p() & 0x04, 0);
    // with I set, a second IRQ is ignored, but NMI is not
    cpu.irq();
    assert_eq!(cpu.get_pc(), 0x1234);
    cpu.nmi();
    assert_eq!(cpu.get_pc(), 0x5678);
}
