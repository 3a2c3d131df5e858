//! Static decode table of the 151 documented opcodes plus the NOP and
//! halt variants of the undocumented ones: each opcode byte maps to a
//! mnemonic and an addressing mode.

use vstd::prelude::*;

verus! {

/// Instruction mnemonics.
#[derive(Clone, Copy, Debug, PartialEq, Eq, Structural)]
pub enum OpcodeType {
    LDA, LDX, LDY, STA, STX, STY,
    TAX, TAY, TXA, TYA,
    TSX, TXS, PHA, PHP, PLA, PLP,
    AND, ORA, EOR, BIT,
    ADC, SBC, CMP, CPX, CPY, INC, INX, INY, DEC, DEX, DEY,
    ASL, LSR, ROL, ROR,
    JMP, JSR,
    BCC, BCS, BNE, BEQ, BPL, BMI, BVC, BVS,
    CLC, CLD, CLI, CLV, SEC, SED, SEI,
    RTS, RTI, BRK,
    NOP, STP,
    UNK,
}

/// The thirteen addressing modes.
#[derive(Clone, Copy, Debug, PartialEq, Eq, Structural)]
pub enum AddrMode {
    ACC,
    IMM,
    ZPG,
    ZpgX,
    ZpgY,
    ABS,
    AbsX,
    AbsY,
    IND,
    IndX,
    IndY,
    REL,
    IMPL,
}

/// Bytes of operand that follow the opcode in the instruction stream.
pub open spec fn spec_operand_len(mode: AddrMode) -> u16 {
    match mode {
        AddrMode::ACC => 0u16,
        AddrMode::IMM => 1u16,
        AddrMode::ZPG => 1u16,
        AddrMode::ZpgX => 1u16,
        AddrMode::ZpgY => 1u16,
        AddrMode::ABS => 2u16,
        AddrMode::AbsX => 2u16,
        AddrMode::AbsY => 2u16,
        AddrMode::IND => 2u16,
        AddrMode::IndX => 1u16,
        AddrMode::IndY => 1u16,
        AddrMode::REL => 1u16,
        AddrMode::IMPL => 0u16,
    }
}

/// Bytes of operand that follow the opcode in the instruction stream.
pub fn operand_len(mode: AddrMode) -> (r: u16)
    ensures
        r == spec_operand_len(mode),
{
    match mode {
        AddrMode::ACC => 0u16,
        AddrMode::IMM => 1u16,
        AddrMode::ZPG => 1u16,
        AddrMode::ZpgX => 1u16,
        AddrMode::ZpgY => 1u16,
        AddrMode::ABS => 2u16,
        AddrMode::AbsX => 2u16,
        AddrMode::AbsY => 2u16,
        AddrMode::IND => 2u16,
        AddrMode::IndX => 1u16,
        AddrMode::IndY => 1u16,
        AddrMode::REL => 1u16,
        AddrMode::IMPL => 0u16,
    }
}

/// The decode table: mnemonic and addressing mode of each opcode byte.
/// Unlisted opcodes are unknown (`UNK`).
pub open spec fn spec_decode(op: u8) -> (OpcodeType, AddrMode) {
    match op {
        0x00u8 => (OpcodeType::BRK, AddrMode::IMPL),
        0x01u8 => (OpcodeType::ORA, AddrMode::IndX),
        0x05u8 => (OpcodeType::ORA, AddrMode::ZPG),
        0x06u8 => (OpcodeType::ASL, AddrMode::ZPG),
        0x08u8 => (OpcodeType::PHP, AddrMode::IMPL),
        0x09u8 => (OpcodeType::ORA, AddrMode::IMM),
        0x0Au8 => (OpcodeType::ASL, AddrMode::ACC),
        0x0Du8 => (OpcodeType::ORA, AddrMode::ABS),
        0x0Eu8 => (OpcodeType::ASL, AddrMode::ABS),
        0x10u8 => (OpcodeType::BPL, AddrMode::REL),
        0x11u8 => (OpcodeType::ORA, AddrMode::IndY),
        0x15u8 => (OpcodeType::ORA, AddrMode::ZpgX),
        0x16u8 => (OpcodeType::ASL, AddrMode::ZpgX),
        0x18u8 => (OpcodeType::CLC, AddrMode::IMPL),
        0x19u8 => (OpcodeType::ORA, AddrMode::AbsY),
        0x1Du8 => (OpcodeType::ORA, AddrMode::AbsX),
        0x1Eu8 => (OpcodeType::ASL, AddrMode::AbsX),
        0x20u8 => (OpcodeType::JSR, AddrMode::ABS),
        0x21u8 => (OpcodeType::AND, AddrMode::IndX),
        0x24u8 => (OpcodeType::BIT, AddrMode::ZPG),
        0x25u8 => (OpcodeType::AND, AddrMode::ZPG),
        0x26u8 => (OpcodeType::ROL, AddrMode::ZPG),
        0x28u8 => (OpcodeType::PLP, AddrMode::IMPL),
        0x29u8 => (OpcodeType::AND, AddrMode::IMM),
        0x2Au8 => (OpcodeType::ROL, AddrMode::ACC),
        0x2Cu8 => (OpcodeType::BIT, AddrMode::ABS),
        0x2Du8 => (OpcodeType::AND, AddrMode::ABS),
        0x2Eu8 => (OpcodeType::ROL, AddrMode::ABS),
        0x30u8 => (OpcodeType::BMI, AddrMode::REL),
        0x31u8 => (OpcodeType::AND, AddrMode::IndY),
        0x35u8 => (OpcodeType::AND, AddrMode::ZpgX),
        0x36u8 => (OpcodeType::ROL, AddrMode::ZpgX),
        0x38u8 => (OpcodeType::SEC, AddrMode::IMPL),
        0x39u8 => (OpcodeType::AND, AddrMode::AbsY),
        0x3Du8 => (OpcodeType::AND, AddrMode::AbsX),
        0x3Eu8 => (OpcodeType::ROL, AddrMode::AbsX),
        0x40u8 => (OpcodeType::RTI, AddrMode::IMPL),
        0x41u8 => (OpcodeType::EOR, AddrMode::IndX),
        0x45u8 => (OpcodeType::EOR, AddrMode::ZPG),
        0x46u8 => (OpcodeType::LSR, AddrMode::ZPG),
        0x48u8 => (OpcodeType::PHA, AddrMode::IMPL),
        0x49u8 => (OpcodeType::EOR, AddrMode::IMM),
        0x4Au8 => (OpcodeType::LSR, AddrMode::ACC),
        0x4Cu8 => (OpcodeType::JMP, AddrMode::ABS),
        0x4Du8 => (OpcodeType::EOR, AddrMode::ABS),
        0x4Eu8 => (OpcodeType::LSR, AddrMode::ABS),
        0x50u8 => (OpcodeType::BVC, AddrMode::REL),
        0x51u8 => (OpcodeType::EOR, AddrMode::IndY),
        0x55u8 => (OpcodeType::EOR, AddrMode::ZpgX),
        0x56u8 => (OpcodeType::LSR, AddrMode::ZpgX),
        0x58u8 => (OpcodeType::CLI, AddrMode::IMPL),
        0x59u8 => (OpcodeType::EOR, AddrMode::AbsY),
        0x5Du8 => (OpcodeType::EOR, AddrMode::AbsX),
        0x5Eu8 => (OpcodeType::LSR, AddrMode::AbsX),
        0x60u8 => (OpcodeType::RTS, AddrMode::IMPL),
        0x61u8 => (OpcodeType::ADC, AddrMode::IndX),
        0x65u8 => (OpcodeType::ADC, AddrMode::ZPG),
        0x66u8 => (OpcodeType::ROR, AddrMode::ZPG),
        0x68u8 => (OpcodeType::PLA, AddrMode::IMPL),
        0x69u8 => (OpcodeType::ADC, AddrMode::IMM),
        0x6Au8 => (OpcodeType::ROR, AddrMode::ACC),
        0x6Cu8 => (OpcodeType::JMP, AddrMode::IND),
        0x6Du8 => (OpcodeType::ADC, AddrMode::ABS),
        0x6Eu8 => (OpcodeType::ROR, AddrMode::ABS),
        0x70u8 => (OpcodeType::BVS, AddrMode::REL),
        0x71u8 => (OpcodeType::ADC, AddrMode::IndY),
        0x75u8 => (OpcodeType::ADC, AddrMode::ZpgX),
        0x76u8 => (OpcodeType::ROR, AddrMode::ZpgX),
        0x78u8 => (OpcodeType::SEI, AddrMode::IMPL),
        0x79u8 => (OpcodeType::ADC, AddrMode::AbsY),
        0x7Du8 => (OpcodeType::ADC, AddrMode::AbsX),
        0x7Eu8 => (OpcodeType::ROR, AddrMode::AbsX),
        0x81u8 => (OpcodeType::STA, AddrMode::IndX),
        0x84u8 => (OpcodeType::STY, AddrMode::ZPG),
        0x85u8 => (OpcodeType::STA, AddrMode::ZPG),
        0x86u8 => (OpcodeType::STX, AddrMode::ZPG),
        0x88u8 => (OpcodeType::DEY, AddrMode::IMPL),
        0x8Au8 => (OpcodeType::TXA, AddrMode::IMPL),
        0x8Cu8 => (OpcodeType::STY, AddrMode::ABS),
        0x8Du8 => (OpcodeType::STA, AddrMode::ABS),
        0x8Eu8 => (OpcodeType::STX, AddrMode::ABS),
        0x90u8 => (OpcodeType::BCC, AddrMode::REL),
        0x91u8 => (OpcodeType::STA, AddrMode::IndY),
        0x94u8 => (OpcodeType::STY, AddrMode::ZpgX),
        0x95u8 => (OpcodeType::STA, AddrMode::ZpgX),
        0x96u8 => (OpcodeType::STX, AddrMode::ZpgY),
        0x98u8 => (OpcodeType::TYA, AddrMode::IMPL),
        0x99u8 => (OpcodeType::STA, AddrMode::AbsY),
        0x9Au8 => (OpcodeType::TXS, AddrMode::IMPL),
        0x9Du8 => (OpcodeType::STA, AddrMode::AbsX),
        0xA0u8 => (OpcodeType::LDY, AddrMode::IMM),
        0xA1u8 => (OpcodeType::LDA, AddrMode::IndX),
        0xA2u8 => (OpcodeType::LDX, AddrMode::IMM),
        0xA4u8 => (OpcodeType::LDY, AddrMode::ZPG),
        0xA5u8 => (OpcodeType::LDA, AddrMode::ZPG),
        0xA6u8 => (OpcodeType::LDX, AddrMode::ZPG),
        0xA8u8 => (OpcodeType::TAY, AddrMode::IMPL),
        0xA9u8 => (OpcodeType::LDA, AddrMode::IMM),
        0xAAu8 => (OpcodeType::TAX, AddrMode::IMPL),
        0xACu8 => (OpcodeType::LDY, AddrMode::ABS),
        0xADu8 => (OpcodeType::LDA, AddrMode::ABS),
        0xAEu8 => (OpcodeType::LDX, AddrMode::ABS),
        0xB0u8 => (OpcodeType::BCS, AddrMode::REL),
        0xB1u8 => (OpcodeType::LDA, AddrMode::IndY),
        0xB4u8 => (OpcodeType::LDY, AddrMode::ZpgX),
        0xB5u8 => (OpcodeType::LDA, AddrMode::ZpgX),
        0xB6u8 => (OpcodeType::LDX, AddrMode::ZpgY),
        0xB8u8 => (OpcodeType::CLV, AddrMode::IMPL),
        0xB9u8 => (OpcodeType::LDA, AddrMode::AbsY),
        0xBAu8 => (OpcodeType::TSX, AddrMode::IMPL),
        0xBCu8 => (OpcodeType::LDY, AddrMode::AbsX),
        0xBDu8 => (OpcodeType::LDA, AddrMode::AbsX),
        0xBEu8 => (OpcodeType::LDX, AddrMode::AbsY),
        0xC0u8 => (OpcodeType::CPY, AddrMode::IMM),
        0xC1u8 => (OpcodeType::CMP, AddrMode::IndX),
        0xC4u8 => (OpcodeType::CPY, AddrMode::ZPG),
        0xC5u8 => (OpcodeType::CMP, AddrMode::ZPG),
        0xC6u8 => (OpcodeType::DEC, AddrMode::ZPG),
        0xC8u8 => (OpcodeType::INY, AddrMode::IMPL),
        0xC9u8 => (OpcodeType::CMP, AddrMode::IMM),
        0xCAu8 => (OpcodeType::DEX, AddrMode::IMPL),
        0xCCu8 => (OpcodeType::CPY, AddrMode::ABS),
        0xCDu8 => (OpcodeType::CMP, AddrMode::ABS),
        0xCEu8 => (OpcodeType::DEC, AddrMode::ABS),
        0xD0u8 => (OpcodeType::BNE, AddrMode::REL),
        0xD1u8 => (OpcodeType::CMP, AddrMode::IndY),
        0xD5u8 => (OpcodeType::CMP, AddrMode::ZpgX),
        0xD6u8 => (OpcodeType::DEC, AddrMode::ZpgX),
        0xD8u8 => (OpcodeType::CLD, AddrMode::IMPL),
        0xD9u8 => (OpcodeType::CMP, AddrMode::AbsY),
        0xDDu8 => (OpcodeType::CMP, AddrMode::AbsX),
        0xDEu8 => (OpcodeType::DEC, AddrMode::AbsX),
        0xE0u8 => (OpcodeType::CPX, AddrMode::IMM),
        0xE1u8 => (OpcodeType::SBC, AddrMode::IndX),
        0xE4u8 => (OpcodeType::CPX, AddrMode::ZPG),
        0xE5u8 => (OpcodeType::SBC, AddrMode::ZPG),
        0xE6u8 => (OpcodeType::INC, AddrMode::ZPG),
        0xE8u8 => (OpcodeType::INX, AddrMode::IMPL),
        0xE9u8 => (OpcodeType::SBC, AddrMode::IMM),
        0xECu8 => (OpcodeType::CPX, AddrMode::ABS),
        0xEDu8 => (OpcodeType::SBC, AddrMode::ABS),
        0xEEu8 => (OpcodeType::INC, AddrMode::ABS),
        0xF0u8 => (OpcodeType::BEQ, AddrMode::REL),
        0xF1u8 => (OpcodeType::SBC, AddrMode::IndY),
        0xF5u8 => (OpcodeType::SBC, AddrMode::ZpgX),
        0xF6u8 => (OpcodeType::INC, AddrMode::ZpgX),
        0xF8u8 => (OpcodeType::SED, AddrMode::IMPL),
        0xF9u8 => (OpcodeType::SBC, AddrMode::AbsY),
        0xFDu8 => (OpcodeType::SBC, AddrMode::AbsX),
        0xFEu8 => (OpcodeType::INC, AddrMode::AbsX),
        0x1Au8 | 0x3Au8 | 0x5Au8 | 0x7Au8 | 0xDAu8 | 0xEAu8 | 0xFAu8 => (OpcodeType::NOP, AddrMode::IMPL),
        0x80u8 | 0x82u8 | 0x89u8 | 0xC2u8 | 0xE2u8 => (OpcodeType::NOP, AddrMode::IMM),
        0x04u8 | 0x44u8 | 0x64u8 => (OpcodeType::NOP, AddrMode::ZPG),
        0x14u8 | 0x34u8 | 0x54u8 | 0x74u8 | 0xD4u8 | 0xF4u8 => (OpcodeType::NOP, AddrMode::ZpgX),
        0x0Cu8 => (OpcodeType::NOP, AddrMode::ABS),
        0x1Cu8 | 0x3Cu8 | 0x5Cu8 | 0x7Cu8 | 0xDCu8 | 0xFCu8 => (OpcodeType::NOP, AddrMode::AbsX),
        0x02u8 | 0x12u8 | 0x22u8 | 0x32u8 | 0x42u8 | 0x52u8 | 0x62u8 | 0x72u8 | 0x92u8 | 0xB2u8 | 0xD2u8 | 0xF2u8 => (OpcodeType::STP, AddrMode::IMPL),
        _ => (OpcodeType::UNK, AddrMode::IMPL),
    }
}

/// Looks an opcode byte up in the decode table.
pub fn decode_instruction(op_code: u8) -> (r: (OpcodeType, AddrMode))
    ensures
        r == spec_decode(op_code),
{
    match op_code {
        0x00u8 => (OpcodeType::BRK, AddrMode::IMPL),
        0x01u8 => (OpcodeType::ORA, AddrMode::IndX),
        0x05u8 => (OpcodeType::ORA, AddrMode::ZPG),
        0x06u8 => (OpcodeType::ASL, AddrMode::ZPG),
        0x08u8 => (OpcodeType::PHP, AddrMode::IMPL),
        0x09u8 => (OpcodeType::ORA, AddrMode::IMM),
        0x0Au8 => (OpcodeType::ASL, AddrMode::ACC),
        0x0Du8 => (OpcodeType::ORA, AddrMode::ABS),
        0x0Eu8 => (OpcodeType::ASL, AddrMode::ABS),
        0x10u8 => (OpcodeType::BPL, AddrMode::REL),
        0x11u8 => (OpcodeType::ORA, AddrMode::IndY),
        0x15u8 => (OpcodeType::ORA, AddrMode::ZpgX),
        0x16u8 => (OpcodeType::ASL, AddrMode::ZpgX),
        0x18u8 => (OpcodeType::CLC, AddrMode::IMPL),
        0x19u8 => (OpcodeType::ORA, AddrMode::AbsY),
        0x1Du8 => (OpcodeType::ORA, AddrMode::AbsX),
        0x1Eu8 => (OpcodeType::ASL, AddrMode::AbsX),
        0x20u8 => (OpcodeType::JSR, AddrMode::ABS),
        0x21u8 => (OpcodeType::AND, AddrMode::IndX),
        0x24u8 => (OpcodeType::BIT, AddrMode::ZPG),
        0x25u8 => (OpcodeType::AND, AddrMode::ZPG),
        0x26u8 => (OpcodeType::ROL, AddrMode::ZPG),
        0x28u8 => (OpcodeType::PLP, AddrMode::IMPL),
        0x29u8 => (OpcodeType::AND, AddrMode::IMM),
        0x2Au8 => (OpcodeType::ROL, AddrMode::ACC),
        0x2Cu8 => (OpcodeType::BIT, AddrMode::ABS),
        0x2Du8 => (OpcodeType::AND, AddrMode::ABS),
        0x2Eu8 => (OpcodeType::ROL, AddrMode::ABS),
        0x30u8 => (OpcodeType::BMI, AddrMode::REL),
        0x31u8 => (OpcodeType::AND, AddrMode::IndY),
        0x35u8 => (OpcodeType::AND, AddrMode::ZpgX),
        0x36u8 => (OpcodeType::ROL, AddrMode::ZpgX),
        0x38u8 => (OpcodeType::SEC, AddrMode::IMPL),
        0x39u8 => (OpcodeType::AND, AddrMode::AbsY),
        0x3Du8 => (OpcodeType::AND, AddrMode::AbsX),
        0x3Eu8 => (OpcodeType::ROL, AddrMode::AbsX),
        0x40u8 => (OpcodeType::RTI, AddrMode::IMPL),
        0x41u8 => (OpcodeType::EOR, AddrMode::IndX),
        0x45u8 => (OpcodeType::EOR, AddrMode::ZPG),
        0x46u8 => (OpcodeType::LSR, AddrMode::ZPG),
        0x48u8 => (OpcodeType::PHA, AddrMode::IMPL),
        0x49u8 => (OpcodeType::EOR, AddrMode::IMM),
        0x4Au8 => (OpcodeType::LSR, AddrMode::ACC),
        0x4Cu8 => (OpcodeType::JMP, AddrMode::ABS),
        0x4Du8 => (OpcodeType::EOR, AddrMode::ABS),
        0x4Eu8 => (OpcodeType::LSR, AddrMode::ABS),
        0x50u8 => (OpcodeType::BVC, AddrMode::REL),
        0x51u8 => (OpcodeType::EOR, AddrMode::IndY),
        0x55u8 => (OpcodeType::EOR, AddrMode::ZpgX),
        0x56u8 => (OpcodeType::LSR, AddrMode::ZpgX),
        0x58u8 => (OpcodeType::CLI, AddrMode::IMPL),
        0x59u8 => (OpcodeType::EOR, AddrMode::AbsY),
        0x5Du8 => (OpcodeType::EOR, AddrMode::AbsX),
        0x5Eu8 => (OpcodeType::LSR, AddrMode::AbsX),
        0x60u8 => (OpcodeType::RTS, AddrMode::IMPL),
        0x61u8 => (OpcodeType::ADC, AddrMode::IndX),
        0x65u8 => (OpcodeType::ADC, AddrMode::ZPG),
        0x66u8 => (OpcodeType::ROR, AddrMode::ZPG),
        0x68u8 => (OpcodeType::PLA, AddrMode::IMPL),
        0x69u8 => (OpcodeType::ADC, AddrMode::IMM),
        0x6Au8 => (OpcodeType::ROR, AddrMode::ACC),
        0x6Cu8 => (OpcodeType::JMP, AddrMode::IND),
        0x6Du8 => (OpcodeType::ADC, AddrMode::ABS),
        0x6Eu8 => (OpcodeType::ROR, AddrMode::ABS),
        0x70u8 => (OpcodeType::BVS, AddrMode::REL),
        0x71u8 => (OpcodeType::ADC, AddrMode::IndY),
        0x75u8 => (OpcodeType::ADC, AddrMode::ZpgX),
        0x76u8 => (OpcodeType::ROR, AddrMode::ZpgX),
        0x78u8 => (OpcodeType::SEI, AddrMode::IMPL),
        0x79u8 => (OpcodeType::ADC, AddrMode::AbsY),
        0x7Du8 => (OpcodeType::ADC, AddrMode::AbsX),
        0x7Eu8 => (OpcodeType::ROR, AddrMode::AbsX),
        0x81u8 => (OpcodeType::STA, AddrMode::IndX),
        0x84u8 => (OpcodeType::STY, AddrMode::ZPG),
        0x85u8 => (OpcodeType::STA, AddrMode::ZPG),
        0x86u8 => (OpcodeType::STX, AddrMode::ZPG),
        0x88u8 => (OpcodeType::DEY, AddrMode::IMPL),
        0x8Au8 => (OpcodeType::TXA, AddrMode::IMPL),
        0x8Cu8 => (OpcodeType::STY, AddrMode::ABS),
        0x8Du8 => (OpcodeType::STA, AddrMode::ABS),
        0x8Eu8 => (OpcodeType::STX, AddrMode::ABS),
        0x90u8 => (OpcodeType::BCC, AddrMode::REL),
        0x91u8 => (OpcodeType::STA, AddrMode::IndY),
        0x94u8 => (OpcodeType::STY, AddrMode::ZpgX),
        0x95u8 => (OpcodeType::STA, AddrMode::ZpgX),
        0x96u8 => (OpcodeType::STX, AddrMode::ZpgY),
        0x98u8 => (OpcodeType::TYA, AddrMode::IMPL),
        0x99u8 => (OpcodeType::STA, AddrMode::AbsY),
        0x9Au8 => (OpcodeType::TXS, AddrMode::IMPL),
        0x9Du8 => (OpcodeType::STA, AddrMode::AbsX),
        0xA0u8 => (OpcodeType::LDY, AddrMode::IMM),
        0xA1u8 => (OpcodeType::LDA, AddrMode::IndX),
        0xA2u8 => (OpcodeType::LDX, AddrMode::IMM),
        0xA4u8 => (OpcodeType::LDY, AddrMode::ZPG),
        0xA5u8 => (OpcodeType::LDA, AddrMode::ZPG),
        0xA6u8 => (OpcodeType::LDX, AddrMode::ZPG),
        0xA8u8 => (OpcodeType::TAY, AddrMode::IMPL),
        0xA9u8 => (OpcodeType::LDA, AddrMode::IMM),
        0xAAu8 => (OpcodeType::TAX, AddrMode::IMPL),
        0xACu8 => (OpcodeType::LDY, AddrMode::ABS),
        0xADu8 => (OpcodeType::LDA, AddrMode::ABS),
        0xAEu8 => (OpcodeType::LDX, AddrMode::ABS),
        0xB0u8 => (OpcodeType::BCS, AddrMode::REL),
        0xB1u8 => (OpcodeType::LDA, AddrMode::IndY),
        0xB4u8 => (OpcodeType::LDY, AddrMode::ZpgX),
        0xB5u8 => (OpcodeType::LDA, AddrMode::ZpgX),
        0xB6u8 => (OpcodeType::LDX, AddrMode::ZpgY),
        0xB8u8 => (OpcodeType::CLV, AddrMode::IMPL),
        0xB9u8 => (OpcodeType::LDA, AddrMode::AbsY),
        0xBAu8 => (OpcodeType::TSX, AddrMode::IMPL),
        0xBCu8 => (OpcodeType::LDY, AddrMode::AbsX),
        0xBDu8 => (OpcodeType::LDA, AddrMode::AbsX),
        0xBEu8 => (OpcodeType::LDX, AddrMode::AbsY),
        0xC0u8 => (OpcodeType::CPY, AddrMode::IMM),
        0xC1u8 => (OpcodeType::CMP, AddrMode::IndX),
        0xC4u8 => (OpcodeType::CPY, AddrMode::ZPG),
        0xC5u8 => (OpcodeType::CMP, AddrMode::ZPG),
        0xC6u8 => (OpcodeType::DEC, AddrMode::ZPG),
        0xC8u8 => (OpcodeType::INY, AddrMode::IMPL),
        0xC9u8 => (OpcodeType::CMP, AddrMode::IMM),
        0xCAu8 => (OpcodeType::DEX, AddrMode::IMPL),
        0xCCu8 => (OpcodeType::CPY, AddrMode::ABS),
        0xCDu8 => (OpcodeType::CMP, AddrMode::ABS),
        0xCEu8 => (OpcodeType::DEC, AddrMode::ABS),
        0xD0u8 => (OpcodeType::BNE, AddrMode::REL),
        0xD1u8 => (OpcodeType::CMP, AddrMode::IndY),
        0xD5u8 => (OpcodeType::CMP, AddrMode::ZpgX),
        0xD6u8 => (OpcodeType::DEC, AddrMode::ZpgX),
        0xD8u8 => (OpcodeType::CLD, AddrMode::IMPL),
        0xD9u8 => (OpcodeType::CMP, AddrMode::AbsY),
        0xDDu8 => (OpcodeType::CMP, AddrMode::AbsX),
        0xDEu8 => (OpcodeType::DEC, AddrMode::AbsX),
        0xE0u8 => (OpcodeType::CPX, AddrMode::IMM),
        0xE1u8 => (OpcodeType::SBC, AddrMode::IndX),
        0xE4u8 => (OpcodeType::CPX, AddrMode::ZPG),
        0xE5u8 => (OpcodeType::SBC, AddrMode::ZPG),
        0xE6u8 => (OpcodeType::INC, AddrMode::ZPG),
        0xE8u8 => (OpcodeType::INX, AddrMode::IMPL),
        0xE9u8 => (OpcodeType::SBC, AddrMode::IMM),
        0xECu8 => (OpcodeType::CPX, AddrMode::ABS),
        0xEDu8 => (OpcodeType::SBC, AddrMode::ABS),
        0xEEu8 => (OpcodeType::INC, AddrMode::ABS),
        0xF0u8 => (OpcodeType::BEQ, AddrMode::REL),
        0xF1u8 => (OpcodeType::SBC, AddrMode::IndY),
        0xF5u8 => (OpcodeType::SBC, AddrMode::ZpgX),
        0xF6u8 => (OpcodeType::INC, AddrMode::ZpgX),
        0xF8u8 => (OpcodeType::SED, AddrMode::IMPL),
        0xF9u8 => (OpcodeType::SBC, AddrMode::AbsY),
        0xFDu8 => (OpcodeType::SBC, AddrMode::AbsX),
        0xFEu8 => (OpcodeType::INC, AddrMode::AbsX),
        0x1Au8 | 0x3Au8 | 0x5Au8 | 0x7Au8 | 0xDAu8 | 0xEAu8 | 0xFAu8 => (OpcodeType::NOP, AddrMode::IMPL),
        0x80u8 | 0x82u8 | 0x89u8 | 0xC2u8 | 0xE2u8 => (OpcodeType::NOP, AddrMode::IMM),
        0x04u8 | 0x44u8 | 0x64u8 => (OpcodeType::NOP, AddrMode::ZPG),
        0x14u8 | 0x34u8 | 0x54u8 | 0x74u8 | 0xD4u8 | 0xF4u8 => (OpcodeType::NOP, AddrMode::ZpgX),
        0x0Cu8 => (OpcodeType::NOP, AddrMode::ABS),
        0x1Cu8 | 0x3Cu8 | 0x5Cu8 | 0x7Cu8 | 0xDCu8 | 0xFCu8 => (OpcodeType::NOP, AddrMode::AbsX),
        0x02u8 | 0x12u8 | 0x22u8 | 0x32u8 | 0x42u8 | 0x52u8 | 0x62u8 | 0x72u8 | 0x92u8 | 0xB2u8 | 0xD2u8 | 0xF2u8 => (OpcodeType::STP, AddrMode::IMPL),
        _ => (OpcodeType::UNK, AddrMode::IMPL),
    }
}

} // verus!
