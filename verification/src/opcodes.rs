use vstd::prelude::*;

verus! {

/// How an instruction's operand bytes turn into an effective address, or
/// `NoneAddressing` for operands that are implicit or the accumulator.
#[allow(non_camel_case_types)]
#[derive(Clone, Copy, Debug, PartialEq, Eq, Structural)]
pub enum AddressingMode {
    Immediate,
    ZeroPage,
    ZeroPage_X,
    ZeroPage_Y,
    Absolute,
    Absolute_X,
    Absolute_Y,
    Indirect_X,
    Indirect_Y,
    NoneAddressing,
}

/// Every instruction mnemonic the decode table knows, whether or not this
/// build implements a handler for it.
#[derive(Clone, Copy, Debug, PartialEq, Eq, Structural)]
pub enum Mnemonic {
    ADC, AND, ASL, BCC, BCS, BEQ, BIT, BMI,
    BNE, BPL, BRK, BVC, BVS, CLC, CLD, CLI,
    CLV, CMP, CPX, CPY, DEC, DEX, DEY, EOR,
    INC, INX, INY, JMP, JSR, LDA, LDX, LDY,
    LSR, NOP, ORA, PHA, PHP, PLA, PLP, ROL,
    ROR, RTI, RTS, SBC, SEC, SED, SEI, STA,
    STX, STY, TAX, TAY, TSX, TXA, TXS, TYA,
}

/// One decode-table entry: what a raw opcode byte stands for and how many
/// bytes the whole instruction occupies (opcode byte included, 1 to 3).
#[derive(Clone, Copy, Debug, PartialEq, Eq, Structural)]
pub struct OpCode {
    pub mnemonic: Mnemonic,
    pub mode: AddressingMode,
    pub bytes: u8,
}

/// The decode table as a mathematical function: the official instruction
/// set, one entry per documented opcode byte; `None` for every byte that no
/// documented instruction uses.
#[verifier::opaque]
pub open spec fn spec_lookup(code: u8) -> Option<OpCode> {
    if code == 0x00 {
        Some(OpCode { mnemonic: Mnemonic::BRK, mode: AddressingMode::NoneAddressing, bytes: 1 })
    } else if code == 0x01 {
        Some(OpCode { mnemonic: Mnemonic::ORA, mode: AddressingMode::Indirect_X, bytes: 2 })
    } else if code == 0x05 {
        Some(OpCode { mnemonic: Mnemonic::ORA, mode: AddressingMode::ZeroPage, bytes: 2 })
    } else if code == 0x06 {
        Some(OpCode { mnemonic: Mnemonic::ASL, mode: AddressingMode::ZeroPage, bytes: 2 })
    } else if code == 0x08 {
        Some(OpCode { mnemonic: Mnemonic::PHP, mode: AddressingMode::NoneAddressing, bytes: 1 })
    } else if code == 0x09 {
        Some(OpCode { mnemonic: Mnemonic::ORA, mode: AddressingMode::Immediate, bytes: 2 })
    } else if code == 0x0a {
        Some(OpCode { mnemonic: Mnemonic::ASL, mode: AddressingMode::NoneAddressing, bytes: 1 })
    } else if code == 0x0d {
        Some(OpCode { mnemonic: Mnemonic::ORA, mode: AddressingMode::Absolute, bytes: 3 })
    } else if code == 0x0e {
        Some(OpCode { mnemonic: Mnemonic::ASL, mode: AddressingMode::Absolute, bytes: 3 })
    } else if code == 0x10 {
        Some(OpCode { mnemonic: Mnemonic::BPL, mode: AddressingMode::NoneAddressing, bytes: 2 })
    } else if code == 0x11 {
        Some(OpCode { mnemonic: Mnemonic::ORA, mode: AddressingMode::Indirect_Y, bytes: 2 })
    } else if code == 0x15 {
        Some(OpCode { mnemonic: Mnemonic::ORA, mode: AddressingMode::ZeroPage_X, bytes: 2 })
    } else if code == 0x16 {
        Some(OpCode { mnemonic: Mnemonic::ASL, mode: AddressingMode::ZeroPage_X, bytes: 2 })
    } else if code == 0x18 {
        Some(OpCode { mnemonic: Mnemonic::CLC, mode: AddressingMode::NoneAddressing, bytes: 1 })
    } else if code == 0x19 {
        Some(OpCode { mnemonic: Mnemonic::ORA, mode: AddressingMode::Absolute_Y, bytes: 3 })
    } else if code == 0x1d {
        Some(OpCode { mnemonic: Mnemonic::ORA, mode: AddressingMode::Absolute_X, bytes: 3 })
    } else if code == 0x1e {
        Some(OpCode { mnemonic: Mnemonic::ASL, mode: AddressingMode::Absolute_X, bytes: 3 })
    } else if code == 0x20 {
        Some(OpCode { mnemonic: Mnemonic::JSR, mode: AddressingMode::Absolute, bytes: 3 })
    } else if code == 0x21 {
        Some(OpCode { mnemonic: Mnemonic::AND, mode: AddressingMode::Indirect_X, bytes: 2 })
    } else if code == 0x24 {
        Some(OpCode { mnemonic: Mnemonic::BIT, mode: AddressingMode::ZeroPage, bytes: 2 })
    } else if code == 0x25 {
        Some(OpCode { mnemonic: Mnemonic::AND, mode: AddressingMode::ZeroPage, bytes: 2 })
    } else if code == 0x26 {
        Some(OpCode { mnemonic: Mnemonic::ROL, mode: AddressingMode::ZeroPage, bytes: 2 })
    } else if code == 0x28 {
        Some(OpCode { mnemonic: Mnemonic::PLP, mode: AddressingMode::NoneAddressing, bytes: 1 })
    } else if code == 0x29 {
        Some(OpCode { mnemonic: Mnemonic::AND, mode: AddressingMode::Immediate, bytes: 2 })
    } else if code == 0x2a {
        Some(OpCode { mnemonic: Mnemonic::ROL, mode: AddressingMode::NoneAddressing, bytes: 1 })
    } else if code == 0x2c {
        Some(OpCode { mnemonic: Mnemonic::BIT, mode: AddressingMode::Absolute, bytes: 3 })
    } else if code == 0x2d {
        Some(OpCode { mnemonic: Mnemonic::AND, mode: AddressingMode::Absolute, bytes: 3 })
    } else if code == 0x2e {
        Some(OpCode { mnemonic: Mnemonic::ROL, mode: AddressingMode::Absolute, bytes: 3 })
    } else if code == 0x30 {
        Some(OpCode { mnemonic: Mnemonic::BMI, mode: AddressingMode::NoneAddressing, bytes: 2 })
    } else if code == 0x31 {
        Some(OpCode { mnemonic: Mnemonic::AND, mode: AddressingMode::Indirect_Y, bytes: 2 })
    } else if code == 0x35 {
        Some(OpCode { mnemonic: Mnemonic::AND, mode: AddressingMode::ZeroPage_X, bytes: 2 })
    } else if code == 0x36 {
        Some(OpCode { mnemonic: Mnemonic::ROL, mode: AddressingMode::ZeroPage_X, bytes: 2 })
    } else if code == 0x38 {
        Some(OpCode { mnemonic: Mnemonic::SEC, mode: AddressingMode::NoneAddressing, bytes: 1 })
    } else if code == 0x39 {
        Some(OpCode { mnemonic: Mnemonic::AND, mode: AddressingMode::Absolute_Y, bytes: 3 })
    } else if code == 0x3d {
        Some(OpCode { mnemonic: Mnemonic::AND, mode: AddressingMode::Absolute_X, bytes: 3 })
    } else if code == 0x3e {
        Some(OpCode { mnemonic: Mnemonic::ROL, mode: AddressingMode::Absolute_X, bytes: 3 })
    } else if code == 0x40 {
        Some(OpCode { mnemonic: Mnemonic::RTI, mode: AddressingMode::NoneAddressing, bytes: 1 })
    } else if code == 0x41 {
        Some(OpCode { mnemonic: Mnemonic::EOR, mode: AddressingMode::Indirect_X, bytes: 2 })
    } else if code == 0x45 {
        Some(OpCode { mnemonic: Mnemonic::EOR, mode: AddressingMode::ZeroPage, bytes: 2 })
    } else if code == 0x46 {
        Some(OpCode { mnemonic: Mnemonic::LSR, mode: AddressingMode::ZeroPage, bytes: 2 })
    } else if code == 0x48 {
        Some(OpCode { mnemonic: Mnemonic::PHA, mode: AddressingMode::NoneAddressing, bytes: 1 })
    } else if code == 0x49 {
        Some(OpCode { mnemonic: Mnemonic::EOR, mode: AddressingMode::Immediate, bytes: 2 })
    } else if code == 0x4a {
        Some(OpCode { mnemonic: Mnemonic::LSR, mode: AddressingMode::NoneAddressing, bytes: 1 })
    } else if code == 0x4c {
        Some(OpCode { mnemonic: Mnemonic::JMP, mode: AddressingMode::Absolute, bytes: 3 })
    } else if code == 0x4d {
        Some(OpCode { mnemonic: Mnemonic::EOR, mode: AddressingMode::Absolute, bytes: 3 })
    } else if code == 0x4e {
        Some(OpCode { mnemonic: Mnemonic::LSR, mode: AddressingMode::Absolute, bytes: 3 })
    } else if code == 0x50 {
        Some(OpCode { mnemonic: Mnemonic::BVC, mode: AddressingMode::NoneAddressing, bytes: 2 })
    } else if code == 0x51 {
        Some(OpCode { mnemonic: Mnemonic::EOR, mode: AddressingMode::Indirect_Y, bytes: 2 })
    } else if code == 0x55 {
        Some(OpCode { mnemonic: Mnemonic::EOR, mode: AddressingMode::ZeroPage_X, bytes: 2 })
    } else if code == 0x56 {
        Some(OpCode { mnemonic: Mnemonic::LSR, mode: AddressingMode::ZeroPage_X, bytes: 2 })
    } else if code == 0x58 {
        Some(OpCode { mnemonic: Mnemonic::CLI, mode: AddressingMode::NoneAddressing, bytes: 1 })
    } else if code == 0x59 {
        Some(OpCode { mnemonic: Mnemonic::EOR, mode: AddressingMode::Absolute_Y, bytes: 3 })
    } else if code == 0x5d {
        Some(OpCode { mnemonic: Mnemonic::EOR, mode: AddressingMode::Absolute_X, bytes: 3 })
    } else if code == 0x5e {
        Some(OpCode { mnemonic: Mnemonic::LSR, mode: AddressingMode::Absolute_X, bytes: 3 })
    } else if code == 0x60 {
        Some(OpCode { mnemonic: Mnemonic::RTS, mode: AddressingMode::NoneAddressing, bytes: 1 })
    } else if code == 0x61 {
        Some(OpCode { mnemonic: Mnemonic::ADC, mode: AddressingMode::Indirect_X, bytes: 2 })
    } else if code == 0x65 {
        Some(OpCode { mnemonic: Mnemonic::ADC, mode: AddressingMode::ZeroPage, bytes: 2 })
    } else if code == 0x66 {
        Some(OpCode { mnemonic: Mnemonic::ROR, mode: AddressingMode::ZeroPage, bytes: 2 })
    } else if code == 0x68 {
        Some(OpCode { mnemonic: Mnemonic::PLA, mode: AddressingMode::NoneAddressing, bytes: 1 })
    } else if code == 0x69 {
        Some(OpCode { mnemonic: Mnemonic::ADC, mode: AddressingMode::Immediate, bytes: 2 })
    } else if code == 0x6a {
        Some(OpCode { mnemonic: Mnemonic::ROR, mode: AddressingMode::NoneAddressing, bytes: 1 })
    } else if code == 0x6c {
        Some(OpCode { mnemonic: Mnemonic::JMP, mode: AddressingMode::NoneAddressing, bytes: 3 })
    } else if code == 0x6d {
        Some(OpCode { mnemonic: Mnemonic::ADC, mode: AddressingMode::Absolute, bytes: 3 })
    } else if code == 0x6e {
        Some(OpCode { mnemonic: Mnemonic::ROR, mode: AddressingMode::Absolute, bytes: 3 })
    } else if code == 0x70 {
        Some(OpCode { mnemonic: Mnemonic::BVS, mode: AddressingMode::NoneAddressing, bytes: 2 })
    } else if code == 0x71 {
        Some(OpCode { mnemonic: Mnemonic::ADC, mode: AddressingMode::Indirect_Y, bytes: 2 })
    } else if code == 0x75 {
        Some(OpCode { mnemonic: Mnemonic::ADC, mode: AddressingMode::ZeroPage_X, bytes: 2 })
    } else if code == 0x76 {
        Some(OpCode { mnemonic: Mnemonic::ROR, mode: AddressingMode::ZeroPage_X, bytes: 2 })
    } else if code == 0x78 {
        Some(OpCode { mnemonic: Mnemonic::SEI, mode: AddressingMode::NoneAddressing, bytes: 1 })
    } else if code == 0x79 {
        Some(OpCode { mnemonic: Mnemonic::ADC, mode: AddressingMode::Absolute_Y, bytes: 3 })
    } else if code == 0x7d {
        Some(OpCode { mnemonic: Mnemonic::ADC, mode: AddressingMode::Absolute_X, bytes: 3 })
    } else if code == 0x7e {
        Some(OpCode { mnemonic: Mnemonic::ROR, mode: AddressingMode::Absolute_X, bytes: 3 })
    } else if code == 0x81 {
        Some(OpCode { mnemonic: Mnemonic::STA, mode: AddressingMode::Indirect_X, bytes: 2 })
    } else if code == 0x84 {
        Some(OpCode { mnemonic: Mnemonic::STY, mode: AddressingMode::ZeroPage, bytes: 2 })
    } else if code == 0x85 {
        Some(OpCode { mnemonic: Mnemonic::STA, mode: AddressingMode::ZeroPage, bytes: 2 })
    } else if code == 0x86 {
        Some(OpCode { mnemonic: Mnemonic::STX, mode: AddressingMode::ZeroPage, bytes: 2 })
    } else if code == 0x88 {
        Some(OpCode { mnemonic: Mnemonic::DEY, mode: AddressingMode::NoneAddressing, bytes: 1 })
    } else if code == 0x8a {
        Some(OpCode { mnemonic: Mnemonic::TXA, mode: AddressingMode::NoneAddressing, bytes: 1 })
    } else if code == 0x8c {
        Some(OpCode { mnemonic: Mnemonic::STY, mode: AddressingMode::Absolute, bytes: 3 })
    } else if code == 0x8d {
        Some(OpCode { mnemonic: Mnemonic::STA, mode: AddressingMode::Absolute, bytes: 3 })
    } else if code == 0x8e {
        Some(OpCode { mnemonic: Mnemonic::STX, mode: AddressingMode::Absolute, bytes: 3 })
    } else if code == 0x90 {
        Some(OpCode { mnemonic: Mnemonic::BCC, mode: AddressingMode::NoneAddressing, bytes: 2 })
    } else if code == 0x91 {
        Some(OpCode { mnemonic: Mnemonic::STA, mode: AddressingMode::Indirect_Y, bytes: 2 })
    } else if code == 0x94 {
        Some(OpCode { mnemonic: Mnemonic::STY, mode: AddressingMode::ZeroPage_X, bytes: 2 })
    } else if code == 0x95 {
        Some(OpCode { mnemonic: Mnemonic::STA, mode: AddressingMode::ZeroPage_X, bytes: 2 })
    } else if code == 0x96 {
        Some(OpCode { mnemonic: Mnemonic::STX, mode: AddressingMode::ZeroPage_Y, bytes: 2 })
    } else if code == 0x98 {
        Some(OpCode { mnemonic: Mnemonic::TYA, mode: AddressingMode::NoneAddressing, bytes: 1 })
    } else if code == 0x99 {
        Some(OpCode { mnemonic: Mnemonic::STA, mode: AddressingMode::Absolute_Y, bytes: 3 })
    } else if code == 0x9a {
        Some(OpCode { mnemonic: Mnemonic::TXS, mode: AddressingMode::NoneAddressing, bytes: 1 })
    } else if code == 0x9d {
        Some(OpCode { mnemonic: Mnemonic::STA, mode: AddressingMode::Absolute_X, bytes: 3 })
    } else if code == 0xa0 {
        Some(OpCode { mnemonic: Mnemonic::LDY, mode: AddressingMode::Immediate, bytes: 2 })
    } else if code == 0xa1 {
        Some(OpCode { mnemonic: Mnemonic::LDA, mode: AddressingMode::Indirect_X, bytes: 2 })
    } else if code == 0xa2 {
        Some(OpCode { mnemonic: Mnemonic::LDX, mode: AddressingMode::Immediate, bytes: 2 })
    } else if code == 0xa4 {
        Some(OpCode { mnemonic: Mnemonic::LDY, mode: AddressingMode::ZeroPage, bytes: 2 })
    } else if code == 0xa5 {
        Some(OpCode { mnemonic: Mnemonic::LDA, mode: AddressingMode::ZeroPage, bytes: 2 })
    } else if code == 0xa6 {
        Some(OpCode { mnemonic: Mnemonic::LDX, mode: AddressingMode::ZeroPage, bytes: 2 })
    } else if code == 0xa8 {
        Some(OpCode { mnemonic: Mnemonic::TAY, mode: AddressingMode::NoneAddressing, bytes: 1 })
    } else if code == 0xa9 {
        Some(OpCode { mnemonic: Mnemonic::LDA, mode: AddressingMode::Immediate, bytes: 2 })
    } else if code == 0xaa {
        Some(OpCode { mnemonic: Mnemonic::TAX, mode: AddressingMode::NoneAddressing, bytes: 1 })
    } else if code == 0xac {
        Some(OpCode { mnemonic: Mnemonic::LDY, mode: AddressingMode::Absolute, bytes: 3 })
    } else if code == 0xad {
        Some(OpCode { mnemonic: Mnemonic::LDA, mode: AddressingMode::Absolute, bytes: 3 })
    } else if code == 0xae {
        Some(OpCode { mnemonic: Mnemonic::LDX, mode: AddressingMode::Absolute, bytes: 3 })
    } else if code == 0xb0 {
        Some(OpCode { mnemonic: Mnemonic::BCS, mode: AddressingMode::NoneAddressing, bytes: 2 })
    } else if code == 0xb1 {
        Some(OpCode { mnemonic: Mnemonic::LDA, mode: AddressingMode::Indirect_Y, bytes: 2 })
    } else if code == 0xb4 {
        Some(OpCode { mnemonic: Mnemonic::LDY, mode: AddressingMode::ZeroPage_X, bytes: 2 })
    } else if code == 0xb5 {
        Some(OpCode { mnemonic: Mnemonic::LDA, mode: AddressingMode::ZeroPage_X, bytes: 2 })
    } else if code == 0xb6 {
        Some(OpCode { mnemonic: Mnemonic::LDX, mode: AddressingMode::ZeroPage_Y, bytes: 2 })
    } else if code == 0xb8 {
        Some(OpCode { mnemonic: Mnemonic::CLV, mode: AddressingMode::NoneAddressing, bytes: 1 })
    } else if code == 0xb9 {
        Some(OpCode { mnemonic: Mnemonic::LDA, mode: AddressingMode::Absolute_Y, bytes: 3 })
    } else if code == 0xba {
        Some(OpCode { mnemonic: Mnemonic::TSX, mode: AddressingMode::NoneAddressing, bytes: 1 })
    } else if code == 0xbc {
        Some(OpCode { mnemonic: Mnemonic::LDY, mode: AddressingMode::Absolute_X, bytes: 3 })
    } else if code == 0xbd {
        Some(OpCode { mnemonic: Mnemonic::LDA, mode: AddressingMode::Absolute_X, bytes: 3 })
    } else if code == 0xbe {
        Some(OpCode { mnemonic: Mnemonic::LDX, mode: AddressingMode::Absolute_Y, bytes: 3 })
    } else if code == 0xc0 {
        Some(OpCode { mnemonic: Mnemonic::CPY, mode: AddressingMode::Immediate, bytes: 2 })
    } else if code == 0xc1 {
        Some(OpCode { mnemonic: Mnemonic::CMP, mode: AddressingMode::Indirect_X, bytes: 2 })
    } else if code == 0xc4 {
        Some(OpCode { mnemonic: Mnemonic::CPY, mode: AddressingMode::ZeroPage, bytes: 2 })
    } else if code == 0xc5 {
        Some(OpCode { mnemonic: Mnemonic::CMP, mode: AddressingMode::ZeroPage, bytes: 2 })
    } else if code == 0xc6 {
        Some(OpCode { mnemonic: Mnemonic::DEC, mode: AddressingMode::ZeroPage, bytes: 2 })
    } else if code == 0xc8 {
        Some(OpCode { mnemonic: Mnemonic::INY, mode: AddressingMode::NoneAddressing, bytes: 1 })
    } else if code == 0xc9 {
        Some(OpCode { mnemonic: Mnemonic::CMP, mode: AddressingMode::Immediate, bytes: 2 })
    } else if code == 0xca {
        Some(OpCode { mnemonic: Mnemonic::DEX, mode: AddressingMode::NoneAddressing, bytes: 1 })
    } else if code == 0xcc {
        Some(OpCode { mnemonic: Mnemonic::CPY, mode: AddressingMode::Absolute, bytes: 3 })
    } else if code == 0xcd {
        Some(OpCode { mnemonic: Mnemonic::CMP, mode: AddressingMode::Absolute, bytes: 3 })
    } else if code == 0xce {
        Some(OpCode { mnemonic: Mnemonic::DEC, mode: AddressingMode::Absolute, bytes: 3 })
    } else if code == 0xd0 {
        Some(OpCode { mnemonic: Mnemonic::BNE, mode: AddressingMode::NoneAddressing, bytes: 2 })
    } else if code == 0xd1 {
        Some(OpCode { mnemonic: Mnemonic::CMP, mode: AddressingMode::Indirect_Y, bytes: 2 })
    } else if code == 0xd5 {
        Some(OpCode { mnemonic: Mnemonic::CMP, mode: AddressingMode::ZeroPage_X, bytes: 2 })
    } else if code == 0xd6 {
        Some(OpCode { mnemonic: Mnemonic::DEC, mode: AddressingMode::ZeroPage_X, bytes: 2 })
    } else if code == 0xd8 {
        Some(OpCode { mnemonic: Mnemonic::CLD, mode: AddressingMode::NoneAddressing, bytes: 1 })
    } else if code == 0xd9 {
        Some(OpCode { mnemonic: Mnemonic::CMP, mode: AddressingMode::Absolute_Y, bytes: 3 })
    } else if code == 0xdd {
        Some(OpCode { mnemonic: Mnemonic::CMP, mode: AddressingMode::Absolute_X, bytes: 3 })
    } else if code == 0xde {
        Some(OpCode { mnemonic: Mnemonic::DEC, mode: AddressingMode::Absolute_X, bytes: 3 })
    } else if code == 0xe0 {
        Some(OpCode { mnemonic: Mnemonic::CPX, mode: AddressingMode::Immediate, bytes: 2 })
    } else if code == 0xe1 {
        Some(OpCode { mnemonic: Mnemonic::SBC, mode: AddressingMode::Indirect_X, bytes: 2 })
    } else if code == 0xe4 {
        Some(OpCode { mnemonic: Mnemonic::CPX, mode: AddressingMode::ZeroPage, bytes: 2 })
    } else if code == 0xe5 {
        Some(OpCode { mnemonic: Mnemonic::SBC, mode: AddressingMode::ZeroPage, bytes: 2 })
    } else if code == 0xe6 {
        Some(OpCode { mnemonic: Mnemonic::INC, mode: AddressingMode::ZeroPage, bytes: 2 })
    } else if code == 0xe8 {
        Some(OpCode { mnemonic: Mnemonic::INX, mode: AddressingMode::NoneAddressing, bytes: 1 })
    } else if code == 0xe9 {
        Some(OpCode { mnemonic: Mnemonic::SBC, mode: AddressingMode::Immediate, bytes: 2 })
    } else if code == 0xea {
        Some(OpCode { mnemonic: Mnemonic::NOP, mode: AddressingMode::NoneAddressing, bytes: 1 })
    } else if code == 0xec {
        Some(OpCode { mnemonic: Mnemonic::CPX, mode: AddressingMode::Absolute, bytes: 3 })
    } else if code == 0xed {
        Some(OpCode { mnemonic: Mnemonic::SBC, mode: AddressingMode::Absolute, bytes: 3 })
    } else if code == 0xee {
        Some(OpCode { mnemonic: Mnemonic::INC, mode: AddressingMode::Absolute, bytes: 3 })
    } else if code == 0xf0 {
        Some(OpCode { mnemonic: Mnemonic::BEQ, mode: AddressingMode::NoneAddressing, bytes: 2 })
    } else if code == 0xf1 {
        Some(OpCode { mnemonic: Mnemonic::SBC, mode: AddressingMode::Indirect_Y, bytes: 2 })
    } else if code == 0xf5 {
        Some(OpCode { mnemonic: Mnemonic::SBC, mode: AddressingMode::ZeroPage_X, bytes: 2 })
    } else if code == 0xf6 {
        Some(OpCode { mnemonic: Mnemonic::INC, mode: AddressingMode::ZeroPage_X, bytes: 2 })
    } else if code == 0xf8 {
        Some(OpCode { mnemonic: Mnemonic::SED, mode: AddressingMode::NoneAddressing, bytes: 1 })
    } else if code == 0xf9 {
        Some(OpCode { mnemonic: Mnemonic::SBC, mode: AddressingMode::Absolute_Y, bytes: 3 })
    } else if code == 0xfd {
        Some(OpCode { mnemonic: Mnemonic::SBC, mode: AddressingMode::Absolute_X, bytes: 3 })
    } else if code == 0xfe {
        Some(OpCode { mnemonic: Mnemonic::INC, mode: AddressingMode::Absolute_X, bytes: 3 })
    } else {
        None
    }
}

/// Looks a raw opcode byte up in the decode table.
pub fn lookup_opcode(code: u8) -> (r: Option<OpCode>)
    ensures
        r == spec_lookup(code),
        (r matches Some(op) ==> 1 <= op.bytes <= 3),
{
    proof {
        reveal(spec_lookup);
    }
    if code == 0x00 {
        Some(OpCode { mnemonic: Mnemonic::BRK, mode: AddressingMode::NoneAddressing, bytes: 1 })
    } else if code == 0x01 {
        Some(OpCode { mnemonic: Mnemonic::ORA, mode: AddressingMode::Indirect_X, bytes: 2 })
    } else if code == 0x05 {
        Some(OpCode { mnemonic: Mnemonic::ORA, mode: AddressingMode::ZeroPage, bytes: 2 })
    } else if code == 0x06 {
        Some(OpCode { mnemonic: Mnemonic::ASL, mode: AddressingMode::ZeroPage, bytes: 2 })
    } else if code == 0x08 {
        Some(OpCode { mnemonic: Mnemonic::PHP, mode: AddressingMode::NoneAddressing, bytes: 1 })
    } else if code == 0x09 {
        Some(OpCode { mnemonic: Mnemonic::ORA, mode: AddressingMode::Immediate, bytes: 2 })
    } else if code == 0x0a {
        Some(OpCode { mnemonic: Mnemonic::ASL, mode: AddressingMode::NoneAddressing, bytes: 1 })
    } else if code == 0x0d {
        Some(OpCode { mnemonic: Mnemonic::ORA, mode: AddressingMode::Absolute, bytes: 3 })
    } else if code == 0x0e {
        Some(OpCode { mnemonic: Mnemonic::ASL, mode: AddressingMode::Absolute, bytes: 3 })
    } else if code == 0x10 {
        Some(OpCode { mnemonic: Mnemonic::BPL, mode: AddressingMode::NoneAddressing, bytes: 2 })
    } else if code == 0x11 {
        Some(OpCode { mnemonic: Mnemonic::ORA, mode: AddressingMode::Indirect_Y, bytes: 2 })
    } else if code == 0x15 {
        Some(OpCode { mnemonic: Mnemonic::ORA, mode: AddressingMode::ZeroPage_X, bytes: 2 })
    } else if code == 0x16 {
        Some(OpCode { mnemonic: Mnemonic::ASL, mode: AddressingMode::ZeroPage_X, bytes: 2 })
    } else if code == 0x18 {
        Some(OpCode { mnemonic: Mnemonic::CLC, mode: AddressingMode::NoneAddressing, bytes: 1 })
    } else if code == 0x19 {
        Some(OpCode { mnemonic: Mnemonic::ORA, mode: AddressingMode::Absolute_Y, bytes: 3 })
    } else if code == 0x1d {
        Some(OpCode { mnemonic: Mnemonic::ORA, mode: AddressingMode::Absolute_X, bytes: 3 })
    } else if code == 0x1e {
        Some(OpCode { mnemonic: Mnemonic::ASL, mode: AddressingMode::Absolute_X, bytes: 3 })
    } else if code == 0x20 {
        Some(OpCode { mnemonic: Mnemonic::JSR, mode: AddressingMode::Absolute, bytes: 3 })
    } else if code == 0x21 {
        Some(OpCode { mnemonic: Mnemonic::AND, mode: AddressingMode::Indirect_X, bytes: 2 })
    } else if code == 0x24 {
        Some(OpCode { mnemonic: Mnemonic::BIT, mode: AddressingMode::ZeroPage, bytes: 2 })
    } else if code == 0x25 {
        Some(OpCode { mnemonic: Mnemonic::AND, mode: AddressingMode::ZeroPage, bytes: 2 })
    } else if code == 0x26 {
        Some(OpCode { mnemonic: Mnemonic::ROL, mode: AddressingMode::ZeroPage, bytes: 2 })
    } else if code == 0x28 {
        Some(OpCode { mnemonic: Mnemonic::PLP, mode: AddressingMode::NoneAddressing, bytes: 1 })
    } else if code == 0x29 {
        Some(OpCode { mnemonic: Mnemonic::AND, mode: AddressingMode::Immediate, bytes: 2 })
    } else if code == 0x2a {
        Some(OpCode { mnemonic: Mnemonic::ROL, mode: AddressingMode::NoneAddressing, bytes: 1 })
    } else if code == 0x2c {
        Some(OpCode { mnemonic: Mnemonic::BIT, mode: AddressingMode::Absolute, bytes: 3 })
    } else if code == 0x2d {
        Some(OpCode { mnemonic: Mnemonic::AND, mode: AddressingMode::Absolute, bytes: 3 })
    } else if code == 0x2e {
        Some(OpCode { mnemonic: Mnemonic::ROL, mode: AddressingMode::Absolute, bytes: 3 })
    } else if code == 0x30 {
        Some(OpCode { mnemonic: Mnemonic::BMI, mode: AddressingMode::NoneAddressing, bytes: 2 })
    } else if code == 0x31 {
        Some(OpCode { mnemonic: Mnemonic::AND, mode: AddressingMode::Indirect_Y, bytes: 2 })
    } else if code == 0x35 {
        Some(OpCode { mnemonic: Mnemonic::AND, mode: AddressingMode::ZeroPage_X, bytes: 2 })
    } else if code == 0x36 {
        Some(OpCode { mnemonic: Mnemonic::ROL, mode: AddressingMode::ZeroPage_X, bytes: 2 })
    } else if code == 0x38 {
        Some(OpCode { mnemonic: Mnemonic::SEC, mode: AddressingMode::NoneAddressing, bytes: 1 })
    } else if code == 0x39 {
        Some(OpCode { mnemonic: Mnemonic::AND, mode: AddressingMode::Absolute_Y, bytes: 3 })
    } else if code == 0x3d {
        Some(OpCode { mnemonic: Mnemonic::AND, mode: AddressingMode::Absolute_X, bytes: 3 })
    } else if code == 0x3e {
        Some(OpCode { mnemonic: Mnemonic::ROL, mode: AddressingMode::Absolute_X, bytes: 3 })
    } else if code == 0x40 {
        Some(OpCode { mnemonic: Mnemonic::RTI, mode: AddressingMode::NoneAddressing, bytes: 1 })
    } else if code == 0x41 {
        Some(OpCode { mnemonic: Mnemonic::EOR, mode: AddressingMode::Indirect_X, bytes: 2 })
    } else if code == 0x45 {
        Some(OpCode { mnemonic: Mnemonic::EOR, mode: AddressingMode::ZeroPage, bytes: 2 })
    } else if code == 0x46 {
        Some(OpCode { mnemonic: Mnemonic::LSR, mode: AddressingMode::ZeroPage, bytes: 2 })
    } else if code == 0x48 {
        Some(OpCode { mnemonic: Mnemonic::PHA, mode: AddressingMode::NoneAddressing, bytes: 1 })
    } else if code == 0x49 {
        Some(OpCode { mnemonic: Mnemonic::EOR, mode: AddressingMode::Immediate, bytes: 2 })
    } else if code == 0x4a {
        Some(OpCode { mnemonic: Mnemonic::LSR, mode: AddressingMode::NoneAddressing, bytes: 1 })
    } else if code == 0x4c {
        Some(OpCode { mnemonic: Mnemonic::JMP, mode: AddressingMode::Absolute, bytes: 3 })
    } else if code == 0x4d {
        Some(OpCode { mnemonic: Mnemonic::EOR, mode: AddressingMode::Absolute, bytes: 3 })
    } else if code == 0x4e {
        Some(OpCode { mnemonic: Mnemonic::LSR, mode: AddressingMode::Absolute, bytes: 3 })
    } else if code == 0x50 {
        Some(OpCode { mnemonic: Mnemonic::BVC, mode: AddressingMode::NoneAddressing, bytes: 2 })
    } else if code == 0x51 {
        Some(OpCode { mnemonic: Mnemonic::EOR, mode: AddressingMode::Indirect_Y, bytes: 2 })
    } else if code == 0x55 {
        Some(OpCode { mnemonic: Mnemonic::EOR, mode: AddressingMode::ZeroPage_X, bytes: 2 })
    } else if code == 0x56 {
        Some(OpCode { mnemonic: Mnemonic::LSR, mode: AddressingMode::ZeroPage_X, bytes: 2 })
    } else if code == 0x58 {
        Some(OpCode { mnemonic: Mnemonic::CLI, mode: AddressingMode::NoneAddressing, bytes: 1 })
    } else if code == 0x59 {
        Some(OpCode { mnemonic: Mnemonic::EOR, mode: AddressingMode::Absolute_Y, bytes: 3 })
    } else if code == 0x5d {
        Some(OpCode { mnemonic: Mnemonic::EOR, mode: AddressingMode::Absolute_X, bytes: 3 })
    } else if code == 0x5e {
        Some(OpCode { mnemonic: Mnemonic::LSR, mode: AddressingMode::Absolute_X, bytes: 3 })
    } else if code == 0x60 {
        Some(OpCode { mnemonic: Mnemonic::RTS, mode: AddressingMode::NoneAddressing, bytes: 1 })
    } else if code == 0x61 {
        Some(OpCode { mnemonic: Mnemonic::ADC, mode: AddressingMode::Indirect_X, bytes: 2 })
    } else if code == 0x65 {
        Some(OpCode { mnemonic: Mnemonic::ADC, mode: AddressingMode::ZeroPage, bytes: 2 })
    } else if code == 0x66 {
        Some(OpCode { mnemonic: Mnemonic::ROR, mode: AddressingMode::ZeroPage, bytes: 2 })
    } else if code == 0x68 {
        Some(OpCode { mnemonic: Mnemonic::PLA, mode: AddressingMode::NoneAddressing, bytes: 1 })
    } else if code == 0x69 {
        Some(OpCode { mnemonic: Mnemonic::ADC, mode: AddressingMode::Immediate, bytes: 2 })
    } else if code == 0x6a {
        Some(OpCode { mnemonic: Mnemonic::ROR, mode: AddressingMode::NoneAddressing, bytes: 1 })
    } else if code == 0x6c {
        Some(OpCode { mnemonic: Mnemonic::JMP, mode: AddressingMode::NoneAddressing, bytes: 3 })
    } else if code == 0x6d {
        Some(OpCode { mnemonic: Mnemonic::ADC, mode: AddressingMode::Absolute, bytes: 3 })
    } else if code == 0x6e {
        Some(OpCode { mnemonic: Mnemonic::ROR, mode: AddressingMode::Absolute, bytes: 3 })
    } else if code == 0x70 {
        Some(OpCode { mnemonic: Mnemonic::BVS, mode: AddressingMode::NoneAddressing, bytes: 2 })
    } else if code == 0x71 {
        Some(OpCode { mnemonic: Mnemonic::ADC, mode: AddressingMode::Indirect_Y, bytes: 2 })
    } else if code == 0x75 {
        Some(OpCode { mnemonic: Mnemonic::ADC, mode: AddressingMode::ZeroPage_X, bytes: 2 })
    } else if code == 0x76 {
        Some(OpCode { mnemonic: Mnemonic::ROR, mode: AddressingMode::ZeroPage_X, bytes: 2 })
    } else if code == 0x78 {
        Some(OpCode { mnemonic: Mnemonic::SEI, mode: AddressingMode::NoneAddressing, bytes: 1 })
    } else if code == 0x79 {
        Some(OpCode { mnemonic: Mnemonic::ADC, mode: AddressingMode::Absolute_Y, bytes: 3 })
    } else if code == 0x7d {
        Some(OpCode { mnemonic: Mnemonic::ADC, mode: AddressingMode::Absolute_X, bytes: 3 })
    } else if code == 0x7e {
        Some(OpCode { mnemonic: Mnemonic::ROR, mode: AddressingMode::Absolute_X, bytes: 3 })
    } else if code == 0x81 {
        Some(OpCode { mnemonic: Mnemonic::STA, mode: AddressingMode::Indirect_X, bytes: 2 })
    } else if code == 0x84 {
        Some(OpCode { mnemonic: Mnemonic::STY, mode: AddressingMode::ZeroPage, bytes: 2 })
    } else if code == 0x85 {
        Some(OpCode { mnemonic: Mnemonic::STA, mode: AddressingMode::ZeroPage, bytes: 2 })
    } else if code == 0x86 {
        Some(OpCode { mnemonic: Mnemonic::STX, mode: AddressingMode::ZeroPage, bytes: 2 })
    } else if code == 0x88 {
        Some(OpCode { mnemonic: Mnemonic::DEY, mode: AddressingMode::NoneAddressing, bytes: 1 })
    } else if code == 0x8a {
        Some(OpCode { mnemonic: Mnemonic::TXA, mode: AddressingMode::NoneAddressing, bytes: 1 })
    } else if code == 0x8c {
        Some(OpCode { mnemonic: Mnemonic::STY, mode: AddressingMode::Absolute, bytes: 3 })
    } else if code == 0x8d {
        Some(OpCode { mnemonic: Mnemonic::STA, mode: AddressingMode::Absolute, bytes: 3 })
    } else if code == 0x8e {
        Some(OpCode { mnemonic: Mnemonic::STX, mode: AddressingMode::Absolute, bytes: 3 })
    } else if code == 0x90 {
        Some(OpCode { mnemonic: Mnemonic::BCC, mode: AddressingMode::NoneAddressing, bytes: 2 })
    } else if code == 0x91 {
        Some(OpCode { mnemonic: Mnemonic::STA, mode: AddressingMode::Indirect_Y, bytes: 2 })
    } else if code == 0x94 {
        Some(OpCode { mnemonic: Mnemonic::STY, mode: AddressingMode::ZeroPage_X, bytes: 2 })
    } else if code == 0x95 {
        Some(OpCode { mnemonic: Mnemonic::STA, mode: AddressingMode::ZeroPage_X, bytes: 2 })
    } else if code == 0x96 {
        Some(OpCode { mnemonic: Mnemonic::STX, mode: AddressingMode::ZeroPage_Y, bytes: 2 })
    } else if code == 0x98 {
        Some(OpCode { mnemonic: Mnemonic::TYA, mode: AddressingMode::NoneAddressing, bytes: 1 })
    } else if code == 0x99 {
        Some(OpCode { mnemonic: Mnemonic::STA, mode: AddressingMode::Absolute_Y, bytes: 3 })
    } else if code == 0x9a {
        Some(OpCode { mnemonic: Mnemonic::TXS, mode: AddressingMode::NoneAddressing, bytes: 1 })
    } else if code == 0x9d {
        Some(OpCode { mnemonic: Mnemonic::STA, mode: AddressingMode::Absolute_X, bytes: 3 })
    } else if code == 0xa0 {
        Some(OpCode { mnemonic: Mnemonic::LDY, mode: AddressingMode::Immediate, bytes: 2 })
    } else if code == 0xa1 {
        Some(OpCode { mnemonic: Mnemonic::LDA, mode: AddressingMode::Indirect_X, bytes: 2 })
    } else if code == 0xa2 {
        Some(OpCode { mnemonic: Mnemonic::LDX, mode: AddressingMode::Immediate, bytes: 2 })
    } else if code == 0xa4 {
        Some(OpCode { mnemonic: Mnemonic::LDY, mode: AddressingMode::ZeroPage, bytes: 2 })
    } else if code == 0xa5 {
        Some(OpCode { mnemonic: Mnemonic::LDA, mode: AddressingMode::ZeroPage, bytes: 2 })
    } else if code == 0xa6 {
        Some(OpCode { mnemonic: Mnemonic::LDX, mode: AddressingMode::ZeroPage, bytes: 2 })
    } else if code == 0xa8 {
        Some(OpCode { mnemonic: Mnemonic::TAY, mode: AddressingMode::NoneAddressing, bytes: 1 })
    } else if code == 0xa9 {
        Some(OpCode { mnemonic: Mnemonic::LDA, mode: AddressingMode::Immediate, bytes: 2 })
    } else if code == 0xaa {
        Some(OpCode { mnemonic: Mnemonic::TAX, mode: AddressingMode::NoneAddressing, bytes: 1 })
    } else if code == 0xac {
        Some(OpCode { mnemonic: Mnemonic::LDY, mode: AddressingMode::Absolute, bytes: 3 })
    } else if code == 0xad {
        Some(OpCode { mnemonic: Mnemonic::LDA, mode: AddressingMode::Absolute, bytes: 3 })
    } else if code == 0xae {
        Some(OpCode { mnemonic: Mnemonic::LDX, mode: AddressingMode::Absolute, bytes: 3 })
    } else if code == 0xb0 {
        Some(OpCode { mnemonic: Mnemonic::BCS, mode: AddressingMode::NoneAddressing, bytes: 2 })
    } else if code == 0xb1 {
        Some(OpCode { mnemonic: Mnemonic::LDA, mode: AddressingMode::Indirect_Y, bytes: 2 })
    } else if code == 0xb4 {
        Some(OpCode { mnemonic: Mnemonic::LDY, mode: AddressingMode::ZeroPage_X, bytes: 2 })
    } else if code == 0xb5 {
        Some(OpCode { mnemonic: Mnemonic::LDA, mode: AddressingMode::ZeroPage_X, bytes: 2 })
    } else if code == 0xb6 {
        Some(OpCode { mnemonic: Mnemonic::LDX, mode: AddressingMode::ZeroPage_Y, bytes: 2 })
    } else if code == 0xb8 {
        Some(OpCode { mnemonic: Mnemonic::CLV, mode: AddressingMode::NoneAddressing, bytes: 1 })
    } else if code == 0xb9 {
        Some(OpCode { mnemonic: Mnemonic::LDA, mode: AddressingMode::Absolute_Y, bytes: 3 })
    } else if code == 0xba {
        Some(OpCode { mnemonic: Mnemonic::TSX, mode: AddressingMode::NoneAddressing, bytes: 1 })
    } else if code == 0xbc {
        Some(OpCode { mnemonic: Mnemonic::LDY, mode: AddressingMode::Absolute_X, bytes: 3 })
    } else if code == 0xbd {
        Some(OpCode { mnemonic: Mnemonic::LDA, mode: AddressingMode::Absolute_X, bytes: 3 })
    } else if code == 0xbe {
        Some(OpCode { mnemonic: Mnemonic::LDX, mode: AddressingMode::Absolute_Y, bytes: 3 })
    } else if code == 0xc0 {
        Some(OpCode { mnemonic: Mnemonic::CPY, mode: AddressingMode::Immediate, bytes: 2 })
    } else if code == 0xc1 {
        Some(OpCode { mnemonic: Mnemonic::CMP, mode: AddressingMode::Indirect_X, bytes: 2 })
    } else if code == 0xc4 {
        Some(OpCode { mnemonic: Mnemonic::CPY, mode: AddressingMode::ZeroPage, bytes: 2 })
    } else if code == 0xc5 {
        Some(OpCode { mnemonic: Mnemonic::CMP, mode: AddressingMode::ZeroPage, bytes: 2 })
    } else if code == 0xc6 {
        Some(OpCode { mnemonic: Mnemonic::DEC, mode: AddressingMode::ZeroPage, bytes: 2 })
    } else if code == 0xc8 {
        Some(OpCode { mnemonic: Mnemonic::INY, mode: AddressingMode::NoneAddressing, bytes: 1 })
    } else if code == 0xc9 {
        Some(OpCode { mnemonic: Mnemonic::CMP, mode: AddressingMode::Immediate, bytes: 2 })
    } else if code == 0xca {
        Some(OpCode { mnemonic: Mnemonic::DEX, mode: AddressingMode::NoneAddressing, bytes: 1 })
    } else if code == 0xcc {
        Some(OpCode { mnemonic: Mnemonic::CPY, mode: AddressingMode::Absolute, bytes: 3 })
    } else if code == 0xcd {
        Some(OpCode { mnemonic: Mnemonic::CMP, mode: AddressingMode::Absolute, bytes: 3 })
    } else if code == 0xce {
        Some(OpCode { mnemonic: Mnemonic::DEC, mode: AddressingMode::Absolute, bytes: 3 })
    } else if code == 0xd0 {
        Some(OpCode { mnemonic: Mnemonic::BNE, mode: AddressingMode::NoneAddressing, bytes: 2 })
    } else if code == 0xd1 {
        Some(OpCode { mnemonic: Mnemonic::CMP, mode: AddressingMode::Indirect_Y, bytes: 2 })
    } else if code == 0xd5 {
        Some(OpCode { mnemonic: Mnemonic::CMP, mode: AddressingMode::ZeroPage_X, bytes: 2 })
    } else if code == 0xd6 {
        Some(OpCode { mnemonic: Mnemonic::DEC, mode: AddressingMode::ZeroPage_X, bytes: 2 })
    } else if code == 0xd8 {
        Some(OpCode { mnemonic: Mnemonic::CLD, mode: AddressingMode::NoneAddressing, bytes: 1 })
    } else if code == 0xd9 {
        Some(OpCode { mnemonic: Mnemonic::CMP, mode: AddressingMode::Absolute_Y, bytes: 3 })
    } else if code == 0xdd {
        Some(OpCode { mnemonic: Mnemonic::CMP, mode: AddressingMode::Absolute_X, bytes: 3 })
    } else if code == 0xde {
        Some(OpCode { mnemonic: Mnemonic::DEC, mode: AddressingMode::Absolute_X, bytes: 3 })
    } else if code == 0xe0 {
        Some(OpCode { mnemonic: Mnemonic::CPX, mode: AddressingMode::Immediate, bytes: 2 })
    } else if code == 0xe1 {
        Some(OpCode { mnemonic: Mnemonic::SBC, mode: AddressingMode::Indirect_X, bytes: 2 })
    } else if code == 0xe4 {
        Some(OpCode { mnemonic: Mnemonic::CPX, mode: AddressingMode::ZeroPage, bytes: 2 })
    } else if code == 0xe5 {
        Some(OpCode { mnemonic: Mnemonic::SBC, mode: AddressingMode::ZeroPage, bytes: 2 })
    } else if code == 0xe6 {
        Some(OpCode { mnemonic: Mnemonic::INC, mode: AddressingMode::ZeroPage, bytes: 2 })
    } else if code == 0xe8 {
        Some(OpCode { mnemonic: Mnemonic::INX, mode: AddressingMode::NoneAddressing, bytes: 1 })
    } else if code == 0xe9 {
        Some(OpCode { mnemonic: Mnemonic::SBC, mode: AddressingMode::Immediate, bytes: 2 })
    } else if code == 0xea {
        Some(OpCode { mnemonic: Mnemonic::NOP, mode: AddressingMode::NoneAddressing, bytes: 1 })
    } else if code == 0xec {
        Some(OpCode { mnemonic: Mnemonic::CPX, mode: AddressingMode::Absolute, bytes: 3 })
    } else if code == 0xed {
        Some(OpCode { mnemonic: Mnemonic::SBC, mode: AddressingMode::Absolute, bytes: 3 })
    } else if code == 0xee {
        Some(OpCode { mnemonic: Mnemonic::INC, mode: AddressingMode::Absolute, bytes: 3 })
    } else if code == 0xf0 {
        Some(OpCode { mnemonic: Mnemonic::BEQ, mode: AddressingMode::NoneAddressing, bytes: 2 })
    } else if code == 0xf1 {
        Some(OpCode { mnemonic: Mnemonic::SBC, mode: AddressingMode::Indirect_Y, bytes: 2 })
    } else if code == 0xf5 {
        Some(OpCode { mnemonic: Mnemonic::SBC, mode: AddressingMode::ZeroPage_X, bytes: 2 })
    } else if code == 0xf6 {
        Some(OpCode { mnemonic: Mnemonic::INC, mode: AddressingMode::ZeroPage_X, bytes: 2 })
    } else if code == 0xf8 {
        Some(OpCode { mnemonic: Mnemonic::SED, mode: AddressingMode::NoneAddressing, bytes: 1 })
    } else if code == 0xf9 {
        Some(OpCode { mnemonic: Mnemonic::SBC, mode: AddressingMode::Absolute_Y, bytes: 3 })
    } else if code == 0xfd {
        Some(OpCode { mnemonic: Mnemonic::SBC, mode: AddressingMode::Absolute_X, bytes: 3 })
    } else if code == 0xfe {
        Some(OpCode { mnemonic: Mnemonic::INC, mode: AddressingMode::Absolute_X, bytes: 3 })
    } else {
        None
    }
}

} // verus!
