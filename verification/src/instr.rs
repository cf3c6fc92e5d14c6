//! Classification of opcode bytes.
//!
//! Every one of the 256 possible opcode byte values is mapped, totally,
//! to an instruction identity: a mnemonic and an addressing mode. The
//! addressing mode alone determines how many operand bytes follow the
//! opcode and how the operand is rendered. A byte with no defined
//! instruction falls back to the `.db` raw-data pseudo-instruction of
//! length one, so classification never fails and a decoding pass always
//! makes forward progress.

use vstd::prelude::*;

verus! {

/// The addressing mode of an instruction, which fixes its operand
/// width (zero, one or two bytes) and the shape of its operand text.
/// `Raw` stands for an undefined opcode byte rendered as a data byte.
#[derive(Clone, Copy, PartialEq, Eq, Structural, Debug)]
pub enum AddrMode {
    Implied,
    Accumulator,
    Immediate,
    ZeroPage,
    ZeroPageX,
    ZeroPageY,
    IndirectX,
    IndirectY,
    Relative,
    Absolute,
    AbsoluteX,
    AbsoluteY,
    Indirect,
    Raw,
}

/// The instruction mnemonics of the supported instruction set, plus
/// `Db` for the `.db` raw-data pseudo-instruction.
#[derive(Clone, Copy, PartialEq, Eq, Structural, Debug)]
pub enum Mnemonic {
    ADC,
    AND,
    ASL,
    BCC,
    BCS,
    BEQ,
    BIT,
    BMI,
    BNE,
    BPL,
    BRK,
    BVC,
    BVS,
    CLC,
    CLD,
    CLI,
    CLV,
    CMP,
    CPX,
    CPY,
    DEC,
    DEX,
    DEY,
    EOR,
    INC,
    INX,
    INY,
    JMP,
    JSR,
    LDA,
    LDX,
    LDY,
    LSR,
    NOP,
    ORA,
    PHA,
    PHP,
    PLA,
    PLP,
    ROL,
    ROR,
    RTI,
    RTS,
    SBC,
    SEC,
    SED,
    SEI,
    STA,
    STX,
    STY,
    TAX,
    TAY,
    TSX,
    TXA,
    TXS,
    TYA,
    Db,
}

/// The number of bytes an instruction with addressing mode `m`
/// occupies, the opcode byte included.
pub open spec fn spec_mode_len(m: AddrMode) -> int {
    match m {
        AddrMode::Implied => 1,
        AddrMode::Accumulator => 1,
        AddrMode::Raw => 1,
        AddrMode::Absolute => 3,
        AddrMode::AbsoluteX => 3,
        AddrMode::AbsoluteY => 3,
        AddrMode::Indirect => 3,
        _ => 2,
    }
}

/// The total mapping from an opcode byte to its instruction identity.
pub open spec fn spec_classify(op: u8) -> (Mnemonic, AddrMode) {
    match op {
        0x00 => (Mnemonic::BRK, AddrMode::Implied),
        0x01 => (Mnemonic::ORA, AddrMode::IndirectX),
        0x05 => (Mnemonic::ORA, AddrMode::ZeroPage),
        0x06 => (Mnemonic::ASL, AddrMode::ZeroPage),
        0x08 => (Mnemonic::PHP, AddrMode::Implied),
        0x09 => (Mnemonic::ORA, AddrMode::Immediate),
        0x0a => (Mnemonic::ASL, AddrMode::Accumulator),
        0x0d => (Mnemonic::ORA, AddrMode::Absolute),
        0x0e => (Mnemonic::ASL, AddrMode::Absolute),
        0x10 => (Mnemonic::BPL, AddrMode::Relative),
        0x11 => (Mnemonic::ORA, AddrMode::IndirectY),
        0x15 => (Mnemonic::ORA, AddrMode::ZeroPageX),
        0x16 => (Mnemonic::ASL, AddrMode::ZeroPageX),
        0x18 => (Mnemonic::CLC, AddrMode::Implied),
        0x19 => (Mnemonic::ORA, AddrMode::AbsoluteY),
        0x1d => (Mnemonic::ORA, AddrMode::AbsoluteX),
        0x1e => (Mnemonic::ASL, AddrMode::AbsoluteX),
        0x20 => (Mnemonic::JSR, AddrMode::Absolute),
        0x21 => (Mnemonic::AND, AddrMode::IndirectX),
        0x24 => (Mnemonic::BIT, AddrMode::ZeroPage),
        0x25 => (Mnemonic::AND, AddrMode::ZeroPage),
        0x26 => (Mnemonic::ROL, AddrMode::ZeroPage),
        0x28 => (Mnemonic::PLP, AddrMode::Implied),
        0x29 => (Mnemonic::AND, AddrMode::Immediate),
        0x2a => (Mnemonic::ROL, AddrMode::Accumulator),
        0x2c => (Mnemonic::BIT, AddrMode::Absolute),
        0x2d => (Mnemonic::AND, AddrMode::Absolute),
        0x2e => (Mnemonic::ROL, AddrMode::Absolute),
        0x30 => (Mnemonic::BMI, AddrMode::Relative),
        0x31 => (Mnemonic::AND, AddrMode::IndirectY),
        0x35 => (Mnemonic::AND, AddrMode::ZeroPageX),
        0x36 => (Mnemonic::ROL, AddrMode::ZeroPageX),
        0x38 => (Mnemonic::SEC, AddrMode::Implied),
        0x39 => (Mnemonic::AND, AddrMode::AbsoluteY),
        0x3d => (Mnemonic::AND, AddrMode::AbsoluteX),
        0x3e => (Mnemonic::ROL, AddrMode::AbsoluteX),
        0x40 => (Mnemonic::RTI, AddrMode::Implied),
        0x41 => (Mnemonic::EOR, AddrMode::IndirectX),
        0x45 => (Mnemonic::EOR, AddrMode::ZeroPage),
        0x46 => (Mnemonic::LSR, AddrMode::ZeroPage),
        0x48 => (Mnemonic::PHA, AddrMode::Implied),
        0x49 => (Mnemonic::EOR, AddrMode::Immediate),
        0x4a => (Mnemonic::LSR, AddrMode::Accumulator),
        0x4c => (Mnemonic::JMP, AddrMode::Absolute),
        0x4d => (Mnemonic::EOR, AddrMode::Absolute),
        0x4e => (Mnemonic::LSR, AddrMode::Absolute),
        0x50 => (Mnemonic::BVC, AddrMode::Relative),
        0x51 => (Mnemonic::EOR, AddrMode::IndirectY),
        0x55 => (Mnemonic::EOR, AddrMode::ZeroPageX),
        0x56 => (Mnemonic::LSR, AddrMode::ZeroPageX),
        0x58 => (Mnemonic::CLI, AddrMode::Implied),
        0x59 => (Mnemonic::EOR, AddrMode::AbsoluteY),
        0x5d => (Mnemonic::EOR, AddrMode::AbsoluteX),
        0x5e => (Mnemonic::LSR, AddrMode::AbsoluteX),
        0x60 => (Mnemonic::RTS, AddrMode::Implied),
        0x61 => (Mnemonic::ADC, AddrMode::IndirectX),
        0x65 => (Mnemonic::ADC, AddrMode::ZeroPage),
        0x66 => (Mnemonic::ROR, AddrMode::ZeroPage),
        0x68 => (Mnemonic::PLA, AddrMode::Implied),
        0x69 => (Mnemonic::ADC, AddrMode::Immediate),
        0x6a => (Mnemonic::ROR, AddrMode::Accumulator),
        0x6c => (Mnemonic::JMP, AddrMode::Indirect),
        0x6d => (Mnemonic::ADC, AddrMode::Absolute),
        0x6e => (Mnemonic::ROR, AddrMode::AbsoluteX),
        0x70 => (Mnemonic::BVS, AddrMode::Relative),
        0x71 => (Mnemonic::ADC, AddrMode::IndirectY),
        0x75 => (Mnemonic::ADC, AddrMode::ZeroPageX),
        0x76 => (Mnemonic::ROR, AddrMode::ZeroPageX),
        0x78 => (Mnemonic::SEI, AddrMode::Implied),
        0x79 => (Mnemonic::ADC, AddrMode::AbsoluteY),
        0x7d => (Mnemonic::ADC, AddrMode::AbsoluteX),
        0x7e => (Mnemonic::ROR, AddrMode::Absolute),
        0x81 => (Mnemonic::STA, AddrMode::IndirectX),
        0x84 => (Mnemonic::STY, AddrMode::ZeroPage),
        0x85 => (Mnemonic::STA, AddrMode::ZeroPage),
        0x86 => (Mnemonic::STX, AddrMode::ZeroPage),
        0x88 => (Mnemonic::DEY, AddrMode::Implied),
        0x8a => (Mnemonic::TXA, AddrMode::Implied),
        0x8c => (Mnemonic::STY, AddrMode::Absolute),
        0x8d => (Mnemonic::STA, AddrMode::Absolute),
        0x8e => (Mnemonic::STX, AddrMode::Absolute),
        0x90 => (Mnemonic::BCC, AddrMode::Relative),
        0x91 => (Mnemonic::STA, AddrMode::IndirectY),
        0x94 => (Mnemonic::STY, AddrMode::ZeroPageX),
        0x95 => (Mnemonic::STA, AddrMode::ZeroPageX),
        0x96 => (Mnemonic::STX, AddrMode::ZeroPageY),
        0x98 => (Mnemonic::TYA, AddrMode::Implied),
        0x99 => (Mnemonic::STA, AddrMode::AbsoluteY),
        0x9a => (Mnemonic::TXS, AddrMode::Implied),
        0x9d => (Mnemonic::STA, AddrMode::AbsoluteX),
        0xa0 => (Mnemonic::LDY, AddrMode::Immediate),
        0xa1 => (Mnemonic::LDA, AddrMode::IndirectX),
        0xa2 => (Mnemonic::LDX, AddrMode::Immediate),
        0xa4 => (Mnemonic::LDY, AddrMode::ZeroPage),
        0xa5 => (Mnemonic::LDA, AddrMode::ZeroPage),
        0xa6 => (Mnemonic::LDX, AddrMode::ZeroPage),
        0xa8 => (Mnemonic::TAY, AddrMode::Implied),
        0xa9 => (Mnemonic::LDA, AddrMode::Immediate),
        0xaa => (Mnemonic::TAX, AddrMode::Implied),
        0xac => (Mnemonic::LDY, AddrMode::Absolute),
        0xad => (Mnemonic::LDA, AddrMode::Absolute),
        0xae => (Mnemonic::LDX, AddrMode::Absolute),
        0xb0 => (Mnemonic::BCS, AddrMode::Relative),
        0xb1 => (Mnemonic::LDA, AddrMode::IndirectY),
        0xb4 => (Mnemonic::LDY, AddrMode::ZeroPageX),
        0xb5 => (Mnemonic::LDA, AddrMode::ZeroPageX),
        0xb6 => (Mnemonic::LDX, AddrMode::ZeroPageY),
        0xb8 => (Mnemonic::CLV, AddrMode::Implied),
        0xb9 => (Mnemonic::LDA, AddrMode::AbsoluteY),
        0xba => (Mnemonic::TSX, AddrMode::Implied),
        0xbc => (Mnemonic::LDY, AddrMode::AbsoluteX),
        0xbd => (Mnemonic::LDA, AddrMode::AbsoluteX),
        0xbe => (Mnemonic::LDX, AddrMode::AbsoluteY),
        0xc0 => (Mnemonic::CPY, AddrMode::Immediate),
        0xc1 => (Mnemonic::CMP, AddrMode::IndirectX),
        0xc4 => (Mnemonic::CPY, AddrMode::ZeroPage),
        0xc5 => (Mnemonic::CMP, AddrMode::ZeroPage),
        0xc6 => (Mnemonic::DEC, AddrMode::ZeroPage),
        0xc8 => (Mnemonic::INY, AddrMode::Implied),
        0xc9 => (Mnemonic::CMP, AddrMode::Immediate),
        0xca => (Mnemonic::DEX, AddrMode::Implied),
        0xcc => (Mnemonic::CPY, AddrMode::Absolute),
        0xcd => (Mnemonic::CMP, AddrMode::Absolute),
        0xce => (Mnemonic::DEC, AddrMode::Absolute),
        0xd0 => (Mnemonic::BNE, AddrMode::Relative),
        0xd1 => (Mnemonic::CMP, AddrMode::IndirectY),
        0xd5 => (Mnemonic::CMP, AddrMode::ZeroPageX),
        0xd6 => (Mnemonic::DEC, AddrMode::ZeroPageX),
        0xd8 => (Mnemonic::CLD, AddrMode::Implied),
        0xd9 => (Mnemonic::CMP, AddrMode::AbsoluteY),
        0xdd => (Mnemonic::CMP, AddrMode::AbsoluteX),
        0xde => (Mnemonic::DEC, AddrMode::AbsoluteX),
        0xe0 => (Mnemonic::CPX, AddrMode::Immediate),
        0xe1 => (Mnemonic::SBC, AddrMode::IndirectX),
        0xe4 => (Mnemonic::CPX, AddrMode::ZeroPage),
        0xe5 => (Mnemonic::SBC, AddrMode::ZeroPage),
        0xe6 => (Mnemonic::INC, AddrMode::ZeroPage),
        0xe8 => (Mnemonic::INX, AddrMode::Implied),
        0xe9 => (Mnemonic::SBC, AddrMode::Immediate),
        0xea => (Mnemonic::NOP, AddrMode::Implied),
        0xec => (Mnemonic::CPX, AddrMode::Absolute),
        0xed => (Mnemonic::SBC, AddrMode::Absolute),
        0xee => (Mnemonic::INC, AddrMode::Absolute),
        0xf0 => (Mnemonic::BEQ, AddrMode::Relative),
        0xf1 => (Mnemonic::SBC, AddrMode::IndirectY),
        0xf5 => (Mnemonic::SBC, AddrMode::ZeroPageX),
        0xf6 => (Mnemonic::INC, AddrMode::ZeroPageX),
        0xf8 => (Mnemonic::SED, AddrMode::Implied),
        0xf9 => (Mnemonic::SBC, AddrMode::AbsoluteY),
        0xfd => (Mnemonic::SBC, AddrMode::AbsoluteX),
        0xfe => (Mnemonic::INC, AddrMode::AbsoluteX),
        _ => (Mnemonic::Db, AddrMode::Raw),
    }
}

/// The total length in bytes of the instruction whose opcode byte is
/// `op`: always 1, 2 or 3.
pub open spec fn spec_instr_len(op: u8) -> int {
    spec_mode_len(spec_classify(op).1)
}

/// The text of a mnemonic as it appears in the listing.
pub open spec fn spec_mnemonic_view(m: Mnemonic) -> Seq<char> {
    match m {
        Mnemonic::ADC => "ADC"@,
        Mnemonic::AND => "AND"@,
        Mnemonic::ASL => "ASL"@,
        Mnemonic::BCC => "BCC"@,
        Mnemonic::BCS => "BCS"@,
        Mnemonic::BEQ => "BEQ"@,
        Mnemonic::BIT => "BIT"@,
        Mnemonic::BMI => "BMI"@,
        Mnemonic::BNE => "BNE"@,
        Mnemonic::BPL => "BPL"@,
        Mnemonic::BRK => "BRK"@,
        Mnemonic::BVC => "BVC"@,
        Mnemonic::BVS => "BVS"@,
        Mnemonic::CLC => "CLC"@,
        Mnemonic::CLD => "CLD"@,
        Mnemonic::CLI => "CLI"@,
        Mnemonic::CLV => "CLV"@,
        Mnemonic::CMP => "CMP"@,
        Mnemonic::CPX => "CPX"@,
        Mnemonic::CPY => "CPY"@,
        Mnemonic::DEC => "DEC"@,
        Mnemonic::DEX => "DEX"@,
        Mnemonic::DEY => "DEY"@,
        Mnemonic::EOR => "EOR"@,
        Mnemonic::INC => "INC"@,
        Mnemonic::INX => "INX"@,
        Mnemonic::INY => "INY"@,
        Mnemonic::JMP => "JMP"@,
        Mnemonic::JSR => "JSR"@,
        Mnemonic::LDA => "LDA"@,
        Mnemonic::LDX => "LDX"@,
        Mnemonic::LDY => "LDY"@,
        Mnemonic::LSR => "LSR"@,
        Mnemonic::NOP => "NOP"@,
        Mnemonic::ORA => "ORA"@,
        Mnemonic::PHA => "PHA"@,
        Mnemonic::PHP => "PHP"@,
        Mnemonic::PLA => "PLA"@,
        Mnemonic::PLP => "PLP"@,
        Mnemonic::ROL => "ROL"@,
        Mnemonic::ROR => "ROR"@,
        Mnemonic::RTI => "RTI"@,
        Mnemonic::RTS => "RTS"@,
        Mnemonic::SBC => "SBC"@,
        Mnemonic::SEC => "SEC"@,
        Mnemonic::SED => "SED"@,
        Mnemonic::SEI => "SEI"@,
        Mnemonic::STA => "STA"@,
        Mnemonic::STX => "STX"@,
        Mnemonic::STY => "STY"@,
        Mnemonic::TAX => "TAX"@,
        Mnemonic::TAY => "TAY"@,
        Mnemonic::TSX => "TSX"@,
        Mnemonic::TXA => "TXA"@,
        Mnemonic::TXS => "TXS"@,
        Mnemonic::TYA => "TYA"@,
        Mnemonic::Db => ".db"@,
    }
}

/// Classifies an opcode byte into its mnemonic and addressing mode.
pub fn classify(op: u8) -> (r: (Mnemonic, AddrMode))
    ensures
        r == spec_classify(op),
{
    match op {
        0x00 => (Mnemonic::BRK, AddrMode::Implied),
        0x01 => (Mnemonic::ORA, AddrMode::IndirectX),
        0x05 => (Mnemonic::ORA, AddrMode::ZeroPage),
        0x06 => (Mnemonic::ASL, AddrMode::ZeroPage),
        0x08 => (Mnemonic::PHP, AddrMode::Implied),
        0x09 => (Mnemonic::ORA, AddrMode::Immediate),
        0x0a => (Mnemonic::ASL, AddrMode::Accumulator),
        0x0d => (Mnemonic::ORA, AddrMode::Absolute),
        0x0e => (Mnemonic::ASL, AddrMode::Absolute),
        0x10 => (Mnemonic::BPL, AddrMode::Relative),
        0x11 => (Mnemonic::ORA, AddrMode::IndirectY),
        0x15 => (Mnemonic::ORA, AddrMode::ZeroPageX),
        0x16 => (Mnemonic::ASL, AddrMode::ZeroPageX),
        0x18 => (Mnemonic::CLC, AddrMode::Implied),
        0x19 => (Mnemonic::ORA, AddrMode::AbsoluteY),
        0x1d => (Mnemonic::ORA, AddrMode::AbsoluteX),
        0x1e => (Mnemonic::ASL, AddrMode::AbsoluteX),
        0x20 => (Mnemonic::JSR, AddrMode::Absolute),
        0x21 => (Mnemonic::AND, AddrMode::IndirectX),
        0x24 => (Mnemonic::BIT, AddrMode::ZeroPage),
        0x25 => (Mnemonic::AND, AddrMode::ZeroPage),
        0x26 => (Mnemonic::ROL, AddrMode::ZeroPage),
        0x28 => (Mnemonic::PLP, AddrMode::Implied),
        0x29 => (Mnemonic::AND, AddrMode::Immediate),
        0x2a => (Mnemonic::ROL, AddrMode::Accumulator),
        0x2c => (Mnemonic::BIT, AddrMode::Absolute),
        0x2d => (Mnemonic::AND, AddrMode::Absolute),
        0x2e => (Mnemonic::ROL, AddrMode::Absolute),
        0x30 => (Mnemonic::BMI, AddrMode::Relative),
        0x31 => (Mnemonic::AND, AddrMode::IndirectY),
        0x35 => (Mnemonic::AND, AddrMode::ZeroPageX),
        0x36 => (Mnemonic::ROL, AddrMode::ZeroPageX),
        0x38 => (Mnemonic::SEC, AddrMode::Implied),
        0x39 => (Mnemonic::AND, AddrMode::AbsoluteY),
        0x3d => (Mnemonic::AND, AddrMode::AbsoluteX),
        0x3e => (Mnemonic::ROL, AddrMode::AbsoluteX),
        0x40 => (Mnemonic::RTI, AddrMode::Implied),
        0x41 => (Mnemonic::EOR, AddrMode::IndirectX),
        0x45 => (Mnemonic::EOR, AddrMode::ZeroPage),
        0x46 => (Mnemonic::LSR, AddrMode::ZeroPage),
        0x48 => (Mnemonic::PHA, AddrMode::Implied),
        0x49 => (Mnemonic::EOR, AddrMode::Immediate),
        0x4a => (Mnemonic::LSR, AddrMode::Accumulator),
        0x4c => (Mnemonic::JMP, AddrMode::Absolute),
        0x4d => (Mnemonic::EOR, AddrMode::Absolute),
        0x4e => (Mnemonic::LSR, AddrMode::Absolute),
        0x50 => (Mnemonic::BVC, AddrMode::Relative),
        0x51 => (Mnemonic::EOR, AddrMode::IndirectY),
        0x55 => (Mnemonic::EOR, AddrMode::ZeroPageX),
        0x56 => (Mnemonic::LSR, AddrMode::ZeroPageX),
        0x58 => (Mnemonic::CLI, AddrMode::Implied),
        0x59 => (Mnemonic::EOR, AddrMode::AbsoluteY),
        0x5d => (Mnemonic::EOR, AddrMode::AbsoluteX),
        0x5e => (Mnemonic::LSR, AddrMode::AbsoluteX),
        0x60 => (Mnemonic::RTS, AddrMode::Implied),
        0x61 => (Mnemonic::ADC, AddrMode::IndirectX),
        0x65 => (Mnemonic::ADC, AddrMode::ZeroPage),
        0x66 => (Mnemonic::ROR, AddrMode::ZeroPage),
        0x68 => (Mnemonic::PLA, AddrMode::Implied),
        0x69 => (Mnemonic::ADC, AddrMode::Immediate),
        0x6a => (Mnemonic::ROR, AddrMode::Accumulator),
        0x6c => (Mnemonic::JMP, AddrMode::Indirect),
        0x6d => (Mnemonic::ADC, AddrMode::Absolute),
        0x6e => (Mnemonic::ROR, AddrMode::AbsoluteX),
        0x70 => (Mnemonic::BVS, AddrMode::Relative),
        0x71 => (Mnemonic::ADC, AddrMode::IndirectY),
        0x75 => (Mnemonic::ADC, AddrMode::ZeroPageX),
        0x76 => (Mnemonic::ROR, AddrMode::ZeroPageX),
        0x78 => (Mnemonic::SEI, AddrMode::Implied),
        0x79 => (Mnemonic::ADC, AddrMode::AbsoluteY),
        0x7d => (Mnemonic::ADC, AddrMode::AbsoluteX),
        0x7e => (Mnemonic::ROR, AddrMode::Absolute),
        0x81 => (Mnemonic::STA, AddrMode::IndirectX),
        0x84 => (Mnemonic::STY, AddrMode::ZeroPage),
        0x85 => (Mnemonic::STA, AddrMode::ZeroPage),
        0x86 => (Mnemonic::STX, AddrMode::ZeroPage),
        0x88 => (Mnemonic::DEY, AddrMode::Implied),
        0x8a => (Mnemonic::TXA, AddrMode::Implied),
        0x8c => (Mnemonic::STY, AddrMode::Absolute),
        0x8d => (Mnemonic::STA, AddrMode::Absolute),
        0x8e => (Mnemonic::STX, AddrMode::Absolute),
        0x90 => (Mnemonic::BCC, AddrMode::Relative),
        0x91 => (Mnemonic::STA, AddrMode::IndirectY),
        0x94 => (Mnemonic::STY, AddrMode::ZeroPageX),
        0x95 => (Mnemonic::STA, AddrMode::ZeroPageX),
        0x96 => (Mnemonic::STX, AddrMode::ZeroPageY),
        0x98 => (Mnemonic::TYA, AddrMode::Implied),
        0x99 => (Mnemonic::STA, AddrMode::AbsoluteY),
        0x9a => (Mnemonic::TXS, AddrMode::Implied),
        0x9d => (Mnemonic::STA, AddrMode::AbsoluteX),
        0xa0 => (Mnemonic::LDY, AddrMode::Immediate),
        0xa1 => (Mnemonic::LDA, AddrMode::IndirectX),
        0xa2 => (Mnemonic::LDX, AddrMode::Immediate),
        0xa4 => (Mnemonic::LDY, AddrMode::ZeroPage),
        0xa5 => (Mnemonic::LDA, AddrMode::ZeroPage),
        0xa6 => (Mnemonic::LDX, AddrMode::ZeroPage),
        0xa8 => (Mnemonic::TAY, AddrMode::Implied),
        0xa9 => (Mnemonic::LDA, AddrMode::Immediate),
        0xaa => (Mnemonic::TAX, AddrMode::Implied),
        0xac => (Mnemonic::LDY, AddrMode::Absolute),
        0xad => (Mnemonic::LDA, AddrMode::Absolute),
        0xae => (Mnemonic::LDX, AddrMode::Absolute),
        0xb0 => (Mnemonic::BCS, AddrMode::Relative),
        0xb1 => (Mnemonic::LDA, AddrMode::IndirectY),
        0xb4 => (Mnemonic::LDY, AddrMode::ZeroPageX),
        0xb5 => (Mnemonic::LDA, AddrMode::ZeroPageX),
        0xb6 => (Mnemonic::LDX, AddrMode::ZeroPageY),
        0xb8 => (Mnemonic::CLV, AddrMode::Implied),
        0xb9 => (Mnemonic::LDA, AddrMode::AbsoluteY),
        0xba => (Mnemonic::TSX, AddrMode::Implied),
        0xbc => (Mnemonic::LDY, AddrMode::AbsoluteX),
        0xbd => (Mnemonic::LDA, AddrMode::AbsoluteX),
        0xbe => (Mnemonic::LDX, AddrMode::AbsoluteY),
        0xc0 => (Mnemonic::CPY, AddrMode::Immediate),
        0xc1 => (Mnemonic::CMP, AddrMode::IndirectX),
        0xc4 => (Mnemonic::CPY, AddrMode::ZeroPage),
        0xc5 => (Mnemonic::CMP, AddrMode::ZeroPage),
        0xc6 => (Mnemonic::DEC, AddrMode::ZeroPage),
        0xc8 => (Mnemonic::INY, AddrMode::Implied),
        0xc9 => (Mnemonic::CMP, AddrMode::Immediate),
        0xca => (Mnemonic::DEX, AddrMode::Implied),
        0xcc => (Mnemonic::CPY, AddrMode::Absolute),
        0xcd => (Mnemonic::CMP, AddrMode::Absolute),
        0xce => (Mnemonic::DEC, AddrMode::Absolute),
        0xd0 => (Mnemonic::BNE, AddrMode::Relative),
        0xd1 => (Mnemonic::CMP, AddrMode::IndirectY),
        0xd5 => (Mnemonic::CMP, AddrMode::ZeroPageX),
        0xd6 => (Mnemonic::DEC, AddrMode::ZeroPageX),
        0xd8 => (Mnemonic::CLD, AddrMode::Implied),
        0xd9 => (Mnemonic::CMP, AddrMode::AbsoluteY),
        0xdd => (Mnemonic::CMP, AddrMode::AbsoluteX),
        0xde => (Mnemonic::DEC, AddrMode::AbsoluteX),
        0xe0 => (Mnemonic::CPX, AddrMode::Immediate),
        0xe1 => (Mnemonic::SBC, AddrMode::IndirectX),
        0xe4 => (Mnemonic::CPX, AddrMode::ZeroPage),
        0xe5 => (Mnemonic::SBC, AddrMode::ZeroPage),
        0xe6 => (Mnemonic::INC, AddrMode::ZeroPage),
        0xe8 => (Mnemonic::INX, AddrMode::Implied),
        0xe9 => (Mnemonic::SBC, AddrMode::Immediate),
        0xea => (Mnemonic::NOP, AddrMode::Implied),
        0xec => (Mnemonic::CPX, AddrMode::Absolute),
        0xed => (Mnemonic::SBC, AddrMode::Absolute),
        0xee => (Mnemonic::INC, AddrMode::Absolute),
        0xf0 => (Mnemonic::BEQ, AddrMode::Relative),
        0xf1 => (Mnemonic::SBC, AddrMode::IndirectY),
        0xf5 => (Mnemonic::SBC, AddrMode::ZeroPageX),
        0xf6 => (Mnemonic::INC, AddrMode::ZeroPageX),
        0xf8 => (Mnemonic::SED, AddrMode::Implied),
        0xf9 => (Mnemonic::SBC, AddrMode::AbsoluteY),
        0xfd => (Mnemonic::SBC, AddrMode::AbsoluteX),
        0xfe => (Mnemonic::INC, AddrMode::AbsoluteX),
        _ => (Mnemonic::Db, AddrMode::Raw),
    }
}

/// The byte length implied by an addressing mode.
pub fn mode_len(m: AddrMode) -> (r: usize)
    ensures
        r == spec_mode_len(m),
{
    match m {
        AddrMode::Implied => 1,
        AddrMode::Accumulator => 1,
        AddrMode::Raw => 1,
        AddrMode::Absolute => 3,
        AddrMode::AbsoluteX => 3,
        AddrMode::AbsoluteY => 3,
        AddrMode::Indirect => 3,
        _ => 2,
    }
}

/// The byte length of the instruction whose opcode byte is `op`.
pub fn instr_len(op: u8) -> (r: usize)
    ensures
        r == spec_instr_len(op),
{
    let (_, mode) = classify(op);
    mode_len(mode)
}

/// The listing text of a mnemonic.
pub fn mnemonic_str(m: Mnemonic) -> (r: &'static str)
    ensures
        r@ == spec_mnemonic_view(m),
{
    match m {
        Mnemonic::ADC => "ADC",
        Mnemonic::AND => "AND",
        Mnemonic::ASL => "ASL",
        Mnemonic::BCC => "BCC",
        Mnemonic::BCS => "BCS",
        Mnemonic::BEQ => "BEQ",
        Mnemonic::BIT => "BIT",
        Mnemonic::BMI => "BMI",
        Mnemonic::BNE => "BNE",
        Mnemonic::BPL => "BPL",
        Mnemonic::BRK => "BRK",
        Mnemonic::BVC => "BVC",
        Mnemonic::BVS => "BVS",
        Mnemonic::CLC => "CLC",
        Mnemonic::CLD => "CLD",
        Mnemonic::CLI => "CLI",
        Mnemonic::CLV => "CLV",
        Mnemonic::CMP => "CMP",
        Mnemonic::CPX => "CPX",
        Mnemonic::CPY => "CPY",
        Mnemonic::DEC => "DEC",
        Mnemonic::DEX => "DEX",
        Mnemonic::DEY => "DEY",
        Mnemonic::EOR => "EOR",
        Mnemonic::INC => "INC",
        Mnemonic::INX => "INX",
        Mnemonic::INY => "INY",
        Mnemonic::JMP => "JMP",
        Mnemonic::JSR => "JSR",
        Mnemonic::LDA => "LDA",
        Mnemonic::LDX => "LDX",
        Mnemonic::LDY => "LDY",
        Mnemonic::LSR => "LSR",
        Mnemonic::NOP => "NOP",
        Mnemonic::ORA => "ORA",
        Mnemonic::PHA => "PHA",
        Mnemonic::PHP => "PHP",
        Mnemonic::PLA => "PLA",
        Mnemonic::PLP => "PLP",
        Mnemonic::ROL => "ROL",
        Mnemonic::ROR => "ROR",
        Mnemonic::RTI => "RTI",
        Mnemonic::RTS => "RTS",
        Mnemonic::SBC => "SBC",
        Mnemonic::SEC => "SEC",
        Mnemonic::SED => "SED",
        Mnemonic::SEI => "SEI",
        Mnemonic::STA => "STA",
        Mnemonic::STX => "STX",
        Mnemonic::STY => "STY",
        Mnemonic::TAX => "TAX",
        Mnemonic::TAY => "TAY",
        Mnemonic::TSX => "TSX",
        Mnemonic::TXA => "TXA",
        Mnemonic::TXS => "TXS",
        Mnemonic::TYA => "TYA",
        Mnemonic::Db => ".db",
    }
}

} // verus!
