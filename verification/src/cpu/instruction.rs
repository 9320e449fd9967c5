//! The instruction set: what each of the 256 opcode bytes stands for.

use vstd::prelude::*;

verus! {

/// How an instruction finds its operand.
#[derive(Clone, Copy, PartialEq, Eq, Structural, Debug)]
#[allow(clippy::upper_case_acronyms)]
pub enum AddressingMode {
    ABS,
    ABX,
    ABY,
    ACC,
    IMM,
    IMP,
    IND,
    INX,
    INY,
    REL,
    ZPG,
    ZPX,
    ZPY,
}

/// What an instruction does. `ERR` stands for every byte that is no legal
/// opcode: it does nothing.
#[derive(Clone, Copy, PartialEq, Eq, Structural, Debug)]
#[allow(clippy::upper_case_acronyms)]
pub enum Opcode {
    ADC,
    AND,
    ASL,
    BCC,
    BCS,
    BEQ,
    BIT,
    BMI,
    BNE,
    BPL,
    BRK,
    BVC,
    BVS,
    CLC,
    CLD,
    CLI,
    CLV,
    CMP,
    CPX,
    CPY,
    DEC,
    DEX,
    DEY,
    EOR,
    ERR,
    INC,
    INX,
    INY,
    JMP,
    JSR,
    LDA,
    LDX,
    LDY,
    LSR,
    NOP,
    ORA,
    PHA,
    PHP,
    PLA,
    PLP,
    ROL,
    ROR,
    RTI,
    RTS,
    SBC,
    SEC,
    SED,
    SEI,
    STA,
    STX,
    STY,
    TAX,
    TAY,
    TSX,
    TXA,
    TXS,
    TYA,
}

impl Opcode {
    /// Whether the instruction only writes its operand.
    pub open spec fn spec_is_store(self) -> bool {
        self == Opcode::STA || self == Opcode::STX || self == Opcode::STY
    }

    #[verifier::when_used_as_spec(spec_is_store)]
    pub fn is_store(self) -> (store: bool)
        ensures
            store == self.spec_is_store(),
    {
        self == Opcode::STA || self == Opcode::STX || self == Opcode::STY
    }

    /// Whether the instruction is one of the eight conditional branches.
    pub open spec fn spec_is_branch(self) -> bool {
        self == Opcode::BCC || self == Opcode::BCS || self == Opcode::BEQ || self == Opcode::BMI
            || self == Opcode::BNE || self == Opcode::BPL || self == Opcode::BVC || self
            == Opcode::BVS
    }

    /// The operation that the byte `byte` encodes.
    #[verifier::opaque]
    pub open spec fn spec_of(byte: u8) -> Opcode {
        match byte {
            0x00 => Opcode::BRK,
            0x01 | 0x05 | 0x09 | 0x0d | 0x11 | 0x15 | 0x19 | 0x1d => Opcode::ORA,
            0x06 | 0x0a | 0x0e | 0x16 | 0x1e => Opcode::ASL,
            0x08 => Opcode::PHP,
            0x10 => Opcode::BPL,
            0x18 => Opcode::CLC,
            0x20 => Opcode::JSR,
            0x21 | 0x25 | 0x29 | 0x2d | 0x31 | 0x35 | 0x39 | 0x3d => Opcode::AND,
            0x24 | 0x2c => Opcode::BIT,
            0x26 | 0x2a | 0x2e | 0x36 | 0x3e => Opcode::ROL,
            0x28 => Opcode::PLP,
            0x30 => Opcode::BMI,
            0x38 => Opcode::SEC,
            0x40 => Opcode::RTI,
            0x41 | 0x45 | 0x49 | 0x4d | 0x51 | 0x55 | 0x59 | 0x5d => Opcode::EOR,
            0x46 | 0x4a | 0x4e | 0x56 | 0x5e => Opcode::LSR,
            0x48 => Opcode::PHA,
            0x4c | 0x6c => Opcode::JMP,
            0x50 => Opcode::BVC,
            0x58 => Opcode::CLI,
            0x60 => Opcode::RTS,
            0x61 | 0x65 | 0x69 | 0x6d | 0x71 | 0x75 | 0x79 | 0x7d => Opcode::ADC,
            0x66 | 0x6a | 0x6e | 0x76 | 0x7e => Opcode::ROR,
            0x68 => Opcode::PLA,
            0x70 => Opcode::BVS,
            0x78 => Opcode::SEI,
            0x81 | 0x85 | 0x8d | 0x91 | 0x95 | 0x99 | 0x9d => Opcode::STA,
            0x84 | 0x8c | 0x94 => Opcode::STY,
            0x86 | 0x8e | 0x96 => Opcode::STX,
            0x88 => Opcode::DEY,
            0x8a => Opcode::TXA,
            0x90 => Opcode::BCC,
            0x98 => Opcode::TYA,
            0x9a => Opcode::TXS,
            0xa0 | 0xa4 | 0xac | 0xb4 | 0xbc => Opcode::LDY,
            0xa1 | 0xa5 | 0xa9 | 0xad | 0xb1 | 0xb5 | 0xb9 | 0xbd => Opcode::LDA,
            0xa2 | 0xa6 | 0xae | 0xb6 | 0xbe => Opcode::LDX,
            0xa8 => Opcode::TAY,
            0xaa => Opcode::TAX,
            0xb0 => Opcode::BCS,
            0xb8 => Opcode::CLV,
            0xba => Opcode::TSX,
            0xc0 | 0xc4 | 0xcc => Opcode::CPY,
            0xc1 | 0xc5 | 0xc9 | 0xcd | 0xd1 | 0xd5 | 0xd9 | 0xdd => Opcode::CMP,
            0xc6 | 0xce | 0xd6 | 0xde => Opcode::DEC,
            0xc8 => Opcode::INY,
            0xca => Opcode::DEX,
            0xd0 => Opcode::BNE,
            0xd8 => Opcode::CLD,
            0xda | 0xea | 0xfa => Opcode::NOP,
            0xe0 | 0xe4 | 0xec => Opcode::CPX,
            0xe1 | 0xe5 | 0xe9 | 0xed | 0xf1 | 0xf5 | 0xf9 | 0xfd => Opcode::SBC,
            0xe6 | 0xee | 0xf6 | 0xfe => Opcode::INC,
            0xe8 => Opcode::INX,
            0xf0 => Opcode::BEQ,
            0xf8 => Opcode::SED,
            _ => Opcode::ERR,
        }
    }

    #[verifier::when_used_as_spec(spec_of)]
    pub fn of(byte: u8) -> (opcode: Opcode)
        ensures
            opcode == Self::spec_of(byte),
    {
        proof {
            reveal(Opcode::spec_of);
        }
        match byte {
            0x00 => Opcode::BRK,
            0x01 | 0x05 | 0x09 | 0x0d | 0x11 | 0x15 | 0x19 | 0x1d => Opcode::ORA,
            0x06 | 0x0a | 0x0e | 0x16 | 0x1e => Opcode::ASL,
            0x08 => Opcode::PHP,
            0x10 => Opcode::BPL,
            0x18 => Opcode::CLC,
            0x20 => Opcode::JSR,
            0x21 | 0x25 | 0x29 | 0x2d | 0x31 | 0x35 | 0x39 | 0x3d => Opcode::AND,
            0x24 | 0x2c => Opcode::BIT,
            0x26 | 0x2a | 0x2e | 0x36 | 0x3e => Opcode::ROL,
            0x28 => Opcode::PLP,
            0x30 => Opcode::BMI,
            0x38 => Opcode::SEC,
            0x40 => Opcode::RTI,
            0x41 | 0x45 | 0x49 | 0x4d | 0x51 | 0x55 | 0x59 | 0x5d => Opcode::EOR,
            0x46 | 0x4a | 0x4e | 0x56 | 0x5e => Opcode::LSR,
            0x48 => Opcode::PHA,
            0x4c | 0x6c => Opcode::JMP,
            0x50 => Opcode::BVC,
            0x58 => Opcode::CLI,
            0x60 => Opcode::RTS,
            0x61 | 0x65 | 0x69 | 0x6d | 0x71 | 0x75 | 0x79 | 0x7d => Opcode::ADC,
            0x66 | 0x6a | 0x6e | 0x76 | 0x7e => Opcode::ROR,
            0x68 => Opcode::PLA,
            0x70 => Opcode::BVS,
            0x78 => Opcode::SEI,
            0x81 | 0x85 | 0x8d | 0x91 | 0x95 | 0x99 | 0x9d => Opcode::STA,
            0x84 | 0x8c | 0x94 => Opcode::STY,
            0x86 | 0x8e | 0x96 => Opcode::STX,
            0x88 => Opcode::DEY,
            0x8a => Opcode::TXA,
            0x90 => Opcode::BCC,
            0x98 => Opcode::TYA,
            0x9a => Opcode::TXS,
            0xa0 | 0xa4 | 0xac | 0xb4 | 0xbc => Opcode::LDY,
            0xa1 | 0xa5 | 0xa9 | 0xad | 0xb1 | 0xb5 | 0xb9 | 0xbd => Opcode::LDA,
            0xa2 | 0xa6 | 0xae | 0xb6 | 0xbe => Opcode::LDX,
            0xa8 => Opcode::TAY,
            0xaa => Opcode::TAX,
            0xb0 => Opcode::BCS,
            0xb8 => Opcode::CLV,
            0xba => Opcode::TSX,
            0xc0 | 0xc4 | 0xcc => Opcode::CPY,
            0xc1 | 0xc5 | 0xc9 | 0xcd | 0xd1 | 0xd5 | 0xd9 | 0xdd => Opcode::CMP,
            0xc6 | 0xce | 0xd6 | 0xde => Opcode::DEC,
            0xc8 => Opcode::INY,
            0xca => Opcode::DEX,
            0xd0 => Opcode::BNE,
            0xd8 => Opcode::CLD,
            0xda | 0xea | 0xfa => Opcode::NOP,
            0xe0 | 0xe4 | 0xec => Opcode::CPX,
            0xe1 | 0xe5 | 0xe9 | 0xed | 0xf1 | 0xf5 | 0xf9 | 0xfd => Opcode::SBC,
            0xe6 | 0xee | 0xf6 | 0xfe => Opcode::INC,
            0xe8 => Opcode::INX,
            0xf0 => Opcode::BEQ,
            0xf8 => Opcode::SED,
            _ => Opcode::ERR,
        }
    }
}

impl AddressingMode {
    /// The addressing mode that the byte `byte` encodes.
    #[verifier::opaque]
    pub open spec fn spec_of(byte: u8) -> AddressingMode {
        match byte {
            0x01 | 0x21 | 0x41 | 0x61 | 0x81 | 0xa1 | 0xc1 | 0xe1 => AddressingMode::INX,
            0x05 | 0x06 | 0x24 | 0x25 | 0x26 | 0x45 | 0x46 | 0x65 | 0x66 | 0x84 | 0x85 | 0x86
            | 0xa4 | 0xa5 | 0xa6 | 0xc4 | 0xc5 | 0xc6 | 0xe4 | 0xe5 | 0xe6 => AddressingMode::ZPG,
            0x09 | 0x29 | 0x49 | 0x69 | 0xa0 | 0xa2 | 0xa9 | 0xc0 | 0xc9 | 0xe0 | 0xe9 => AddressingMode::IMM,
            0x0a | 0x2a | 0x4a | 0x6a => AddressingMode::ACC,
            0x0d | 0x0e | 0x20 | 0x2c | 0x2d | 0x2e | 0x4c | 0x4d | 0x4e | 0x6d | 0x6e | 0x8c
            | 0x8d | 0x8e | 0xac | 0xad | 0xae | 0xcc | 0xcd | 0xce | 0xec | 0xed | 0xee => AddressingMode::ABS,
            0x10 | 0x30 | 0x50 | 0x70 | 0x90 | 0xb0 | 0xd0 | 0xf0 => AddressingMode::REL,
            0x11 | 0x31 | 0x51 | 0x71 | 0x91 | 0xb1 | 0xd1 | 0xf1 => AddressingMode::INY,
            0x15 | 0x16 | 0x35 | 0x36 | 0x55 | 0x56 | 0x75 | 0x76 | 0x94 | 0x95 | 0xb4 | 0xb5
            | 0xd5 | 0xd6 | 0xf5 | 0xf6 => AddressingMode::ZPX,
            0x19 | 0x39 | 0x59 | 0x79 | 0x99 | 0xb9 | 0xbe | 0xd9 | 0xf9 => AddressingMode::ABY,
            0x1d | 0x1e | 0x3d | 0x3e | 0x5d | 0x5e | 0x7d | 0x7e | 0x9d | 0xbc | 0xbd | 0xdd
            | 0xde | 0xfd | 0xfe => AddressingMode::ABX,
            0x6c => AddressingMode::IND,
            0x96 | 0xb6 => AddressingMode::ZPY,
            _ => AddressingMode::IMP,
        }
    }

    #[verifier::when_used_as_spec(spec_of)]
    pub fn of(byte: u8) -> (mode: AddressingMode)
        ensures
            mode == Self::spec_of(byte),
    {
        proof {
            reveal(AddressingMode::spec_of);
        }
        match byte {
            0x01 | 0x21 | 0x41 | 0x61 | 0x81 | 0xa1 | 0xc1 | 0xe1 => AddressingMode::INX,
            0x05 | 0x06 | 0x24 | 0x25 | 0x26 | 0x45 | 0x46 | 0x65 | 0x66 | 0x84 | 0x85 | 0x86
            | 0xa4 | 0xa5 | 0xa6 | 0xc4 | 0xc5 | 0xc6 | 0xe4 | 0xe5 | 0xe6 => AddressingMode::ZPG,
            0x09 | 0x29 | 0x49 | 0x69 | 0xa0 | 0xa2 | 0xa9 | 0xc0 | 0xc9 | 0xe0 | 0xe9 => AddressingMode::IMM,
            0x0a | 0x2a | 0x4a | 0x6a => AddressingMode::ACC,
            0x0d | 0x0e | 0x20 | 0x2c | 0x2d | 0x2e | 0x4c | 0x4d | 0x4e | 0x6d | 0x6e | 0x8c
            | 0x8d | 0x8e | 0xac | 0xad | 0xae | 0xcc | 0xcd | 0xce | 0xec | 0xed | 0xee => AddressingMode::ABS,
            0x10 | 0x30 | 0x50 | 0x70 | 0x90 | 0xb0 | 0xd0 | 0xf0 => AddressingMode::REL,
            0x11 | 0x31 | 0x51 | 0x71 | 0x91 | 0xb1 | 0xd1 | 0xf1 => AddressingMode::INY,
            0x15 | 0x16 | 0x35 | 0x36 | 0x55 | 0x56 | 0x75 | 0x76 | 0x94 | 0x95 | 0xb4 | 0xb5
            | 0xd5 | 0xd6 | 0xf5 | 0xf6 => AddressingMode::ZPX,
            0x19 | 0x39 | 0x59 | 0x79 | 0x99 | 0xb9 | 0xbe | 0xd9 | 0xf9 => AddressingMode::ABY,
            0x1d | 0x1e | 0x3d | 0x3e | 0x5d | 0x5e | 0x7d | 0x7e | 0x9d | 0xbc | 0xbd | 0xdd
            | 0xde | 0xfd | 0xfe => AddressingMode::ABX,
            0x6c => AddressingMode::IND,
            0x96 | 0xb6 => AddressingMode::ZPY,
            _ => AddressingMode::IMP,
        }
    }
}

/// The cycles that the instruction encoded by `byte` takes before any
/// penalty.
#[verifier::opaque]
pub open spec fn spec_base_cycles(byte: u8) -> u8 {
    match byte {
        0x04 | 0x05 | 0x08 | 0x24 | 0x25 | 0x44 | 0x45 | 0x48 | 0x4c | 0x64 | 0x65 | 0x84
        | 0x85 | 0x86 | 0x87 | 0xa4 | 0xa5 | 0xa6 | 0xa7 | 0xc4 | 0xc5 | 0xe4 | 0xe5 => 3,
        0x0c | 0x0d | 0x14 | 0x15 | 0x19 | 0x1c | 0x1d | 0x28 | 0x2c | 0x2d | 0x34 | 0x35
        | 0x39 | 0x3c | 0x3d | 0x4d | 0x54 | 0x55 | 0x59 | 0x5c | 0x5d | 0x68 | 0x6d | 0x74
        | 0x75 | 0x79 | 0x7c | 0x7d | 0x8c | 0x8d | 0x8e | 0x8f | 0x94 | 0x95 | 0x96 | 0x97
        | 0xac | 0xad | 0xae | 0xaf | 0xb4 | 0xb5 | 0xb6 | 0xb7 | 0xb9 | 0xbb | 0xbc | 0xbd
        | 0xbe | 0xbf | 0xcc | 0xcd | 0xd4 | 0xd5 | 0xd9 | 0xdc | 0xdd | 0xec | 0xed | 0xf4
        | 0xf5 | 0xf9 | 0xfc | 0xfd => 4,
        0x06 | 0x07 | 0x11 | 0x26 | 0x27 | 0x31 | 0x46 | 0x47 | 0x51 | 0x66 | 0x67 | 0x6c
        | 0x71 | 0x99 | 0x9b | 0x9c | 0x9d | 0x9e | 0x9f | 0xb1 | 0xb3 | 0xc6 | 0xc7 | 0xd1
        | 0xe6 | 0xe7 | 0xf1 => 5,
        0x01 | 0x0e | 0x0f | 0x16 | 0x17 | 0x20 | 0x21 | 0x2e | 0x2f | 0x36 | 0x37 | 0x40
        | 0x41 | 0x4e | 0x4f | 0x56 | 0x57 | 0x60 | 0x61 | 0x6e | 0x6f | 0x76 | 0x77 | 0x81
        | 0x83 | 0x91 | 0x93 | 0xa1 | 0xa3 | 0xc1 | 0xce | 0xcf | 0xd6 | 0xd7 | 0xe1 | 0xee
        | 0xef | 0xf6 | 0xf7 => 6,
        0x00 | 0x1b | 0x1e | 0x1f | 0x3b | 0x3e | 0x3f | 0x5b | 0x5e | 0x5f | 0x7b | 0x7e
        | 0x7f | 0xdb | 0xde | 0xdf | 0xfb | 0xfe | 0xff => 7,
        0x03 | 0x13 | 0x23 | 0x33 | 0x43 | 0x53 | 0x63 | 0x73 | 0xc3 | 0xd3 | 0xe3 | 0xf3 => 8,
        _ => 2,
    }
}

#[verifier::when_used_as_spec(spec_base_cycles)]
pub fn base_cycles(byte: u8) -> (cycles: u8)
    ensures
        cycles == spec_base_cycles(byte),
        2 <= cycles <= 8,
{
    proof {
        reveal(spec_base_cycles);
    }
    match byte {
        0x04 | 0x05 | 0x08 | 0x24 | 0x25 | 0x44 | 0x45 | 0x48 | 0x4c | 0x64 | 0x65 | 0x84
        | 0x85 | 0x86 | 0x87 | 0xa4 | 0xa5 | 0xa6 | 0xa7 | 0xc4 | 0xc5 | 0xe4 | 0xe5 => 3,
        0x0c | 0x0d | 0x14 | 0x15 | 0x19 | 0x1c | 0x1d | 0x28 | 0x2c | 0x2d | 0x34 | 0x35
        | 0x39 | 0x3c | 0x3d | 0x4d | 0x54 | 0x55 | 0x59 | 0x5c | 0x5d | 0x68 | 0x6d | 0x74
        | 0x75 | 0x79 | 0x7c | 0x7d | 0x8c | 0x8d | 0x8e | 0x8f | 0x94 | 0x95 | 0x96 | 0x97
        | 0xac | 0xad | 0xae | 0xaf | 0xb4 | 0xb5 | 0xb6 | 0xb7 | 0xb9 | 0xbb | 0xbc | 0xbd
        | 0xbe | 0xbf | 0xcc | 0xcd | 0xd4 | 0xd5 | 0xd9 | 0xdc | 0xdd | 0xec | 0xed | 0xf4
        | 0xf5 | 0xf9 | 0xfc | 0xfd => 4,
        0x06 | 0x07 | 0x11 | 0x26 | 0x27 | 0x31 | 0x46 | 0x47 | 0x51 | 0x66 | 0x67 | 0x6c
        | 0x71 | 0x99 | 0x9b | 0x9c | 0x9d | 0x9e | 0x9f | 0xb1 | 0xb3 | 0xc6 | 0xc7 | 0xd1
        | 0xe6 | 0xe7 | 0xf1 => 5,
        0x01 | 0x0e | 0x0f | 0x16 | 0x17 | 0x20 | 0x21 | 0x2e | 0x2f | 0x36 | 0x37 | 0x40
        | 0x41 | 0x4e | 0x4f | 0x56 | 0x57 | 0x60 | 0x61 | 0x6e | 0x6f | 0x76 | 0x77 | 0x81
        | 0x83 | 0x91 | 0x93 | 0xa1 | 0xa3 | 0xc1 | 0xce | 0xcf | 0xd6 | 0xd7 | 0xe1 | 0xee
        | 0xef | 0xf6 | 0xf7 => 6,
        0x00 | 0x1b | 0x1e | 0x1f | 0x3b | 0x3e | 0x3f | 0x5b | 0x5e | 0x5f | 0x7b | 0x7e
        | 0x7f | 0xdb | 0xde | 0xdf | 0xfb | 0xfe | 0xff => 7,
        0x03 | 0x13 | 0x23 | 0x33 | 0x43 | 0x53 | 0x63 | 0x73 | 0xc3 | 0xd3 | 0xe3 | 0xf3 => 8,
        _ => 2,
    }
}

/// One entry of the instruction table.
#[derive(Clone, Copy, PartialEq, Eq, Structural, Debug)]
pub struct Instruction {
    pub opcode: Opcode,
    pub mode: AddressingMode,
    pub cycles: u8,
}

impl Instruction {
    /// The table entry of the byte `byte`.
    pub open spec fn spec_decode(byte: u8) -> Instruction {
        Instruction {
            opcode: Opcode::spec_of(byte),
            mode: AddressingMode::spec_of(byte),
            cycles: spec_base_cycles(byte),
        }
    }

    #[verifier::when_used_as_spec(spec_decode)]
    pub fn decode(byte: u8) -> (instruction: Instruction)
        ensures
            instruction == Self::spec_decode(byte),
            2 <= instruction.cycles <= 8,
    {
        Instruction {
            opcode: Opcode::of(byte),
            mode: AddressingMode::of(byte),
            cycles: base_cycles(byte),
        }
    }
}

} // verus!
