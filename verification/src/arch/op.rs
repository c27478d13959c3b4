//! The instruction table, and the rule of each family of operations with the
//! flag arithmetic they share.

use crate::arch::cpu::{wrap16, Machine, CPU};
use crate::arch::memory::lemma_ram_access;
use crate::arch::register::{Register, State};
use crate::arch::{Accumulate, Fault, Opeland, WriteAddr};
use vstd::prelude::*;

verus! {

/// The operations of the processor, by mnemonic.
#[derive(Clone, Copy, Debug, PartialEq, Eq, Structural)]
pub enum OPCode {
    /// Add with carry.
    ADC,
    /// Subtract with carry.
    SBC,
    /// Bitwise and.
    AND,
    /// Bitwise or.
    ORA,
    /// Bitwise exclusive or.
    EOR,
    /// Shift left.
    ASL,
    /// Shift right.
    LSR,
    /// Rotate left.
    ROL,
    /// Rotate right.
    ROR,
    /// Branch if carry clear.
    BCC,
    /// Branch if carry set.
    BCS,
    /// Branch if zero set.
    BEQ,
    /// Branch if zero clear.
    BNE,
    /// Branch if overflow clear.
    BVC,
    /// Branch if overflow set.
    BVS,
    /// Branch if negative clear.
    BPL,
    /// Branch if negative set.
    BMI,
    /// Bit test.
    BIT,
    /// Jump.
    JMP,
    /// Call a subroutine.
    JSR,
    /// Return from a subroutine.
    RTS,
    /// Software interrupt.
    BRK,
    /// Return from an interrupt.
    RTI,
    /// Compare with the accumulator.
    CMP,
    /// Compare with X.
    CPX,
    /// Compare with Y.
    CPY,
    /// Increment memory.
    INC,
    /// Decrement memory.
    DEC,
    /// Increment X.
    INX,
    /// Decrement X.
    DEX,
    /// Increment Y.
    INY,
    /// Decrement Y.
    DEY,
    /// Clear carry.
    CLC,
    /// Set carry.
    SEC,
    /// Clear interrupt-disable.
    CLI,
    /// Set interrupt-disable.
    SEI,
    /// Clear decimal.
    CLD,
    /// Set decimal.
    SED,
    /// Clear overflow.
    CLV,
    /// Load the accumulator.
    LDA,
    /// Load X.
    LDX,
    /// Load Y.
    LDY,
    /// Store the accumulator.
    STA,
    /// Store X.
    STX,
    /// Store Y.
    STY,
    /// Copy the accumulator to X.
    TAX,
    /// Copy X to the accumulator.
    TXA,
    /// Copy the accumulator to Y.
    TAY,
    /// Copy Y to the accumulator.
    TYA,
    /// Copy the stack pointer to X.
    TSX,
    /// Copy X to the stack pointer.
    TXS,
    /// Push the accumulator.
    PHA,
    /// Pull the accumulator.
    PLA,
    /// Push the flags.
    PHP,
    /// Pull the flags.
    PLP,
    /// No operation.
    NOP,
}

/// The rule by which an instruction finds its operand.
#[derive(Clone, Copy, Debug, PartialEq, Eq, Structural)]
pub enum AddressingMode {
    /// No operand.
    Implied,
    /// The accumulator itself.
    Accumulator,
    /// The next byte is an address in page zero.
    ZeroPage,
    /// As `ZeroPage`, plus X, within the page.
    ZeroPageX,
    /// As `ZeroPage`, plus Y, within the page.
    ZeroPageY,
    /// The next byte is a signed distance from the program counter.
    Relative,
    /// The next two bytes are an address, low byte first.
    Absolute,
    /// As `Absolute`, plus X.
    AbsoluteX,
    /// As `Absolute`, plus Y.
    AbsoluteY,
    /// The next two bytes point at the address.
    Indirect,
    /// The next byte plus X points, in page zero, at the address.
    IndirectX,
    /// The next byte points, in page zero, at an address to which Y is added.
    IndirectY,
    /// The next byte is the operand.
    Immediate,
}

/// What an opcode byte stands for: the operation, how it finds its operand,
/// and the number of processor cycles it is charged.
#[derive(Clone, Copy, Debug, PartialEq, Eq, Structural)]
pub struct Operation {
    pub op: OPCode,
    pub mode: AddressingMode,
    pub cycle: u32,
}

/// The instruction table: the descriptor of each opcode byte that has one.
pub open spec fn decode(op: u8) -> Option<Operation> {
    match op {
        0x69 => Some(Operation { op: OPCode::ADC, mode: AddressingMode::Immediate, cycle: 2 }),
        0x65 => Some(Operation { op: OPCode::ADC, mode: AddressingMode::ZeroPage, cycle: 3 }),
        0x75 => Some(Operation { op: OPCode::ADC, mode: AddressingMode::ZeroPageX, cycle: 4 }),
        0x6D => Some(Operation { op: OPCode::ADC, mode: AddressingMode::Absolute, cycle: 4 }),
        0x7D => Some(Operation { op: OPCode::ADC, mode: AddressingMode::AbsoluteX, cycle: 4 }),
        0x79 => Some(Operation { op: OPCode::ADC, mode: AddressingMode::AbsoluteY, cycle: 4 }),
        0x61 => Some(Operation { op: OPCode::ADC, mode: AddressingMode::IndirectX, cycle: 6 }),
        0x71 => Some(Operation { op: OPCode::ADC, mode: AddressingMode::IndirectY, cycle: 5 }),
        0x29 => Some(Operation { op: OPCode::AND, mode: AddressingMode::Immediate, cycle: 2 }),
        0x25 => Some(Operation { op: OPCode::AND, mode: AddressingMode::ZeroPage, cycle: 3 }),
        0x35 => Some(Operation { op: OPCode::AND, mode: AddressingMode::ZeroPageX, cycle: 4 }),
        0x2D => Some(Operation { op: OPCode::AND, mode: AddressingMode::Absolute, cycle: 4 }),
        0x3D => Some(Operation { op: OPCode::AND, mode: AddressingMode::AbsoluteX, cycle: 4 }),
        0x39 => Some(Operation { op: OPCode::AND, mode: AddressingMode::AbsoluteY, cycle: 4 }),
        0x21 => Some(Operation { op: OPCode::AND, mode: AddressingMode::IndirectX, cycle: 6 }),
        0x31 => Some(Operation { op: OPCode::AND, mode: AddressingMode::IndirectY, cycle: 5 }),
        0x06 => Some(Operation { op: OPCode::ASL, mode: AddressingMode::ZeroPage, cycle: 5 }),
        0x0A => Some(Operation { op: OPCode::ASL, mode: AddressingMode::Accumulator, cycle: 2 }),
        0x0E => Some(Operation { op: OPCode::ASL, mode: AddressingMode::Absolute, cycle: 6 }),
        0x16 => Some(Operation { op: OPCode::ASL, mode: AddressingMode::ZeroPageX, cycle: 6 }),
        0x1E => Some(Operation { op: OPCode::ASL, mode: AddressingMode::AbsoluteX, cycle: 7 }),
        0xC9 => Some(Operation { op: OPCode::CMP, mode: AddressingMode::Immediate, cycle: 2 }),
        0xC5 => Some(Operation { op: OPCode::CMP, mode: AddressingMode::ZeroPage, cycle: 3 }),
        0xD5 => Some(Operation { op: OPCode::CMP, mode: AddressingMode::ZeroPageX, cycle: 4 }),
        0xCD => Some(Operation { op: OPCode::CMP, mode: AddressingMode::Absolute, cycle: 4 }),
        0xDD => Some(Operation { op: OPCode::CMP, mode: AddressingMode::AbsoluteX, cycle: 4 }),
        0xD9 => Some(Operation { op: OPCode::CMP, mode: AddressingMode::AbsoluteY, cycle: 4 }),
        0xC1 => Some(Operation { op: OPCode::CMP, mode: AddressingMode::IndirectX, cycle: 6 }),
        0xD1 => Some(Operation { op: OPCode::CMP, mode: AddressingMode::IndirectY, cycle: 5 }),
        0xE0 => Some(Operation { op: OPCode::CPX, mode: AddressingMode::Immediate, cycle: 2 }),
        0xE4 => Some(Operation { op: OPCode::CPX, mode: AddressingMode::ZeroPage, cycle: 3 }),
        0xEC => Some(Operation { op: OPCode::CPX, mode: AddressingMode::Absolute, cycle: 4 }),
        0xC0 => Some(Operation { op: OPCode::CPY, mode: AddressingMode::Immediate, cycle: 2 }),
        0xC4 => Some(Operation { op: OPCode::CPY, mode: AddressingMode::ZeroPage, cycle: 3 }),
        0xCC => Some(Operation { op: OPCode::CPY, mode: AddressingMode::Absolute, cycle: 4 }),
        0xCA => Some(Operation { op: OPCode::DEX, mode: AddressingMode::Implied, cycle: 2 }),
        0x88 => Some(Operation { op: OPCode::DEY, mode: AddressingMode::Implied, cycle: 2 }),
        0xE6 => Some(Operation { op: OPCode::INC, mode: AddressingMode::ZeroPage, cycle: 5 }),
        0xF6 => Some(Operation { op: OPCode::INC, mode: AddressingMode::ZeroPageX, cycle: 6 }),
        0xEE => Some(Operation { op: OPCode::INC, mode: AddressingMode::Absolute, cycle: 6 }),
        0xFE => Some(Operation { op: OPCode::INC, mode: AddressingMode::AbsoluteX, cycle: 7 }),
        0xE8 => Some(Operation { op: OPCode::INX, mode: AddressingMode::Implied, cycle: 2 }),
        0x09 => Some(Operation { op: OPCode::ORA, mode: AddressingMode::Immediate, cycle: 2 }),
        0x05 => Some(Operation { op: OPCode::ORA, mode: AddressingMode::ZeroPage, cycle: 3 }),
        0x15 => Some(Operation { op: OPCode::ORA, mode: AddressingMode::ZeroPageX, cycle: 4 }),
        0x0D => Some(Operation { op: OPCode::ORA, mode: AddressingMode::Absolute, cycle: 4 }),
        0x1D => Some(Operation { op: OPCode::ORA, mode: AddressingMode::AbsoluteX, cycle: 4 }),
        0x19 => Some(Operation { op: OPCode::ORA, mode: AddressingMode::AbsoluteY, cycle: 4 }),
        0x01 => Some(Operation { op: OPCode::ORA, mode: AddressingMode::IndirectX, cycle: 6 }),
        0x11 => Some(Operation { op: OPCode::ORA, mode: AddressingMode::IndirectY, cycle: 5 }),
        0xE9 => Some(Operation { op: OPCode::SBC, mode: AddressingMode::Immediate, cycle: 2 }),
        0xE5 => Some(Operation { op: OPCode::SBC, mode: AddressingMode::ZeroPage, cycle: 3 }),
        0xF5 => Some(Operation { op: OPCode::SBC, mode: AddressingMode::ZeroPageX, cycle: 4 }),
        0xED => Some(Operation { op: OPCode::SBC, mode: AddressingMode::Absolute, cycle: 4 }),
        0xFD => Some(Operation { op: OPCode::SBC, mode: AddressingMode::AbsoluteX, cycle: 4 }),
        0xF9 => Some(Operation { op: OPCode::SBC, mode: AddressingMode::AbsoluteY, cycle: 4 }),
        0xE1 => Some(Operation { op: OPCode::SBC, mode: AddressingMode::IndirectX, cycle: 6 }),
        0xF1 => Some(Operation { op: OPCode::SBC, mode: AddressingMode::IndirectY, cycle: 5 }),
        0x90 => Some(Operation { op: OPCode::BCC, mode: AddressingMode::Relative, cycle: 2 }),
        0xB0 => Some(Operation { op: OPCode::BCS, mode: AddressingMode::Relative, cycle: 2 }),
        0xF0 => Some(Operation { op: OPCode::BEQ, mode: AddressingMode::Relative, cycle: 2 }),
        0x30 => Some(Operation { op: OPCode::BMI, mode: AddressingMode::Relative, cycle: 2 }),
        0xD0 => Some(Operation { op: OPCode::BNE, mode: AddressingMode::Relative, cycle: 2 }),
        0x10 => Some(Operation { op: OPCode::BPL, mode: AddressingMode::Relative, cycle: 2 }),
        0x50 => Some(Operation { op: OPCode::BVC, mode: AddressingMode::Relative, cycle: 2 }),
        0x70 => Some(Operation { op: OPCode::BVS, mode: AddressingMode::Relative, cycle: 2 }),
        0x4C => Some(Operation { op: OPCode::JMP, mode: AddressingMode::Absolute, cycle: 3 }),
        0x6C => Some(Operation { op: OPCode::JMP, mode: AddressingMode::Indirect, cycle: 5 }),
        0x20 => Some(Operation { op: OPCode::JSR, mode: AddressingMode::Absolute, cycle: 6 }),
        0x60 => Some(Operation { op: OPCode::RTS, mode: AddressingMode::Implied, cycle: 6 }),
        0xA1 => Some(Operation { op: OPCode::LDA, mode: AddressingMode::IndirectX, cycle: 6 }),
        0xA5 => Some(Operation { op: OPCode::LDA, mode: AddressingMode::ZeroPage, cycle: 3 }),
        0xA9 => Some(Operation { op: OPCode::LDA, mode: AddressingMode::Immediate, cycle: 2 }),
        0xAD => Some(Operation { op: OPCode::LDA, mode: AddressingMode::Absolute, cycle: 4 }),
        0xB1 => Some(Operation { op: OPCode::LDA, mode: AddressingMode::IndirectY, cycle: 5 }),
        0xB5 => Some(Operation { op: OPCode::LDA, mode: AddressingMode::ZeroPageX, cycle: 4 }),
        0xB9 => Some(Operation { op: OPCode::LDA, mode: AddressingMode::AbsoluteY, cycle: 4 }),
        0xBD => Some(Operation { op: OPCode::LDA, mode: AddressingMode::AbsoluteX, cycle: 4 }),
        0xA2 => Some(Operation { op: OPCode::LDX, mode: AddressingMode::Immediate, cycle: 2 }),
        0xA6 => Some(Operation { op: OPCode::LDX, mode: AddressingMode::ZeroPage, cycle: 3 }),
        0xAE => Some(Operation { op: OPCode::LDX, mode: AddressingMode::Absolute, cycle: 4 }),
        0xB6 => Some(Operation { op: OPCode::LDX, mode: AddressingMode::ZeroPageY, cycle: 4 }),
        0xBE => Some(Operation { op: OPCode::LDX, mode: AddressingMode::AbsoluteY, cycle: 4 }),
        0xA0 => Some(Operation { op: OPCode::LDY, mode: AddressingMode::Immediate, cycle: 2 }),
        0xA4 => Some(Operation { op: OPCode::LDY, mode: AddressingMode::ZeroPage, cycle: 3 }),
        0xB4 => Some(Operation { op: OPCode::LDY, mode: AddressingMode::ZeroPageX, cycle: 4 }),
        0xAC => Some(Operation { op: OPCode::LDY, mode: AddressingMode::Absolute, cycle: 4 }),
        0xBC => Some(Operation { op: OPCode::LDY, mode: AddressingMode::AbsoluteX, cycle: 4 }),
        0x85 => Some(Operation { op: OPCode::STA, mode: AddressingMode::ZeroPage, cycle: 3 }),
        0x95 => Some(Operation { op: OPCode::STA, mode: AddressingMode::ZeroPageX, cycle: 4 }),
        0x8D => Some(Operation { op: OPCode::STA, mode: AddressingMode::Absolute, cycle: 4 }),
        0x9D => Some(Operation { op: OPCode::STA, mode: AddressingMode::AbsoluteX, cycle: 5 }),
        0x99 => Some(Operation { op: OPCode::STA, mode: AddressingMode::AbsoluteY, cycle: 5 }),
        0x81 => Some(Operation { op: OPCode::STA, mode: AddressingMode::IndirectX, cycle: 6 }),
        0x91 => Some(Operation { op: OPCode::STA, mode: AddressingMode::IndirectY, cycle: 6 }),
        0x86 => Some(Operation { op: OPCode::STX, mode: AddressingMode::ZeroPage, cycle: 3 }),
        0x96 => Some(Operation { op: OPCode::STX, mode: AddressingMode::ZeroPageY, cycle: 4 }),
        0x8E => Some(Operation { op: OPCode::STX, mode: AddressingMode::Absolute, cycle: 4 }),
        0x9A => Some(Operation { op: OPCode::TXS, mode: AddressingMode::Implied, cycle: 2 }),
        0x98 => Some(Operation { op: OPCode::TYA, mode: AddressingMode::Implied, cycle: 2 }),
        0x00 => Some(Operation { op: OPCode::BRK, mode: AddressingMode::Implied, cycle: 7 }),
        0xEA => Some(Operation { op: OPCode::NOP, mode: AddressingMode::Implied, cycle: 2 }),
        0x18 => Some(Operation { op: OPCode::CLC, mode: AddressingMode::Implied, cycle: 2 }),
        0xD8 => Some(Operation { op: OPCode::CLD, mode: AddressingMode::Implied, cycle: 2 }),
        0x58 => Some(Operation { op: OPCode::CLI, mode: AddressingMode::Implied, cycle: 2 }),
        0xB8 => Some(Operation { op: OPCode::CLV, mode: AddressingMode::Implied, cycle: 2 }),
        0x38 => Some(Operation { op: OPCode::SEC, mode: AddressingMode::Implied, cycle: 2 }),
        0xF8 => Some(Operation { op: OPCode::SED, mode: AddressingMode::Implied, cycle: 2 }),
        0x78 => Some(Operation { op: OPCode::SEI, mode: AddressingMode::Implied, cycle: 2 }),
        _ => None,
    }
}

impl Operation {
    /// Looks the opcode byte up in the instruction table. A byte without an
    /// entry is refused.
    pub fn new(op: u8) -> (r: Result<Operation, Fault>)
        ensures
            r == match decode(op) {
                Some(o) => Ok::<Operation, Fault>(o),
                None => Err(Fault::UnknownOpcode),
            },
    {
        match op {
            0x69 => Ok(create(OPCode::ADC, AddressingMode::Immediate, 2)),
            0x65 => Ok(create(OPCode::ADC, AddressingMode::ZeroPage, 3)),
            0x75 => Ok(create(OPCode::ADC, AddressingMode::ZeroPageX, 4)),
            0x6D => Ok(create(OPCode::ADC, AddressingMode::Absolute, 4)),
            0x7D => Ok(create(OPCode::ADC, AddressingMode::AbsoluteX, 4)),
            0x79 => Ok(create(OPCode::ADC, AddressingMode::AbsoluteY, 4)),
            0x61 => Ok(create(OPCode::ADC, AddressingMode::IndirectX, 6)),
            0x71 => Ok(create(OPCode::ADC, AddressingMode::IndirectY, 5)),
            0x29 => Ok(create(OPCode::AND, AddressingMode::Immediate, 2)),
            0x25 => Ok(create(OPCode::AND, AddressingMode::ZeroPage, 3)),
            0x35 => Ok(create(OPCode::AND, AddressingMode::ZeroPageX, 4)),
            0x2D => Ok(create(OPCode::AND, AddressingMode::Absolute, 4)),
            0x3D => Ok(create(OPCode::AND, AddressingMode::AbsoluteX, 4)),
            0x39 => Ok(create(OPCode::AND, AddressingMode::AbsoluteY, 4)),
            0x21 => Ok(create(OPCode::AND, AddressingMode::IndirectX, 6)),
            0x31 => Ok(create(OPCode::AND, AddressingMode::IndirectY, 5)),
            0x06 => Ok(create(OPCode::ASL, AddressingMode::ZeroPage, 5)),
            0x0A => Ok(create(OPCode::ASL, AddressingMode::Accumulator, 2)),
            0x0E => Ok(create(OPCode::ASL, AddressingMode::Absolute, 6)),
            0x16 => Ok(create(OPCode::ASL, AddressingMode::ZeroPageX, 6)),
            0x1E => Ok(create(OPCode::ASL, AddressingMode::AbsoluteX, 7)),
            0xC9 => Ok(create(OPCode::CMP, AddressingMode::Immediate, 2)),
            0xC5 => Ok(create(OPCode::CMP, AddressingMode::ZeroPage, 3)),
            0xD5 => Ok(create(OPCode::CMP, AddressingMode::ZeroPageX, 4)),
            0xCD => Ok(create(OPCode::CMP, AddressingMode::Absolute, 4)),
            0xDD => Ok(create(OPCode::CMP, AddressingMode::AbsoluteX, 4)),
            0xD9 => Ok(create(OPCode::CMP, AddressingMode::AbsoluteY, 4)),
            0xC1 => Ok(create(OPCode::CMP, AddressingMode::IndirectX, 6)),
            0xD1 => Ok(create(OPCode::CMP, AddressingMode::IndirectY, 5)),
            0xE0 => Ok(create(OPCode::CPX, AddressingMode::Immediate, 2)),
            0xE4 => Ok(create(OPCode::CPX, AddressingMode::ZeroPage, 3)),
            0xEC => Ok(create(OPCode::CPX, AddressingMode::Absolute, 4)),
            0xC0 => Ok(create(OPCode::CPY, AddressingMode::Immediate, 2)),
            0xC4 => Ok(create(OPCode::CPY, AddressingMode::ZeroPage, 3)),
            0xCC => Ok(create(OPCode::CPY, AddressingMode::Absolute, 4)),
            0xCA => Ok(create(OPCode::DEX, AddressingMode::Implied, 2)),
            0x88 => Ok(create(OPCode::DEY, AddressingMode::Implied, 2)),
            0xE6 => Ok(create(OPCode::INC, AddressingMode::ZeroPage, 5)),
            0xF6 => Ok(create(OPCode::INC, AddressingMode::ZeroPageX, 6)),
            0xEE => Ok(create(OPCode::INC, AddressingMode::Absolute, 6)),
            0xFE => Ok(create(OPCode::INC, AddressingMode::AbsoluteX, 7)),
            0xE8 => Ok(create(OPCode::INX, AddressingMode::Implied, 2)),
            0x09 => Ok(create(OPCode::ORA, AddressingMode::Immediate, 2)),
            0x05 => Ok(create(OPCode::ORA, AddressingMode::ZeroPage, 3)),
            0x15 => Ok(create(OPCode::ORA, AddressingMode::ZeroPageX, 4)),
            0x0D => Ok(create(OPCode::ORA, AddressingMode::Absolute, 4)),
            0x1D => Ok(create(OPCode::ORA, AddressingMode::AbsoluteX, 4)),
            0x19 => Ok(create(OPCode::ORA, AddressingMode::AbsoluteY, 4)),
            0x01 => Ok(create(OPCode::ORA, AddressingMode::IndirectX, 6)),
            0x11 => Ok(create(OPCode::ORA, AddressingMode::IndirectY, 5)),
            0xE9 => Ok(create(OPCode::SBC, AddressingMode::Immediate, 2)),
            0xE5 => Ok(create(OPCode::SBC, AddressingMode::ZeroPage, 3)),
            0xF5 => Ok(create(OPCode::SBC, AddressingMode::ZeroPageX, 4)),
            0xED => Ok(create(OPCode::SBC, AddressingMode::Absolute, 4)),
            0xFD => Ok(create(OPCode::SBC, AddressingMode::AbsoluteX, 4)),
            0xF9 => Ok(create(OPCode::SBC, AddressingMode::AbsoluteY, 4)),
            0xE1 => Ok(create(OPCode::SBC, AddressingMode::IndirectX, 6)),
            0xF1 => Ok(create(OPCode::SBC, AddressingMode::IndirectY, 5)),
            0x90 => Ok(create(OPCode::BCC, AddressingMode::Relative, 2)),
            0xB0 => Ok(create(OPCode::BCS, AddressingMode::Relative, 2)),
            0xF0 => Ok(create(OPCode::BEQ, AddressingMode::Relative, 2)),
            0x30 => Ok(create(OPCode::BMI, AddressingMode::Relative, 2)),
            0xD0 => Ok(create(OPCode::BNE, AddressingMode::Relative, 2)),
            0x10 => Ok(create(OPCode::BPL, AddressingMode::Relative, 2)),
            0x50 => Ok(create(OPCode::BVC, AddressingMode::Relative, 2)),
            0x70 => Ok(create(OPCode::BVS, AddressingMode::Relative, 2)),
            0x4C => Ok(create(OPCode::JMP, AddressingMode::Absolute, 3)),
            0x6C => Ok(create(OPCode::JMP, AddressingMode::Indirect, 5)),
            0x20 => Ok(create(OPCode::JSR, AddressingMode::Absolute, 6)),
            0x60 => Ok(create(OPCode::RTS, AddressingMode::Implied, 6)),
            0xA1 => Ok(create(OPCode::LDA, AddressingMode::IndirectX, 6)),
            0xA5 => Ok(create(OPCode::LDA, AddressingMode::ZeroPage, 3)),
            0xA9 => Ok(create(OPCode::LDA, AddressingMode::Immediate, 2)),
            0xAD => Ok(create(OPCode::LDA, AddressingMode::Absolute, 4)),
            0xB1 => Ok(create(OPCode::LDA, AddressingMode::IndirectY, 5)),
            0xB5 => Ok(create(OPCode::LDA, AddressingMode::ZeroPageX, 4)),
            0xB9 => Ok(create(OPCode::LDA, AddressingMode::AbsoluteY, 4)),
            0xBD => Ok(create(OPCode::LDA, AddressingMode::AbsoluteX, 4)),
            0xA2 => Ok(create(OPCode::LDX, AddressingMode::Immediate, 2)),
            0xA6 => Ok(create(OPCode::LDX, AddressingMode::ZeroPage, 3)),
            0xAE => Ok(create(OPCode::LDX, AddressingMode::Absolute, 4)),
            0xB6 => Ok(create(OPCode::LDX, AddressingMode::ZeroPageY, 4)),
            0xBE => Ok(create(OPCode::LDX, AddressingMode::AbsoluteY, 4)),
            0xA0 => Ok(create(OPCode::LDY, AddressingMode::Immediate, 2)),
            0xA4 => Ok(create(OPCode::LDY, AddressingMode::ZeroPage, 3)),
            0xB4 => Ok(create(OPCode::LDY, AddressingMode::ZeroPageX, 4)),
            0xAC => Ok(create(OPCode::LDY, AddressingMode::Absolute, 4)),
            0xBC => Ok(create(OPCode::LDY, AddressingMode::AbsoluteX, 4)),
            0x85 => Ok(create(OPCode::STA, AddressingMode::ZeroPage, 3)),
            0x95 => Ok(create(OPCode::STA, AddressingMode::ZeroPageX, 4)),
            0x8D => Ok(create(OPCode::STA, AddressingMode::Absolute, 4)),
            0x9D => Ok(create(OPCode::STA, AddressingMode::AbsoluteX, 5)),
            0x99 => Ok(create(OPCode::STA, AddressingMode::AbsoluteY, 5)),
            0x81 => Ok(create(OPCode::STA, AddressingMode::IndirectX, 6)),
            0x91 => Ok(create(OPCode::STA, AddressingMode::IndirectY, 6)),
            0x86 => Ok(create(OPCode::STX, AddressingMode::ZeroPage, 3)),
            0x96 => Ok(create(OPCode::STX, AddressingMode::ZeroPageY, 4)),
            0x8E => Ok(create(OPCode::STX, AddressingMode::Absolute, 4)),
            0x9A => Ok(create(OPCode::TXS, AddressingMode::Implied, 2)),
            0x98 => Ok(create(OPCode::TYA, AddressingMode::Implied, 2)),
            0x00 => Ok(create(OPCode::BRK, AddressingMode::Implied, 7)),
            0xEA => Ok(create(OPCode::NOP, AddressingMode::Implied, 2)),
            0x18 => Ok(create(OPCode::CLC, AddressingMode::Implied, 2)),
            0xD8 => Ok(create(OPCode::CLD, AddressingMode::Implied, 2)),
            0x58 => Ok(create(OPCode::CLI, AddressingMode::Implied, 2)),
            0xB8 => Ok(create(OPCode::CLV, AddressingMode::Implied, 2)),
            0x38 => Ok(create(OPCode::SEC, AddressingMode::Implied, 2)),
            0xF8 => Ok(create(OPCode::SED, AddressingMode::Implied, 2)),
            0x78 => Ok(create(OPCode::SEI, AddressingMode::Implied, 2)),
            _ => Err(Fault::UnknownOpcode),
        }
    }
}

/// Puts a descriptor together from its three parts.
pub fn create(op: OPCode, mode: AddressingMode, cycle: u32) -> (r: Operation)
    ensures
        r == (Operation { op, mode, cycle }),
{
    Operation { op, mode, cycle }
}

/// Every instruction in the table is charged between two and seven cycles.
pub proof fn lemma_decode_cycles(op: u8)
    ensures
        decode(op) matches Some(o) ==> 2 <= o.cycle <= 7,
{
}

/// The conditional branches, and only they, take a relative operand.
pub proof fn lemma_decode_relative(op: u8)
    ensures
        decode(op) matches Some(o) ==> (o.mode == AddressingMode::Relative <==> is_branch(o.op)),
{
}

/// The instruction table is regular: the low five bits of an opcode byte
/// name the addressing mode in the columns below, whatever the operation.
pub proof fn lemma_decode_columns(op: u8)
    ensures
        decode(op) matches Some(o) ==> {
            &&& op % 0x20 == 0x01 ==> o.mode == AddressingMode::IndirectX
            &&& op % 0x20 == 0x11 ==> o.mode == AddressingMode::IndirectY
            &&& (op % 0x20 == 0x04 || op % 0x20 == 0x05 || op % 0x20 == 0x06) ==> o.mode
                == AddressingMode::ZeroPage
            &&& op % 0x20 == 0x09 ==> o.mode == AddressingMode::Immediate
            &&& op % 0x20 == 0x0D ==> o.mode == AddressingMode::Absolute
            &&& op % 0x20 == 0x10 ==> o.mode == AddressingMode::Relative
            &&& op % 0x20 == 0x15 ==> o.mode == AddressingMode::ZeroPageX
            &&& op % 0x20 == 0x19 ==> o.mode == AddressingMode::AbsoluteY
            &&& op % 0x20 == 0x1D ==> o.mode == AddressingMode::AbsoluteX
        },
{
}

/// The cycles charged are regular too: an immediate operand or a branch
/// costs two cycles, every instruction that goes through a pointer indexed by
/// X six, and an instruction that reads or stores a cell of page zero without
/// an index three.
pub proof fn lemma_decode_charges(op: u8)
    ensures
        decode(op) matches Some(o) ==> {
            &&& o.mode == AddressingMode::Immediate ==> o.cycle == 2
            &&& o.mode == AddressingMode::Relative ==> o.cycle == 2
            &&& o.mode == AddressingMode::IndirectX ==> o.cycle == 6
            &&& o.mode == AddressingMode::ZeroPage && o.op != OPCode::ASL && o.op != OPCode::INC
                ==> o.cycle == 3
            &&& o.mode == AddressingMode::ZeroPage && (o.op == OPCode::ASL || o.op == OPCode::INC)
                ==> o.cycle == 5
        },
{
}

/// Whether the operation is one of the eight conditional branches.
pub open spec fn is_branch(op: OPCode) -> bool {
    op == OPCode::BCC || op == OPCode::BCS || op == OPCode::BEQ || op == OPCode::BNE
        || op == OPCode::BVC || op == OPCode::BVS || op == OPCode::BPL || op == OPCode::BMI
}

/// Signed overflow of an addition or subtraction on the accumulator: the
/// result's sign differs from the sign of both inputs.
pub open spec fn overflowed(pre: u16, rhs: u16, result: u16) -> bool {
    0 != ((pre ^ result) & (rhs ^ result) & 0x80)
}

/// The carry flag as a number.
pub open spec fn carry_in(p: State) -> int {
    if p.c {
        1
    } else {
        0
    }
}

/// Whether a conditional branch is taken under flags `p`; `None` for an
/// operation that is no branch. Each branch tests one flag for one value.
pub open spec fn branch_taken(op: OPCode, p: State) -> Option<bool> {
    match op {
        OPCode::BCC => Some(!p.c),
        OPCode::BCS => Some(p.c),
        OPCode::BEQ => Some(p.z),
        OPCode::BNE => Some(!p.z),
        OPCode::BVC => Some(!p.v),
        OPCode::BVS => Some(p.v),
        OPCode::BPL => Some(!p.n),
        OPCode::BMI => Some(p.n),
        _ => None,
    }
}

impl Machine {
    /// The machine with flags `p`.
    pub open spec fn with_flags(self, p: State) -> Machine {
        Machine { reg: Register { p, ..self.reg }, ..self }
    }

    /// The machine with program counter `pc`.
    pub open spec fn with_pc(self, pc: u16) -> Machine {
        Machine { reg: Register { pc, ..self.reg }, ..self }
    }

    /// Zero and negative are taken from `value`, then `value` is stored at
    /// `addr`. No other flag changes. The program counter and the flags are
    /// no place to store a result.
    pub open spec fn set_nz(self, value: u8, addr: WriteAddr) -> (Machine, Result<(), Fault>) {
        let m = self.with_flags(self.reg.p.with_nz(value));
        match addr {
            WriteAddr::a => (Machine { reg: Register { a: value, ..m.reg }, ..m }, Ok(())),
            WriteAddr::x => (Machine { reg: Register { x: value, ..m.reg }, ..m }, Ok(())),
            WriteAddr::y => (Machine { reg: Register { y: value, ..m.reg }, ..m }, Ok(())),
            WriteAddr::sp => (Machine { reg: Register { sp: value, ..m.reg }, ..m }, Ok(())),
            WriteAddr::Memory(at) => m.write(at as int, value),
            WriteAddr::Discard => (m, Ok(())),
            _ => (m, Err(Fault::BadOperand)),
        }
    }

    /// As `set_nz` on the low byte of `result`; carry is then set if and only
    /// if `result`, before it is cut to 8 bits, is above 0xFF.
    pub open spec fn set_nzc(self, result: u16, addr: WriteAddr) -> (Machine, Result<(), Fault>) {
        let s = self.set_nz((result % 0x100) as u8, addr);
        match s.1 {
            Err(e) => s,
            Ok(_) => (s.0.with_flags(State { c: result > 0xFF, ..s.0.reg.p }), Ok(())),
        }
    }

    /// As `set_nzc`; overflow is then set if and only if the sign of
    /// `result` differs from the signs of both `pre` and `rhs`.
    pub open spec fn set_nvzc(self, pre: u16, rhs: u16, result: u16, addr: WriteAddr) -> (
        Machine,
        Result<(), Fault>,
    ) {
        let s = self.set_nzc(result, addr);
        match s.1 {
            Err(e) => s,
            Ok(_) => (
                s.0.with_flags(State { v: overflowed(pre, rhs, result), ..s.0.reg.p }),
                Ok(()),
            ),
        }
    }

    /// Sets or clears one flag. Decimal mode does not exist, so the two
    /// operations on it change nothing.
    pub open spec fn flag_op(self, op: OPCode) -> (Machine, Result<(), Fault>) {
        match op {
            OPCode::CLC => (self.with_flags(State { c: false, ..self.reg.p }), Ok(())),
            OPCode::SEC => (self.with_flags(State { c: true, ..self.reg.p }), Ok(())),
            OPCode::CLI => (self.with_flags(State { i: false, ..self.reg.p }), Ok(())),
            OPCode::SEI => (self.with_flags(State { i: true, ..self.reg.p }), Ok(())),
            OPCode::CLV => (self.with_flags(State { v: false, ..self.reg.p }), Ok(())),
            OPCode::CLD | OPCode::SED => (self, Ok(())),
            _ => (self, Err(Fault::BadOperand)),
        }
    }

    /// Combines the accumulator with `opeland` bit by bit and keeps the
    /// result in the accumulator.
    pub open spec fn logic_op(self, op: OPCode, opeland: u8) -> (Machine, Result<(), Fault>) {
        match op {
            OPCode::AND => self.set_nz(self.reg.a & opeland, WriteAddr::a),
            OPCode::ORA => self.set_nz(self.reg.a | opeland, WriteAddr::a),
            OPCode::EOR => self.set_nz(self.reg.a ^ opeland, WriteAddr::a),
            _ => (self, Err(Fault::BadOperand)),
        }
    }

    /// Subtracts `opeland` from a register in 16 bits and keeps only the
    /// flags: carry is set when the difference is below zero.
    pub open spec fn compare_op(self, op: OPCode, opeland: u8) -> (Machine, Result<(), Fault>) {
        match op {
            OPCode::CMP => self.set_nzc(wrap16(self.reg.a - opeland), WriteAddr::Discard),
            OPCode::CPX => self.set_nzc(wrap16(self.reg.x - opeland), WriteAddr::Discard),
            OPCode::CPY => self.set_nzc(wrap16(self.reg.y - opeland), WriteAddr::Discard),
            _ => (self, Err(Fault::BadOperand)),
        }
    }

    /// Adds `opeland` and the carry to the accumulator, or subtracts
    /// `opeland` from it and adds the carry, in 16 bits. Shifts and rotations
    /// are not modelled.
    pub open spec fn acc_op(self, op: OPCode, opeland: u8) -> (Machine, Result<(), Fault>) {
        match op {
            OPCode::ADC => self.set_nvzc(
                self.reg.a as u16,
                opeland as u16,
                (self.reg.a + opeland + carry_in(self.reg.p)) as u16,
                WriteAddr::a,
            ),
            OPCode::SBC => self.set_nvzc(
                self.reg.a as u16,
                opeland as u16,
                wrap16(self.reg.a - opeland + carry_in(self.reg.p)),
                WriteAddr::a,
            ),
            OPCode::ASL | OPCode::LSR | OPCode::ROL | OPCode::ROR => (
                self,
                Err(Fault::Unimplemented),
            ),
            _ => (self, Err(Fault::BadOperand)),
        }
    }

    /// Steps a memory cell or an index register by one, up or down, with
    /// wraparound. The cell is named by an address; the registers take no
    /// operand.
    pub open spec fn register_acc_op(self, op: OPCode, opeland: Opeland) -> (
        Machine,
        Result<(), Fault>,
    ) {
        match (op, opeland) {
            (OPCode::INC, Opeland::Address(addr)) => {
                let r = self.read(addr as int);
                match r.1 {
                    Err(e) => (r.0, Err(e)),
                    Ok(value) => r.0.set_nz(value.add_model(1), WriteAddr::Memory(addr as usize)),
                }
            },
            (OPCode::DEC, Opeland::Address(addr)) => {
                let r = self.read(addr as int);
                match r.1 {
                    Err(e) => (r.0, Err(e)),
                    Ok(value) => r.0.set_nz(value.sub_model(1), WriteAddr::Memory(addr as usize)),
                }
            },
            (OPCode::INX, Opeland::Absent) => self.set_nz(self.reg.x.add_model(1), WriteAddr::x),
            (OPCode::DEX, Opeland::Absent) => self.set_nz(self.reg.x.sub_model(1), WriteAddr::x),
            (OPCode::INY, Opeland::Absent) => self.set_nz(self.reg.y.add_model(1), WriteAddr::y),
            (OPCode::DEY, Opeland::Absent) => self.set_nz(self.reg.y.sub_model(1), WriteAddr::y),
            _ => (self, Err(Fault::BadOperand)),
        }
    }

    /// Sets the program counter to the place of `opeland` in program memory.
    /// A call first pushes the program counter less one, high byte, then low
    /// byte. A target below program memory is refused.
    pub open spec fn jump_op(self, op: OPCode, opeland: u16) -> (Machine, Result<(), Fault>) {
        if op != OPCode::JMP && op != OPCode::JSR {
            (self, Err(Fault::BadOperand))
        } else if opeland < 0x8000 {
            (self, Err(Fault::BadAddress))
        } else if op == OPCode::JMP {
            (self.with_pc((opeland - 0x8000) as u16), Ok(()))
        } else {
            let back = wrap16(self.reg.pc + 0xFFFF);
            (
                self.push((back / 0x100) as u8).push((back % 0x100) as u8).with_pc(
                    (opeland - 0x8000) as u16,
                ),
                Ok(()),
            )
        }
    }

    /// Pops the low byte and then the high byte of a program counter. The
    /// return from a subroutine goes on behind the popped place; the return
    /// from an interrupt at it.
    pub open spec fn rt_op(self, op: OPCode) -> (Machine, Result<(), Fault>) {
        let low = self.pop();
        let high = low.0.pop();
        let popped = high.1 as int * 0x100 + low.1 as int;
        match op {
            OPCode::RTS => (high.0.with_pc(wrap16(popped + 1)), Ok(())),
            OPCode::RTI => (high.0.with_pc(popped as u16), Ok(())),
            _ => (self, Err(Fault::BadOperand)),
        }
    }

    /// Copies the value that `opeland` stands for into a register.
    pub open spec fn load_op(self, op: OPCode, opeland: Opeland) -> (Machine, Result<(), Fault>) {
        if op != OPCode::LDA && op != OPCode::LDX && op != OPCode::LDY {
            (self, Err(Fault::BadOperand))
        } else {
            let r = self.value_of(opeland);
            match r.1 {
                Err(e) => (r.0, Err(e)),
                Ok(value) => match op {
                    OPCode::LDA => r.0.set_nz(value, WriteAddr::a),
                    OPCode::LDX => r.0.set_nz(value, WriteAddr::x),
                    _ => r.0.set_nz(value, WriteAddr::y),
                },
            }
        }
    }

    /// Copies one register into another.
    pub open spec fn copy_op(self, op: OPCode) -> (Machine, Result<(), Fault>) {
        match op {
            OPCode::TAX => self.set_nz(self.reg.a, WriteAddr::x),
            OPCode::TAY => self.set_nz(self.reg.a, WriteAddr::y),
            OPCode::TSX => self.set_nz(self.reg.sp, WriteAddr::x),
            OPCode::TXA => self.set_nz(self.reg.x, WriteAddr::a),
            OPCode::TXS => self.set_nz(self.reg.x, WriteAddr::sp),
            OPCode::TYA => self.set_nz(self.reg.y, WriteAddr::a),
            _ => (self, Err(Fault::BadOperand)),
        }
    }

    /// Writes a register to the bus at `opeland`. No flag changes.
    pub open spec fn store_op(self, op: OPCode, opeland: int) -> (Machine, Result<(), Fault>) {
        match op {
            OPCode::STA => self.write(opeland, self.reg.a),
            OPCode::STX => self.write(opeland, self.reg.x),
            OPCode::STY => self.write(opeland, self.reg.y),
            _ => (self, Err(Fault::BadOperand)),
        }
    }

    /// Sets the program counter to `opeland` if the branch is taken, and
    /// changes nothing if it is not.
    pub open spec fn branch_op(self, op: OPCode, opeland: u16) -> (Machine, Result<(), Fault>) {
        match branch_taken(op, self.reg.p) {
            Some(true) => (self.with_pc(opeland), Ok(())),
            Some(false) => (self, Ok(())),
            None => (self, Err(Fault::BadOperand)),
        }
    }
}

impl CPU {
    /// Takes zero and negative from `value` and stores `value` at `addr`.
    #[allow(non_snake_case)]
    pub fn nz_withSet(&mut self, value: u8, addr: WriteAddr) -> (r: Result<(), Fault>)
        ensures
            final(self)@ == old(self)@.set_nz(value, addr).0,
            r == old(self)@.set_nz(value, addr).1,
    {
        let zero = value == 0;
        let neg = value >= 0x80;
        self.register.p.n = neg;
        self.register.p.z = zero;
        match addr {
            WriteAddr::a => self.register.a = value,
            WriteAddr::x => self.register.x = value,
            WriteAddr::y => self.register.y = value,
            WriteAddr::sp => self.register.sp = value,
            WriteAddr::Memory(addr) => {
                return self.memory.write(value, addr);
            },
            WriteAddr::Discard => (),
            _ => {
                return Err(Fault::BadOperand);
            },
        }
        Ok(())
    }

    /// Takes carry from the 16-bit `result` and zero and negative from its
    /// low byte, which it stores at `addr`.
    #[allow(non_snake_case)]
    pub fn nzc_withSet(&mut self, result: u16, addr: WriteAddr) -> (r: Result<(), Fault>)
        ensures
            final(self)@ == old(self)@.set_nzc(result, addr).0,
            r == old(self)@.set_nzc(result, addr).1,
    {
        let carry = result > 0xFF;
        let low = (result % 0x100) as u8;
        match self.nz_withSet(low, addr) {
            Ok(_) => {
                self.register.p.c = carry;
                Ok(())
            },
            Err(e) => Err(e),
        }
    }

    /// Takes overflow from the signs of `pre`, `rhs` and `result`, and the
    /// other three flags as `nzc_withSet` does.
    #[allow(non_snake_case)]
    pub fn nvzc_withSet(&mut self, pre: u16, rhs: u16, result: u16, addr: WriteAddr) -> (r: Result<
        (),
        Fault,
    >)
        ensures
            final(self)@ == old(self)@.set_nvzc(pre, rhs, result, addr).0,
            r == old(self)@.set_nvzc(pre, rhs, result, addr).1,
    {
        let overflow = 0 != ((pre ^ result) & (rhs ^ result) & 0x80);
        match self.nzc_withSet(result, addr) {
            Ok(_) => {
                self.register.p.v = overflow;
                Ok(())
            },
            Err(e) => Err(e),
        }
    }

    /// Sets or clears the flag that `op` names.
    pub fn flag_op(&mut self, op: &OPCode) -> (r: Result<(), Fault>)
        ensures
            final(self)@ == old(self)@.flag_op(*op).0,
            r == old(self)@.flag_op(*op).1,
    {
        match op {
            OPCode::CLC => self.register.p.c = false,
            OPCode::SEC => self.register.p.c = true,
            OPCode::CLI => self.register.p.i = false,
            OPCode::SEI => self.register.p.i = true,
            OPCode::CLV => self.register.p.v = false,
            OPCode::CLD | OPCode::SED => (),
            _ => {
                return Err(Fault::BadOperand);
            },
        }
        Ok(())
    }

    /// And, or, exclusive or of the accumulator with `opeland`.
    pub fn logic_op(&mut self, op: &OPCode, opeland: u8) -> (r: Result<(), Fault>)
        ensures
            final(self)@ == old(self)@.logic_op(*op, opeland).0,
            r == old(self)@.logic_op(*op, opeland).1,
    {
        let a = self.register.a;
        match op {
            OPCode::AND => self.nz_withSet(a & opeland, WriteAddr::a),
            OPCode::ORA => self.nz_withSet(a | opeland, WriteAddr::a),
            OPCode::EOR => self.nz_withSet(a ^ opeland, WriteAddr::a),
            _ => Err(Fault::BadOperand),
        }
    }

    /// Compares a register with `opeland`; only flags change.
    pub fn compare_op(&mut self, op: &OPCode, opeland: u8) -> (r: Result<(), Fault>)
        ensures
            final(self)@ == old(self)@.compare_op(*op, opeland).0,
            r == old(self)@.compare_op(*op, opeland).1,
    {
        let lhs = match op {
            OPCode::CMP => self.register.a,
            OPCode::CPX => self.register.x,
            OPCode::CPY => self.register.y,
            _ => {
                return Err(Fault::BadOperand);
            },
        };
        let result = u16::from(lhs).wrapping_sub(u16::from(opeland));
        self.nzc_withSet(result, WriteAddr::Discard)
    }

    /// Addition and subtraction on the accumulator, with the carry.
    pub fn acc_op(&mut self, op: &OPCode, opeland: u8) -> (r: Result<(), Fault>)
        ensures
            final(self)@ == old(self)@.acc_op(*op, opeland).0,
            r == old(self)@.acc_op(*op, opeland).1,
    {
        let pre_a = u16::from(self.register.a);
        let opeland = u16::from(opeland);
        let carry: u16 = if self.register.p.c {
            1
        } else {
            0
        };
        let result = match op {
            OPCode::ADC => pre_a + opeland + carry,
            OPCode::SBC => pre_a.wrapping_sub(opeland).wrapping_add(carry),
            OPCode::ASL | OPCode::LSR | OPCode::ROL | OPCode::ROR => {
                return Err(Fault::Unimplemented);
            },
            _ => {
                return Err(Fault::BadOperand);
            },
        };
        self.nvzc_withSet(pre_a, opeland, result, WriteAddr::a)
    }

    /// Increment and decrement of a memory cell or an index register.
    pub fn register_acc_op(&mut self, op: &OPCode, opeland: Opeland) -> (r: Result<(), Fault>)
        ensures
            final(self)@ == old(self)@.register_acc_op(*op, opeland).0,
            r == old(self)@.register_acc_op(*op, opeland).1,
    {
        match (op, opeland) {
            (OPCode::INC, Opeland::Address(addr)) => {
                match self.memory.read(usize::from(addr)) {
                    Ok(value) => self.nz_withSet(
                        value.calc_add(1),
                        WriteAddr::Memory(usize::from(addr)),
                    ),
                    Err(e) => Err(e),
                }
            },
            (OPCode::DEC, Opeland::Address(addr)) => {
                match self.memory.read(usize::from(addr)) {
                    Ok(value) => self.nz_withSet(
                        value.calc_sub(1),
                        WriteAddr::Memory(usize::from(addr)),
                    ),
                    Err(e) => Err(e),
                }
            },
            (OPCode::INX, Opeland::Absent) => {
                let value = self.register.x;
                self.nz_withSet(value.calc_add(1), WriteAddr::x)
            },
            (OPCode::DEX, Opeland::Absent) => {
                let value = self.register.x;
                self.nz_withSet(value.calc_sub(1), WriteAddr::x)
            },
            (OPCode::INY, Opeland::Absent) => {
                let value = self.register.y;
                self.nz_withSet(value.calc_add(1), WriteAddr::y)
            },
            (OPCode::DEY, Opeland::Absent) => {
                let value = self.register.y;
                self.nz_withSet(value.calc_sub(1), WriteAddr::y)
            },
            _ => Err(Fault::BadOperand),
        }
    }

    /// Jump and subroutine call.
    pub fn jump_op(&mut self, op: &OPCode, opeland: u16) -> (r: Result<(), Fault>)
        ensures
            final(self)@ == old(self)@.jump_op(*op, opeland).0,
            r == old(self)@.jump_op(*op, opeland).1,
    {
        match op {
            OPCode::JMP | OPCode::JSR => (),
            _ => {
                return Err(Fault::BadOperand);
            },
        }
        if opeland < 0x8000 {
            return Err(Fault::BadAddress);
        }
        let addr = opeland - 0x8000;
        match op {
            OPCode::JSR => {
                let pc = self.register.pc.wrapping_sub(1);
                let pc_high = (pc / 0x100) as u8;
                let pc_low = (pc % 0x100) as u8;
                self.stack_push(pc_high);
                self.stack_push(pc_low);
                self.register.pc = addr;
            },
            _ => self.register.pc = addr,
        }
        Ok(())
    }

    /// Return from a subroutine or an interrupt.
    pub fn rt_op(&mut self, op: &OPCode) -> (r: Result<(), Fault>)
        ensures
            final(self)@ == old(self)@.rt_op(*op).0,
            r == old(self)@.rt_op(*op).1,
    {
        match op {
            OPCode::RTS | OPCode::RTI => (),
            _ => {
                return Err(Fault::BadOperand);
            },
        }
        let pc_low = u16::from(self.stack_pop());
        let pc_high = u16::from(self.stack_pop()) * 0x100;
        match op {
            OPCode::RTS => self.register.pc = (pc_low + pc_high).wrapping_add(1),
            _ => self.register.pc = pc_low + pc_high,
        }
        Ok(())
    }

    /// Load of a register.
    pub fn load_op(&mut self, op: &OPCode, opeland: Opeland) -> (r: Result<(), Fault>)
        ensures
            final(self)@ == old(self)@.load_op(*op, opeland).0,
            r == old(self)@.load_op(*op, opeland).1,
    {
        match op {
            OPCode::LDA | OPCode::LDX | OPCode::LDY => (),
            _ => {
                return Err(Fault::BadOperand);
            },
        }
        let value = match self.value_of(opeland) {
            Ok(v) => v,
            Err(e) => {
                return Err(e);
            },
        };
        match op {
            OPCode::LDA => self.nz_withSet(value, WriteAddr::a),
            OPCode::LDX => self.nz_withSet(value, WriteAddr::x),
            _ => self.nz_withSet(value, WriteAddr::y),
        }
    }

    /// Copy between registers.
    pub fn copy_op(&mut self, op: &OPCode) -> (r: Result<(), Fault>)
        ensures
            final(self)@ == old(self)@.copy_op(*op).0,
            r == old(self)@.copy_op(*op).1,
    {
        let reg = self.register;
        match op {
            OPCode::TAX => self.nz_withSet(reg.a, WriteAddr::x),
            OPCode::TAY => self.nz_withSet(reg.a, WriteAddr::y),
            OPCode::TSX => self.nz_withSet(reg.sp, WriteAddr::x),
            OPCode::TXA => self.nz_withSet(reg.x, WriteAddr::a),
            OPCode::TXS => self.nz_withSet(reg.x, WriteAddr::sp),
            OPCode::TYA => self.nz_withSet(reg.y, WriteAddr::a),
            _ => Err(Fault::BadOperand),
        }
    }

    /// Store of a register.
    pub fn store_op(&mut self, op: &OPCode, opeland: usize) -> (r: Result<(), Fault>)
        ensures
            final(self)@ == old(self)@.store_op(*op, opeland as int).0,
            r == old(self)@.store_op(*op, opeland as int).1,
    {
        let reg = self.register;
        match op {
            OPCode::STA => self.memory.write(reg.a, opeland),
            OPCode::STX => self.memory.write(reg.x, opeland),
            OPCode::STY => self.memory.write(reg.y, opeland),
            _ => Err(Fault::BadOperand),
        }
    }

    /// Conditional branch.
    pub fn branch_op(&mut self, op: &OPCode, opeland: u16) -> (r: Result<(), Fault>)
        ensures
            final(self)@ == old(self)@.branch_op(*op, opeland).0,
            r == old(self)@.branch_op(*op, opeland).1,
    {
        let p = self.register.p;
        let taken = match op {
            OPCode::BCC => !p.c,
            OPCode::BCS => p.c,
            OPCode::BEQ => p.z,
            OPCode::BNE => !p.z,
            OPCode::BVC => !p.v,
            OPCode::BVS => p.v,
            OPCode::BPL => !p.n,
            OPCode::BMI => p.n,
            _ => {
                return Err(Fault::BadOperand);
            },
        };
        if taken {
            self.register.pc = opeland;
        }
        Ok(())
    }
}

/// The byte `v` read as a signed number.
pub open spec fn signed(v: u8) -> int {
    if v < 0x80 {
        v as int
    } else {
        v as int - 0x100
    }
}

/// Increment and decrement of an index register wrap around: 255 steps up to
/// 0 and 0 steps down to 255. Zero and negative describe the new value; no
/// other flag, no other register and nothing on the bus changes.
pub proof fn lemma_step_register(m: Machine)
    ensures
        m.register_acc_op(OPCode::INX, Opeland::Absent) == (
            Machine {
                reg: Register {
                    x: ((m.reg.x + 1) % 0x100) as u8,
                    p: m.reg.p.with_nz(((m.reg.x + 1) % 0x100) as u8),
                    ..m.reg
                },
                ..m
            },
            Ok::<(), Fault>(()),
        ),
        m.register_acc_op(OPCode::DEX, Opeland::Absent) == (
            Machine {
                reg: Register {
                    x: ((m.reg.x + 0xFF) % 0x100) as u8,
                    p: m.reg.p.with_nz(((m.reg.x + 0xFF) % 0x100) as u8),
                    ..m.reg
                },
                ..m
            },
            Ok::<(), Fault>(()),
        ),
        m.register_acc_op(OPCode::INY, Opeland::Absent) == (
            Machine {
                reg: Register {
                    y: ((m.reg.y + 1) % 0x100) as u8,
                    p: m.reg.p.with_nz(((m.reg.y + 1) % 0x100) as u8),
                    ..m.reg
                },
                ..m
            },
            Ok::<(), Fault>(()),
        ),
        m.register_acc_op(OPCode::DEY, Opeland::Absent) == (
            Machine {
                reg: Register {
                    y: ((m.reg.y + 0xFF) % 0x100) as u8,
                    p: m.reg.p.with_nz(((m.reg.y + 0xFF) % 0x100) as u8),
                    ..m.reg
                },
                ..m
            },
            Ok::<(), Fault>(()),
        ),
{
}

/// Increment and decrement of a cell of work memory wrap around as those of
/// a register do, and zero and negative describe the new value of the cell.
pub proof fn lemma_step_memory(m: Machine, addr: u16)
    requires
        m.wf(),
        addr < 0x2000,
    ensures
        ({
            let old = m.bus.wram[addr as int % 0x0800];
            let up = m.register_acc_op(OPCode::INC, Opeland::Address(addr));
            let down = m.register_acc_op(OPCode::DEC, Opeland::Address(addr));
            &&& up.1 == Ok::<(), Fault>(())
            &&& up.0.bus.wram[addr as int % 0x0800] == (old + 1) % 0x100
            &&& up.0.reg == (Register { p: m.reg.p.with_nz(((old + 1) % 0x100) as u8), ..m.reg })
            &&& down.1 == Ok::<(), Fault>(())
            &&& down.0.bus.wram[addr as int % 0x0800] == (old + 0xFF) % 0x100
            &&& down.0.reg == (Register {
                p: m.reg.p.with_nz(((old + 0xFF) % 0x100) as u8),
                ..m.reg
            })
        }),
{
    let old = m.bus.wram[addr as int % 0x0800];
    lemma_ram_access(m.bus, addr as int, old.add_model(1));
    lemma_ram_access(m.bus, addr as int, old.sub_model(1));
}

/// Increment and decrement of the cell behind any address, wherever on the
/// bus it lies. The cell is read first; a read that fails is the failure of
/// the operation, which has then done no more than that read. Otherwise the
/// value read is stepped by one with wraparound, 255 up to 0 and 0 down to
/// 255; zero and negative are taken from the stepped value and no other flag
/// or register changes; and the stepped value is written back through the
/// bus at the same address, so that the operation succeeds exactly when that
/// write is taken.
pub proof fn lemma_step_cell(m: Machine, addr: u16)
    ensures
        ({
            let r = m.read(addr as int);
            let up = m.register_acc_op(OPCode::INC, Opeland::Address(addr));
            let down = m.register_acc_op(OPCode::DEC, Opeland::Address(addr));
            &&& r.1 matches Err(e) ==> up == (r.0, Err::<(), Fault>(e)) && down == (
                r.0,
                Err::<(), Fault>(e),
            )
            &&& r.1 matches Ok(value) ==> {
                let more = ((value + 1) % 0x100) as u8;
                let less = ((value + 0xFF) % 0x100) as u8;
                &&& (value == 0xFF ==> more == 0) && (value == 0 ==> less == 0xFF)
                &&& up.0.reg == (Register { p: m.reg.p.with_nz(more), ..m.reg })
                &&& up.0.reg.p.z == (more == 0) && up.0.reg.p.n == (more >= 0x80)
                &&& up.0.bus == r.0.bus.write(addr as int, more).0
                &&& up.1 == r.0.bus.write(addr as int, more).1
                &&& down.0.reg == (Register { p: m.reg.p.with_nz(less), ..m.reg })
                &&& down.0.reg.p.z == (less == 0) && down.0.reg.p.n == (less >= 0x80)
                &&& down.0.bus == r.0.bus.write(addr as int, less).0
                &&& down.1 == r.0.bus.write(addr as int, less).1
            }
        }),
{
}

/// Addition with carry: the accumulator receives the low byte of the sum of
/// accumulator, operand and carry; carry tells that the sum did not fit in 8
/// bits, overflow that the sum of the signed readings does not fit in a
/// signed byte; zero and negative describe the new accumulator.
pub proof fn lemma_add_with_carry(m: Machine, opeland: u8)
    ensures
        ({
            let sum = m.reg.a + opeland + carry_in(m.reg.p);
            let signed_sum = signed(m.reg.a) + signed(opeland) + carry_in(m.reg.p);
            let r = m.acc_op(OPCode::ADC, opeland);
            &&& r.1 == Ok::<(), Fault>(())
            &&& r.0.bus == m.bus
            &&& r.0.reg == (Register {
                a: (sum % 0x100) as u8,
                p: State {
                    c: sum > 0xFF,
                    v: !(-128 <= signed_sum <= 127),
                    z: sum % 0x100 == 0,
                    n: sum % 0x100 >= 0x80,
                    ..m.reg.p
                },
                ..m.reg
            })
        }),
{
    let a = m.reg.a as u16;
    let b = opeland as u16;
    let c: u16 = if m.reg.p.c {
        1
    } else {
        0
    };
    let sum = (a + b + c) as u16;
    assert(overflowed(a, b, sum) == ((a < 0x80 && b < 0x80 && sum % 0x100 >= 0x80) || (a >= 0x80
        && b >= 0x80 && sum % 0x100 < 0x80))) by (bit_vector)
        requires
            a < 0x100,
            b < 0x100,
            c < 2,
            sum == a + b + c,
    ;
}

/// Addition with carry does not care which of the two numbers stands in the
/// accumulator and which is the operand: sum and all four flags agree.
pub proof fn lemma_add_commutes(m: Machine, left: u8, right: u8)
    ensures
        (Machine { reg: Register { a: left, ..m.reg }, ..m }).acc_op(OPCode::ADC, right) == (
            Machine { reg: Register { a: right, ..m.reg }, ..m }
        ).acc_op(OPCode::ADC, left),
{
    lemma_add_with_carry(Machine { reg: Register { a: left, ..m.reg }, ..m }, right);
    lemma_add_with_carry(Machine { reg: Register { a: right, ..m.reg }, ..m }, left);
}

/// A comparison changes the three flags and nothing else: carry tells that
/// the register is below the operand, zero that the two are equal, and
/// negative is bit 7 of the difference.
pub proof fn lemma_compare(m: Machine, opeland: u8)
    ensures
        ({
            let r = m.compare_op(OPCode::CMP, opeland);
            &&& r.1 == Ok::<(), Fault>(())
            &&& r.0 == m.with_flags(
                State {
                    c: m.reg.a < opeland,
                    z: m.reg.a == opeland,
                    n: (m.reg.a - opeland) % 0x100 >= 0x80,
                    ..m.reg.p
                },
            )
        }),
{
}

/// A branch that is not taken changes nothing; one that is taken sets the
/// program counter to its target and changes nothing else. Branch-if-equal
/// is taken if and only if the zero flag is set.
pub proof fn lemma_branch(m: Machine, op: OPCode, target: u16)
    requires
        is_branch(op),
    ensures
        branch_taken(op, m.reg.p) is Some,
        branch_taken(OPCode::BEQ, m.reg.p) == Some(m.reg.p.z),
        m.branch_op(op, target).1 == Ok::<(), Fault>(()),
        branch_taken(op, m.reg.p) == Some(false) ==> m.branch_op(op, target).0 == m,
        branch_taken(op, m.reg.p) == Some(true) ==> m.branch_op(op, target).0 == m.with_pc(target),
{
}

/// The eight branches test the four flags carry, zero, overflow and negative,
/// each for both values: under any flags exactly one branch of each such pair
/// is taken.
pub proof fn lemma_branch_pairs(p: State)
    ensures
        branch_taken(OPCode::BCS, p) == Some(p.c) && branch_taken(OPCode::BCC, p) == Some(!p.c),
        branch_taken(OPCode::BEQ, p) == Some(p.z) && branch_taken(OPCode::BNE, p) == Some(!p.z),
        branch_taken(OPCode::BVS, p) == Some(p.v) && branch_taken(OPCode::BVC, p) == Some(!p.v),
        branch_taken(OPCode::BMI, p) == Some(p.n) && branch_taken(OPCode::BPL, p) == Some(!p.n),
{
}

/// A call followed by a return from subroutine comes back to where the call
/// was made: the program counter and the stack pointer are what they were
/// when the call began, which is behind the call's operand.
pub proof fn lemma_call_return(m: Machine, target: u16)
    requires
        m.wf(),
        target >= 0x8000,
    ensures
        ({
            let called = m.jump_op(OPCode::JSR, target);
            let back = called.0.rt_op(OPCode::RTS);
            &&& called.1 == Ok::<(), Fault>(())
            &&& called.0.reg.pc == target - 0x8000
            &&& called.0.wf()
            &&& back.1 == Ok::<(), Fault>(())
            &&& back.0.reg == m.reg
            &&& back.0.wf()
        }),
{
}

/// A store writes the register to the bus and leaves every register and
/// every flag as it was.
pub proof fn lemma_store_keeps_registers(m: Machine, op: OPCode, addr: int)
    ensures
        m.store_op(op, addr).0.reg == m.reg,
{
}

/// Subtraction with carry: the accumulator receives the low byte of
/// accumulator less operand plus carry; carry tells that this number is not
/// one of 0 to 255; zero and negative describe the new accumulator.
pub proof fn lemma_subtract_with_carry(m: Machine, opeland: u8)
    ensures
        ({
            let exact = m.reg.a - opeland + carry_in(m.reg.p);
            let r = m.acc_op(OPCode::SBC, opeland);
            &&& r.1 == Ok::<(), Fault>(())
            &&& r.0.bus == m.bus
            &&& r.0.reg.a == exact % 0x100
            &&& r.0.reg.p.c == !(0 <= exact <= 0xFF)
            &&& r.0.reg.p.z == (exact % 0x100 == 0)
            &&& r.0.reg.p.n == (exact % 0x100 >= 0x80)
            &&& r.0.reg == (Register {
                a: r.0.reg.a,
                p: State {
                    c: r.0.reg.p.c,
                    v: r.0.reg.p.v,
                    z: r.0.reg.p.z,
                    n: r.0.reg.p.n,
                    ..m.reg.p
                },
                ..m.reg
            })
        }),
{
}

/// The logic operations keep their result in the accumulator, take zero and
/// negative from it and change nothing else.
pub proof fn lemma_logic(m: Machine, opeland: u8)
    ensures
        m.logic_op(OPCode::AND, opeland) == (
            Machine {
                reg: Register {
                    a: m.reg.a & opeland,
                    p: m.reg.p.with_nz(m.reg.a & opeland),
                    ..m.reg
                },
                ..m
            },
            Ok::<(), Fault>(()),
        ),
        m.logic_op(OPCode::ORA, opeland) == (
            Machine {
                reg: Register {
                    a: m.reg.a | opeland,
                    p: m.reg.p.with_nz(m.reg.a | opeland),
                    ..m.reg
                },
                ..m
            },
            Ok::<(), Fault>(()),
        ),
        m.logic_op(OPCode::EOR, opeland) == (
            Machine {
                reg: Register {
                    a: m.reg.a ^ opeland,
                    p: m.reg.p.with_nz(m.reg.a ^ opeland),
                    ..m.reg
                },
                ..m
            },
            Ok::<(), Fault>(()),
        ),
{
}

/// A flag operation changes the flag it names, and nothing else.
pub proof fn lemma_flag(m: Machine, op: OPCode)
    ensures
        m.flag_op(op).0.bus == m.bus,
        m.flag_op(op).0.reg == (Register { p: m.flag_op(op).0.reg.p, ..m.reg }),
        m.flag_op(OPCode::SEC).0.reg.p == (State { c: true, ..m.reg.p }),
        m.flag_op(OPCode::CLC).0.reg.p == (State { c: false, ..m.reg.p }),
        m.flag_op(OPCode::SEI).0.reg.p == (State { i: true, ..m.reg.p }),
        m.flag_op(OPCode::CLI).0.reg.p == (State { i: false, ..m.reg.p }),
        m.flag_op(OPCode::CLV).0.reg.p == (State { v: false, ..m.reg.p }),
{
}

} // verus!
