//! The two 256-entry decode tables: the base opcode space and the
//! prefix-escape space reached through the fixed escape byte 0xCB.
//!
//! The tables are pure data. Each entry carries a diagnostic mnemonic, the
//! cycle cost, the cycle cost when a conditional branch is not taken, and
//! the instruction variant with its operand encodings.

use vstd::prelude::*;

verus! {

/// An 8-bit operand encoding: a register, an immediate, or a memory
/// operand addressed through a register pair, an immediate address, or
/// the high page at 0xFF00.
#[derive(Clone, Copy, Debug, PartialEq, Eq, Structural)]
pub enum Op8 {
    A,
    B,
    C,
    D,
    E,
    H,
    L,
    U8,
    I8,
    AddrU16,
    AddrBC,
    AddrDE,
    AddrHL,
    AddrHLInc,
    AddrHLDec,
    LowAddrC,
    LowAddrU8,
}

/// A 16-bit operand encoding: an immediate, a register pair, the stack
/// pointer, or the stack pointer plus a signed immediate.
#[derive(Clone, Copy, Debug, PartialEq, Eq, Structural)]
pub enum Op16 {
    U16,
    SP,
    BC,
    DE,
    HL,
    AF,
    SPPlusI8,
}

/// The condition a branching instruction tests against the flags.
#[derive(Clone, Copy, Debug, PartialEq, Eq, Structural)]
pub enum Condition {
    Zero,
    NotZero,
    Carry,
    NotCarry,
    Unconditional,
}

/// A base-table instruction variant with its operand encodings. `Illegal`
/// marks the documented gaps in the encoding space; executing one is a
/// fatal, reported error.
#[derive(Clone, Copy, Debug, PartialEq, Eq, Structural)]
pub enum OpcodeUnprefixed {
    Nop,
    Ld16(Op16, Op16),
    Ld8(Op8, Op8),
    LdU16StackAddr,
    Inc8(Op8),
    Inc16(Op16),
    Dec8(Op8),
    Dec16(Op16),
    Add16(Op16),
    Add8(Op8),
    AddI8SP,
    Stop,
    Halt,
    Jp(Condition, Op16),
    Jr(Condition),
    Ret(Condition),
    Rlca,
    Rrca,
    Rla,
    Rra,
    Daa,
    Cpl,
    Scf,
    Ccf,
    Adc(Op8),
    Sub(Op8),
    Sbc(Op8),
    And(Op8),
    Xor(Op8),
    Or(Op8),
    Cp(Op8),
    Pop(Op16),
    Call(Condition),
    Push(Op16),
    Rst(u16),
    Prefix,
    Reti,
    Di,
    Ei,
    Illegal,
}

/// A prefix-escape instruction variant: eight rotate/shift families and
/// the three bit instructions, each over the eight register or
/// HL-indirect operand encodings.
#[derive(Clone, Copy, Debug, PartialEq, Eq, Structural)]
pub enum OpcodePrefixed {
    Rlc(Op8),
    Rrc(Op8),
    Rl(Op8),
    Rr(Op8),
    Sla(Op8),
    Sra(Op8),
    Srl(Op8),
    Swap(Op8),
    Bit(u8, Op8),
    ResBit(u8, Op8),
    SetBit(u8, Op8),
}

/// One base-table entry: diagnostic mnemonic, cycle costs, and the
/// instruction variant.
#[derive(Clone, Copy, Debug)]
pub struct UnprefixedOpInfo {
    /// Diagnostic text for the instruction.
    pub mnemonic: &'static str,
    /// Cycle cost; for a conditional branch, the cost when taken.
    pub cycles: u64,
    /// Cycle cost of a conditional branch that is not taken; zero for
    /// instructions without a branch alternative.
    pub cycles_no_branch: u64,
    /// The decoded instruction variant.
    pub inst: OpcodeUnprefixed,
}

/// One prefix-escape entry: diagnostic mnemonic, cycle cost, and the
/// instruction variant.
#[derive(Clone, Copy, Debug)]
pub struct PrefixedOpInfo {
    /// Diagnostic text for the instruction.
    pub mnemonic: &'static str,
    /// Cycle cost of the whole two-byte instruction.
    pub cycles: u64,
    /// The decoded instruction variant.
    pub inst: OpcodePrefixed,
}

/// The base decode table: instruction variant, cycle cost, and
/// not-taken cycle cost for each of the 256 opcodes.
#[verifier::opaque]
pub open spec fn spec_lookup(op: u8) -> (OpcodeUnprefixed, u64, u64) {
    if op == 0x00 {
        (OpcodeUnprefixed::Nop, 4u64, 0u64)
    } else if op == 0x01 {
        (OpcodeUnprefixed::Ld16(Op16::BC, Op16::U16), 12u64, 0u64)
    } else if op == 0x02 {
        (OpcodeUnprefixed::Ld8(Op8::AddrBC, Op8::A), 8u64, 0u64)
    } else if op == 0x03 {
        (OpcodeUnprefixed::Inc16(Op16::BC), 8u64, 0u64)
    } else if op == 0x04 {
        (OpcodeUnprefixed::Inc8(Op8::B), 4u64, 0u64)
    } else if op == 0x05 {
        (OpcodeUnprefixed::Dec8(Op8::B), 4u64, 0u64)
    } else if op == 0x06 {
        (OpcodeUnprefixed::Ld8(Op8::B, Op8::U8), 8u64, 0u64)
    } else if op == 0x07 {
        (OpcodeUnprefixed::Rlca, 4u64, 0u64)
    } else if op == 0x08 {
        (OpcodeUnprefixed::LdU16StackAddr, 20u64, 0u64)
    } else if op == 0x09 {
        (OpcodeUnprefixed::Add16(Op16::BC), 8u64, 0u64)
    } else if op == 0x0A {
        (OpcodeUnprefixed::Ld8(Op8::A, Op8::AddrBC), 8u64, 0u64)
    } else if op == 0x0B {
        (OpcodeUnprefixed::Dec16(Op16::BC), 8u64, 0u64)
    } else if op == 0x0C {
        (OpcodeUnprefixed::Inc8(Op8::C), 4u64, 0u64)
    } else if op == 0x0D {
        (OpcodeUnprefixed::Dec8(Op8::C), 4u64, 0u64)
    } else if op == 0x0E {
        (OpcodeUnprefixed::Ld8(Op8::C, Op8::U8), 8u64, 0u64)
    } else if op == 0x0F {
        (OpcodeUnprefixed::Rrca, 4u64, 0u64)
    } else if op == 0x10 {
        (OpcodeUnprefixed::Stop, 4u64, 0u64)
    } else if op == 0x11 {
        (OpcodeUnprefixed::Ld16(Op16::DE, Op16::U16), 12u64, 0u64)
    } else if op == 0x12 {
        (OpcodeUnprefixed::Ld8(Op8::AddrDE, Op8::A), 8u64, 0u64)
    } else if op == 0x13 {
        (OpcodeUnprefixed::Inc16(Op16::DE), 8u64, 0u64)
    } else if op == 0x14 {
        (OpcodeUnprefixed::Inc8(Op8::D), 4u64, 0u64)
    } else if op == 0x15 {
        (OpcodeUnprefixed::Dec8(Op8::D), 4u64, 0u64)
    } else if op == 0x16 {
        (OpcodeUnprefixed::Ld8(Op8::D, Op8::U8), 8u64, 0u64)
    } else if op == 0x17 {
        (OpcodeUnprefixed::Rla, 4u64, 0u64)
    } else if op == 0x18 {
        (OpcodeUnprefixed::Jr(Condition::Unconditional), 12u64, 0u64)
    } else if op == 0x19 {
        (OpcodeUnprefixed::Add16(Op16::DE), 8u64, 0u64)
    } else if op == 0x1A {
        (OpcodeUnprefixed::Ld8(Op8::A, Op8::AddrDE), 8u64, 0u64)
    } else if op == 0x1B {
        (OpcodeUnprefixed::Dec16(Op16::DE), 8u64, 0u64)
    } else if op == 0x1C {
        (OpcodeUnprefixed::Inc8(Op8::E), 4u64, 0u64)
    } else if op == 0x1D {
        (OpcodeUnprefixed::Dec8(Op8::E), 4u64, 0u64)
    } else if op == 0x1E {
        (OpcodeUnprefixed::Ld8(Op8::E, Op8::U8), 8u64, 0u64)
    } else if op == 0x1F {
        (OpcodeUnprefixed::Rra, 4u64, 0u64)
    } else if op == 0x20 {
        (OpcodeUnprefixed::Jr(Condition::NotZero), 12u64, 8u64)
    } else if op == 0x21 {
        (OpcodeUnprefixed::Ld16(Op16::HL, Op16::U16), 12u64, 0u64)
    } else if op == 0x22 {
        (OpcodeUnprefixed::Ld8(Op8::AddrHLInc, Op8::A), 8u64, 0u64)
    } else if op == 0x23 {
        (OpcodeUnprefixed::Inc16(Op16::HL), 8u64, 0u64)
    } else if op == 0x24 {
        (OpcodeUnprefixed::Inc8(Op8::H), 4u64, 0u64)
    } else if op == 0x25 {
        (OpcodeUnprefixed::Dec8(Op8::H), 4u64, 0u64)
    } else if op == 0x26 {
        (OpcodeUnprefixed::Ld8(Op8::H, Op8::U8), 8u64, 0u64)
    } else if op == 0x27 {
        (OpcodeUnprefixed::Daa, 4u64, 0u64)
    } else if op == 0x28 {
        (OpcodeUnprefixed::Jr(Condition::Zero), 12u64, 8u64)
    } else if op == 0x29 {
        (OpcodeUnprefixed::Add16(Op16::HL), 8u64, 0u64)
    } else if op == 0x2A {
        (OpcodeUnprefixed::Ld8(Op8::A, Op8::AddrHLInc), 8u64, 0u64)
    } else if op == 0x2B {
        (OpcodeUnprefixed::Dec16(Op16::HL), 8u64, 0u64)
    } else if op == 0x2C {
        (OpcodeUnprefixed::Inc8(Op8::L), 4u64, 0u64)
    } else if op == 0x2D {
        (OpcodeUnprefixed::Dec8(Op8::L), 4u64, 0u64)
    } else if op == 0x2E {
        (OpcodeUnprefixed::Ld8(Op8::L, Op8::U8), 8u64, 0u64)
    } else if op == 0x2F {
        (OpcodeUnprefixed::Cpl, 4u64, 0u64)
    } else if op == 0x30 {
        (OpcodeUnprefixed::Jr(Condition::NotCarry), 12u64, 8u64)
    } else if op == 0x31 {
        (OpcodeUnprefixed::Ld16(Op16::SP, Op16::U16), 12u64, 0u64)
    } else if op == 0x32 {
        (OpcodeUnprefixed::Ld8(Op8::AddrHLDec, Op8::A), 8u64, 0u64)
    } else if op == 0x33 {
        (OpcodeUnprefixed::Inc16(Op16::SP), 8u64, 0u64)
    } else if op == 0x34 {
        (OpcodeUnprefixed::Inc8(Op8::AddrHL), 12u64, 0u64)
    } else if op == 0x35 {
        (OpcodeUnprefixed::Dec8(Op8::AddrHL), 12u64, 0u64)
    } else if op == 0x36 {
        (OpcodeUnprefixed::Ld8(Op8::AddrHL, Op8::U8), 12u64, 0u64)
    } else if op == 0x37 {
        (OpcodeUnprefixed::Scf, 4u64, 0u64)
    } else if op == 0x38 {
        (OpcodeUnprefixed::Jr(Condition::Carry), 12u64, 8u64)
    } else if op == 0x39 {
        (OpcodeUnprefixed::Add16(Op16::SP), 8u64, 0u64)
    } else if op == 0x3A {
        (OpcodeUnprefixed::Ld8(Op8::A, Op8::AddrHLDec), 8u64, 0u64)
    } else if op == 0x3B {
        (OpcodeUnprefixed::Dec16(Op16::SP), 8u64, 0u64)
    } else if op == 0x3C {
        (OpcodeUnprefixed::Inc8(Op8::A), 4u64, 0u64)
    } else if op == 0x3D {
        (OpcodeUnprefixed::Dec8(Op8::A), 4u64, 0u64)
    } else if op == 0x3E {
        (OpcodeUnprefixed::Ld8(Op8::A, Op8::U8), 8u64, 0u64)
    } else if op == 0x3F {
        (OpcodeUnprefixed::Ccf, 4u64, 0u64)
    } else if op == 0x40 {
        (OpcodeUnprefixed::Ld8(Op8::B, Op8::B), 4u64, 0u64)
    } else if op == 0x41 {
        (OpcodeUnprefixed::Ld8(Op8::B, Op8::C), 4u64, 0u64)
    } else if op == 0x42 {
        (OpcodeUnprefixed::Ld8(Op8::B, Op8::D), 4u64, 0u64)
    } else if op == 0x43 {
        (OpcodeUnprefixed::Ld8(Op8::B, Op8::E), 4u64, 0u64)
    } else if op == 0x44 {
        (OpcodeUnprefixed::Ld8(Op8::B, Op8::H), 4u64, 0u64)
    } else if op == 0x45 {
        (OpcodeUnprefixed::Ld8(Op8::B, Op8::L), 4u64, 0u64)
    } else if op == 0x46 {
        (OpcodeUnprefixed::Ld8(Op8::B, Op8::AddrHL), 8u64, 0u64)
    } else if op == 0x47 {
        (OpcodeUnprefixed::Ld8(Op8::B, Op8::A), 4u64, 0u64)
    } else if op == 0x48 {
        (OpcodeUnprefixed::Ld8(Op8::C, Op8::B), 4u64, 0u64)
    } else if op == 0x49 {
        (OpcodeUnprefixed::Ld8(Op8::C, Op8::C), 4u64, 0u64)
    } else if op == 0x4A {
        (OpcodeUnprefixed::Ld8(Op8::C, Op8::D), 4u64, 0u64)
    } else if op == 0x4B {
        (OpcodeUnprefixed::Ld8(Op8::C, Op8::E), 4u64, 0u64)
    } else if op == 0x4C {
        (OpcodeUnprefixed::Ld8(Op8::C, Op8::H), 4u64, 0u64)
    } else if op == 0x4D {
        (OpcodeUnprefixed::Ld8(Op8::C, Op8::L), 4u64, 0u64)
    } else if op == 0x4E {
        (OpcodeUnprefixed::Ld8(Op8::C, Op8::AddrHL), 8u64, 0u64)
    } else if op == 0x4F {
        (OpcodeUnprefixed::Ld8(Op8::C, Op8::A), 4u64, 0u64)
    } else if op == 0x50 {
        (OpcodeUnprefixed::Ld8(Op8::D, Op8::B), 4u64, 0u64)
    } else if op == 0x51 {
        (OpcodeUnprefixed::Ld8(Op8::D, Op8::C), 4u64, 0u64)
    } else if op == 0x52 {
        (OpcodeUnprefixed::Ld8(Op8::D, Op8::D), 4u64, 0u64)
    } else if op == 0x53 {
        (OpcodeUnprefixed::Ld8(Op8::D, Op8::E), 4u64, 0u64)
    } else if op == 0x54 {
        (OpcodeUnprefixed::Ld8(Op8::D, Op8::H), 4u64, 0u64)
    } else if op == 0x55 {
        (OpcodeUnprefixed::Ld8(Op8::D, Op8::L), 4u64, 0u64)
    } else if op == 0x56 {
        (OpcodeUnprefixed::Ld8(Op8::D, Op8::AddrHL), 8u64, 0u64)
    } else if op == 0x57 {
        (OpcodeUnprefixed::Ld8(Op8::D, Op8::A), 4u64, 0u64)
    } else if op == 0x58 {
        (OpcodeUnprefixed::Ld8(Op8::E, Op8::B), 4u64, 0u64)
    } else if op == 0x59 {
        (OpcodeUnprefixed::Ld8(Op8::E, Op8::C), 4u64, 0u64)
    } else if op == 0x5A {
        (OpcodeUnprefixed::Ld8(Op8::E, Op8::D), 4u64, 0u64)
    } else if op == 0x5B {
        (OpcodeUnprefixed::Ld8(Op8::E, Op8::E), 4u64, 0u64)
    } else if op == 0x5C {
        (OpcodeUnprefixed::Ld8(Op8::E, Op8::H), 4u64, 0u64)
    } else if op == 0x5D {
        (OpcodeUnprefixed::Ld8(Op8::E, Op8::L), 4u64, 0u64)
    } else if op == 0x5E {
        (OpcodeUnprefixed::Ld8(Op8::E, Op8::AddrHL), 8u64, 0u64)
    } else if op == 0x5F {
        (OpcodeUnprefixed::Ld8(Op8::E, Op8::A), 4u64, 0u64)
    } else if op == 0x60 {
        (OpcodeUnprefixed::Ld8(Op8::H, Op8::B), 4u64, 0u64)
    } else if op == 0x61 {
        (OpcodeUnprefixed::Ld8(Op8::H, Op8::C), 4u64, 0u64)
    } else if op == 0x62 {
        (OpcodeUnprefixed::Ld8(Op8::H, Op8::D), 4u64, 0u64)
    } else if op == 0x63 {
        (OpcodeUnprefixed::Ld8(Op8::H, Op8::E), 4u64, 0u64)
    } else if op == 0x64 {
        (OpcodeUnprefixed::Ld8(Op8::H, Op8::H), 4u64, 0u64)
    } else if op == 0x65 {
        (OpcodeUnprefixed::Ld8(Op8::H, Op8::L), 4u64, 0u64)
    } else if op == 0x66 {
        (OpcodeUnprefixed::Ld8(Op8::H, Op8::AddrHL), 8u64, 0u64)
    } else if op == 0x67 {
        (OpcodeUnprefixed::Ld8(Op8::H, Op8::A), 4u64, 0u64)
    } else if op == 0x68 {
        (OpcodeUnprefixed::Ld8(Op8::L, Op8::B), 4u64, 0u64)
    } else if op == 0x69 {
        (OpcodeUnprefixed::Ld8(Op8::L, Op8::C), 4u64, 0u64)
    } else if op == 0x6A {
        (OpcodeUnprefixed::Ld8(Op8::L, Op8::D), 4u64, 0u64)
    } else if op == 0x6B {
        (OpcodeUnprefixed::Ld8(Op8::L, Op8::E), 4u64, 0u64)
    } else if op == 0x6C {
        (OpcodeUnprefixed::Ld8(Op8::L, Op8::H), 4u64, 0u64)
    } else if op == 0x6D {
        (OpcodeUnprefixed::Ld8(Op8::L, Op8::L), 4u64, 0u64)
    } else if op == 0x6E {
        (OpcodeUnprefixed::Ld8(Op8::L, Op8::AddrHL), 8u64, 0u64)
    } else if op == 0x6F {
        (OpcodeUnprefixed::Ld8(Op8::L, Op8::A), 4u64, 0u64)
    } else if op == 0x70 {
        (OpcodeUnprefixed::Ld8(Op8::AddrHL, Op8::B), 8u64, 0u64)
    } else if op == 0x71 {
        (OpcodeUnprefixed::Ld8(Op8::AddrHL, Op8::C), 8u64, 0u64)
    } else if op == 0x72 {
        (OpcodeUnprefixed::Ld8(Op8::AddrHL, Op8::D), 8u64, 0u64)
    } else if op == 0x73 {
        (OpcodeUnprefixed::Ld8(Op8::AddrHL, Op8::E), 8u64, 0u64)
    } else if op == 0x74 {
        (OpcodeUnprefixed::Ld8(Op8::AddrHL, Op8::H), 8u64, 0u64)
    } else if op == 0x75 {
        (OpcodeUnprefixed::Ld8(Op8::AddrHL, Op8::L), 8u64, 0u64)
    } else if op == 0x76 {
        (OpcodeUnprefixed::Halt, 4u64, 0u64)
    } else if op == 0x77 {
        (OpcodeUnprefixed::Ld8(Op8::AddrHL, Op8::A), 8u64, 0u64)
    } else if op == 0x78 {
        (OpcodeUnprefixed::Ld8(Op8::A, Op8::B), 4u64, 0u64)
    } else if op == 0x79 {
        (OpcodeUnprefixed::Ld8(Op8::A, Op8::C), 4u64, 0u64)
    } else if op == 0x7A {
        (OpcodeUnprefixed::Ld8(Op8::A, Op8::D), 4u64, 0u64)
    } else if op == 0x7B {
        (OpcodeUnprefixed::Ld8(Op8::A, Op8::E), 4u64, 0u64)
    } else if op == 0x7C {
        (OpcodeUnprefixed::Ld8(Op8::A, Op8::H), 4u64, 0u64)
    } else if op == 0x7D {
        (OpcodeUnprefixed::Ld8(Op8::A, Op8::L), 4u64, 0u64)
    } else if op == 0x7E {
        (OpcodeUnprefixed::Ld8(Op8::A, Op8::AddrHL), 8u64, 0u64)
    } else if op == 0x7F {
        (OpcodeUnprefixed::Ld8(Op8::A, Op8::A), 4u64, 0u64)
    } else if op == 0x80 {
        (OpcodeUnprefixed::Add8(Op8::B), 4u64, 0u64)
    } else if op == 0x81 {
        (OpcodeUnprefixed::Add8(Op8::C), 4u64, 0u64)
    } else if op == 0x82 {
        (OpcodeUnprefixed::Add8(Op8::D), 4u64, 0u64)
    } else if op == 0x83 {
        (OpcodeUnprefixed::Add8(Op8::E), 4u64, 0u64)
    } else if op == 0x84 {
        (OpcodeUnprefixed::Add8(Op8::H), 4u64, 0u64)
    } else if op == 0x85 {
        (OpcodeUnprefixed::Add8(Op8::L), 4u64, 0u64)
    } else if op == 0x86 {
        (OpcodeUnprefixed::Add8(Op8::AddrHL), 8u64, 0u64)
    } else if op == 0x87 {
        (OpcodeUnprefixed::Add8(Op8::A), 4u64, 0u64)
    } else if op == 0x88 {
        (OpcodeUnprefixed::Adc(Op8::B), 4u64, 0u64)
    } else if op == 0x89 {
        (OpcodeUnprefixed::Adc(Op8::C), 4u64, 0u64)
    } else if op == 0x8A {
        (OpcodeUnprefixed::Adc(Op8::D), 4u64, 0u64)
    } else if op == 0x8B {
        (OpcodeUnprefixed::Adc(Op8::E), 4u64, 0u64)
    } else if op == 0x8C {
        (OpcodeUnprefixed::Adc(Op8::H), 4u64, 0u64)
    } else if op == 0x8D {
        (OpcodeUnprefixed::Adc(Op8::L), 4u64, 0u64)
    } else if op == 0x8E {
        (OpcodeUnprefixed::Adc(Op8::AddrHL), 8u64, 0u64)
    } else if op == 0x8F {
        (OpcodeUnprefixed::Adc(Op8::A), 4u64, 0u64)
    } else if op == 0x90 {
        (OpcodeUnprefixed::Sub(Op8::B), 4u64, 0u64)
    } else if op == 0x91 {
        (OpcodeUnprefixed::Sub(Op8::C), 4u64, 0u64)
    } else if op == 0x92 {
        (OpcodeUnprefixed::Sub(Op8::D), 4u64, 0u64)
    } else if op == 0x93 {
        (OpcodeUnprefixed::Sub(Op8::E), 4u64, 0u64)
    } else if op == 0x94 {
        (OpcodeUnprefixed::Sub(Op8::H), 4u64, 0u64)
    } else if op == 0x95 {
        (OpcodeUnprefixed::Sub(Op8::L), 4u64, 0u64)
    } else if op == 0x96 {
        (OpcodeUnprefixed::Sub(Op8::AddrHL), 8u64, 0u64)
    } else if op == 0x97 {
        (OpcodeUnprefixed::Sub(Op8::A), 4u64, 0u64)
    } else if op == 0x98 {
        (OpcodeUnprefixed::Sbc(Op8::B), 4u64, 0u64)
    } else if op == 0x99 {
        (OpcodeUnprefixed::Sbc(Op8::C), 4u64, 0u64)
    } else if op == 0x9A {
        (OpcodeUnprefixed::Sbc(Op8::D), 4u64, 0u64)
    } else if op == 0x9B {
        (OpcodeUnprefixed::Sbc(Op8::E), 4u64, 0u64)
    } else if op == 0x9C {
        (OpcodeUnprefixed::Sbc(Op8::H), 4u64, 0u64)
    } else if op == 0x9D {
        (OpcodeUnprefixed::Sbc(Op8::L), 4u64, 0u64)
    } else if op == 0x9E {
        (OpcodeUnprefixed::Sbc(Op8::AddrHL), 8u64, 0u64)
    } else if op == 0x9F {
        (OpcodeUnprefixed::Sbc(Op8::A), 4u64, 0u64)
    } else if op == 0xA0 {
        (OpcodeUnprefixed::And(Op8::B), 4u64, 0u64)
    } else if op == 0xA1 {
        (OpcodeUnprefixed::And(Op8::C), 4u64, 0u64)
    } else if op == 0xA2 {
        (OpcodeUnprefixed::And(Op8::D), 4u64, 0u64)
    } else if op == 0xA3 {
        (OpcodeUnprefixed::And(Op8::E), 4u64, 0u64)
    } else if op == 0xA4 {
        (OpcodeUnprefixed::And(Op8::H), 4u64, 0u64)
    } else if op == 0xA5 {
        (OpcodeUnprefixed::And(Op8::L), 4u64, 0u64)
    } else if op == 0xA6 {
        (OpcodeUnprefixed::And(Op8::AddrHL), 8u64, 0u64)
    } else if op == 0xA7 {
        (OpcodeUnprefixed::And(Op8::A), 4u64, 0u64)
    } else if op == 0xA8 {
        (OpcodeUnprefixed::Xor(Op8::B), 4u64, 0u64)
    } else if op == 0xA9 {
        (OpcodeUnprefixed::Xor(Op8::C), 4u64, 0u64)
    } else if op == 0xAA {
        (OpcodeUnprefixed::Xor(Op8::D), 4u64, 0u64)
    } else if op == 0xAB {
        (OpcodeUnprefixed::Xor(Op8::E), 4u64, 0u64)
    } else if op == 0xAC {
        (OpcodeUnprefixed::Xor(Op8::H), 4u64, 0u64)
    } else if op == 0xAD {
        (OpcodeUnprefixed::Xor(Op8::L), 4u64, 0u64)
    } else if op == 0xAE {
        (OpcodeUnprefixed::Xor(Op8::AddrHL), 8u64, 0u64)
    } else if op == 0xAF {
        (OpcodeUnprefixed::Xor(Op8::A), 4u64, 0u64)
    } else if op == 0xB0 {
        (OpcodeUnprefixed::Or(Op8::B), 4u64, 0u64)
    } else if op == 0xB1 {
        (OpcodeUnprefixed::Or(Op8::C), 4u64, 0u64)
    } else if op == 0xB2 {
        (OpcodeUnprefixed::Or(Op8::D), 4u64, 0u64)
    } else if op == 0xB3 {
        (OpcodeUnprefixed::Or(Op8::E), 4u64, 0u64)
    } else if op == 0xB4 {
        (OpcodeUnprefixed::Or(Op8::H), 4u64, 0u64)
    } else if op == 0xB5 {
        (OpcodeUnprefixed::Or(Op8::L), 4u64, 0u64)
    } else if op == 0xB6 {
        (OpcodeUnprefixed::Or(Op8::AddrHL), 8u64, 0u64)
    } else if op == 0xB7 {
        (OpcodeUnprefixed::Or(Op8::A), 4u64, 0u64)
    } else if op == 0xB8 {
        (OpcodeUnprefixed::Cp(Op8::B), 4u64, 0u64)
    } else if op == 0xB9 {
        (OpcodeUnprefixed::Cp(Op8::C), 4u64, 0u64)
    } else if op == 0xBA {
        (OpcodeUnprefixed::Cp(Op8::D), 4u64, 0u64)
    } else if op == 0xBB {
        (OpcodeUnprefixed::Cp(Op8::E), 4u64, 0u64)
    } else if op == 0xBC {
        (OpcodeUnprefixed::Cp(Op8::H), 4u64, 0u64)
    } else if op == 0xBD {
        (OpcodeUnprefixed::Cp(Op8::L), 4u64, 0u64)
    } else if op == 0xBE {
        (OpcodeUnprefixed::Cp(Op8::AddrHL), 8u64, 0u64)
    } else if op == 0xBF {
        (OpcodeUnprefixed::Cp(Op8::A), 4u64, 0u64)
    } else if op == 0xC0 {
        (OpcodeUnprefixed::Ret(Condition::NotZero), 20u64, 8u64)
    } else if op == 0xC1 {
        (OpcodeUnprefixed::Pop(Op16::BC), 12u64, 0u64)
    } else if op == 0xC2 {
        (OpcodeUnprefixed::Jp(Condition::NotZero, Op16::U16), 16u64, 12u64)
    } else if op == 0xC3 {
        (OpcodeUnprefixed::Jp(Condition::Unconditional, Op16::U16), 16u64, 0u64)
    } else if op == 0xC4 {
        (OpcodeUnprefixed::Call(Condition::NotZero), 24u64, 12u64)
    } else if op == 0xC5 {
        (OpcodeUnprefixed::Push(Op16::BC), 16u64, 0u64)
    } else if op == 0xC6 {
        (OpcodeUnprefixed::Add8(Op8::U8), 8u64, 0u64)
    } else if op == 0xC7 {
        (OpcodeUnprefixed::Rst(0x00), 16u64, 0u64)
    } else if op == 0xC8 {
        (OpcodeUnprefixed::Ret(Condition::Zero), 20u64, 8u64)
    } else if op == 0xC9 {
        (OpcodeUnprefixed::Ret(Condition::Unconditional), 16u64, 0u64)
    } else if op == 0xCA {
        (OpcodeUnprefixed::Jp(Condition::Zero, Op16::U16), 16u64, 12u64)
    } else if op == 0xCB {
        (OpcodeUnprefixed::Prefix, 4u64, 0u64)
    } else if op == 0xCC {
        (OpcodeUnprefixed::Call(Condition::Zero), 24u64, 12u64)
    } else if op == 0xCD {
        (OpcodeUnprefixed::Call(Condition::Unconditional), 24u64, 0u64)
    } else if op == 0xCE {
        (OpcodeUnprefixed::Adc(Op8::U8), 8u64, 0u64)
    } else if op == 0xCF {
        (OpcodeUnprefixed::Rst(0x08), 16u64, 0u64)
    } else if op == 0xD0 {
        (OpcodeUnprefixed::Ret(Condition::NotCarry), 20u64, 8u64)
    } else if op == 0xD1 {
        (OpcodeUnprefixed::Pop(Op16::DE), 12u64, 0u64)
    } else if op == 0xD2 {
        (OpcodeUnprefixed::Jp(Condition::NotCarry, Op16::U16), 16u64, 12u64)
    } else if op == 0xD3 {
        (OpcodeUnprefixed::Illegal, 4u64, 0u64)
    } else if op == 0xD4 {
        (OpcodeUnprefixed::Call(Condition::NotCarry), 24u64, 12u64)
    } else if op == 0xD5 {
        (OpcodeUnprefixed::Push(Op16::DE), 16u64, 0u64)
    } else if op == 0xD6 {
        (OpcodeUnprefixed::Sub(Op8::U8), 8u64, 0u64)
    } else if op == 0xD7 {
        (OpcodeUnprefixed::Rst(0x10), 16u64, 0u64)
    } else if op == 0xD8 {
        (OpcodeUnprefixed::Ret(Condition::Carry), 20u64, 8u64)
    } else if op == 0xD9 {
        (OpcodeUnprefixed::Reti, 16u64, 0u64)
    } else if op == 0xDA {
        (OpcodeUnprefixed::Jp(Condition::Carry, Op16::U16), 16u64, 12u64)
    } else if op == 0xDB {
        (OpcodeUnprefixed::Illegal, 4u64, 0u64)
    } else if op == 0xDC {
        (OpcodeUnprefixed::Call(Condition::Carry), 24u64, 12u64)
    } else if op == 0xDD {
        (OpcodeUnprefixed::Illegal, 4u64, 0u64)
    } else if op == 0xDE {
        (OpcodeUnprefixed::Sbc(Op8::U8), 8u64, 0u64)
    } else if op == 0xDF {
        (OpcodeUnprefixed::Rst(0x18), 16u64, 0u64)
    } else if op == 0xE0 {
        (OpcodeUnprefixed::Ld8(Op8::LowAddrU8, Op8::A), 12u64, 0u64)
    } else if op == 0xE1 {
        (OpcodeUnprefixed::Pop(Op16::HL), 12u64, 0u64)
    } else if op == 0xE2 {
        (OpcodeUnprefixed::Ld8(Op8::LowAddrC, Op8::A), 8u64, 0u64)
    } else if op == 0xE3 {
        (OpcodeUnprefixed::Illegal, 4u64, 0u64)
    } else if op == 0xE4 {
        (OpcodeUnprefixed::Illegal, 4u64, 0u64)
    } else if op == 0xE5 {
        (OpcodeUnprefixed::Push(Op16::HL), 16u64, 0u64)
    } else if op == 0xE6 {
        (OpcodeUnprefixed::And(Op8::U8), 8u64, 0u64)
    } else if op == 0xE7 {
        (OpcodeUnprefixed::Rst(0x20), 16u64, 0u64)
    } else if op == 0xE8 {
        (OpcodeUnprefixed::AddI8SP, 16u64, 0u64)
    } else if op == 0xE9 {
        (OpcodeUnprefixed::Jp(Condition::Unconditional, Op16::HL), 4u64, 0u64)
    } else if op == 0xEA {
        (OpcodeUnprefixed::Ld8(Op8::AddrU16, Op8::A), 16u64, 0u64)
    } else if op == 0xEB {
        (OpcodeUnprefixed::Illegal, 4u64, 0u64)
    } else if op == 0xEC {
        (OpcodeUnprefixed::Illegal, 4u64, 0u64)
    } else if op == 0xED {
        (OpcodeUnprefixed::Illegal, 4u64, 0u64)
    } else if op == 0xEE {
        (OpcodeUnprefixed::Xor(Op8::U8), 8u64, 0u64)
    } else if op == 0xEF {
        (OpcodeUnprefixed::Rst(0x28), 16u64, 0u64)
    } else if op == 0xF0 {
        (OpcodeUnprefixed::Ld8(Op8::A, Op8::LowAddrU8), 12u64, 0u64)
    } else if op == 0xF1 {
        (OpcodeUnprefixed::Pop(Op16::AF), 12u64, 0u64)
    } else if op == 0xF2 {
        (OpcodeUnprefixed::Ld8(Op8::A, Op8::LowAddrC), 8u64, 0u64)
    } else if op == 0xF3 {
        (OpcodeUnprefixed::Di, 4u64, 0u64)
    } else if op == 0xF4 {
        (OpcodeUnprefixed::Illegal, 4u64, 0u64)
    } else if op == 0xF5 {
        (OpcodeUnprefixed::Push(Op16::AF), 16u64, 0u64)
    } else if op == 0xF6 {
        (OpcodeUnprefixed::Or(Op8::U8), 8u64, 0u64)
    } else if op == 0xF7 {
        (OpcodeUnprefixed::Rst(0x30), 16u64, 0u64)
    } else if op == 0xF8 {
        (OpcodeUnprefixed::Ld16(Op16::HL, Op16::SPPlusI8), 12u64, 0u64)
    } else if op == 0xF9 {
        (OpcodeUnprefixed::Ld16(Op16::SP, Op16::HL), 8u64, 0u64)
    } else if op == 0xFA {
        (OpcodeUnprefixed::Ld8(Op8::A, Op8::AddrU16), 16u64, 0u64)
    } else if op == 0xFB {
        (OpcodeUnprefixed::Ei, 4u64, 0u64)
    } else if op == 0xFC {
        (OpcodeUnprefixed::Illegal, 4u64, 0u64)
    } else if op == 0xFD {
        (OpcodeUnprefixed::Illegal, 4u64, 0u64)
    } else if op == 0xFE {
        (OpcodeUnprefixed::Cp(Op8::U8), 8u64, 0u64)
    } else {
        (OpcodeUnprefixed::Rst(0x38), 16u64, 0u64)
    }
}

/// Decode one base-table opcode to its descriptor.
pub fn lookup(op: u8) -> (r: UnprefixedOpInfo)
    ensures
        r.inst == spec_lookup(op).0,
        r.cycles == spec_lookup(op).1,
        r.cycles_no_branch == spec_lookup(op).2,
{
    proof {
        reveal(spec_lookup);
    }
    match op {
        0x00 => UnprefixedOpInfo { mnemonic: "NOP", cycles: 4, cycles_no_branch: 0, inst: OpcodeUnprefixed::Nop },
        0x01 => UnprefixedOpInfo { mnemonic: "LD BC,u16", cycles: 12, cycles_no_branch: 0, inst: OpcodeUnprefixed::Ld16(Op16::BC, Op16::U16) },
        0x02 => UnprefixedOpInfo { mnemonic: "LD (BC),A", cycles: 8, cycles_no_branch: 0, inst: OpcodeUnprefixed::Ld8(Op8::AddrBC, Op8::A) },
        0x03 => UnprefixedOpInfo { mnemonic: "INC BC", cycles: 8, cycles_no_branch: 0, inst: OpcodeUnprefixed::Inc16(Op16::BC) },
        0x04 => UnprefixedOpInfo { mnemonic: "INC B", cycles: 4, cycles_no_branch: 0, inst: OpcodeUnprefixed::Inc8(Op8::B) },
        0x05 => UnprefixedOpInfo { mnemonic: "DEC B", cycles: 4, cycles_no_branch: 0, inst: OpcodeUnprefixed::Dec8(Op8::B) },
        0x06 => UnprefixedOpInfo { mnemonic: "LD B,u8", cycles: 8, cycles_no_branch: 0, inst: OpcodeUnprefixed::Ld8(Op8::B, Op8::U8) },
        0x07 => UnprefixedOpInfo { mnemonic: "RLCA", cycles: 4, cycles_no_branch: 0, inst: OpcodeUnprefixed::Rlca },
        0x08 => UnprefixedOpInfo { mnemonic: "LD (u16),SP", cycles: 20, cycles_no_branch: 0, inst: OpcodeUnprefixed::LdU16StackAddr },
        0x09 => UnprefixedOpInfo { mnemonic: "ADD HL,BC", cycles: 8, cycles_no_branch: 0, inst: OpcodeUnprefixed::Add16(Op16::BC) },
        0x0A => UnprefixedOpInfo { mnemonic: "LD A,(BC)", cycles: 8, cycles_no_branch: 0, inst: OpcodeUnprefixed::Ld8(Op8::A, Op8::AddrBC) },
        0x0B => UnprefixedOpInfo { mnemonic: "DEC BC", cycles: 8, cycles_no_branch: 0, inst: OpcodeUnprefixed::Dec16(Op16::BC) },
        0x0C => UnprefixedOpInfo { mnemonic: "INC C", cycles: 4, cycles_no_branch: 0, inst: OpcodeUnprefixed::Inc8(Op8::C) },
        0x0D => UnprefixedOpInfo { mnemonic: "DEC C", cycles: 4, cycles_no_branch: 0, inst: OpcodeUnprefixed::Dec8(Op8::C) },
        0x0E => UnprefixedOpInfo { mnemonic: "LD C,u8", cycles: 8, cycles_no_branch: 0, inst: OpcodeUnprefixed::Ld8(Op8::C, Op8::U8) },
        0x0F => UnprefixedOpInfo { mnemonic: "RRCA", cycles: 4, cycles_no_branch: 0, inst: OpcodeUnprefixed::Rrca },
        0x10 => UnprefixedOpInfo { mnemonic: "STOP u8", cycles: 4, cycles_no_branch: 0, inst: OpcodeUnprefixed::Stop },
        0x11 => UnprefixedOpInfo { mnemonic: "LD DE,u16", cycles: 12, cycles_no_branch: 0, inst: OpcodeUnprefixed::Ld16(Op16::DE, Op16::U16) },
        0x12 => UnprefixedOpInfo { mnemonic: "LD (DE),A", cycles: 8, cycles_no_branch: 0, inst: OpcodeUnprefixed::Ld8(Op8::AddrDE, Op8::A) },
        0x13 => UnprefixedOpInfo { mnemonic: "INC DE", cycles: 8, cycles_no_branch: 0, inst: OpcodeUnprefixed::Inc16(Op16::DE) },
        0x14 => UnprefixedOpInfo { mnemonic: "INC D", cycles: 4, cycles_no_branch: 0, inst: OpcodeUnprefixed::Inc8(Op8::D) },
        0x15 => UnprefixedOpInfo { mnemonic: "DEC D", cycles: 4, cycles_no_branch: 0, inst: OpcodeUnprefixed::Dec8(Op8::D) },
        0x16 => UnprefixedOpInfo { mnemonic: "LD D,u8", cycles: 8, cycles_no_branch: 0, inst: OpcodeUnprefixed::Ld8(Op8::D, Op8::U8) },
        0x17 => UnprefixedOpInfo { mnemonic: "RLA", cycles: 4, cycles_no_branch: 0, inst: OpcodeUnprefixed::Rla },
        0x18 => UnprefixedOpInfo { mnemonic: "JR r8", cycles: 12, cycles_no_branch: 0, inst: OpcodeUnprefixed::Jr(Condition::Unconditional) },
        0x19 => UnprefixedOpInfo { mnemonic: "ADD HL,DE", cycles: 8, cycles_no_branch: 0, inst: OpcodeUnprefixed::Add16(Op16::DE) },
        0x1A => UnprefixedOpInfo { mnemonic: "LD A,(DE)", cycles: 8, cycles_no_branch: 0, inst: OpcodeUnprefixed::Ld8(Op8::A, Op8::AddrDE) },
        0x1B => UnprefixedOpInfo { mnemonic: "DEC DE", cycles: 8, cycles_no_branch: 0, inst: OpcodeUnprefixed::Dec16(Op16::DE) },
        0x1C => UnprefixedOpInfo { mnemonic: "INC E", cycles: 4, cycles_no_branch: 0, inst: OpcodeUnprefixed::Inc8(Op8::E) },
        0x1D => UnprefixedOpInfo { mnemonic: "DEC E", cycles: 4, cycles_no_branch: 0, inst: OpcodeUnprefixed::Dec8(Op8::E) },
        0x1E => UnprefixedOpInfo { mnemonic: "LD E,u8", cycles: 8, cycles_no_branch: 0, inst: OpcodeUnprefixed::Ld8(Op8::E, Op8::U8) },
        0x1F => UnprefixedOpInfo { mnemonic: "RRA", cycles: 4, cycles_no_branch: 0, inst: OpcodeUnprefixed::Rra },
        0x20 => UnprefixedOpInfo { mnemonic: "JR NZ,r8", cycles: 12, cycles_no_branch: 8, inst: OpcodeUnprefixed::Jr(Condition::NotZero) },
        0x21 => UnprefixedOpInfo { mnemonic: "LD HL,u16", cycles: 12, cycles_no_branch: 0, inst: OpcodeUnprefixed::Ld16(Op16::HL, Op16::U16) },
        0x22 => UnprefixedOpInfo { mnemonic: "LD (HL+),A", cycles: 8, cycles_no_branch: 0, inst: OpcodeUnprefixed::Ld8(Op8::AddrHLInc, Op8::A) },
        0x23 => UnprefixedOpInfo { mnemonic: "INC HL", cycles: 8, cycles_no_branch: 0, inst: OpcodeUnprefixed::Inc16(Op16::HL) },
        0x24 => UnprefixedOpInfo { mnemonic: "INC H", cycles: 4, cycles_no_branch: 0, inst: OpcodeUnprefixed::Inc8(Op8::H) },
        0x25 => UnprefixedOpInfo { mnemonic: "DEC H", cycles: 4, cycles_no_branch: 0, inst: OpcodeUnprefixed::Dec8(Op8::H) },
        0x26 => UnprefixedOpInfo { mnemonic: "LD H,u8", cycles: 8, cycles_no_branch: 0, inst: OpcodeUnprefixed::Ld8(Op8::H, Op8::U8) },
        0x27 => UnprefixedOpInfo { mnemonic: "DAA", cycles: 4, cycles_no_branch: 0, inst: OpcodeUnprefixed::Daa },
        0x28 => UnprefixedOpInfo { mnemonic: "JR Z,r8", cycles: 12, cycles_no_branch: 8, inst: OpcodeUnprefixed::Jr(Condition::Zero) },
        0x29 => UnprefixedOpInfo { mnemonic: "ADD HL,HL", cycles: 8, cycles_no_branch: 0, inst: OpcodeUnprefixed::Add16(Op16::HL) },
        0x2A => UnprefixedOpInfo { mnemonic: "LD A,(HL+)", cycles: 8, cycles_no_branch: 0, inst: OpcodeUnprefixed::Ld8(Op8::A, Op8::AddrHLInc) },
        0x2B => UnprefixedOpInfo { mnemonic: "DEC HL", cycles: 8, cycles_no_branch: 0, inst: OpcodeUnprefixed::Dec16(Op16::HL) },
        0x2C => UnprefixedOpInfo { mnemonic: "INC L", cycles: 4, cycles_no_branch: 0, inst: OpcodeUnprefixed::Inc8(Op8::L) },
        0x2D => UnprefixedOpInfo { mnemonic: "DEC L", cycles: 4, cycles_no_branch: 0, inst: OpcodeUnprefixed::Dec8(Op8::L) },
        0x2E => UnprefixedOpInfo { mnemonic: "LD L,u8", cycles: 8, cycles_no_branch: 0, inst: OpcodeUnprefixed::Ld8(Op8::L, Op8::U8) },
        0x2F => UnprefixedOpInfo { mnemonic: "CPL", cycles: 4, cycles_no_branch: 0, inst: OpcodeUnprefixed::Cpl },
        0x30 => UnprefixedOpInfo { mnemonic: "JR NC,r8", cycles: 12, cycles_no_branch: 8, inst: OpcodeUnprefixed::Jr(Condition::NotCarry) },
        0x31 => UnprefixedOpInfo { mnemonic: "LD SP,u16", cycles: 12, cycles_no_branch: 0, inst: OpcodeUnprefixed::Ld16(Op16::SP, Op16::U16) },
        0x32 => UnprefixedOpInfo { mnemonic: "LD (HL-),A", cycles: 8, cycles_no_branch: 0, inst: OpcodeUnprefixed::Ld8(Op8::AddrHLDec, Op8::A) },
        0x33 => UnprefixedOpInfo { mnemonic: "INC SP", cycles: 8, cycles_no_branch: 0, inst: OpcodeUnprefixed::Inc16(Op16::SP) },
        0x34 => UnprefixedOpInfo { mnemonic: "INC (HL)", cycles: 12, cycles_no_branch: 0, inst: OpcodeUnprefixed::Inc8(Op8::AddrHL) },
        0x35 => UnprefixedOpInfo { mnemonic: "DEC (HL)", cycles: 12, cycles_no_branch: 0, inst: OpcodeUnprefixed::Dec8(Op8::AddrHL) },
        0x36 => UnprefixedOpInfo { mnemonic: "LD (HL),u8", cycles: 12, cycles_no_branch: 0, inst: OpcodeUnprefixed::Ld8(Op8::AddrHL, Op8::U8) },
        0x37 => UnprefixedOpInfo { mnemonic: "SCF", cycles: 4, cycles_no_branch: 0, inst: OpcodeUnprefixed::Scf },
        0x38 => UnprefixedOpInfo { mnemonic: "JR C,r8", cycles: 12, cycles_no_branch: 8, inst: OpcodeUnprefixed::Jr(Condition::Carry) },
        0x39 => UnprefixedOpInfo { mnemonic: "ADD HL,SP", cycles: 8, cycles_no_branch: 0, inst: OpcodeUnprefixed::Add16(Op16::SP) },
        0x3A => UnprefixedOpInfo { mnemonic: "LD A,(HL-)", cycles: 8, cycles_no_branch: 0, inst: OpcodeUnprefixed::Ld8(Op8::A, Op8::AddrHLDec) },
        0x3B => UnprefixedOpInfo { mnemonic: "DEC SP", cycles: 8, cycles_no_branch: 0, inst: OpcodeUnprefixed::Dec16(Op16::SP) },
        0x3C => UnprefixedOpInfo { mnemonic: "INC A", cycles: 4, cycles_no_branch: 0, inst: OpcodeUnprefixed::Inc8(Op8::A) },
        0x3D => UnprefixedOpInfo { mnemonic: "DEC A", cycles: 4, cycles_no_branch: 0, inst: OpcodeUnprefixed::Dec8(Op8::A) },
        0x3E => UnprefixedOpInfo { mnemonic: "LD A,u8", cycles: 8, cycles_no_branch: 0, inst: OpcodeUnprefixed::Ld8(Op8::A, Op8::U8) },
        0x3F => UnprefixedOpInfo { mnemonic: "CCF", cycles: 4, cycles_no_branch: 0, inst: OpcodeUnprefixed::Ccf },
        0x40 => UnprefixedOpInfo { mnemonic: "LD B,B", cycles: 4, cycles_no_branch: 0, inst: OpcodeUnprefixed::Ld8(Op8::B, Op8::B) },
        0x41 => UnprefixedOpInfo { mnemonic: "LD B,C", cycles: 4, cycles_no_branch: 0, inst: OpcodeUnprefixed::Ld8(Op8::B, Op8::C) },
        0x42 => UnprefixedOpInfo { mnemonic: "LD B,D", cycles: 4, cycles_no_branch: 0, inst: OpcodeUnprefixed::Ld8(Op8::B, Op8::D) },
        0x43 => UnprefixedOpInfo { mnemonic: "LD B,E", cycles: 4, cycles_no_branch: 0, inst: OpcodeUnprefixed::Ld8(Op8::B, Op8::E) },
        0x44 => UnprefixedOpInfo { mnemonic: "LD B,H", cycles: 4, cycles_no_branch: 0, inst: OpcodeUnprefixed::Ld8(Op8::B, Op8::H) },
        0x45 => UnprefixedOpInfo { mnemonic: "LD B,L", cycles: 4, cycles_no_branch: 0, inst: OpcodeUnprefixed::Ld8(Op8::B, Op8::L) },
        0x46 => UnprefixedOpInfo { mnemonic: "LD B,(HL)", cycles: 8, cycles_no_branch: 0, inst: OpcodeUnprefixed::Ld8(Op8::B, Op8::AddrHL) },
        0x47 => UnprefixedOpInfo { mnemonic: "LD B,A", cycles: 4, cycles_no_branch: 0, inst: OpcodeUnprefixed::Ld8(Op8::B, Op8::A) },
        0x48 => UnprefixedOpInfo { mnemonic: "LD C,B", cycles: 4, cycles_no_branch: 0, inst: OpcodeUnprefixed::Ld8(Op8::C, Op8::B) },
        0x49 => UnprefixedOpInfo { mnemonic: "LD C,C", cycles: 4, cycles_no_branch: 0, inst: OpcodeUnprefixed::Ld8(Op8::C, Op8::C) },
        0x4A => UnprefixedOpInfo { mnemonic: "LD C,D", cycles: 4, cycles_no_branch: 0, inst: OpcodeUnprefixed::Ld8(Op8::C, Op8::D) },
        0x4B => UnprefixedOpInfo { mnemonic: "LD C,E", cycles: 4, cycles_no_branch: 0, inst: OpcodeUnprefixed::Ld8(Op8::C, Op8::E) },
        0x4C => UnprefixedOpInfo { mnemonic: "LD C,H", cycles: 4, cycles_no_branch: 0, inst: OpcodeUnprefixed::Ld8(Op8::C, Op8::H) },
        0x4D => UnprefixedOpInfo { mnemonic: "LD C,L", cycles: 4, cycles_no_branch: 0, inst: OpcodeUnprefixed::Ld8(Op8::C, Op8::L) },
        0x4E => UnprefixedOpInfo { mnemonic: "LD C,(HL)", cycles: 8, cycles_no_branch: 0, inst: OpcodeUnprefixed::Ld8(Op8::C, Op8::AddrHL) },
        0x4F => UnprefixedOpInfo { mnemonic: "LD C,A", cycles: 4, cycles_no_branch: 0, inst: OpcodeUnprefixed::Ld8(Op8::C, Op8::A) },
        0x50 => UnprefixedOpInfo { mnemonic: "LD D,B", cycles: 4, cycles_no_branch: 0, inst: OpcodeUnprefixed::Ld8(Op8::D, Op8::B) },
        0x51 => UnprefixedOpInfo { mnemonic: "LD D,C", cycles: 4, cycles_no_branch: 0, inst: OpcodeUnprefixed::Ld8(Op8::D, Op8::C) },
        0x52 => UnprefixedOpInfo { mnemonic: "LD D,D", cycles: 4, cycles_no_branch: 0, inst: OpcodeUnprefixed::Ld8(Op8::D, Op8::D) },
        0x53 => UnprefixedOpInfo { mnemonic: "LD D,E", cycles: 4, cycles_no_branch: 0, inst: OpcodeUnprefixed::Ld8(Op8::D, Op8::E) },
        0x54 => UnprefixedOpInfo { mnemonic: "LD D,H", cycles: 4, cycles_no_branch: 0, inst: OpcodeUnprefixed::Ld8(Op8::D, Op8::H) },
        0x55 => UnprefixedOpInfo { mnemonic: "LD D,L", cycles: 4, cycles_no_branch: 0, inst: OpcodeUnprefixed::Ld8(Op8::D, Op8::L) },
        0x56 => UnprefixedOpInfo { mnemonic: "LD D,(HL)", cycles: 8, cycles_no_branch: 0, inst: OpcodeUnprefixed::Ld8(Op8::D, Op8::AddrHL) },
        0x57 => UnprefixedOpInfo { mnemonic: "LD D,A", cycles: 4, cycles_no_branch: 0, inst: OpcodeUnprefixed::Ld8(Op8::D, Op8::A) },
        0x58 => UnprefixedOpInfo { mnemonic: "LD E,B", cycles: 4, cycles_no_branch: 0, inst: OpcodeUnprefixed::Ld8(Op8::E, Op8::B) },
        0x59 => UnprefixedOpInfo { mnemonic: "LD E,C", cycles: 4, cycles_no_branch: 0, inst: OpcodeUnprefixed::Ld8(Op8::E, Op8::C) },
        0x5A => UnprefixedOpInfo { mnemonic: "LD E,D", cycles: 4, cycles_no_branch: 0, inst: OpcodeUnprefixed::Ld8(Op8::E, Op8::D) },
        0x5B => UnprefixedOpInfo { mnemonic: "LD E,E", cycles: 4, cycles_no_branch: 0, inst: OpcodeUnprefixed::Ld8(Op8::E, Op8::E) },
        0x5C => UnprefixedOpInfo { mnemonic: "LD E,H", cycles: 4, cycles_no_branch: 0, inst: OpcodeUnprefixed::Ld8(Op8::E, Op8::H) },
        0x5D => UnprefixedOpInfo { mnemonic: "LD E,L", cycles: 4, cycles_no_branch: 0, inst: OpcodeUnprefixed::Ld8(Op8::E, Op8::L) },
        0x5E => UnprefixedOpInfo { mnemonic: "LD E,(HL)", cycles: 8, cycles_no_branch: 0, inst: OpcodeUnprefixed::Ld8(Op8::E, Op8::AddrHL) },
        0x5F => UnprefixedOpInfo { mnemonic: "LD E,A", cycles: 4, cycles_no_branch: 0, inst: OpcodeUnprefixed::Ld8(Op8::E, Op8::A) },
        0x60 => UnprefixedOpInfo { mnemonic: "LD H,B", cycles: 4, cycles_no_branch: 0, inst: OpcodeUnprefixed::Ld8(Op8::H, Op8::B) },
        0x61 => UnprefixedOpInfo { mnemonic: "LD H,C", cycles: 4, cycles_no_branch: 0, inst: OpcodeUnprefixed::Ld8(Op8::H, Op8::C) },
        0x62 => UnprefixedOpInfo { mnemonic: "LD H,D", cycles: 4, cycles_no_branch: 0, inst: OpcodeUnprefixed::Ld8(Op8::H, Op8::D) },
        0x63 => UnprefixedOpInfo { mnemonic: "LD H,E", cycles: 4, cycles_no_branch: 0, inst: OpcodeUnprefixed::Ld8(Op8::H, Op8::E) },
        0x64 => UnprefixedOpInfo { mnemonic: "LD H,H", cycles: 4, cycles_no_branch: 0, inst: OpcodeUnprefixed::Ld8(Op8::H, Op8::H) },
        0x65 => UnprefixedOpInfo { mnemonic: "LD H,L", cycles: 4, cycles_no_branch: 0, inst: OpcodeUnprefixed::Ld8(Op8::H, Op8::L) },
        0x66 => UnprefixedOpInfo { mnemonic: "LD H,(HL)", cycles: 8, cycles_no_branch: 0, inst: OpcodeUnprefixed::Ld8(Op8::H, Op8::AddrHL) },
        0x67 => UnprefixedOpInfo { mnemonic: "LD H,A", cycles: 4, cycles_no_branch: 0, inst: OpcodeUnprefixed::Ld8(Op8::H, Op8::A) },
        0x68 => UnprefixedOpInfo { mnemonic: "LD L,B", cycles: 4, cycles_no_branch: 0, inst: OpcodeUnprefixed::Ld8(Op8::L, Op8::B) },
        0x69 => UnprefixedOpInfo { mnemonic: "LD L,C", cycles: 4, cycles_no_branch: 0, inst: OpcodeUnprefixed::Ld8(Op8::L, Op8::C) },
        0x6A => UnprefixedOpInfo { mnemonic: "LD L,D", cycles: 4, cycles_no_branch: 0, inst: OpcodeUnprefixed::Ld8(Op8::L, Op8::D) },
        0x6B => UnprefixedOpInfo { mnemonic: "LD L,E", cycles: 4, cycles_no_branch: 0, inst: OpcodeUnprefixed::Ld8(Op8::L, Op8::E) },
        0x6C => UnprefixedOpInfo { mnemonic: "LD L,H", cycles: 4, cycles_no_branch: 0, inst: OpcodeUnprefixed::Ld8(Op8::L, Op8::H) },
        0x6D => UnprefixedOpInfo { mnemonic: "LD L,L", cycles: 4, cycles_no_branch: 0, inst: OpcodeUnprefixed::Ld8(Op8::L, Op8::L) },
        0x6E => UnprefixedOpInfo { mnemonic: "LD L,(HL)", cycles: 8, cycles_no_branch: 0, inst: OpcodeUnprefixed::Ld8(Op8::L, Op8::AddrHL) },
        0x6F => UnprefixedOpInfo { mnemonic: "LD L,A", cycles: 4, cycles_no_branch: 0, inst: OpcodeUnprefixed::Ld8(Op8::L, Op8::A) },
        0x70 => UnprefixedOpInfo { mnemonic: "LD (HL),B", cycles: 8, cycles_no_branch: 0, inst: OpcodeUnprefixed::Ld8(Op8::AddrHL, Op8::B) },
        0x71 => UnprefixedOpInfo { mnemonic: "LD (HL),C", cycles: 8, cycles_no_branch: 0, inst: OpcodeUnprefixed::Ld8(Op8::AddrHL, Op8::C) },
        0x72 => UnprefixedOpInfo { mnemonic: "LD (HL),D", cycles: 8, cycles_no_branch: 0, inst: OpcodeUnprefixed::Ld8(Op8::AddrHL, Op8::D) },
        0x73 => UnprefixedOpInfo { mnemonic: "LD (HL),E", cycles: 8, cycles_no_branch: 0, inst: OpcodeUnprefixed::Ld8(Op8::AddrHL, Op8::E) },
        0x74 => UnprefixedOpInfo { mnemonic: "LD (HL),H", cycles: 8, cycles_no_branch: 0, inst: OpcodeUnprefixed::Ld8(Op8::AddrHL, Op8::H) },
        0x75 => UnprefixedOpInfo { mnemonic: "LD (HL),L", cycles: 8, cycles_no_branch: 0, inst: OpcodeUnprefixed::Ld8(Op8::AddrHL, Op8::L) },
        0x76 => UnprefixedOpInfo { mnemonic: "HALT", cycles: 4, cycles_no_branch: 0, inst: OpcodeUnprefixed::Halt },
        0x77 => UnprefixedOpInfo { mnemonic: "LD (HL),A", cycles: 8, cycles_no_branch: 0, inst: OpcodeUnprefixed::Ld8(Op8::AddrHL, Op8::A) },
        0x78 => UnprefixedOpInfo { mnemonic: "LD A,B", cycles: 4, cycles_no_branch: 0, inst: OpcodeUnprefixed::Ld8(Op8::A, Op8::B) },
        0x79 => UnprefixedOpInfo { mnemonic: "LD A,C", cycles: 4, cycles_no_branch: 0, inst: OpcodeUnprefixed::Ld8(Op8::A, Op8::C) },
        0x7A => UnprefixedOpInfo { mnemonic: "LD A,D", cycles: 4, cycles_no_branch: 0, inst: OpcodeUnprefixed::Ld8(Op8::A, Op8::D) },
        0x7B => UnprefixedOpInfo { mnemonic: "LD A,E", cycles: 4, cycles_no_branch: 0, inst: OpcodeUnprefixed::Ld8(Op8::A, Op8::E) },
        0x7C => UnprefixedOpInfo { mnemonic: "LD A,H", cycles: 4, cycles_no_branch: 0, inst: OpcodeUnprefixed::Ld8(Op8::A, Op8::H) },
        0x7D => UnprefixedOpInfo { mnemonic: "LD A,L", cycles: 4, cycles_no_branch: 0, inst: OpcodeUnprefixed::Ld8(Op8::A, Op8::L) },
        0x7E => UnprefixedOpInfo { mnemonic: "LD A,(HL)", cycles: 8, cycles_no_branch: 0, inst: OpcodeUnprefixed::Ld8(Op8::A, Op8::AddrHL) },
        0x7F => UnprefixedOpInfo { mnemonic: "LD A,A", cycles: 4, cycles_no_branch: 0, inst: OpcodeUnprefixed::Ld8(Op8::A, Op8::A) },
        0x80 => UnprefixedOpInfo { mnemonic: "ADD A,B", cycles: 4, cycles_no_branch: 0, inst: OpcodeUnprefixed::Add8(Op8::B) },
        0x81 => UnprefixedOpInfo { mnemonic: "ADD A,C", cycles: 4, cycles_no_branch: 0, inst: OpcodeUnprefixed::Add8(Op8::C) },
        0x82 => UnprefixedOpInfo { mnemonic: "ADD A,D", cycles: 4, cycles_no_branch: 0, inst: OpcodeUnprefixed::Add8(Op8::D) },
        0x83 => UnprefixedOpInfo { mnemonic: "ADD A,E", cycles: 4, cycles_no_branch: 0, inst: OpcodeUnprefixed::Add8(Op8::E) },
        0x84 => UnprefixedOpInfo { mnemonic: "ADD A,H", cycles: 4, cycles_no_branch: 0, inst: OpcodeUnprefixed::Add8(Op8::H) },
        0x85 => UnprefixedOpInfo { mnemonic: "ADD A,L", cycles: 4, cycles_no_branch: 0, inst: OpcodeUnprefixed::Add8(Op8::L) },
        0x86 => UnprefixedOpInfo { mnemonic: "ADD A,(HL)", cycles: 8, cycles_no_branch: 0, inst: OpcodeUnprefixed::Add8(Op8::AddrHL) },
        0x87 => UnprefixedOpInfo { mnemonic: "ADD A,A", cycles: 4, cycles_no_branch: 0, inst: OpcodeUnprefixed::Add8(Op8::A) },
        0x88 => UnprefixedOpInfo { mnemonic: "ADC A,B", cycles: 4, cycles_no_branch: 0, inst: OpcodeUnprefixed::Adc(Op8::B) },
        0x89 => UnprefixedOpInfo { mnemonic: "ADC A,C", cycles: 4, cycles_no_branch: 0, inst: OpcodeUnprefixed::Adc(Op8::C) },
        0x8A => UnprefixedOpInfo { mnemonic: "ADC A,D", cycles: 4, cycles_no_branch: 0, inst: OpcodeUnprefixed::Adc(Op8::D) },
        0x8B => UnprefixedOpInfo { mnemonic: "ADC A,E", cycles: 4, cycles_no_branch: 0, inst: OpcodeUnprefixed::Adc(Op8::E) },
        0x8C => UnprefixedOpInfo { mnemonic: "ADC A,H", cycles: 4, cycles_no_branch: 0, inst: OpcodeUnprefixed::Adc(Op8::H) },
        0x8D => UnprefixedOpInfo { mnemonic: "ADC A,L", cycles: 4, cycles_no_branch: 0, inst: OpcodeUnprefixed::Adc(Op8::L) },
        0x8E => UnprefixedOpInfo { mnemonic: "ADC A,(HL)", cycles: 8, cycles_no_branch: 0, inst: OpcodeUnprefixed::Adc(Op8::AddrHL) },
        0x8F => UnprefixedOpInfo { mnemonic: "ADC A,A", cycles: 4, cycles_no_branch: 0, inst: OpcodeUnprefixed::Adc(Op8::A) },
        0x90 => UnprefixedOpInfo { mnemonic: "SUB B", cycles: 4, cycles_no_branch: 0, inst: OpcodeUnprefixed::Sub(Op8::B) },
        0x91 => UnprefixedOpInfo { mnemonic: "SUB C", cycles: 4, cycles_no_branch: 0, inst: OpcodeUnprefixed::Sub(Op8::C) },
        0x92 => UnprefixedOpInfo { mnemonic: "SUB D", cycles: 4, cycles_no_branch: 0, inst: OpcodeUnprefixed::Sub(Op8::D) },
        0x93 => UnprefixedOpInfo { mnemonic: "SUB E", cycles: 4, cycles_no_branch: 0, inst: OpcodeUnprefixed::Sub(Op8::E) },
        0x94 => UnprefixedOpInfo { mnemonic: "SUB H", cycles: 4, cycles_no_branch: 0, inst: OpcodeUnprefixed::Sub(Op8::H) },
        0x95 => UnprefixedOpInfo { mnemonic: "SUB L", cycles: 4, cycles_no_branch: 0, inst: OpcodeUnprefixed::Sub(Op8::L) },
        0x96 => UnprefixedOpInfo { mnemonic: "SUB (HL)", cycles: 8, cycles_no_branch: 0, inst: OpcodeUnprefixed::Sub(Op8::AddrHL) },
        0x97 => UnprefixedOpInfo { mnemonic: "SUB A", cycles: 4, cycles_no_branch: 0, inst: OpcodeUnprefixed::Sub(Op8::A) },
        0x98 => UnprefixedOpInfo { mnemonic: "SBC A,B", cycles: 4, cycles_no_branch: 0, inst: OpcodeUnprefixed::Sbc(Op8::B) },
        0x99 => UnprefixedOpInfo { mnemonic: "SBC A,C", cycles: 4, cycles_no_branch: 0, inst: OpcodeUnprefixed::Sbc(Op8::C) },
        0x9A => UnprefixedOpInfo { mnemonic: "SBC A,D", cycles: 4, cycles_no_branch: 0, inst: OpcodeUnprefixed::Sbc(Op8::D) },
        0x9B => UnprefixedOpInfo { mnemonic: "SBC A,E", cycles: 4, cycles_no_branch: 0, inst: OpcodeUnprefixed::Sbc(Op8::E) },
        0x9C => UnprefixedOpInfo { mnemonic: "SBC A,H", cycles: 4, cycles_no_branch: 0, inst: OpcodeUnprefixed::Sbc(Op8::H) },
        0x9D => UnprefixedOpInfo { mnemonic: "SBC A,L", cycles: 4, cycles_no_branch: 0, inst: OpcodeUnprefixed::Sbc(Op8::L) },
        0x9E => UnprefixedOpInfo { mnemonic: "SBC A,(HL)", cycles: 8, cycles_no_branch: 0, inst: OpcodeUnprefixed::Sbc(Op8::AddrHL) },
        0x9F => UnprefixedOpInfo { mnemonic: "SBC A,A", cycles: 4, cycles_no_branch: 0, inst: OpcodeUnprefixed::Sbc(Op8::A) },
        0xA0 => UnprefixedOpInfo { mnemonic: "AND B", cycles: 4, cycles_no_branch: 0, inst: OpcodeUnprefixed::And(Op8::B) },
        0xA1 => UnprefixedOpInfo { mnemonic: "AND C", cycles: 4, cycles_no_branch: 0, inst: OpcodeUnprefixed::And(Op8::C) },
        0xA2 => UnprefixedOpInfo { mnemonic: "AND D", cycles: 4, cycles_no_branch: 0, inst: OpcodeUnprefixed::And(Op8::D) },
        0xA3 => UnprefixedOpInfo { mnemonic: "AND E", cycles: 4, cycles_no_branch: 0, inst: OpcodeUnprefixed::And(Op8::E) },
        0xA4 => UnprefixedOpInfo { mnemonic: "AND H", cycles: 4, cycles_no_branch: 0, inst: OpcodeUnprefixed::And(Op8::H) },
        0xA5 => UnprefixedOpInfo { mnemonic: "AND L", cycles: 4, cycles_no_branch: 0, inst: OpcodeUnprefixed::And(Op8::L) },
        0xA6 => UnprefixedOpInfo { mnemonic: "AND (HL)", cycles: 8, cycles_no_branch: 0, inst: OpcodeUnprefixed::And(Op8::AddrHL) },
        0xA7 => UnprefixedOpInfo { mnemonic: "AND A", cycles: 4, cycles_no_branch: 0, inst: OpcodeUnprefixed::And(Op8::A) },
        0xA8 => UnprefixedOpInfo { mnemonic: "XOR B", cycles: 4, cycles_no_branch: 0, inst: OpcodeUnprefixed::Xor(Op8::B) },
        0xA9 => UnprefixedOpInfo { mnemonic: "XOR C", cycles: 4, cycles_no_branch: 0, inst: OpcodeUnprefixed::Xor(Op8::C) },
        0xAA => UnprefixedOpInfo { mnemonic: "XOR D", cycles: 4, cycles_no_branch: 0, inst: OpcodeUnprefixed::Xor(Op8::D) },
        0xAB => UnprefixedOpInfo { mnemonic: "XOR E", cycles: 4, cycles_no_branch: 0, inst: OpcodeUnprefixed::Xor(Op8::E) },
        0xAC => UnprefixedOpInfo { mnemonic: "XOR H", cycles: 4, cycles_no_branch: 0, inst: OpcodeUnprefixed::Xor(Op8::H) },
        0xAD => UnprefixedOpInfo { mnemonic: "XOR L", cycles: 4, cycles_no_branch: 0, inst: OpcodeUnprefixed::Xor(Op8::L) },
        0xAE => UnprefixedOpInfo { mnemonic: "XOR (HL)", cycles: 8, cycles_no_branch: 0, inst: OpcodeUnprefixed::Xor(Op8::AddrHL) },
        0xAF => UnprefixedOpInfo { mnemonic: "XOR A", cycles: 4, cycles_no_branch: 0, inst: OpcodeUnprefixed::Xor(Op8::A) },
        0xB0 => UnprefixedOpInfo { mnemonic: "OR B", cycles: 4, cycles_no_branch: 0, inst: OpcodeUnprefixed::Or(Op8::B) },
        0xB1 => UnprefixedOpInfo { mnemonic: "OR C", cycles: 4, cycles_no_branch: 0, inst: OpcodeUnprefixed::Or(Op8::C) },
        0xB2 => UnprefixedOpInfo { mnemonic: "OR D", cycles: 4, cycles_no_branch: 0, inst: OpcodeUnprefixed::Or(Op8::D) },
        0xB3 => UnprefixedOpInfo { mnemonic: "OR E", cycles: 4, cycles_no_branch: 0, inst: OpcodeUnprefixed::Or(Op8::E) },
        0xB4 => UnprefixedOpInfo { mnemonic: "OR H", cycles: 4, cycles_no_branch: 0, inst: OpcodeUnprefixed::Or(Op8::H) },
        0xB5 => UnprefixedOpInfo { mnemonic: "OR L", cycles: 4, cycles_no_branch: 0, inst: OpcodeUnprefixed::Or(Op8::L) },
        0xB6 => UnprefixedOpInfo { mnemonic: "OR (HL)", cycles: 8, cycles_no_branch: 0, inst: OpcodeUnprefixed::Or(Op8::AddrHL) },
        0xB7 => UnprefixedOpInfo { mnemonic: "OR A", cycles: 4, cycles_no_branch: 0, inst: OpcodeUnprefixed::Or(Op8::A) },
        0xB8 => UnprefixedOpInfo { mnemonic: "CP B", cycles: 4, cycles_no_branch: 0, inst: OpcodeUnprefixed::Cp(Op8::B) },
        0xB9 => UnprefixedOpInfo { mnemonic: "CP C", cycles: 4, cycles_no_branch: 0, inst: OpcodeUnprefixed::Cp(Op8::C) },
        0xBA => UnprefixedOpInfo { mnemonic: "CP D", cycles: 4, cycles_no_branch: 0, inst: OpcodeUnprefixed::Cp(Op8::D) },
        0xBB => UnprefixedOpInfo { mnemonic: "CP E", cycles: 4, cycles_no_branch: 0, inst: OpcodeUnprefixed::Cp(Op8::E) },
        0xBC => UnprefixedOpInfo { mnemonic: "CP H", cycles: 4, cycles_no_branch: 0, inst: OpcodeUnprefixed::Cp(Op8::H) },
        0xBD => UnprefixedOpInfo { mnemonic: "CP L", cycles: 4, cycles_no_branch: 0, inst: OpcodeUnprefixed::Cp(Op8::L) },
        0xBE => UnprefixedOpInfo { mnemonic: "CP (HL)", cycles: 8, cycles_no_branch: 0, inst: OpcodeUnprefixed::Cp(Op8::AddrHL) },
        0xBF => UnprefixedOpInfo { mnemonic: "CP A", cycles: 4, cycles_no_branch: 0, inst: OpcodeUnprefixed::Cp(Op8::A) },
        0xC0 => UnprefixedOpInfo { mnemonic: "RET NZ", cycles: 20, cycles_no_branch: 8, inst: OpcodeUnprefixed::Ret(Condition::NotZero) },
        0xC1 => UnprefixedOpInfo { mnemonic: "POP BC", cycles: 12, cycles_no_branch: 0, inst: OpcodeUnprefixed::Pop(Op16::BC) },
        0xC2 => UnprefixedOpInfo { mnemonic: "JP NZ,u16", cycles: 16, cycles_no_branch: 12, inst: OpcodeUnprefixed::Jp(Condition::NotZero, Op16::U16) },
        0xC3 => UnprefixedOpInfo { mnemonic: "JP u16", cycles: 16, cycles_no_branch: 0, inst: OpcodeUnprefixed::Jp(Condition::Unconditional, Op16::U16) },
        0xC4 => UnprefixedOpInfo { mnemonic: "CALL NZ,u16", cycles: 24, cycles_no_branch: 12, inst: OpcodeUnprefixed::Call(Condition::NotZero) },
        0xC5 => UnprefixedOpInfo { mnemonic: "PUSH BC", cycles: 16, cycles_no_branch: 0, inst: OpcodeUnprefixed::Push(Op16::BC) },
        0xC6 => UnprefixedOpInfo { mnemonic: "ADD A,u8", cycles: 8, cycles_no_branch: 0, inst: OpcodeUnprefixed::Add8(Op8::U8) },
        0xC7 => UnprefixedOpInfo { mnemonic: "RST 00H", cycles: 16, cycles_no_branch: 0, inst: OpcodeUnprefixed::Rst(0x00) },
        0xC8 => UnprefixedOpInfo { mnemonic: "RET Z", cycles: 20, cycles_no_branch: 8, inst: OpcodeUnprefixed::Ret(Condition::Zero) },
        0xC9 => UnprefixedOpInfo { mnemonic: "RET", cycles: 16, cycles_no_branch: 0, inst: OpcodeUnprefixed::Ret(Condition::Unconditional) },
        0xCA => UnprefixedOpInfo { mnemonic: "JP Z,u16", cycles: 16, cycles_no_branch: 12, inst: OpcodeUnprefixed::Jp(Condition::Zero, Op16::U16) },
        0xCB => UnprefixedOpInfo { mnemonic: "PREFIX", cycles: 4, cycles_no_branch: 0, inst: OpcodeUnprefixed::Prefix },
        0xCC => UnprefixedOpInfo { mnemonic: "CALL Z,u16", cycles: 24, cycles_no_branch: 12, inst: OpcodeUnprefixed::Call(Condition::Zero) },
        0xCD => UnprefixedOpInfo { mnemonic: "CALL u16", cycles: 24, cycles_no_branch: 0, inst: OpcodeUnprefixed::Call(Condition::Unconditional) },
        0xCE => UnprefixedOpInfo { mnemonic: "ADC A,u8", cycles: 8, cycles_no_branch: 0, inst: OpcodeUnprefixed::Adc(Op8::U8) },
        0xCF => UnprefixedOpInfo { mnemonic: "RST 08H", cycles: 16, cycles_no_branch: 0, inst: OpcodeUnprefixed::Rst(0x08) },
        0xD0 => UnprefixedOpInfo { mnemonic: "RET NC", cycles: 20, cycles_no_branch: 8, inst: OpcodeUnprefixed::Ret(Condition::NotCarry) },
        0xD1 => UnprefixedOpInfo { mnemonic: "POP DE", cycles: 12, cycles_no_branch: 0, inst: OpcodeUnprefixed::Pop(Op16::DE) },
        0xD2 => UnprefixedOpInfo { mnemonic: "JP NC,u16", cycles: 16, cycles_no_branch: 12, inst: OpcodeUnprefixed::Jp(Condition::NotCarry, Op16::U16) },
        0xD3 => UnprefixedOpInfo { mnemonic: "ILLEGAL_D3", cycles: 4, cycles_no_branch: 0, inst: OpcodeUnprefixed::Illegal },
        0xD4 => UnprefixedOpInfo { mnemonic: "CALL NC,u16", cycles: 24, cycles_no_branch: 12, inst: OpcodeUnprefixed::Call(Condition::NotCarry) },
        0xD5 => UnprefixedOpInfo { mnemonic: "PUSH DE", cycles: 16, cycles_no_branch: 0, inst: OpcodeUnprefixed::Push(Op16::DE) },
        0xD6 => UnprefixedOpInfo { mnemonic: "SUB u8", cycles: 8, cycles_no_branch: 0, inst: OpcodeUnprefixed::Sub(Op8::U8) },
        0xD7 => UnprefixedOpInfo { mnemonic: "RST 10H", cycles: 16, cycles_no_branch: 0, inst: OpcodeUnprefixed::Rst(0x10) },
        0xD8 => UnprefixedOpInfo { mnemonic: "RET C", cycles: 20, cycles_no_branch: 8, inst: OpcodeUnprefixed::Ret(Condition::Carry) },
        0xD9 => UnprefixedOpInfo { mnemonic: "RETI", cycles: 16, cycles_no_branch: 0, inst: OpcodeUnprefixed::Reti },
        0xDA => UnprefixedOpInfo { mnemonic: "JP C,u16", cycles: 16, cycles_no_branch: 12, inst: OpcodeUnprefixed::Jp(Condition::Carry, Op16::U16) },
        0xDB => UnprefixedOpInfo { mnemonic: "ILLEGAL_DB", cycles: 4, cycles_no_branch: 0, inst: OpcodeUnprefixed::Illegal },
        0xDC => UnprefixedOpInfo { mnemonic: "CALL C,u16", cycles: 24, cycles_no_branch: 12, inst: OpcodeUnprefixed::Call(Condition::Carry) },
        0xDD => UnprefixedOpInfo { mnemonic: "ILLEGAL_DD", cycles: 4, cycles_no_branch: 0, inst: OpcodeUnprefixed::Illegal },
        0xDE => UnprefixedOpInfo { mnemonic: "SBC A,u8", cycles: 8, cycles_no_branch: 0, inst: OpcodeUnprefixed::Sbc(Op8::U8) },
        0xDF => UnprefixedOpInfo { mnemonic: "RST 18H", cycles: 16, cycles_no_branch: 0, inst: OpcodeUnprefixed::Rst(0x18) },
        0xE0 => UnprefixedOpInfo { mnemonic: "LDH (a8),A", cycles: 12, cycles_no_branch: 0, inst: OpcodeUnprefixed::Ld8(Op8::LowAddrU8, Op8::A) },
        0xE1 => UnprefixedOpInfo { mnemonic: "POP HL", cycles: 12, cycles_no_branch: 0, inst: OpcodeUnprefixed::Pop(Op16::HL) },
        0xE2 => UnprefixedOpInfo { mnemonic: "LD (C),A", cycles: 8, cycles_no_branch: 0, inst: OpcodeUnprefixed::Ld8(Op8::LowAddrC, Op8::A) },
        0xE3 => UnprefixedOpInfo { mnemonic: "ILLEGAL_E3", cycles: 4, cycles_no_branch: 0, inst: OpcodeUnprefixed::Illegal },
        0xE4 => UnprefixedOpInfo { mnemonic: "ILLEGAL_E4", cycles: 4, cycles_no_branch: 0, inst: OpcodeUnprefixed::Illegal },
        0xE5 => UnprefixedOpInfo { mnemonic: "PUSH HL", cycles: 16, cycles_no_branch: 0, inst: OpcodeUnprefixed::Push(Op16::HL) },
        0xE6 => UnprefixedOpInfo { mnemonic: "AND u8", cycles: 8, cycles_no_branch: 0, inst: OpcodeUnprefixed::And(Op8::U8) },
        0xE7 => UnprefixedOpInfo { mnemonic: "RST 20H", cycles: 16, cycles_no_branch: 0, inst: OpcodeUnprefixed::Rst(0x20) },
        0xE8 => UnprefixedOpInfo { mnemonic: "ADD SP,r8", cycles: 16, cycles_no_branch: 0, inst: OpcodeUnprefixed::AddI8SP },
        0xE9 => UnprefixedOpInfo { mnemonic: "JP HL", cycles: 4, cycles_no_branch: 0, inst: OpcodeUnprefixed::Jp(Condition::Unconditional, Op16::HL) },
        0xEA => UnprefixedOpInfo { mnemonic: "LD (u16),A", cycles: 16, cycles_no_branch: 0, inst: OpcodeUnprefixed::Ld8(Op8::AddrU16, Op8::A) },
        0xEB => UnprefixedOpInfo { mnemonic: "ILLEGAL_EB", cycles: 4, cycles_no_branch: 0, inst: OpcodeUnprefixed::Illegal },
        0xEC => UnprefixedOpInfo { mnemonic: "ILLEGAL_EC", cycles: 4, cycles_no_branch: 0, inst: OpcodeUnprefixed::Illegal },
        0xED => UnprefixedOpInfo { mnemonic: "ILLEGAL_ED", cycles: 4, cycles_no_branch: 0, inst: OpcodeUnprefixed::Illegal },
        0xEE => UnprefixedOpInfo { mnemonic: "XOR u8", cycles: 8, cycles_no_branch: 0, inst: OpcodeUnprefixed::Xor(Op8::U8) },
        0xEF => UnprefixedOpInfo { mnemonic: "RST 28H", cycles: 16, cycles_no_branch: 0, inst: OpcodeUnprefixed::Rst(0x28) },
        0xF0 => UnprefixedOpInfo { mnemonic: "LDH A,(a8)", cycles: 12, cycles_no_branch: 0, inst: OpcodeUnprefixed::Ld8(Op8::A, Op8::LowAddrU8) },
        0xF1 => UnprefixedOpInfo { mnemonic: "POP AF", cycles: 12, cycles_no_branch: 0, inst: OpcodeUnprefixed::Pop(Op16::AF) },
        0xF2 => UnprefixedOpInfo { mnemonic: "LD A,(C)", cycles: 8, cycles_no_branch: 0, inst: OpcodeUnprefixed::Ld8(Op8::A, Op8::LowAddrC) },
        0xF3 => UnprefixedOpInfo { mnemonic: "DI", cycles: 4, cycles_no_branch: 0, inst: OpcodeUnprefixed::Di },
        0xF4 => UnprefixedOpInfo { mnemonic: "ILLEGAL_F4", cycles: 4, cycles_no_branch: 0, inst: OpcodeUnprefixed::Illegal },
        0xF5 => UnprefixedOpInfo { mnemonic: "PUSH AF", cycles: 16, cycles_no_branch: 0, inst: OpcodeUnprefixed::Push(Op16::AF) },
        0xF6 => UnprefixedOpInfo { mnemonic: "OR u8", cycles: 8, cycles_no_branch: 0, inst: OpcodeUnprefixed::Or(Op8::U8) },
        0xF7 => UnprefixedOpInfo { mnemonic: "RST 30H", cycles: 16, cycles_no_branch: 0, inst: OpcodeUnprefixed::Rst(0x30) },
        0xF8 => UnprefixedOpInfo { mnemonic: "LD HL,SP+r8", cycles: 12, cycles_no_branch: 0, inst: OpcodeUnprefixed::Ld16(Op16::HL, Op16::SPPlusI8) },
        0xF9 => UnprefixedOpInfo { mnemonic: "LD SP,HL", cycles: 8, cycles_no_branch: 0, inst: OpcodeUnprefixed::Ld16(Op16::SP, Op16::HL) },
        0xFA => UnprefixedOpInfo { mnemonic: "LD A,(u16)", cycles: 16, cycles_no_branch: 0, inst: OpcodeUnprefixed::Ld8(Op8::A, Op8::AddrU16) },
        0xFB => UnprefixedOpInfo { mnemonic: "EI", cycles: 4, cycles_no_branch: 0, inst: OpcodeUnprefixed::Ei },
        0xFC => UnprefixedOpInfo { mnemonic: "ILLEGAL_FC", cycles: 4, cycles_no_branch: 0, inst: OpcodeUnprefixed::Illegal },
        0xFD => UnprefixedOpInfo { mnemonic: "ILLEGAL_FD", cycles: 4, cycles_no_branch: 0, inst: OpcodeUnprefixed::Illegal },
        0xFE => UnprefixedOpInfo { mnemonic: "CP u8", cycles: 8, cycles_no_branch: 0, inst: OpcodeUnprefixed::Cp(Op8::U8) },
        _ => UnprefixedOpInfo { mnemonic: "RST 38H", cycles: 16, cycles_no_branch: 0, inst: OpcodeUnprefixed::Rst(0x38) },
    }
}

/// The prefix-escape decode table: instruction variant and cycle cost
/// for each of the 256 second bytes.
#[verifier::opaque]
pub open spec fn spec_lookup_prefixed(op: u8) -> (OpcodePrefixed, u64) {
    if op == 0x00 {
        (OpcodePrefixed::Rlc(Op8::B), 8u64)
    } else if op == 0x01 {
        (OpcodePrefixed::Rlc(Op8::C), 8u64)
    } else if op == 0x02 {
        (OpcodePrefixed::Rlc(Op8::D), 8u64)
    } else if op == 0x03 {
        (OpcodePrefixed::Rlc(Op8::E), 8u64)
    } else if op == 0x04 {
        (OpcodePrefixed::Rlc(Op8::H), 8u64)
    } else if op == 0x05 {
        (OpcodePrefixed::Rlc(Op8::L), 8u64)
    } else if op == 0x06 {
        (OpcodePrefixed::Rlc(Op8::AddrHL), 16u64)
    } else if op == 0x07 {
        (OpcodePrefixed::Rlc(Op8::A), 8u64)
    } else if op == 0x08 {
        (OpcodePrefixed::Rrc(Op8::B), 8u64)
    } else if op == 0x09 {
        (OpcodePrefixed::Rrc(Op8::C), 8u64)
    } else if op == 0x0A {
        (OpcodePrefixed::Rrc(Op8::D), 8u64)
    } else if op == 0x0B {
        (OpcodePrefixed::Rrc(Op8::E), 8u64)
    } else if op == 0x0C {
        (OpcodePrefixed::Rrc(Op8::H), 8u64)
    } else if op == 0x0D {
        (OpcodePrefixed::Rrc(Op8::L), 8u64)
    } else if op == 0x0E {
        (OpcodePrefixed::Rrc(Op8::AddrHL), 16u64)
    } else if op == 0x0F {
        (OpcodePrefixed::Rrc(Op8::A), 8u64)
    } else if op == 0x10 {
        (OpcodePrefixed::Rl(Op8::B), 8u64)
    } else if op == 0x11 {
        (OpcodePrefixed::Rl(Op8::C), 8u64)
    } else if op == 0x12 {
        (OpcodePrefixed::Rl(Op8::D), 8u64)
    } else if op == 0x13 {
        (OpcodePrefixed::Rl(Op8::E), 8u64)
    } else if op == 0x14 {
        (OpcodePrefixed::Rl(Op8::H), 8u64)
    } else if op == 0x15 {
        (OpcodePrefixed::Rl(Op8::L), 8u64)
    } else if op == 0x16 {
        (OpcodePrefixed::Rl(Op8::AddrHL), 16u64)
    } else if op == 0x17 {
        (OpcodePrefixed::Rl(Op8::A), 8u64)
    } else if op == 0x18 {
        (OpcodePrefixed::Rr(Op8::B), 8u64)
    } else if op == 0x19 {
        (OpcodePrefixed::Rr(Op8::C), 8u64)
    } else if op == 0x1A {
        (OpcodePrefixed::Rr(Op8::D), 8u64)
    } else if op == 0x1B {
        (OpcodePrefixed::Rr(Op8::E), 8u64)
    } else if op == 0x1C {
        (OpcodePrefixed::Rr(Op8::H), 8u64)
    } else if op == 0x1D {
        (OpcodePrefixed::Rr(Op8::L), 8u64)
    } else if op == 0x1E {
        (OpcodePrefixed::Rr(Op8::AddrHL), 16u64)
    } else if op == 0x1F {
        (OpcodePrefixed::Rr(Op8::A), 8u64)
    } else if op == 0x20 {
        (OpcodePrefixed::Sla(Op8::B), 8u64)
    } else if op == 0x21 {
        (OpcodePrefixed::Sla(Op8::C), 8u64)
    } else if op == 0x22 {
        (OpcodePrefixed::Sla(Op8::D), 8u64)
    } else if op == 0x23 {
        (OpcodePrefixed::Sla(Op8::E), 8u64)
    } else if op == 0x24 {
        (OpcodePrefixed::Sla(Op8::H), 8u64)
    } else if op == 0x25 {
        (OpcodePrefixed::Sla(Op8::L), 8u64)
    } else if op == 0x26 {
        (OpcodePrefixed::Sla(Op8::AddrHL), 16u64)
    } else if op == 0x27 {
        (OpcodePrefixed::Sla(Op8::A), 8u64)
    } else if op == 0x28 {
        (OpcodePrefixed::Sra(Op8::B), 8u64)
    } else if op == 0x29 {
        (OpcodePrefixed::Sra(Op8::C), 8u64)
    } else if op == 0x2A {
        (OpcodePrefixed::Sra(Op8::D), 8u64)
    } else if op == 0x2B {
        (OpcodePrefixed::Sra(Op8::E), 8u64)
    } else if op == 0x2C {
        (OpcodePrefixed::Sra(Op8::H), 8u64)
    } else if op == 0x2D {
        (OpcodePrefixed::Sra(Op8::L), 8u64)
    } else if op == 0x2E {
        (OpcodePrefixed::Sra(Op8::AddrHL), 16u64)
    } else if op == 0x2F {
        (OpcodePrefixed::Sra(Op8::A), 8u64)
    } else if op == 0x30 {
        (OpcodePrefixed::Swap(Op8::B), 8u64)
    } else if op == 0x31 {
        (OpcodePrefixed::Swap(Op8::C), 8u64)
    } else if op == 0x32 {
        (OpcodePrefixed::Swap(Op8::D), 8u64)
    } else if op == 0x33 {
        (OpcodePrefixed::Swap(Op8::E), 8u64)
    } else if op == 0x34 {
        (OpcodePrefixed::Swap(Op8::H), 8u64)
    } else if op == 0x35 {
        (OpcodePrefixed::Swap(Op8::L), 8u64)
    } else if op == 0x36 {
        (OpcodePrefixed::Swap(Op8::AddrHL), 16u64)
    } else if op == 0x37 {
        (OpcodePrefixed::Swap(Op8::A), 8u64)
    } else if op == 0x38 {
        (OpcodePrefixed::Srl(Op8::B), 8u64)
    } else if op == 0x39 {
        (OpcodePrefixed::Srl(Op8::C), 8u64)
    } else if op == 0x3A {
        (OpcodePrefixed::Srl(Op8::D), 8u64)
    } else if op == 0x3B {
        (OpcodePrefixed::Srl(Op8::E), 8u64)
    } else if op == 0x3C {
        (OpcodePrefixed::Srl(Op8::H), 8u64)
    } else if op == 0x3D {
        (OpcodePrefixed::Srl(Op8::L), 8u64)
    } else if op == 0x3E {
        (OpcodePrefixed::Srl(Op8::AddrHL), 16u64)
    } else if op == 0x3F {
        (OpcodePrefixed::Srl(Op8::A), 8u64)
    } else if op == 0x40 {
        (OpcodePrefixed::Bit(0, Op8::B), 8u64)
    } else if op == 0x41 {
        (OpcodePrefixed::Bit(0, Op8::C), 8u64)
    } else if op == 0x42 {
        (OpcodePrefixed::Bit(0, Op8::D), 8u64)
    } else if op == 0x43 {
        (OpcodePrefixed::Bit(0, Op8::E), 8u64)
    } else if op == 0x44 {
        (OpcodePrefixed::Bit(0, Op8::H), 8u64)
    } else if op == 0x45 {
        (OpcodePrefixed::Bit(0, Op8::L), 8u64)
    } else if op == 0x46 {
        (OpcodePrefixed::Bit(0, Op8::AddrHL), 12u64)
    } else if op == 0x47 {
        (OpcodePrefixed::Bit(0, Op8::A), 8u64)
    } else if op == 0x48 {
        (OpcodePrefixed::Bit(1, Op8::B), 8u64)
    } else if op == 0x49 {
        (OpcodePrefixed::Bit(1, Op8::C), 8u64)
    } else if op == 0x4A {
        (OpcodePrefixed::Bit(1, Op8::D), 8u64)
    } else if op == 0x4B {
        (OpcodePrefixed::Bit(1, Op8::E), 8u64)
    } else if op == 0x4C {
        (OpcodePrefixed::Bit(1, Op8::H), 8u64)
    } else if op == 0x4D {
        (OpcodePrefixed::Bit(1, Op8::L), 8u64)
    } else if op == 0x4E {
        (OpcodePrefixed::Bit(1, Op8::AddrHL), 12u64)
    } else if op == 0x4F {
        (OpcodePrefixed::Bit(1, Op8::A), 8u64)
    } else if op == 0x50 {
        (OpcodePrefixed::Bit(2, Op8::B), 8u64)
    } else if op == 0x51 {
        (OpcodePrefixed::Bit(2, Op8::C), 8u64)
    } else if op == 0x52 {
        (OpcodePrefixed::Bit(2, Op8::D), 8u64)
    } else if op == 0x53 {
        (OpcodePrefixed::Bit(2, Op8::E), 8u64)
    } else if op == 0x54 {
        (OpcodePrefixed::Bit(2, Op8::H), 8u64)
    } else if op == 0x55 {
        (OpcodePrefixed::Bit(2, Op8::L), 8u64)
    } else if op == 0x56 {
        (OpcodePrefixed::Bit(2, Op8::AddrHL), 12u64)
    } else if op == 0x57 {
        (OpcodePrefixed::Bit(2, Op8::A), 8u64)
    } else if op == 0x58 {
        (OpcodePrefixed::Bit(3, Op8::B), 8u64)
    } else if op == 0x59 {
        (OpcodePrefixed::Bit(3, Op8::C), 8u64)
    } else if op == 0x5A {
        (OpcodePrefixed::Bit(3, Op8::D), 8u64)
    } else if op == 0x5B {
        (OpcodePrefixed::Bit(3, Op8::E), 8u64)
    } else if op == 0x5C {
        (OpcodePrefixed::Bit(3, Op8::H), 8u64)
    } else if op == 0x5D {
        (OpcodePrefixed::Bit(3, Op8::L), 8u64)
    } else if op == 0x5E {
        (OpcodePrefixed::Bit(3, Op8::AddrHL), 12u64)
    } else if op == 0x5F {
        (OpcodePrefixed::Bit(3, Op8::A), 8u64)
    } else if op == 0x60 {
        (OpcodePrefixed::Bit(4, Op8::B), 8u64)
    } else if op == 0x61 {
        (OpcodePrefixed::Bit(4, Op8::C), 8u64)
    } else if op == 0x62 {
        (OpcodePrefixed::Bit(4, Op8::D), 8u64)
    } else if op == 0x63 {
        (OpcodePrefixed::Bit(4, Op8::E), 8u64)
    } else if op == 0x64 {
        (OpcodePrefixed::Bit(4, Op8::H), 8u64)
    } else if op == 0x65 {
        (OpcodePrefixed::Bit(4, Op8::L), 8u64)
    } else if op == 0x66 {
        (OpcodePrefixed::Bit(4, Op8::AddrHL), 12u64)
    } else if op == 0x67 {
        (OpcodePrefixed::Bit(4, Op8::A), 8u64)
    } else if op == 0x68 {
        (OpcodePrefixed::Bit(5, Op8::B), 8u64)
    } else if op == 0x69 {
        (OpcodePrefixed::Bit(5, Op8::C), 8u64)
    } else if op == 0x6A {
        (OpcodePrefixed::Bit(5, Op8::D), 8u64)
    } else if op == 0x6B {
        (OpcodePrefixed::Bit(5, Op8::E), 8u64)
    } else if op == 0x6C {
        (OpcodePrefixed::Bit(5, Op8::H), 8u64)
    } else if op == 0x6D {
        (OpcodePrefixed::Bit(5, Op8::L), 8u64)
    } else if op == 0x6E {
        (OpcodePrefixed::Bit(5, Op8::AddrHL), 12u64)
    } else if op == 0x6F {
        (OpcodePrefixed::Bit(5, Op8::A), 8u64)
    } else if op == 0x70 {
        (OpcodePrefixed::Bit(6, Op8::B), 8u64)
    } else if op == 0x71 {
        (OpcodePrefixed::Bit(6, Op8::C), 8u64)
    } else if op == 0x72 {
        (OpcodePrefixed::Bit(6, Op8::D), 8u64)
    } else if op == 0x73 {
        (OpcodePrefixed::Bit(6, Op8::E), 8u64)
    } else if op == 0x74 {
        (OpcodePrefixed::Bit(6, Op8::H), 8u64)
    } else if op == 0x75 {
        (OpcodePrefixed::Bit(6, Op8::L), 8u64)
    } else if op == 0x76 {
        (OpcodePrefixed::Bit(6, Op8::AddrHL), 12u64)
    } else if op == 0x77 {
        (OpcodePrefixed::Bit(6, Op8::A), 8u64)
    } else if op == 0x78 {
        (OpcodePrefixed::Bit(7, Op8::B), 8u64)
    } else if op == 0x79 {
        (OpcodePrefixed::Bit(7, Op8::C), 8u64)
    } else if op == 0x7A {
        (OpcodePrefixed::Bit(7, Op8::D), 8u64)
    } else if op == 0x7B {
        (OpcodePrefixed::Bit(7, Op8::E), 8u64)
    } else if op == 0x7C {
        (OpcodePrefixed::Bit(7, Op8::H), 8u64)
    } else if op == 0x7D {
        (OpcodePrefixed::Bit(7, Op8::L), 8u64)
    } else if op == 0x7E {
        (OpcodePrefixed::Bit(7, Op8::AddrHL), 12u64)
    } else if op == 0x7F {
        (OpcodePrefixed::Bit(7, Op8::A), 8u64)
    } else if op == 0x80 {
        (OpcodePrefixed::ResBit(0, Op8::B), 8u64)
    } else if op == 0x81 {
        (OpcodePrefixed::ResBit(0, Op8::C), 8u64)
    } else if op == 0x82 {
        (OpcodePrefixed::ResBit(0, Op8::D), 8u64)
    } else if op == 0x83 {
        (OpcodePrefixed::ResBit(0, Op8::E), 8u64)
    } else if op == 0x84 {
        (OpcodePrefixed::ResBit(0, Op8::H), 8u64)
    } else if op == 0x85 {
        (OpcodePrefixed::ResBit(0, Op8::L), 8u64)
    } else if op == 0x86 {
        (OpcodePrefixed::ResBit(0, Op8::AddrHL), 16u64)
    } else if op == 0x87 {
        (OpcodePrefixed::ResBit(0, Op8::A), 8u64)
    } else if op == 0x88 {
        (OpcodePrefixed::ResBit(1, Op8::B), 8u64)
    } else if op == 0x89 {
        (OpcodePrefixed::ResBit(1, Op8::C), 8u64)
    } else if op == 0x8A {
        (OpcodePrefixed::ResBit(1, Op8::D), 8u64)
    } else if op == 0x8B {
        (OpcodePrefixed::ResBit(1, Op8::E), 8u64)
    } else if op == 0x8C {
        (OpcodePrefixed::ResBit(1, Op8::H), 8u64)
    } else if op == 0x8D {
        (OpcodePrefixed::ResBit(1, Op8::L), 8u64)
    } else if op == 0x8E {
        (OpcodePrefixed::ResBit(1, Op8::AddrHL), 16u64)
    } else if op == 0x8F {
        (OpcodePrefixed::ResBit(1, Op8::A), 8u64)
    } else if op == 0x90 {
        (OpcodePrefixed::ResBit(2, Op8::B), 8u64)
    } else if op == 0x91 {
        (OpcodePrefixed::ResBit(2, Op8::C), 8u64)
    } else if op == 0x92 {
        (OpcodePrefixed::ResBit(2, Op8::D), 8u64)
    } else if op == 0x93 {
        (OpcodePrefixed::ResBit(2, Op8::E), 8u64)
    } else if op == 0x94 {
        (OpcodePrefixed::ResBit(2, Op8::H), 8u64)
    } else if op == 0x95 {
        (OpcodePrefixed::ResBit(2, Op8::L), 8u64)
    } else if op == 0x96 {
        (OpcodePrefixed::ResBit(2, Op8::AddrHL), 16u64)
    } else if op == 0x97 {
        (OpcodePrefixed::ResBit(2, Op8::A), 8u64)
    } else if op == 0x98 {
        (OpcodePrefixed::ResBit(3, Op8::B), 8u64)
    } else if op == 0x99 {
        (OpcodePrefixed::ResBit(3, Op8::C), 8u64)
    } else if op == 0x9A {
        (OpcodePrefixed::ResBit(3, Op8::D), 8u64)
    } else if op == 0x9B {
        (OpcodePrefixed::ResBit(3, Op8::E), 8u64)
    } else if op == 0x9C {
        (OpcodePrefixed::ResBit(3, Op8::H), 8u64)
    } else if op == 0x9D {
        (OpcodePrefixed::ResBit(3, Op8::L), 8u64)
    } else if op == 0x9E {
        (OpcodePrefixed::ResBit(3, Op8::AddrHL), 16u64)
    } else if op == 0x9F {
        (OpcodePrefixed::ResBit(3, Op8::A), 8u64)
    } else if op == 0xA0 {
        (OpcodePrefixed::ResBit(4, Op8::B), 8u64)
    } else if op == 0xA1 {
        (OpcodePrefixed::ResBit(4, Op8::C), 8u64)
    } else if op == 0xA2 {
        (OpcodePrefixed::ResBit(4, Op8::D), 8u64)
    } else if op == 0xA3 {
        (OpcodePrefixed::ResBit(4, Op8::E), 8u64)
    } else if op == 0xA4 {
        (OpcodePrefixed::ResBit(4, Op8::H), 8u64)
    } else if op == 0xA5 {
        (OpcodePrefixed::ResBit(4, Op8::L), 8u64)
    } else if op == 0xA6 {
        (OpcodePrefixed::ResBit(4, Op8::AddrHL), 16u64)
    } else if op == 0xA7 {
        (OpcodePrefixed::ResBit(4, Op8::A), 8u64)
    } else if op == 0xA8 {
        (OpcodePrefixed::ResBit(5, Op8::B), 8u64)
    } else if op == 0xA9 {
        (OpcodePrefixed::ResBit(5, Op8::C), 8u64)
    } else if op == 0xAA {
        (OpcodePrefixed::ResBit(5, Op8::D), 8u64)
    } else if op == 0xAB {
        (OpcodePrefixed::ResBit(5, Op8::E), 8u64)
    } else if op == 0xAC {
        (OpcodePrefixed::ResBit(5, Op8::H), 8u64)
    } else if op == 0xAD {
        (OpcodePrefixed::ResBit(5, Op8::L), 8u64)
    } else if op == 0xAE {
        (OpcodePrefixed::ResBit(5, Op8::AddrHL), 16u64)
    } else if op == 0xAF {
        (OpcodePrefixed::ResBit(5, Op8::A), 8u64)
    } else if op == 0xB0 {
        (OpcodePrefixed::ResBit(6, Op8::B), 8u64)
    } else if op == 0xB1 {
        (OpcodePrefixed::ResBit(6, Op8::C), 8u64)
    } else if op == 0xB2 {
        (OpcodePrefixed::ResBit(6, Op8::D), 8u64)
    } else if op == 0xB3 {
        (OpcodePrefixed::ResBit(6, Op8::E), 8u64)
    } else if op == 0xB4 {
        (OpcodePrefixed::ResBit(6, Op8::H), 8u64)
    } else if op == 0xB5 {
        (OpcodePrefixed::ResBit(6, Op8::L), 8u64)
    } else if op == 0xB6 {
        (OpcodePrefixed::ResBit(6, Op8::AddrHL), 16u64)
    } else if op == 0xB7 {
        (OpcodePrefixed::ResBit(6, Op8::A), 8u64)
    } else if op == 0xB8 {
        (OpcodePrefixed::ResBit(7, Op8::B), 8u64)
    } else if op == 0xB9 {
        (OpcodePrefixed::ResBit(7, Op8::C), 8u64)
    } else if op == 0xBA {
        (OpcodePrefixed::ResBit(7, Op8::D), 8u64)
    } else if op == 0xBB {
        (OpcodePrefixed::ResBit(7, Op8::E), 8u64)
    } else if op == 0xBC {
        (OpcodePrefixed::ResBit(7, Op8::H), 8u64)
    } else if op == 0xBD {
        (OpcodePrefixed::ResBit(7, Op8::L), 8u64)
    } else if op == 0xBE {
        (OpcodePrefixed::ResBit(7, Op8::AddrHL), 16u64)
    } else if op == 0xBF {
        (OpcodePrefixed::ResBit(7, Op8::A), 8u64)
    } else if op == 0xC0 {
        (OpcodePrefixed::SetBit(0, Op8::B), 8u64)
    } else if op == 0xC1 {
        (OpcodePrefixed::SetBit(0, Op8::C), 8u64)
    } else if op == 0xC2 {
        (OpcodePrefixed::SetBit(0, Op8::D), 8u64)
    } else if op == 0xC3 {
        (OpcodePrefixed::SetBit(0, Op8::E), 8u64)
    } else if op == 0xC4 {
        (OpcodePrefixed::SetBit(0, Op8::H), 8u64)
    } else if op == 0xC5 {
        (OpcodePrefixed::SetBit(0, Op8::L), 8u64)
    } else if op == 0xC6 {
        (OpcodePrefixed::SetBit(0, Op8::AddrHL), 16u64)
    } else if op == 0xC7 {
        (OpcodePrefixed::SetBit(0, Op8::A), 8u64)
    } else if op == 0xC8 {
        (OpcodePrefixed::SetBit(1, Op8::B), 8u64)
    } else if op == 0xC9 {
        (OpcodePrefixed::SetBit(1, Op8::C), 8u64)
    } else if op == 0xCA {
        (OpcodePrefixed::SetBit(1, Op8::D), 8u64)
    } else if op == 0xCB {
        (OpcodePrefixed::SetBit(1, Op8::E), 8u64)
    } else if op == 0xCC {
        (OpcodePrefixed::SetBit(1, Op8::H), 8u64)
    } else if op == 0xCD {
        (OpcodePrefixed::SetBit(1, Op8::L), 8u64)
    } else if op == 0xCE {
        (OpcodePrefixed::SetBit(1, Op8::AddrHL), 16u64)
    } else if op == 0xCF {
        (OpcodePrefixed::SetBit(1, Op8::A), 8u64)
    } else if op == 0xD0 {
        (OpcodePrefixed::SetBit(2, Op8::B), 8u64)
    } else if op == 0xD1 {
        (OpcodePrefixed::SetBit(2, Op8::C), 8u64)
    } else if op == 0xD2 {
        (OpcodePrefixed::SetBit(2, Op8::D), 8u64)
    } else if op == 0xD3 {
        (OpcodePrefixed::SetBit(2, Op8::E), 8u64)
    } else if op == 0xD4 {
        (OpcodePrefixed::SetBit(2, Op8::H), 8u64)
    } else if op == 0xD5 {
        (OpcodePrefixed::SetBit(2, Op8::L), 8u64)
    } else if op == 0xD6 {
        (OpcodePrefixed::SetBit(2, Op8::AddrHL), 16u64)
    } else if op == 0xD7 {
        (OpcodePrefixed::SetBit(2, Op8::A), 8u64)
    } else if op == 0xD8 {
        (OpcodePrefixed::SetBit(3, Op8::B), 8u64)
    } else if op == 0xD9 {
        (OpcodePrefixed::SetBit(3, Op8::C), 8u64)
    } else if op == 0xDA {
        (OpcodePrefixed::SetBit(3, Op8::D), 8u64)
    } else if op == 0xDB {
        (OpcodePrefixed::SetBit(3, Op8::E), 8u64)
    } else if op == 0xDC {
        (OpcodePrefixed::SetBit(3, Op8::H), 8u64)
    } else if op == 0xDD {
        (OpcodePrefixed::SetBit(3, Op8::L), 8u64)
    } else if op == 0xDE {
        (OpcodePrefixed::SetBit(3, Op8::AddrHL), 16u64)
    } else if op == 0xDF {
        (OpcodePrefixed::SetBit(3, Op8::A), 8u64)
    } else if op == 0xE0 {
        (OpcodePrefixed::SetBit(4, Op8::B), 8u64)
    } else if op == 0xE1 {
        (OpcodePrefixed::SetBit(4, Op8::C), 8u64)
    } else if op == 0xE2 {
        (OpcodePrefixed::SetBit(4, Op8::D), 8u64)
    } else if op == 0xE3 {
        (OpcodePrefixed::SetBit(4, Op8::E), 8u64)
    } else if op == 0xE4 {
        (OpcodePrefixed::SetBit(4, Op8::H), 8u64)
    } else if op == 0xE5 {
        (OpcodePrefixed::SetBit(4, Op8::L), 8u64)
    } else if op == 0xE6 {
        (OpcodePrefixed::SetBit(4, Op8::AddrHL), 16u64)
    } else if op == 0xE7 {
        (OpcodePrefixed::SetBit(4, Op8::A), 8u64)
    } else if op == 0xE8 {
        (OpcodePrefixed::SetBit(5, Op8::B), 8u64)
    } else if op == 0xE9 {
        (OpcodePrefixed::SetBit(5, Op8::C), 8u64)
    } else if op == 0xEA {
        (OpcodePrefixed::SetBit(5, Op8::D), 8u64)
    } else if op == 0xEB {
        (OpcodePrefixed::SetBit(5, Op8::E), 8u64)
    } else if op == 0xEC {
        (OpcodePrefixed::SetBit(5, Op8::H), 8u64)
    } else if op == 0xED {
        (OpcodePrefixed::SetBit(5, Op8::L), 8u64)
    } else if op == 0xEE {
        (OpcodePrefixed::SetBit(5, Op8::AddrHL), 16u64)
    } else if op == 0xEF {
        (OpcodePrefixed::SetBit(5, Op8::A), 8u64)
    } else if op == 0xF0 {
        (OpcodePrefixed::SetBit(6, Op8::B), 8u64)
    } else if op == 0xF1 {
        (OpcodePrefixed::SetBit(6, Op8::C), 8u64)
    } else if op == 0xF2 {
        (OpcodePrefixed::SetBit(6, Op8::D), 8u64)
    } else if op == 0xF3 {
        (OpcodePrefixed::SetBit(6, Op8::E), 8u64)
    } else if op == 0xF4 {
        (OpcodePrefixed::SetBit(6, Op8::H), 8u64)
    } else if op == 0xF5 {
        (OpcodePrefixed::SetBit(6, Op8::L), 8u64)
    } else if op == 0xF6 {
        (OpcodePrefixed::SetBit(6, Op8::AddrHL), 16u64)
    } else if op == 0xF7 {
        (OpcodePrefixed::SetBit(6, Op8::A), 8u64)
    } else if op == 0xF8 {
        (OpcodePrefixed::SetBit(7, Op8::B), 8u64)
    } else if op == 0xF9 {
        (OpcodePrefixed::SetBit(7, Op8::C), 8u64)
    } else if op == 0xFA {
        (OpcodePrefixed::SetBit(7, Op8::D), 8u64)
    } else if op == 0xFB {
        (OpcodePrefixed::SetBit(7, Op8::E), 8u64)
    } else if op == 0xFC {
        (OpcodePrefixed::SetBit(7, Op8::H), 8u64)
    } else if op == 0xFD {
        (OpcodePrefixed::SetBit(7, Op8::L), 8u64)
    } else if op == 0xFE {
        (OpcodePrefixed::SetBit(7, Op8::AddrHL), 16u64)
    } else {
        (OpcodePrefixed::SetBit(7, Op8::A), 8u64)
    }
}

/// Decode one prefix-escape opcode to its descriptor.
pub fn lookup_prefixed(op: u8) -> (r: PrefixedOpInfo)
    ensures
        r.inst == spec_lookup_prefixed(op).0,
        r.cycles == spec_lookup_prefixed(op).1,
{
    proof {
        reveal(spec_lookup_prefixed);
    }
    match op {
        0x00 => PrefixedOpInfo { mnemonic: "RLC B", cycles: 8, inst: OpcodePrefixed::Rlc(Op8::B) },
        0x01 => PrefixedOpInfo { mnemonic: "RLC C", cycles: 8, inst: OpcodePrefixed::Rlc(Op8::C) },
        0x02 => PrefixedOpInfo { mnemonic: "RLC D", cycles: 8, inst: OpcodePrefixed::Rlc(Op8::D) },
        0x03 => PrefixedOpInfo { mnemonic: "RLC E", cycles: 8, inst: OpcodePrefixed::Rlc(Op8::E) },
        0x04 => PrefixedOpInfo { mnemonic: "RLC H", cycles: 8, inst: OpcodePrefixed::Rlc(Op8::H) },
        0x05 => PrefixedOpInfo { mnemonic: "RLC L", cycles: 8, inst: OpcodePrefixed::Rlc(Op8::L) },
        0x06 => PrefixedOpInfo { mnemonic: "RLC (HL)", cycles: 16, inst: OpcodePrefixed::Rlc(Op8::AddrHL) },
        0x07 => PrefixedOpInfo { mnemonic: "RLC A", cycles: 8, inst: OpcodePrefixed::Rlc(Op8::A) },
        0x08 => PrefixedOpInfo { mnemonic: "RRC B", cycles: 8, inst: OpcodePrefixed::Rrc(Op8::B) },
        0x09 => PrefixedOpInfo { mnemonic: "RRC C", cycles: 8, inst: OpcodePrefixed::Rrc(Op8::C) },
        0x0A => PrefixedOpInfo { mnemonic: "RRC D", cycles: 8, inst: OpcodePrefixed::Rrc(Op8::D) },
        0x0B => PrefixedOpInfo { mnemonic: "RRC E", cycles: 8, inst: OpcodePrefixed::Rrc(Op8::E) },
        0x0C => PrefixedOpInfo { mnemonic: "RRC H", cycles: 8, inst: OpcodePrefixed::Rrc(Op8::H) },
        0x0D => PrefixedOpInfo { mnemonic: "RRC L", cycles: 8, inst: OpcodePrefixed::Rrc(Op8::L) },
        0x0E => PrefixedOpInfo { mnemonic: "RRC (HL)", cycles: 16, inst: OpcodePrefixed::Rrc(Op8::AddrHL) },
        0x0F => PrefixedOpInfo { mnemonic: "RRC A", cycles: 8, inst: OpcodePrefixed::Rrc(Op8::A) },
        0x10 => PrefixedOpInfo { mnemonic: "RL B", cycles: 8, inst: OpcodePrefixed::Rl(Op8::B) },
        0x11 => PrefixedOpInfo { mnemonic: "RL C", cycles: 8, inst: OpcodePrefixed::Rl(Op8::C) },
        0x12 => PrefixedOpInfo { mnemonic: "RL D", cycles: 8, inst: OpcodePrefixed::Rl(Op8::D) },
        0x13 => PrefixedOpInfo { mnemonic: "RL E", cycles: 8, inst: OpcodePrefixed::Rl(Op8::E) },
        0x14 => PrefixedOpInfo { mnemonic: "RL H", cycles: 8, inst: OpcodePrefixed::Rl(Op8::H) },
        0x15 => PrefixedOpInfo { mnemonic: "RL L", cycles: 8, inst: OpcodePrefixed::Rl(Op8::L) },
        0x16 => PrefixedOpInfo { mnemonic: "RL (HL)", cycles: 16, inst: OpcodePrefixed::Rl(Op8::AddrHL) },
        0x17 => PrefixedOpInfo { mnemonic: "RL A", cycles: 8, inst: OpcodePrefixed::Rl(Op8::A) },
        0x18 => PrefixedOpInfo { mnemonic: "RR B", cycles: 8, inst: OpcodePrefixed::Rr(Op8::B) },
        0x19 => PrefixedOpInfo { mnemonic: "RR C", cycles: 8, inst: OpcodePrefixed::Rr(Op8::C) },
        0x1A => PrefixedOpInfo { mnemonic: "RR D", cycles: 8, inst: OpcodePrefixed::Rr(Op8::D) },
        0x1B => PrefixedOpInfo { mnemonic: "RR E", cycles: 8, inst: OpcodePrefixed::Rr(Op8::E) },
        0x1C => PrefixedOpInfo { mnemonic: "RR H", cycles: 8, inst: OpcodePrefixed::Rr(Op8::H) },
        0x1D => PrefixedOpInfo { mnemonic: "RR L", cycles: 8, inst: OpcodePrefixed::Rr(Op8::L) },
        0x1E => PrefixedOpInfo { mnemonic: "RR (HL)", cycles: 16, inst: OpcodePrefixed::Rr(Op8::AddrHL) },
        0x1F => PrefixedOpInfo { mnemonic: "RR A", cycles: 8, inst: OpcodePrefixed::Rr(Op8::A) },
        0x20 => PrefixedOpInfo { mnemonic: "SLA B", cycles: 8, inst: OpcodePrefixed::Sla(Op8::B) },
        0x21 => PrefixedOpInfo { mnemonic: "SLA C", cycles: 8, inst: OpcodePrefixed::Sla(Op8::C) },
        0x22 => PrefixedOpInfo { mnemonic: "SLA D", cycles: 8, inst: OpcodePrefixed::Sla(Op8::D) },
        0x23 => PrefixedOpInfo { mnemonic: "SLA E", cycles: 8, inst: OpcodePrefixed::Sla(Op8::E) },
        0x24 => PrefixedOpInfo { mnemonic: "SLA H", cycles: 8, inst: OpcodePrefixed::Sla(Op8::H) },
        0x25 => PrefixedOpInfo { mnemonic: "SLA L", cycles: 8, inst: OpcodePrefixed::Sla(Op8::L) },
        0x26 => PrefixedOpInfo { mnemonic: "SLA (HL)", cycles: 16, inst: OpcodePrefixed::Sla(Op8::AddrHL) },
        0x27 => PrefixedOpInfo { mnemonic: "SLA A", cycles: 8, inst: OpcodePrefixed::Sla(Op8::A) },
        0x28 => PrefixedOpInfo { mnemonic: "SRA B", cycles: 8, inst: OpcodePrefixed::Sra(Op8::B) },
        0x29 => PrefixedOpInfo { mnemonic: "SRA C", cycles: 8, inst: OpcodePrefixed::Sra(Op8::C) },
        0x2A => PrefixedOpInfo { mnemonic: "SRA D", cycles: 8, inst: OpcodePrefixed::Sra(Op8::D) },
        0x2B => PrefixedOpInfo { mnemonic: "SRA E", cycles: 8, inst: OpcodePrefixed::Sra(Op8::E) },
        0x2C => PrefixedOpInfo { mnemonic: "SRA H", cycles: 8, inst: OpcodePrefixed::Sra(Op8::H) },
        0x2D => PrefixedOpInfo { mnemonic: "SRA L", cycles: 8, inst: OpcodePrefixed::Sra(Op8::L) },
        0x2E => PrefixedOpInfo { mnemonic: "SRA (HL)", cycles: 16, inst: OpcodePrefixed::Sra(Op8::AddrHL) },
        0x2F => PrefixedOpInfo { mnemonic: "SRA A", cycles: 8, inst: OpcodePrefixed::Sra(Op8::A) },
        0x30 => PrefixedOpInfo { mnemonic: "SWAP B", cycles: 8, inst: OpcodePrefixed::Swap(Op8::B) },
        0x31 => PrefixedOpInfo { mnemonic: "SWAP C", cycles: 8, inst: OpcodePrefixed::Swap(Op8::C) },
        0x32 => PrefixedOpInfo { mnemonic: "SWAP D", cycles: 8, inst: OpcodePrefixed::Swap(Op8::D) },
        0x33 => PrefixedOpInfo { mnemonic: "SWAP E", cycles: 8, inst: OpcodePrefixed::Swap(Op8::E) },
        0x34 => PrefixedOpInfo { mnemonic: "SWAP H", cycles: 8, inst: OpcodePrefixed::Swap(Op8::H) },
        0x35 => PrefixedOpInfo { mnemonic: "SWAP L", cycles: 8, inst: OpcodePrefixed::Swap(Op8::L) },
        0x36 => PrefixedOpInfo { mnemonic: "SWAP (HL)", cycles: 16, inst: OpcodePrefixed::Swap(Op8::AddrHL) },
        0x37 => PrefixedOpInfo { mnemonic: "SWAP A", cycles: 8, inst: OpcodePrefixed::Swap(Op8::A) },
        0x38 => PrefixedOpInfo { mnemonic: "SRL B", cycles: 8, inst: OpcodePrefixed::Srl(Op8::B) },
        0x39 => PrefixedOpInfo { mnemonic: "SRL C", cycles: 8, inst: OpcodePrefixed::Srl(Op8::C) },
        0x3A => PrefixedOpInfo { mnemonic: "SRL D", cycles: 8, inst: OpcodePrefixed::Srl(Op8::D) },
        0x3B => PrefixedOpInfo { mnemonic: "SRL E", cycles: 8, inst: OpcodePrefixed::Srl(Op8::E) },
        0x3C => PrefixedOpInfo { mnemonic: "SRL H", cycles: 8, inst: OpcodePrefixed::Srl(Op8::H) },
        0x3D => PrefixedOpInfo { mnemonic: "SRL L", cycles: 8, inst: OpcodePrefixed::Srl(Op8::L) },
        0x3E => PrefixedOpInfo { mnemonic: "SRL (HL)", cycles: 16, inst: OpcodePrefixed::Srl(Op8::AddrHL) },
        0x3F => PrefixedOpInfo { mnemonic: "SRL A", cycles: 8, inst: OpcodePrefixed::Srl(Op8::A) },
        0x40 => PrefixedOpInfo { mnemonic: "BIT 0,B", cycles: 8, inst: OpcodePrefixed::Bit(0, Op8::B) },
        0x41 => PrefixedOpInfo { mnemonic: "BIT 0,C", cycles: 8, inst: OpcodePrefixed::Bit(0, Op8::C) },
        0x42 => PrefixedOpInfo { mnemonic: "BIT 0,D", cycles: 8, inst: OpcodePrefixed::Bit(0, Op8::D) },
        0x43 => PrefixedOpInfo { mnemonic: "BIT 0,E", cycles: 8, inst: OpcodePrefixed::Bit(0, Op8::E) },
        0x44 => PrefixedOpInfo { mnemonic: "BIT 0,H", cycles: 8, inst: OpcodePrefixed::Bit(0, Op8::H) },
        0x45 => PrefixedOpInfo { mnemonic: "BIT 0,L", cycles: 8, inst: OpcodePrefixed::Bit(0, Op8::L) },
        0x46 => PrefixedOpInfo { mnemonic: "BIT 0,(HL)", cycles: 12, inst: OpcodePrefixed::Bit(0, Op8::AddrHL) },
        0x47 => PrefixedOpInfo { mnemonic: "BIT 0,A", cycles: 8, inst: OpcodePrefixed::Bit(0, Op8::A) },
        0x48 => PrefixedOpInfo { mnemonic: "BIT 1,B", cycles: 8, inst: OpcodePrefixed::Bit(1, Op8::B) },
        0x49 => PrefixedOpInfo { mnemonic: "BIT 1,C", cycles: 8, inst: OpcodePrefixed::Bit(1, Op8::C) },
        0x4A => PrefixedOpInfo { mnemonic: "BIT 1,D", cycles: 8, inst: OpcodePrefixed::Bit(1, Op8::D) },
        0x4B => PrefixedOpInfo { mnemonic: "BIT 1,E", cycles: 8, inst: OpcodePrefixed::Bit(1, Op8::E) },
        0x4C => PrefixedOpInfo { mnemonic: "BIT 1,H", cycles: 8, inst: OpcodePrefixed::Bit(1, Op8::H) },
        0x4D => PrefixedOpInfo { mnemonic: "BIT 1,L", cycles: 8, inst: OpcodePrefixed::Bit(1, Op8::L) },
        0x4E => PrefixedOpInfo { mnemonic: "BIT 1,(HL)", cycles: 12, inst: OpcodePrefixed::Bit(1, Op8::AddrHL) },
        0x4F => PrefixedOpInfo { mnemonic: "BIT 1,A", cycles: 8, inst: OpcodePrefixed::Bit(1, Op8::A) },
        0x50 => PrefixedOpInfo { mnemonic: "BIT 2,B", cycles: 8, inst: OpcodePrefixed::Bit(2, Op8::B) },
        0x51 => PrefixedOpInfo { mnemonic: "BIT 2,C", cycles: 8, inst: OpcodePrefixed::Bit(2, Op8::C) },
        0x52 => PrefixedOpInfo { mnemonic: "BIT 2,D", cycles: 8, inst: OpcodePrefixed::Bit(2, Op8::D) },
        0x53 => PrefixedOpInfo { mnemonic: "BIT 2,E", cycles: 8, inst: OpcodePrefixed::Bit(2, Op8::E) },
        0x54 => PrefixedOpInfo { mnemonic: "BIT 2,H", cycles: 8, inst: OpcodePrefixed::Bit(2, Op8::H) },
        0x55 => PrefixedOpInfo { mnemonic: "BIT 2,L", cycles: 8, inst: OpcodePrefixed::Bit(2, Op8::L) },
        0x56 => PrefixedOpInfo { mnemonic: "BIT 2,(HL)", cycles: 12, inst: OpcodePrefixed::Bit(2, Op8::AddrHL) },
        0x57 => PrefixedOpInfo { mnemonic: "BIT 2,A", cycles: 8, inst: OpcodePrefixed::Bit(2, Op8::A) },
        0x58 => PrefixedOpInfo { mnemonic: "BIT 3,B", cycles: 8, inst: OpcodePrefixed::Bit(3, Op8::B) },
        0x59 => PrefixedOpInfo { mnemonic: "BIT 3,C", cycles: 8, inst: OpcodePrefixed::Bit(3, Op8::C) },
        0x5A => PrefixedOpInfo { mnemonic: "BIT 3,D", cycles: 8, inst: OpcodePrefixed::Bit(3, Op8::D) },
        0x5B => PrefixedOpInfo { mnemonic: "BIT 3,E", cycles: 8, inst: OpcodePrefixed::Bit(3, Op8::E) },
        0x5C => PrefixedOpInfo { mnemonic: "BIT 3,H", cycles: 8, inst: OpcodePrefixed::Bit(3, Op8::H) },
        0x5D => PrefixedOpInfo { mnemonic: "BIT 3,L", cycles: 8, inst: OpcodePrefixed::Bit(3, Op8::L) },
        0x5E => PrefixedOpInfo { mnemonic: "BIT 3,(HL)", cycles: 12, inst: OpcodePrefixed::Bit(3, Op8::AddrHL) },
        0x5F => PrefixedOpInfo { mnemonic: "BIT 3,A", cycles: 8, inst: OpcodePrefixed::Bit(3, Op8::A) },
        0x60 => PrefixedOpInfo { mnemonic: "BIT 4,B", cycles: 8, inst: OpcodePrefixed::Bit(4, Op8::B) },
        0x61 => PrefixedOpInfo { mnemonic: "BIT 4,C", cycles: 8, inst: OpcodePrefixed::Bit(4, Op8::C) },
        0x62 => PrefixedOpInfo { mnemonic: "BIT 4,D", cycles: 8, inst: OpcodePrefixed::Bit(4, Op8::D) },
        0x63 => PrefixedOpInfo { mnemonic: "BIT 4,E", cycles: 8, inst: OpcodePrefixed::Bit(4, Op8::E) },
        0x64 => PrefixedOpInfo { mnemonic: "BIT 4,H", cycles: 8, inst: OpcodePrefixed::Bit(4, Op8::H) },
        0x65 => PrefixedOpInfo { mnemonic: "BIT 4,L", cycles: 8, inst: OpcodePrefixed::Bit(4, Op8::L) },
        0x66 => PrefixedOpInfo { mnemonic: "BIT 4,(HL)", cycles: 12, inst: OpcodePrefixed::Bit(4, Op8::AddrHL) },
        0x67 => PrefixedOpInfo { mnemonic: "BIT 4,A", cycles: 8, inst: OpcodePrefixed::Bit(4, Op8::A) },
        0x68 => PrefixedOpInfo { mnemonic: "BIT 5,B", cycles: 8, inst: OpcodePrefixed::Bit(5, Op8::B) },
        0x69 => PrefixedOpInfo { mnemonic: "BIT 5,C", cycles: 8, inst: OpcodePrefixed::Bit(5, Op8::C) },
        0x6A => PrefixedOpInfo { mnemonic: "BIT 5,D", cycles: 8, inst: OpcodePrefixed::Bit(5, Op8::D) },
        0x6B => PrefixedOpInfo { mnemonic: "BIT 5,E", cycles: 8, inst: OpcodePrefixed::Bit(5, Op8::E) },
        0x6C => PrefixedOpInfo { mnemonic: "BIT 5,H", cycles: 8, inst: OpcodePrefixed::Bit(5, Op8::H) },
        0x6D => PrefixedOpInfo { mnemonic: "BIT 5,L", cycles: 8, inst: OpcodePrefixed::Bit(5, Op8::L) },
        0x6E => PrefixedOpInfo { mnemonic: "BIT 5,(HL)", cycles: 12, inst: OpcodePrefixed::Bit(5, Op8::AddrHL) },
        0x6F => PrefixedOpInfo { mnemonic: "BIT 5,A", cycles: 8, inst: OpcodePrefixed::Bit(5, Op8::A) },
        0x70 => PrefixedOpInfo { mnemonic: "BIT 6,B", cycles: 8, inst: OpcodePrefixed::Bit(6, Op8::B) },
        0x71 => PrefixedOpInfo { mnemonic: "BIT 6,C", cycles: 8, inst: OpcodePrefixed::Bit(6, Op8::C) },
        0x72 => PrefixedOpInfo { mnemonic: "BIT 6,D", cycles: 8, inst: OpcodePrefixed::Bit(6, Op8::D) },
        0x73 => PrefixedOpInfo { mnemonic: "BIT 6,E", cycles: 8, inst: OpcodePrefixed::Bit(6, Op8::E) },
        0x74 => PrefixedOpInfo { mnemonic: "BIT 6,H", cycles: 8, inst: OpcodePrefixed::Bit(6, Op8::H) },
        0x75 => PrefixedOpInfo { mnemonic: "BIT 6,L", cycles: 8, inst: OpcodePrefixed::Bit(6, Op8::L) },
        0x76 => PrefixedOpInfo { mnemonic: "BIT 6,(HL)", cycles: 12, inst: OpcodePrefixed::Bit(6, Op8::AddrHL) },
        0x77 => PrefixedOpInfo { mnemonic: "BIT 6,A", cycles: 8, inst: OpcodePrefixed::Bit(6, Op8::A) },
        0x78 => PrefixedOpInfo { mnemonic: "BIT 7,B", cycles: 8, inst: OpcodePrefixed::Bit(7, Op8::B) },
        0x79 => PrefixedOpInfo { mnemonic: "BIT 7,C", cycles: 8, inst: OpcodePrefixed::Bit(7, Op8::C) },
        0x7A => PrefixedOpInfo { mnemonic: "BIT 7,D", cycles: 8, inst: OpcodePrefixed::Bit(7, Op8::D) },
        0x7B => PrefixedOpInfo { mnemonic: "BIT 7,E", cycles: 8, inst: OpcodePrefixed::Bit(7, Op8::E) },
        0x7C => PrefixedOpInfo { mnemonic: "BIT 7,H", cycles: 8, inst: OpcodePrefixed::Bit(7, Op8::H) },
        0x7D => PrefixedOpInfo { mnemonic: "BIT 7,L", cycles: 8, inst: OpcodePrefixed::Bit(7, Op8::L) },
        0x7E => PrefixedOpInfo { mnemonic: "BIT 7,(HL)", cycles: 12, inst: OpcodePrefixed::Bit(7, Op8::AddrHL) },
        0x7F => PrefixedOpInfo { mnemonic: "BIT 7,A", cycles: 8, inst: OpcodePrefixed::Bit(7, Op8::A) },
        0x80 => PrefixedOpInfo { mnemonic: "RES 0,B", cycles: 8, inst: OpcodePrefixed::ResBit(0, Op8::B) },
        0x81 => PrefixedOpInfo { mnemonic: "RES 0,C", cycles: 8, inst: OpcodePrefixed::ResBit(0, Op8::C) },
        0x82 => PrefixedOpInfo { mnemonic: "RES 0,D", cycles: 8, inst: OpcodePrefixed::ResBit(0, Op8::D) },
        0x83 => PrefixedOpInfo { mnemonic: "RES 0,E", cycles: 8, inst: OpcodePrefixed::ResBit(0, Op8::E) },
        0x84 => PrefixedOpInfo { mnemonic: "RES 0,H", cycles: 8, inst: OpcodePrefixed::ResBit(0, Op8::H) },
        0x85 => PrefixedOpInfo { mnemonic: "RES 0,L", cycles: 8, inst: OpcodePrefixed::ResBit(0, Op8::L) },
        0x86 => PrefixedOpInfo { mnemonic: "RES 0,(HL)", cycles: 16, inst: OpcodePrefixed::ResBit(0, Op8::AddrHL) },
        0x87 => PrefixedOpInfo { mnemonic: "RES 0,A", cycles: 8, inst: OpcodePrefixed::ResBit(0, Op8::A) },
        0x88 => PrefixedOpInfo { mnemonic: "RES 1,B", cycles: 8, inst: OpcodePrefixed::ResBit(1, Op8::B) },
        0x89 => PrefixedOpInfo { mnemonic: "RES 1,C", cycles: 8, inst: OpcodePrefixed::ResBit(1, Op8::C) },
        0x8A => PrefixedOpInfo { mnemonic: "RES 1,D", cycles: 8, inst: OpcodePrefixed::ResBit(1, Op8::D) },
        0x8B => PrefixedOpInfo { mnemonic: "RES 1,E", cycles: 8, inst: OpcodePrefixed::ResBit(1, Op8::E) },
        0x8C => PrefixedOpInfo { mnemonic: "RES 1,H", cycles: 8, inst: OpcodePrefixed::ResBit(1, Op8::H) },
        0x8D => PrefixedOpInfo { mnemonic: "RES 1,L", cycles: 8, inst: OpcodePrefixed::ResBit(1, Op8::L) },
        0x8E => PrefixedOpInfo { mnemonic: "RES 1,(HL)", cycles: 16, inst: OpcodePrefixed::ResBit(1, Op8::AddrHL) },
        0x8F => PrefixedOpInfo { mnemonic: "RES 1,A", cycles: 8, inst: OpcodePrefixed::ResBit(1, Op8::A) },
        0x90 => PrefixedOpInfo { mnemonic: "RES 2,B", cycles: 8, inst: OpcodePrefixed::ResBit(2, Op8::B) },
        0x91 => PrefixedOpInfo { mnemonic: "RES 2,C", cycles: 8, inst: OpcodePrefixed::ResBit(2, Op8::C) },
        0x92 => PrefixedOpInfo { mnemonic: "RES 2,D", cycles: 8, inst: OpcodePrefixed::ResBit(2, Op8::D) },
        0x93 => PrefixedOpInfo { mnemonic: "RES 2,E", cycles: 8, inst: OpcodePrefixed::ResBit(2, Op8::E) },
        0x94 => PrefixedOpInfo { mnemonic: "RES 2,H", cycles: 8, inst: OpcodePrefixed::ResBit(2, Op8::H) },
        0x95 => PrefixedOpInfo { mnemonic: "RES 2,L", cycles: 8, inst: OpcodePrefixed::ResBit(2, Op8::L) },
        0x96 => PrefixedOpInfo { mnemonic: "RES 2,(HL)", cycles: 16, inst: OpcodePrefixed::ResBit(2, Op8::AddrHL) },
        0x97 => PrefixedOpInfo { mnemonic: "RES 2,A", cycles: 8, inst: OpcodePrefixed::ResBit(2, Op8::A) },
        0x98 => PrefixedOpInfo { mnemonic: "RES 3,B", cycles: 8, inst: OpcodePrefixed::ResBit(3, Op8::B) },
        0x99 => PrefixedOpInfo { mnemonic: "RES 3,C", cycles: 8, inst: OpcodePrefixed::ResBit(3, Op8::C) },
        0x9A => PrefixedOpInfo { mnemonic: "RES 3,D", cycles: 8, inst: OpcodePrefixed::ResBit(3, Op8::D) },
        0x9B => PrefixedOpInfo { mnemonic: "RES 3,E", cycles: 8, inst: OpcodePrefixed::ResBit(3, Op8::E) },
        0x9C => PrefixedOpInfo { mnemonic: "RES 3,H", cycles: 8, inst: OpcodePrefixed::ResBit(3, Op8::H) },
        0x9D => PrefixedOpInfo { mnemonic: "RES 3,L", cycles: 8, inst: OpcodePrefixed::ResBit(3, Op8::L) },
        0x9E => PrefixedOpInfo { mnemonic: "RES 3,(HL)", cycles: 16, inst: OpcodePrefixed::ResBit(3, Op8::AddrHL) },
        0x9F => PrefixedOpInfo { mnemonic: "RES 3,A", cycles: 8, inst: OpcodePrefixed::ResBit(3, Op8::A) },
        0xA0 => PrefixedOpInfo { mnemonic: "RES 4,B", cycles: 8, inst: OpcodePrefixed::ResBit(4, Op8::B) },
        0xA1 => PrefixedOpInfo { mnemonic: "RES 4,C", cycles: 8, inst: OpcodePrefixed::ResBit(4, Op8::C) },
        0xA2 => PrefixedOpInfo { mnemonic: "RES 4,D", cycles: 8, inst: OpcodePrefixed::ResBit(4, Op8::D) },
        0xA3 => PrefixedOpInfo { mnemonic: "RES 4,E", cycles: 8, inst: OpcodePrefixed::ResBit(4, Op8::E) },
        0xA4 => PrefixedOpInfo { mnemonic: "RES 4,H", cycles: 8, inst: OpcodePrefixed::ResBit(4, Op8::H) },
        0xA5 => PrefixedOpInfo { mnemonic: "RES 4,L", cycles: 8, inst: OpcodePrefixed::ResBit(4, Op8::L) },
        0xA6 => PrefixedOpInfo { mnemonic: "RES 4,(HL)", cycles: 16, inst: OpcodePrefixed::ResBit(4, Op8::AddrHL) },
        0xA7 => PrefixedOpInfo { mnemonic: "RES 4,A", cycles: 8, inst: OpcodePrefixed::ResBit(4, Op8::A) },
        0xA8 => PrefixedOpInfo { mnemonic: "RES 5,B", cycles: 8, inst: OpcodePrefixed::ResBit(5, Op8::B) },
        0xA9 => PrefixedOpInfo { mnemonic: "RES 5,C", cycles: 8, inst: OpcodePrefixed::ResBit(5, Op8::C) },
        0xAA => PrefixedOpInfo { mnemonic: "RES 5,D", cycles: 8, inst: OpcodePrefixed::ResBit(5, Op8::D) },
        0xAB => PrefixedOpInfo { mnemonic: "RES 5,E", cycles: 8, inst: OpcodePrefixed::ResBit(5, Op8::E) },
        0xAC => PrefixedOpInfo { mnemonic: "RES 5,H", cycles: 8, inst: OpcodePrefixed::ResBit(5, Op8::H) },
        0xAD => PrefixedOpInfo { mnemonic: "RES 5,L", cycles: 8, inst: OpcodePrefixed::ResBit(5, Op8::L) },
        0xAE => PrefixedOpInfo { mnemonic: "RES 5,(HL)", cycles: 16, inst: OpcodePrefixed::ResBit(5, Op8::AddrHL) },
        0xAF => PrefixedOpInfo { mnemonic: "RES 5,A", cycles: 8, inst: OpcodePrefixed::ResBit(5, Op8::A) },
        0xB0 => PrefixedOpInfo { mnemonic: "RES 6,B", cycles: 8, inst: OpcodePrefixed::ResBit(6, Op8::B) },
        0xB1 => PrefixedOpInfo { mnemonic: "RES 6,C", cycles: 8, inst: OpcodePrefixed::ResBit(6, Op8::C) },
        0xB2 => PrefixedOpInfo { mnemonic: "RES 6,D", cycles: 8, inst: OpcodePrefixed::ResBit(6, Op8::D) },
        0xB3 => PrefixedOpInfo { mnemonic: "RES 6,E", cycles: 8, inst: OpcodePrefixed::ResBit(6, Op8::E) },
        0xB4 => PrefixedOpInfo { mnemonic: "RES 6,H", cycles: 8, inst: OpcodePrefixed::ResBit(6, Op8::H) },
        0xB5 => PrefixedOpInfo { mnemonic: "RES 6,L", cycles: 8, inst: OpcodePrefixed::ResBit(6, Op8::L) },
        0xB6 => PrefixedOpInfo { mnemonic: "RES 6,(HL)", cycles: 16, inst: OpcodePrefixed::ResBit(6, Op8::AddrHL) },
        0xB7 => PrefixedOpInfo { mnemonic: "RES 6,A", cycles: 8, inst: OpcodePrefixed::ResBit(6, Op8::A) },
        0xB8 => PrefixedOpInfo { mnemonic: "RES 7,B", cycles: 8, inst: OpcodePrefixed::ResBit(7, Op8::B) },
        0xB9 => PrefixedOpInfo { mnemonic: "RES 7,C", cycles: 8, inst: OpcodePrefixed::ResBit(7, Op8::C) },
        0xBA => PrefixedOpInfo { mnemonic: "RES 7,D", cycles: 8, inst: OpcodePrefixed::ResBit(7, Op8::D) },
        0xBB => PrefixedOpInfo { mnemonic: "RES 7,E", cycles: 8, inst: OpcodePrefixed::ResBit(7, Op8::E) },
        0xBC => PrefixedOpInfo { mnemonic: "RES 7,H", cycles: 8, inst: OpcodePrefixed::ResBit(7, Op8::H) },
        0xBD => PrefixedOpInfo { mnemonic: "RES 7,L", cycles: 8, inst: OpcodePrefixed::ResBit(7, Op8::L) },
        0xBE => PrefixedOpInfo { mnemonic: "RES 7,(HL)", cycles: 16, inst: OpcodePrefixed::ResBit(7, Op8::AddrHL) },
        0xBF => PrefixedOpInfo { mnemonic: "RES 7,A", cycles: 8, inst: OpcodePrefixed::ResBit(7, Op8::A) },
        0xC0 => PrefixedOpInfo { mnemonic: "SET 0,B", cycles: 8, inst: OpcodePrefixed::SetBit(0, Op8::B) },
        0xC1 => PrefixedOpInfo { mnemonic: "SET 0,C", cycles: 8, inst: OpcodePrefixed::SetBit(0, Op8::C) },
        0xC2 => PrefixedOpInfo { mnemonic: "SET 0,D", cycles: 8, inst: OpcodePrefixed::SetBit(0, Op8::D) },
        0xC3 => PrefixedOpInfo { mnemonic: "SET 0,E", cycles: 8, inst: OpcodePrefixed::SetBit(0, Op8::E) },
        0xC4 => PrefixedOpInfo { mnemonic: "SET 0,H", cycles: 8, inst: OpcodePrefixed::SetBit(0, Op8::H) },
        0xC5 => PrefixedOpInfo { mnemonic: "SET 0,L", cycles: 8, inst: OpcodePrefixed::SetBit(0, Op8::L) },
        0xC6 => PrefixedOpInfo { mnemonic: "SET 0,(HL)", cycles: 16, inst: OpcodePrefixed::SetBit(0, Op8::AddrHL) },
        0xC7 => PrefixedOpInfo { mnemonic: "SET 0,A", cycles: 8, inst: OpcodePrefixed::SetBit(0, Op8::A) },
        0xC8 => PrefixedOpInfo { mnemonic: "SET 1,B", cycles: 8, inst: OpcodePrefixed::SetBit(1, Op8::B) },
        0xC9 => PrefixedOpInfo { mnemonic: "SET 1,C", cycles: 8, inst: OpcodePrefixed::SetBit(1, Op8::C) },
        0xCA => PrefixedOpInfo { mnemonic: "SET 1,D", cycles: 8, inst: OpcodePrefixed::SetBit(1, Op8::D) },
        0xCB => PrefixedOpInfo { mnemonic: "SET 1,E", cycles: 8, inst: OpcodePrefixed::SetBit(1, Op8::E) },
        0xCC => PrefixedOpInfo { mnemonic: "SET 1,H", cycles: 8, inst: OpcodePrefixed::SetBit(1, Op8::H) },
        0xCD => PrefixedOpInfo { mnemonic: "SET 1,L", cycles: 8, inst: OpcodePrefixed::SetBit(1, Op8::L) },
        0xCE => PrefixedOpInfo { mnemonic: "SET 1,(HL)", cycles: 16, inst: OpcodePrefixed::SetBit(1, Op8::AddrHL) },
        0xCF => PrefixedOpInfo { mnemonic: "SET 1,A", cycles: 8, inst: OpcodePrefixed::SetBit(1, Op8::A) },
        0xD0 => PrefixedOpInfo { mnemonic: "SET 2,B", cycles: 8, inst: OpcodePrefixed::SetBit(2, Op8::B) },
        0xD1 => PrefixedOpInfo { mnemonic: "SET 2,C", cycles: 8, inst: OpcodePrefixed::SetBit(2, Op8::C) },
        0xD2 => PrefixedOpInfo { mnemonic: "SET 2,D", cycles: 8, inst: OpcodePrefixed::SetBit(2, Op8::D) },
        0xD3 => PrefixedOpInfo { mnemonic: "SET 2,E", cycles: 8, inst: OpcodePrefixed::SetBit(2, Op8::E) },
        0xD4 => PrefixedOpInfo { mnemonic: "SET 2,H", cycles: 8, inst: OpcodePrefixed::SetBit(2, Op8::H) },
        0xD5 => PrefixedOpInfo { mnemonic: "SET 2,L", cycles: 8, inst: OpcodePrefixed::SetBit(2, Op8::L) },
        0xD6 => PrefixedOpInfo { mnemonic: "SET 2,(HL)", cycles: 16, inst: OpcodePrefixed::SetBit(2, Op8::AddrHL) },
        0xD7 => PrefixedOpInfo { mnemonic: "SET 2,A", cycles: 8, inst: OpcodePrefixed::SetBit(2, Op8::A) },
        0xD8 => PrefixedOpInfo { mnemonic: "SET 3,B", cycles: 8, inst: OpcodePrefixed::SetBit(3, Op8::B) },
        0xD9 => PrefixedOpInfo { mnemonic: "SET 3,C", cycles: 8, inst: OpcodePrefixed::SetBit(3, Op8::C) },
        0xDA => PrefixedOpInfo { mnemonic: "SET 3,D", cycles: 8, inst: OpcodePrefixed::SetBit(3, Op8::D) },
        0xDB => PrefixedOpInfo { mnemonic: "SET 3,E", cycles: 8, inst: OpcodePrefixed::SetBit(3, Op8::E) },
        0xDC => PrefixedOpInfo { mnemonic: "SET 3,H", cycles: 8, inst: OpcodePrefixed::SetBit(3, Op8::H) },
        0xDD => PrefixedOpInfo { mnemonic: "SET 3,L", cycles: 8, inst: OpcodePrefixed::SetBit(3, Op8::L) },
        0xDE => PrefixedOpInfo { mnemonic: "SET 3,(HL)", cycles: 16, inst: OpcodePrefixed::SetBit(3, Op8::AddrHL) },
        0xDF => PrefixedOpInfo { mnemonic: "SET 3,A", cycles: 8, inst: OpcodePrefixed::SetBit(3, Op8::A) },
        0xE0 => PrefixedOpInfo { mnemonic: "SET 4,B", cycles: 8, inst: OpcodePrefixed::SetBit(4, Op8::B) },
        0xE1 => PrefixedOpInfo { mnemonic: "SET 4,C", cycles: 8, inst: OpcodePrefixed::SetBit(4, Op8::C) },
        0xE2 => PrefixedOpInfo { mnemonic: "SET 4,D", cycles: 8, inst: OpcodePrefixed::SetBit(4, Op8::D) },
        0xE3 => PrefixedOpInfo { mnemonic: "SET 4,E", cycles: 8, inst: OpcodePrefixed::SetBit(4, Op8::E) },
        0xE4 => PrefixedOpInfo { mnemonic: "SET 4,H", cycles: 8, inst: OpcodePrefixed::SetBit(4, Op8::H) },
        0xE5 => PrefixedOpInfo { mnemonic: "SET 4,L", cycles: 8, inst: OpcodePrefixed::SetBit(4, Op8::L) },
        0xE6 => PrefixedOpInfo { mnemonic: "SET 4,(HL)", cycles: 16, inst: OpcodePrefixed::SetBit(4, Op8::AddrHL) },
        0xE7 => PrefixedOpInfo { mnemonic: "SET 4,A", cycles: 8, inst: OpcodePrefixed::SetBit(4, Op8::A) },
        0xE8 => PrefixedOpInfo { mnemonic: "SET 5,B", cycles: 8, inst: OpcodePrefixed::SetBit(5, Op8::B) },
        0xE9 => PrefixedOpInfo { mnemonic: "SET 5,C", cycles: 8, inst: OpcodePrefixed::SetBit(5, Op8::C) },
        0xEA => PrefixedOpInfo { mnemonic: "SET 5,D", cycles: 8, inst: OpcodePrefixed::SetBit(5, Op8::D) },
        0xEB => PrefixedOpInfo { mnemonic: "SET 5,E", cycles: 8, inst: OpcodePrefixed::SetBit(5, Op8::E) },
        0xEC => PrefixedOpInfo { mnemonic: "SET 5,H", cycles: 8, inst: OpcodePrefixed::SetBit(5, Op8::H) },
        0xED => PrefixedOpInfo { mnemonic: "SET 5,L", cycles: 8, inst: OpcodePrefixed::SetBit(5, Op8::L) },
        0xEE => PrefixedOpInfo { mnemonic: "SET 5,(HL)", cycles: 16, inst: OpcodePrefixed::SetBit(5, Op8::AddrHL) },
        0xEF => PrefixedOpInfo { mnemonic: "SET 5,A", cycles: 8, inst: OpcodePrefixed::SetBit(5, Op8::A) },
        0xF0 => PrefixedOpInfo { mnemonic: "SET 6,B", cycles: 8, inst: OpcodePrefixed::SetBit(6, Op8::B) },
        0xF1 => PrefixedOpInfo { mnemonic: "SET 6,C", cycles: 8, inst: OpcodePrefixed::SetBit(6, Op8::C) },
        0xF2 => PrefixedOpInfo { mnemonic: "SET 6,D", cycles: 8, inst: OpcodePrefixed::SetBit(6, Op8::D) },
        0xF3 => PrefixedOpInfo { mnemonic: "SET 6,E", cycles: 8, inst: OpcodePrefixed::SetBit(6, Op8::E) },
        0xF4 => PrefixedOpInfo { mnemonic: "SET 6,H", cycles: 8, inst: OpcodePrefixed::SetBit(6, Op8::H) },
        0xF5 => PrefixedOpInfo { mnemonic: "SET 6,L", cycles: 8, inst: OpcodePrefixed::SetBit(6, Op8::L) },
        0xF6 => PrefixedOpInfo { mnemonic: "SET 6,(HL)", cycles: 16, inst: OpcodePrefixed::SetBit(6, Op8::AddrHL) },
        0xF7 => PrefixedOpInfo { mnemonic: "SET 6,A", cycles: 8, inst: OpcodePrefixed::SetBit(6, Op8::A) },
        0xF8 => PrefixedOpInfo { mnemonic: "SET 7,B", cycles: 8, inst: OpcodePrefixed::SetBit(7, Op8::B) },
        0xF9 => PrefixedOpInfo { mnemonic: "SET 7,C", cycles: 8, inst: OpcodePrefixed::SetBit(7, Op8::C) },
        0xFA => PrefixedOpInfo { mnemonic: "SET 7,D", cycles: 8, inst: OpcodePrefixed::SetBit(7, Op8::D) },
        0xFB => PrefixedOpInfo { mnemonic: "SET 7,E", cycles: 8, inst: OpcodePrefixed::SetBit(7, Op8::E) },
        0xFC => PrefixedOpInfo { mnemonic: "SET 7,H", cycles: 8, inst: OpcodePrefixed::SetBit(7, Op8::H) },
        0xFD => PrefixedOpInfo { mnemonic: "SET 7,L", cycles: 8, inst: OpcodePrefixed::SetBit(7, Op8::L) },
        0xFE => PrefixedOpInfo { mnemonic: "SET 7,(HL)", cycles: 16, inst: OpcodePrefixed::SetBit(7, Op8::AddrHL) },
        _ => PrefixedOpInfo { mnemonic: "SET 7,A", cycles: 8, inst: OpcodePrefixed::SetBit(7, Op8::A) },
    }
}

} // verus!
