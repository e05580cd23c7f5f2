//! Instruction-processing core of an 8-bit handheld game console CPU.
//!
//! The crate models the processor's register file and flag packing, parses
//! and validates cartridge ROM headers, decodes the 512-entry instruction
//! set (256 base opcodes plus a 256-entry prefix-escape extension), and
//! executes single instructions against a banked cartridge ROM and an
//! injected address-space collaborator for the externally owned memory
//! regions.

pub mod alu;
pub mod cartridge;
pub mod cpu;
pub mod opcode;
pub mod util;
