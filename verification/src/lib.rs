//! A static disassembler for the 6502 processor family.
//!
//! The crate decodes a raw byte buffer into a human-readable assembly
//! listing: for each instruction it reports its display address, its raw
//! bytes, its mnemonic and operand, and, for relative branches, the
//! computed absolute target address.

pub mod hex;
pub mod instr;
pub mod engine;
pub mod numparse;
pub mod metadata;
pub mod disassembler;
