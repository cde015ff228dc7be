//! A verified core for an 8-bit handheld console CPU (LR35902 class): the
//! register file, memory and stack, the instruction set and its decoder.

pub mod alu;
pub mod bytes;
pub mod control;
pub mod decode;
pub mod gameboy;
pub mod instruction;
pub mod laws;
pub mod load;
pub mod mnemonic;
pub mod register;
