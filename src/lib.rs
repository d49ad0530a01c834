//! A verified core for a handheld console emulator: the memory bus with its
//! routing and side effects, opcode decoding, and the instruction table.

pub mod cartridge;
pub mod gpu;
pub mod mmu;
pub mod instructions;
pub mod cpu;
