//! An emulator core for the Sharp LR35902 (the 8-bit CPU of a handheld
//! console): the register file, the memory bus with its memory map, the
//! instruction decoder and the execution engine, each with a verified
//! contract.
pub mod cpu;
pub mod instructions;
pub mod mmu;
pub mod register;
pub mod rom;
pub mod shared;
