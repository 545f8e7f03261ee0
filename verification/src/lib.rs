//! A verified instruction-execution core for a Game-Boy-class 8-bit CPU.

pub mod alu;
pub mod bus;
pub mod cartridge;
pub mod cpu;
pub mod fault;
pub mod laws;
pub mod ops;
pub mod regs;
