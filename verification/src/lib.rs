//! Instruction-set core for the WDC 65816 processor: register and flag state
//! with the native/emulation mode duality, the effective-address resolver for
//! its addressing modes, the opcode descriptor table, and the single-step
//! execution engine, over a flat 24-bit memory space.

pub mod cpu;
pub mod laws;
pub mod opcodes;
