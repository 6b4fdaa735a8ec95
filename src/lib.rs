//! Cycle-counting NMOS 6502 instruction engine with a flat 64 KiB bus.

pub mod addressing;
pub mod alu;
pub mod atari;
pub mod cpu;
pub mod engine;
pub mod isa;
pub mod laws;
pub mod memory;
pub mod psr;
pub mod tv;
