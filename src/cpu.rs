//! The register file of the processor and its accessors.
use vstd::prelude::*;

use crate::psr::{self, has, tst_bit, with_flag};

verus! {

/// The programmer-visible registers.
#[derive(Clone, Copy, Debug, PartialEq, Eq, Structural)]
pub struct Regs {
    /// Accumulator.
    pub a: u8,
    /// Index register X.
    pub x: u8,
    /// Index register Y.
    pub y: u8,
    /// Stack pointer: an offset into page one.
    pub s: u8,
    /// Processor status flags.
    pub p: u8,
    /// Program counter.
    pub pc: u16,
}

/// Everything the processor holds: registers, counters and the ready line.
pub struct CpuState {
    pub regs: Regs,
    pub cycles: u64,
    pub instructions: u64,
    pub rdy: bool,
}

/// Why execution cannot go on.
#[derive(Clone, Copy, Debug, PartialEq, Eq, Structural)]
pub enum CpuError {
    /// The opcode has no documented behaviour; carries the registers at the fetch.
    IllegalOpcode { opcode: u8, regs: Regs },
    /// ADC or SBC met with the decimal flag set, which this engine does not emulate.
    DecimalModeUnsupported { opcode: u8, regs: Regs },
}

/// An NMOS 6502 core: registers, cycle and instruction counters, and the ready line.
#[derive(Clone, Copy, Debug)]
pub struct MCS6502 {
    regs: Regs,
    cycles: u64,
    instructions: u64,
    rdy: bool,
}

impl View for MCS6502 {
    type V = CpuState;

    closed spec fn view(&self) -> CpuState {
        CpuState {
            regs: self.regs,
            cycles: self.cycles,
            instructions: self.instructions,
            rdy: self.rdy,
        }
    }
}

/// Splits a 16-bit value into its low and high bytes.
pub open spec fn lo_hi(v: u16) -> (u8, u8) {
    ((v % 256) as u8, (v / 256) as u8)
}

/// The 16-bit value made of a low and a high byte.
pub open spec fn word(lo: u8, hi: u8) -> u16 {
    (lo + 256 * hi) as u16
}

/// `v + k` modulo 2^16.
pub open spec fn add16(v: u16, k: int) -> u16 {
    ((v + k) % 0x10000) as u16
}

/// The same state with other registers.
pub open spec fn with_regs(st: CpuState, r: Regs) -> CpuState {
    CpuState { regs: r, ..st }
}

/// The same registers with another flag byte.
pub open spec fn with_p(r: Regs, p: u8) -> Regs {
    Regs { p, ..r }
}

impl MCS6502 {
    /// A processor at power-up, about to fetch from `pc_hi:pc_lo`.
    pub fn new(pc_lo: u8, pc_hi: u8) -> (r: Self)
        ensures
            r@.regs == (Regs { a: 0xde, x: 0xbe, y: 0xad, s: 0xef, p: !psr::ALL, pc: word(pc_lo, pc_hi) }),
            r@.cycles == 0,
            r@.instructions == 0,
            r@.rdy,
    {
        MCS6502 {
            regs: Regs { a: 0xde, x: 0xbe, y: 0xad, s: 0xef, p: !psr::ALL, pc: pc_lo as u16 + 256 * pc_hi as u16 },
            cycles: 0,
            instructions: 0,
            rdy: true,
        }
    }

    /// A copy of the registers.
    pub fn regs(&self) -> (r: Regs)
        ensures
            r == self@.regs,
    {
        self.regs
    }

    /// Replaces the registers; counters and the ready line are kept.
    pub fn set_regs(&mut self, r: Regs)
        ensures
            final(self)@ == with_regs(old(self)@, r),
    {
        self.regs = r;
    }

    /// Tests a flag (or set of flags) of the status register.
    pub fn tst_psr_bit(&self, bit: u8) -> (r: bool)
        ensures
            r == has(self@.regs.p, bit),
    {
        tst_bit(self.regs.p, bit)
    }

    /// Sets a flag (or set of flags) of the status register.
    pub fn set_psr_bit(&mut self, bit: u8)
        ensures
            final(self)@ == with_regs(old(self)@, with_p(old(self)@.regs, with_flag(old(self)@.regs.p, bit, true))),
    {
        psr::set_bit(&mut self.regs.p, bit);
    }

    /// Clears a flag (or set of flags) of the status register.
    pub fn clr_psr_bit(&mut self, bit: u8)
        ensures
            final(self)@ == with_regs(old(self)@, with_p(old(self)@.regs, with_flag(old(self)@.regs.p, bit, false))),
    {
        psr::clr_bit(&mut self.regs.p, bit);
    }

    /// Sets or clears a flag (or set of flags) of the status register.
    pub fn put_psr_bit(&mut self, bit: u8, on: bool)
        ensures
            final(self)@ == with_regs(old(self)@, with_p(old(self)@.regs, with_flag(old(self)@.regs.p, bit, on))),
    {
        self.regs.p = psr::put_flag(self.regs.p, bit, on);
    }

    /// The accumulator.
    pub fn a(&self) -> (r: u8)
        ensures
            r == self@.regs.a,
    {
        self.regs.a
    }

    /// Replaces the accumulator; no flag changes.
    pub fn set_a(&mut self, a: u8)
        ensures
            final(self)@ == with_regs(old(self)@, Regs { a, ..old(self)@.regs }),
    {
        self.regs.a = a;
    }

    /// Index register X.
    pub fn x(&self) -> (r: u8)
        ensures
            r == self@.regs.x,
    {
        self.regs.x
    }

    /// Replaces X; no flag changes.
    pub fn set_x(&mut self, x: u8)
        ensures
            final(self)@ == with_regs(old(self)@, Regs { x, ..old(self)@.regs }),
    {
        self.regs.x = x;
    }

    /// Index register Y.
    pub fn y(&self) -> (r: u8)
        ensures
            r == self@.regs.y,
    {
        self.regs.y
    }

    /// Replaces Y; no flag changes.
    pub fn set_y(&mut self, y: u8)
        ensures
            final(self)@ == with_regs(old(self)@, Regs { y, ..old(self)@.regs }),
    {
        self.regs.y = y;
    }

    /// The stack pointer.
    pub fn s(&self) -> (r: u8)
        ensures
            r == self@.regs.s,
    {
        self.regs.s
    }

    /// Replaces the stack pointer.
    pub fn set_s(&mut self, s: u8)
        ensures
            final(self)@ == with_regs(old(self)@, Regs { s, ..old(self)@.regs }),
    {
        self.regs.s = s;
    }

    /// The status register as a byte.
    pub fn p(&self) -> (r: u8)
        ensures
            r == self@.regs.p,
    {
        self.regs.p
    }

    /// Replaces the whole status register.
    pub fn set_p(&mut self, p: u8)
        ensures
            final(self)@ == with_regs(old(self)@, with_p(old(self)@.regs, p)),
    {
        self.regs.p = p;
    }

    /// The program counter as (low byte, high byte).
    pub fn pc(&self) -> (r: (u8, u8))
        ensures
            r == lo_hi(self@.regs.pc),
    {
        ((self.regs.pc % 256) as u8, (self.regs.pc / 256) as u8)
    }

    /// Points the program counter at `pc_hi:pc_lo`.
    pub fn set_pc(&mut self, pc_lo: u8, pc_hi: u8)
        ensures
            final(self)@ == with_regs(old(self)@, Regs { pc: word(pc_lo, pc_hi), ..old(self)@.regs }),
    {
        self.regs.pc = pc_lo as u16 + 256 * pc_hi as u16;
    }

    /// Advances the program counter by `incr`, wrapping at the top of the address space.
    pub fn pc_incr(&mut self, incr: u8)
        ensures
            final(self)@ == with_regs(old(self)@, Regs { pc: add16(old(self)@.regs.pc, incr as int), ..old(self)@.regs }),
    {
        self.regs.pc = self.regs.pc.wrapping_add(incr as u16);
    }

    /// Clock cycles consumed so far.
    pub fn cycles(&self) -> (r: u64)
        ensures
            r == self@.cycles,
    {
        self.cycles
    }

    /// Instructions retired so far.
    pub fn instructions(&self) -> (r: u64)
        ensures
            r == self@.instructions,
    {
        self.instructions
    }

    /// The level of the ready line; while low the processor does not fetch.
    pub fn rdy(&self) -> (r: bool)
        ensures
            r == self@.rdy,
    {
        self.rdy
    }

    /// Drives the ready line.
    pub fn set_rdy(&mut self, rdy: bool)
        ensures
            final(self)@ == (CpuState { rdy, ..old(self)@ }),
    {
        self.rdy = rdy;
    }

    /// Adds a retired instruction and its cycles to the counters, saturating at the top.
    pub(crate) fn retire(&mut self, cycles: u8)
        ensures
            final(self)@ == (CpuState {
                cycles: old(self)@.cycles.saturating_add(cycles as u64),
                instructions: old(self)@.instructions.saturating_add(1),
                ..old(self)@
            }),
    {
        self.cycles = self.cycles.saturating_add(cycles as u64);
        self.instructions = self.instructions.saturating_add(1);
    }
}

} // verus!
