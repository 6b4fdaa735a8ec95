//! An NTSC console: the processor on a 64 KiB bus, pacing the video chip's clock.
use vstd::prelude::*;

use crate::cpu::{with_regs, word, CpuError, CpuState, Regs, MCS6502};
use crate::engine::tick_spec;
use crate::memory::{extends, sat, BusAccess, Memory};
use crate::tv::TIA_CLOCKS_PER_CPU_CYCLE;

verus! {

/// Everything the console holds.
pub struct AtariState {
    pub cpu: CpuState,
    pub mem: Seq<u8>,
    /// Bus cycles seen so far.
    pub bus_cycles: u64,
    /// Every bus cycle seen so far, in order.
    pub log: Seq<BusAccess>,
    /// Video-chip clock ticks owed so far: three per processor cycle.
    pub tia_clocks: u64,
}

/// The processor, its bus, and the count of video-chip clock ticks it has paced.
pub struct NtscAtari {
    cpu: MCS6502,
    mem: Memory,
    tia_clocks: u64,
}

impl View for NtscAtari {
    type V = AtariState;

    closed spec fn view(&self) -> AtariState {
        AtariState { cpu: self.cpu@, mem: self.mem@, bus_cycles: self.mem.bus_cycles(), log: self.mem.log(), tia_clocks: self.tia_clocks }
    }
}

/// Video-chip ticks paced by an instruction of `cycles` cycles; a stalled processor
/// still lets one cycle pass.
pub open spec fn tia_ticks(cycles: u8) -> u64 {
    (3 * (if cycles == 0 { 1 } else { cycles as int })) as u64
}

impl NtscAtari {
    /// A console with zeroed memory and the processor at the reset vector.
    pub fn new() -> (r: Self)
        ensures
            r@.mem.len() == 0x10000,
            forall|i: int| 0 <= i < 0x10000 ==> r@.mem[i] == 0,
            r@.cpu.regs == (Regs { a: 0xde, x: 0xbe, y: 0xad, s: 0xef, p: 0x0C, pc: 0 }),
            r@.cpu.cycles == 0,
            r@.cpu.instructions == 0,
            r@.cpu.rdy,
            r@.bus_cycles == 2,
            r@.log.len() == 2,
            r@.tia_clocks == 0,
    {
        let mut mem = Memory::new();
        let mut cpu = MCS6502::new(0, 0);
        cpu.reset_pc(&mut mem);
        assert(!0xF3u8 == 0x0C) by (bit_vector);
        NtscAtari { cpu, mem, tia_clocks: 0 }
    }

    /// Copies `data` into memory from `addr` on and restarts the processor at the reset
    /// vector.
    pub fn load_rom(&mut self, addr: u16, data: &[u8])
        requires
            data@.len() <= 0x10000,
        ensures
            final(self)@.mem.len() == 0x10000,
            forall|i: int|
                0 <= i < data@.len() ==> #[trigger] final(self)@.mem[(addr + i) % 0x10000] == data@[i],
            forall|j: int|
                0 <= j < 0x10000 && !(0 <= (j - addr) % 0x10000 < data@.len())
                    ==> #[trigger] final(self)@.mem[j] == old(self)@.mem[j],
            final(self)@.cpu == with_regs(
                old(self)@.cpu,
                Regs { pc: word(final(self)@.mem[0xFFFC], final(self)@.mem[0xFFFD]), ..old(self)@.cpu.regs },
            ),
            final(self)@.bus_cycles == sat(old(self)@.bus_cycles, 2),
            extends(old(self)@.log, final(self)@.log, 2),
            final(self)@.tia_clocks == old(self)@.tia_clocks,
    {
        self.mem.load(data, addr);
        self.cpu.reset_pc(&mut self.mem);
    }

    /// Runs one instruction and paces the video chip by three ticks per cycle it took
    /// (one cycle while the processor is stalled); on failure nothing changes.
    pub fn tick(&mut self) -> (r: Result<u8, CpuError>)
        ensures
            tick_spec(
                old(self)@.cpu,
                final(self)@.cpu,
                old(self)@.mem,
                final(self)@.mem,
                old(self)@.bus_cycles,
                final(self)@.bus_cycles,
                old(self)@.log,
                final(self)@.log,
                r,
            ),
            r matches Ok(c) ==> final(self)@.tia_clocks == old(self)@.tia_clocks.saturating_add(tia_ticks(c)),
            r is Err ==> final(self)@.tia_clocks == old(self)@.tia_clocks,
    {
        let r = self.cpu.tick(&mut self.mem);
        match r {
            Ok(cycles) => {
                let paced: u8 = if cycles == 0 { 1 } else { cycles };
                assert(cycles <= 7) by {
                    reveal(crate::engine::step_spec);
                    reveal(crate::engine::exec_spec);
                }
                self.tia_clocks = self.tia_clocks.saturating_add(TIA_CLOCKS_PER_CPU_CYCLE * paced as u64);
            },
            Err(_) => {},
        }
        r
    }

    /// Drives the processor's ready line.
    pub fn set_rdy(&mut self, rdy: bool)
        ensures
            final(self)@ == (AtariState { cpu: CpuState { rdy, ..old(self)@.cpu }, ..old(self)@ }),
    {
        self.cpu.set_rdy(rdy);
    }

    /// A snapshot of the processor; changing it does not touch the console.
    pub fn cpu_state(&self) -> (r: MCS6502)
        ensures
            r@ == self@.cpu,
    {
        self.cpu
    }

    /// The byte at `addr`.
    pub fn peek(&self, addr: u16) -> (r: u8)
        ensures
            r == self@.mem[addr as int],
    {
        self.mem.get(addr)
    }

    /// Video-chip ticks paced so far.
    pub fn tia_clocks(&self) -> (r: u64)
        ensures
            r == self@.tia_clocks,
    {
        self.tia_clocks
    }
}

} // verus!
