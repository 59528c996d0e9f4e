use vstd::prelude::*;

use crate::cpu::{cpu_step_rel, Cpu};
use crate::errors::{EmuError, RomError};
use crate::memory::MemoryMap;
use crate::ppu::{spec_counters_after, spec_vblank_after, spec_vblank_hit};

verus! {

/// The console: the CPU and the bus (which owns the PPU, the input
/// bus and the cartridge slot). The single owner of every component;
/// cross-component calls thread explicit borrows, never aliases.
pub struct Nes {
    pub cpu: Cpu,
    pub mem: MemoryMap,
}

impl Nes {
    /// Whether the console is ready to run: components well-formed
    /// and a cartridge seated.
    pub open spec fn wf(&self) -> bool {
        self.mem.wf() && self.mem.loaded()
    }

    /// A console with no cartridge: load one before running.
    pub fn new() -> (r: Self)
        ensures
            r.mem.wf(),
            !r.mem.loaded(),
    {
        Nes { cpu: Cpu::new(), mem: MemoryMap::new() }
    }

    /// Parses an iNES image, seats the cartridge, and points the CPU
    /// at the reset vector. Fails, before any execution, exactly on
    /// a malformed image.
    pub fn load_rom(&mut self, bytes: &[u8]) -> (r: Result<(), RomError>)
        requires
            old(self).mem.wf(),
        ensures
            final(self).mem.wf(),
            r is Ok <==> crate::cartridge::rom_parses(bytes@),
            r is Ok ==> final(self).wf() && crate::cartridge::parsed_cart_ok(
                bytes@,
                final(self).mem.cart(),
            ) && final(self).cpu.registers == (crate::instructions::CpuRegisters {
                pc: crate::memory_utils::word_from_bytes(
                    crate::memory::bus_read_val(&final(self).mem, 0xFFFC),
                    crate::memory::bus_read_val(&final(self).mem, 0xFFFD),
                ),
                ..old(self).cpu.registers
            }) && final(self).mem.ram@ == old(self).mem.ram@ && final(self).mem.ppu == old(self).mem.ppu && final(self).mem.inputs == old(self).mem.inputs,
            r is Err ==> *final(self) == *old(self),
    {
        match self.mem.load_rom(bytes) {
            Ok(()) => {
                self.cpu.initialize(&mut self.mem);
                Ok(())
            },
            Err(e) => Err(e),
        }
    }

    /// One step of the fixed interleaving: one CPU instruction, then
    /// the PPU advances three dots per CPU cycle. Returns the CPU's
    /// (cycles, halt-heuristic) pair. On success the machine relates
    /// to the old state by the one-instruction relation followed by
    /// the three-dots-per-cycle PPU advance from the intermediate
    /// state.
    pub fn step(&mut self) -> (r: Result<(u64, bool), EmuError>)
        requires
            old(self).wf(),
        ensures
            final(self).wf(),
            r matches Ok(n) ==> 2 <= n.0 <= 1001 || n.0 == 7,
            r matches Err(e) ==> (e is UnknownOpcode || e is ChrWrite) && cpu_step_rel(
                old(self).cpu,
                old(self).mem,
                final(self).cpu,
                final(self).mem,
                Err(e),
            ),
            r matches Ok(n) ==> (exists|midcpu: Cpu, midm: MemoryMap|
                cpu_step_rel(old(self).cpu, old(self).mem, midcpu, midm, Ok::<
                    (u64, bool),
                    EmuError,
                >((n.0, n.1))) && final(self).cpu == midcpu && ({
                    let t0 = (
                        midm.ppu.state.frame,
                        midm.ppu.state.scanline as int,
                        midm.ppu.state.cycle as int,
                    );
                    let dots = (3 * n.0) as nat;
                    let tn = spec_counters_after(t0, dots);
                    final(self).mem.ppu.state.frame == tn.0 && final(self).mem.ppu.state.scanline
                        == tn.1 && final(self).mem.ppu.state.cycle == tn.2 && final(self).mem.ppu.reg.ppustatus.vblank == spec_vblank_after(
                        t0,
                        midm.ppu.reg.ppustatus.vblank,
                        dots,
                    )
                }) && final(self).mem.ppu.reg.ppuctrl == midm.ppu.reg.ppuctrl && final(self).mem.ppu.reg.ppumask == midm.ppu.reg.ppumask && final(self).mem.ppu.read_buf
                    == midm.ppu.read_buf && final(self).mem.ppu.oam@ == midm.ppu.oam@ && final(self).mem.ppu.nametable1@ == midm.ppu.nametable1@ && final(self).mem.ppu.nametable2@
                    == midm.ppu.nametable2@ && final(self).mem.ppu.pallette@ == midm.ppu.pallette@
                    && final(self).mem.ram == midm.ram && final(self).mem.apu_reg == midm.apu_reg
                    && final(self).mem.apu_test_reg == midm.apu_test_reg && final(self).mem.inputs
                    == midm.inputs && final(self).mem.cartridge == midm.cartridge),
    {
        let (cpu_cycles, done) = match self.cpu.run_instruction(&mut self.mem) {
            Ok(p) => p,
            Err(e) => {
                return Err(e);
            },
        };
        let ghost midcpu = self.cpu;
        let ghost midm = self.mem;
        let MemoryMap { ppu, cartridge, .. } = &mut self.mem;
        match cartridge {
            Some(c) => {
                ppu.advance_cycles(c, cpu_cycles * 3);
            },
            None => unreached(),
        }
        Ok((cpu_cycles, done))
    }

    /// Runs until the PPU signals the start of vertical blank, then
    /// hands the finished 256x240 RGB frame out: on success the final
    /// state is one verified instruction plus a PPU advance whose
    /// dots crossed the vblank start, taken from a state the loop
    /// reached. A frame spans at most 341 x 262 dots and every
    /// instruction consumes at least six dots, so the structural
    /// step bound lies far beyond any real frame; running it out is
    /// surfaced as a fault rather than looping forever.
    pub fn run_frame(&mut self) -> (r: Result<Vec<u8>, EmuError>)
        requires
            old(self).wf(),
        ensures
            final(self).wf(),
            r matches Err(e) ==> e is UnknownOpcode || e is ChrWrite || e is FrameTimeout,
            // An execution fault leaves the machine exactly as the
            // failing verified step left it.
            r matches Err(e) ==> e is FrameTimeout || (exists|precpu: Cpu, prem: MemoryMap|
                cpu_step_rel(
                    precpu,
                    prem,
                    final(self).cpu,
                    final(self).mem,
                    Err::<(u64, bool), EmuError>(e),
                )),
            r matches Ok(fb) ==> fb@ == final(self).mem.ppu.fb@ && fb@.len() == 256 * 240 * 3 && (
            exists|precpu: Cpu, prem: MemoryMap, midcpu: Cpu, midm: MemoryMap, c: u64, d: bool|
                cpu_step_rel(precpu, prem, midcpu, midm, Ok::<(u64, bool), EmuError>((c, d)))
                    && spec_vblank_hit(
                    (
                        midm.ppu.state.frame,
                        midm.ppu.state.scanline as int,
                        midm.ppu.state.cycle as int,
                    ),
                    (3 * c) as nat,
                ) && final(self).cpu == midcpu && ({
                    let t0 = (
                        midm.ppu.state.frame,
                        midm.ppu.state.scanline as int,
                        midm.ppu.state.cycle as int,
                    );
                    let tn = spec_counters_after(t0, (3 * c) as nat);
                    final(self).mem.ppu.state.frame == tn.0 && final(self).mem.ppu.state.scanline
                        == tn.1 && final(self).mem.ppu.state.cycle == tn.2
                })),
    {
        let mut frame_complete = false;
        let mut steps: u32 = 0;
        let ghost mut g_precpu = self.cpu;
        let ghost mut g_prem = self.mem;
        let ghost mut g_midcpu = self.cpu;
        let ghost mut g_midm = self.mem;
        let ghost mut g_c: u64 = 0;
        let ghost mut g_d: bool = false;
        while !frame_complete && steps < 100000
            invariant
                self.wf(),
                frame_complete ==> cpu_step_rel(g_precpu, g_prem, g_midcpu, g_midm, Ok::<
                    (u64, bool),
                    EmuError,
                >((g_c, g_d))) && spec_vblank_hit(
                    (
                        g_midm.ppu.state.frame,
                        g_midm.ppu.state.scanline as int,
                        g_midm.ppu.state.cycle as int,
                    ),
                    (3 * g_c) as nat,
                ) && self.cpu == g_midcpu && ({
                    let t0 = (
                        g_midm.ppu.state.frame,
                        g_midm.ppu.state.scanline as int,
                        g_midm.ppu.state.cycle as int,
                    );
                    let tn = spec_counters_after(t0, (3 * g_c) as nat);
                    self.mem.ppu.state.frame == tn.0 && self.mem.ppu.state.scanline == tn.1
                        && self.mem.ppu.state.cycle == tn.2
                }),
            decreases 100000 - steps,
        {
            steps = steps + 1;
            proof {
                g_precpu = self.cpu;
                g_prem = self.mem;
            }
            let (cpu_cycles, done) = match self.cpu.run_instruction(&mut self.mem) {
                Ok(p) => p,
                Err(e) => {
                    return Err(e);
                },
            };
            proof {
                g_midcpu = self.cpu;
                g_midm = self.mem;
                g_c = cpu_cycles;
                g_d = done;
            }
            let MemoryMap { ppu, cartridge, .. } = &mut self.mem;
            match cartridge {
                Some(c) => {
                    frame_complete = ppu.advance_cycles(c, cpu_cycles * 3);
                },
                None => unreached(),
            }
        }
        if !frame_complete {
            return Err(EmuError::FrameTimeout);
        }
        Ok(self.mem.ppu.get_frame())
    }
}

} // verus!
