//! The master clock: one PPU dot per tick, one CPU tick every third dot.
use crate::bus::{BusView, RAM_SIZE};
use crate::cpu::Cpu;
use crate::ppu::{Ppu, DOTS_PER_SCANLINE, SCANLINES_PER_FRAME};
use crate::rom::Cartridge;
use crate::semantics::{step_spec, CpuView, Fault};
use vstd::prelude::*;

verus! {

/// 262 scanlines of 341 dots.
pub const DOTS_PER_FRAME: u64 = 89342;
/// 89,342 dots divided by three, rounded down.
pub const CPU_TICKS_PER_FRAME: u64 = 29780;

/// Owns the CPU (and through it the bus and PPU) and counts the clock.
pub struct Emulator {
    pub cpu: Cpu,
    /// PPU dots run since power-on.
    pub dots: u64,
    /// CPU ticks run since power-on.
    pub cpu_ticks: u64,
}

impl Emulator {
    /// The CPU has ticked once for every three dots so far.
    pub open spec fn wf(&self) -> bool {
        &&& self.cpu.wf()
        &&& self.cpu_ticks == self.dots / 3
    }

    pub fn new(cartridge: Cartridge) -> (r: Emulator)
        ensures
            r.wf(),
            r.dots == 0,
            r.cpu_ticks == 0,
            r.cpu@.pc == 0,
            r.cpu@.sp == 0xFF,
            r.cpu@.acc == 0 && r.cpu@.x == 0 && r.cpu@.y == 0 && r.cpu@.ps == 0 && r.cpu@.busy == 0,
            r.cpu@.bus.ram == Seq::new(RAM_SIZE as nat, |i: int| 0u8),
            r.cpu@.bus.prg == cartridge@.prg,
            r.cpu@.bus.ppu == Ppu::new_spec(),
    {
        Emulator { cpu: Cpu::new(cartridge), dots: 0, cpu_ticks: 0 }
    }

    /// Resets the CPU from the reset vector.
    pub fn reset(&mut self)
        requires
            old(self).wf(),
        ensures
            final(self).wf(),
            final(self).dots == old(self).dots,
            ({
                let (v, s1) = old(self).cpu@.rd16(crate::semantics::RESET_VECTOR);
                final(self).cpu@ == CpuView { pc: v, sp: 0xFF, acc: 0, x: 0, y: 0, ps: 0, busy: 0, ..s1 }
            }),
    {
        self.cpu.reset();
    }

    /// Runs the CPU until it has executed one instruction: first the cycles the
    /// last one still owes, then the next.
    pub fn step(&mut self)
        requires
            old(self).wf(),
            step_spec(CpuView { busy: 0, ..old(self).cpu@ }) is Ok,
        ensures
            final(self).wf(),
            final(self).dots == old(self).dots,
            step_spec(CpuView { busy: 0, ..old(self).cpu@ }) == Ok::<(bool, CpuView), Fault>(
                (true, final(self).cpu@),
            ),
    {
        let ghost s0 = self.cpu@;
        loop
            invariant_except_break
                self.wf(),
                self.dots == old(self).dots,
                self.cpu@ == (CpuView { busy: self.cpu@.busy, ..s0 }),
                step_spec(CpuView { busy: 0, ..s0 }) is Ok,
            ensures
                self.wf(),
                self.dots == old(self).dots,
                step_spec(CpuView { busy: 0, ..s0 }) == Ok::<(bool, CpuView), Fault>((true, self.cpu@)),
            decreases self.cpu@.busy,
        {
            let ghost before = self.cpu@;
            proof {
                if before.busy > 0 {
                    lemma_busy_tick(before);
                } else {
                    lemma_idle_tick_executes(before);
                }
            }
            let executed = self.cpu.step();
            if executed {
                break;
            }
        }
    }

    /// One dot: the PPU advances on `scanline`, then, on every third dot, the CPU ticks.
    pub fn tick(&mut self, scanline: u64) -> (r: Result<(), Fault>)
        requires
            old(self).wf(),
            old(self).dots < u64::MAX,
        ensures
            tick_spec(old(self).cpu@, scanline, old(self).dots + 1) matches Ok(s) ==> r is Ok
                && final(self).cpu@ == s,
            tick_spec(old(self).cpu@, scanline, old(self).dots + 1) matches Err(f) ==> r == Err::<
                (),
                Fault,
            >(f),
            r is Ok ==> final(self).wf() && final(self).dots == old(self).dots + 1,
    {
        self.cpu.bus.step_ppu(scanline);
        self.dots = self.dots + 1;
        if self.dots % 3 == 0 {
            match self.cpu.try_step() {
                Ok(_) => {},
                Err(f) => return Err(f),
            }
            self.cpu_ticks = self.cpu_ticks + 1;
        }
        Ok(())
    }

    /// One frame: 262 scanlines of 341 dots, 89,342 dots in all, with the CPU
    /// ticking on every third. Stops at the first CPU fault.
    pub fn run_frame(&mut self) -> (r: Result<(), Fault>)
        requires
            old(self).wf(),
            old(self).dots <= u64::MAX - DOTS_PER_FRAME,
        ensures
            frame_prefix(old(self).cpu@, old(self).dots as int, DOTS_PER_FRAME as nat) matches Ok(s)
                ==> r is Ok && final(self).cpu@ == s,
            frame_prefix(old(self).cpu@, old(self).dots as int, DOTS_PER_FRAME as nat) matches Err(f)
                ==> r == Err::<(), Fault>(f),
            r is Ok ==> final(self).wf() && final(self).dots == old(self).dots + DOTS_PER_FRAME,
            r is Ok && old(self).dots % 3 == 0 ==> final(self).cpu_ticks == old(self).cpu_ticks
                + CPU_TICKS_PER_FRAME,
    {
        proof {
            lemma_frame_cpu_ticks(old(self).dots);
        }
        let mut scanline: u64 = 0;
        while scanline < SCANLINES_PER_FRAME as u64
            invariant
                self.wf(),
                scanline <= SCANLINES_PER_FRAME,
                self.dots == old(self).dots + scanline * DOTS_PER_SCANLINE,
                old(self).dots <= u64::MAX - DOTS_PER_FRAME,
                frame_prefix(old(self).cpu@, old(self).dots as int, (scanline * DOTS_PER_SCANLINE) as nat)
                    == Ok::<CpuView, Fault>(self.cpu@),
            decreases SCANLINES_PER_FRAME - scanline,
        {
            let mut dot: u16 = 0;
            while dot < DOTS_PER_SCANLINE
                invariant
                    self.wf(),
                    scanline < SCANLINES_PER_FRAME,
                    dot <= DOTS_PER_SCANLINE,
                    self.dots == old(self).dots + scanline * DOTS_PER_SCANLINE + dot,
                    old(self).dots <= u64::MAX - DOTS_PER_FRAME,
                    frame_prefix(
                        old(self).cpu@,
                        old(self).dots as int,
                        (scanline * DOTS_PER_SCANLINE + dot) as nat,
                    ) == Ok::<CpuView, Fault>(self.cpu@),
                decreases DOTS_PER_SCANLINE - dot,
            {
                let ghost i: nat = (scanline * DOTS_PER_SCANLINE + dot) as nat;
                proof {
                    lemma_scanline_of_dot(scanline as int, dot as int);
                }
                let ticked = self.tick(scanline);
                if let Err(f) = ticked {
                    proof {
                        lemma_fault_persists(old(self).cpu@, old(self).dots as int, i + 1, DOTS_PER_FRAME as nat);
                    }
                    return Err(f);
                }
                dot = dot + 1;
            }
            scanline = scanline + 1;
        }
        Ok(())
    }
}

/// The machine after the PPU has advanced one dot on `scanline`.
pub open spec fn dot_tick(s: CpuView, scanline: u64) -> CpuView {
    CpuView { bus: BusView { ppu: s.bus.ppu.after_step(scanline), ..s.bus }, ..s }
}

/// One dot of the master clock, the `dots_after`-th since power-on: the PPU
/// advances on `scanline`, and on every third dot the CPU ticks.
pub open spec fn tick_spec(s: CpuView, scanline: u64, dots_after: int) -> Result<CpuView, Fault> {
    let s1 = dot_tick(s, scanline);
    if dots_after % 3 == 0 {
        match step_spec(s1) {
            Ok((_e, s2)) => Ok(s2),
            Err(f) => Err(f),
        }
    } else {
        Ok(s1)
    }
}

/// The machine after the first `i` dots of a frame that starts when `d0` dots
/// have run: dot `j` of the frame lies on scanline `j / 341`.
pub open spec fn frame_prefix(s: CpuView, d0: int, i: nat) -> Result<CpuView, Fault>
    decreases i,
{
    if i == 0 {
        Ok(s)
    } else {
        match frame_prefix(s, d0, (i - 1) as nat) {
            Ok(t) => tick_spec(t, ((i - 1) / 341) as u64, d0 + i),
            Err(f) => Err(f),
        }
    }
}

proof fn lemma_scanline_of_dot(line: int, dot: int)
    requires
        0 <= line,
        0 <= dot < 341,
    ensures
        (line * 341 + dot) / 341 == line,
{
    assert((line * 341 + dot) / 341 == line) by (nonlinear_arith)
        requires
            0 <= line,
            0 <= dot < 341,
    ;
}

/// Once a dot faults, every longer prefix of the frame reports the same fault.
proof fn lemma_fault_persists(s: CpuView, d0: int, i: nat, j: nat)
    requires
        frame_prefix(s, d0, i) is Err,
        i <= j,
    ensures
        frame_prefix(s, d0, j) == frame_prefix(s, d0, i),
    decreases j - i,
{
    if i < j {
        lemma_fault_persists(s, d0, i, (j - 1) as nat);
    }
}

/// While the busy counter runs down, a tick only decrements it.
proof fn lemma_busy_tick(s: CpuView)
    requires
        s.busy > 0,
    ensures
        step_spec(s) == Ok::<(bool, CpuView), Fault>((false, CpuView { busy: (s.busy - 1) as u8, ..s })),
{
    reveal(step_spec);
}

/// With nothing owed, a tick that does not fault executes an instruction.
proof fn lemma_idle_tick_executes(s: CpuView)
    requires
        s.busy == 0,
        step_spec(s) is Ok,
    ensures
        step_spec(s)->Ok_0.0,
{
    reveal(step_spec);
}

/// Starting from a dot count divisible by three, a frame holds exactly 29,780
/// CPU ticks; from any other start, 29,781. Over frames the CPU runs at exactly
/// one third of the dot rate, since its tick count is always the dot count
/// divided by three, rounded down.
pub proof fn lemma_frame_cpu_ticks(d0: u64)
    requires
        d0 <= u64::MAX - DOTS_PER_FRAME,
    ensures
        d0 % 3 == 0 ==> (d0 + DOTS_PER_FRAME) / 3 - d0 / 3 == CPU_TICKS_PER_FRAME,
        d0 % 3 != 0 ==> (d0 + DOTS_PER_FRAME) / 3 - d0 / 3 == CPU_TICKS_PER_FRAME + 1,
        DOTS_PER_FRAME == SCANLINES_PER_FRAME * DOTS_PER_SCANLINE,
{
}

} // verus!
