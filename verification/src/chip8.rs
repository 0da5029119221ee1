//! The whole machine: a memory and an engine, with the program and the font
//! loaded into the memory.

use vstd::prelude::*;
use crate::cpu::{cycle_can_give, step_of, Cpu, CpuState, Status, PROGRAM_START};
use crate::fault::Fault;
use crate::memory::{Memory, MEMORY_SIZE};

verus! {

/// Bytes of the font: sixteen glyphs of five rows each.
pub const FONT_SIZE: usize = 80;

/// Milliseconds between two counts of the timers.
pub const TIMER_PERIOD_MILLIS: u64 = 16;

/// The largest program that fits between `PROGRAM_START` and the end of
/// memory.
pub const PROGRAM_CAPACITY: usize = 3584;

/// The font: for each hexadecimal digit, in order, the five rows of its
/// glyph. A glyph is four pixels wide, in the high bits of each row.
pub open spec fn font() -> Seq<u8> {
    seq![
        0xF0u8, 0x90u8, 0x90u8, 0x90u8, 0xF0u8,
        0x20u8, 0x60u8, 0x20u8, 0x20u8, 0x70u8,
        0xF0u8, 0x10u8, 0xF0u8, 0x80u8, 0xF0u8,
        0xF0u8, 0x10u8, 0xF0u8, 0x10u8, 0xF0u8,
        0x90u8, 0x90u8, 0xF0u8, 0x10u8, 0x10u8,
        0xF0u8, 0x80u8, 0xF0u8, 0x10u8, 0xF0u8,
        0xF0u8, 0x80u8, 0xF0u8, 0x90u8, 0xF0u8,
        0xF0u8, 0x10u8, 0x20u8, 0x40u8, 0x40u8,
        0xF0u8, 0x90u8, 0xF0u8, 0x90u8, 0xF0u8,
        0xF0u8, 0x90u8, 0xF0u8, 0x10u8, 0xF0u8,
        0xF0u8, 0x90u8, 0xF0u8, 0x90u8, 0x90u8,
        0xE0u8, 0x90u8, 0xE0u8, 0x90u8, 0xE0u8,
        0xF0u8, 0x80u8, 0x80u8, 0x80u8, 0xF0u8,
        0xE0u8, 0x90u8, 0x90u8, 0x90u8, 0xE0u8,
        0xF0u8, 0x80u8, 0xF0u8, 0x80u8, 0xF0u8,
        0xF0u8, 0x80u8, 0xF0u8, 0x80u8, 0x80u8,
    ]
}

/// `mem` with `bytes` written from `start` on.
pub open spec fn written(mem: Seq<u8>, start: int, bytes: Seq<u8>) -> Seq<u8> {
    Seq::new(
        mem.len(),
        |a: int|
            if start <= a < start + bytes.len() {
                bytes[a - start]
            } else {
                mem[a]
            },
    )
}

/// The machine.
pub struct CHIP8 {
    mem: Memory,
    cpu: Cpu,
}

impl CHIP8 {
    /// The machine's memory, as a value.
    pub closed spec fn memory_view(&self) -> Seq<u8> {
        self.mem@
    }

    /// The machine's engine, as a value.
    pub closed spec fn cpu_view(&self) -> CpuState {
        self.cpu@
    }

    /// The engine is valid.
    pub open spec fn wf(&self) -> bool {
        self.cpu_view().wf()
    }

    /// A machine with zeroed memory and an engine at rest.
    pub fn new() -> (chip: Self)
        ensures
            chip.wf(),
            chip.memory_view() == Seq::new(MEMORY_SIZE as nat, |i: int| 0u8),
            chip.cpu_view() == Cpu::new_state(),
    {
        Self { mem: Memory::new(), cpu: Cpu::new() }
    }

    /// A machine made of a given memory and engine.
    pub fn clone(mem: Memory, cpu: Cpu) -> (chip: Self)
        ensures
            chip.memory_view() == mem@,
            chip.cpu_view() == cpu@,
    {
        Self { mem, cpu }
    }

    /// The memory.
    pub fn memory(&self) -> (mem: &Memory)
        ensures
            mem@ == self.memory_view(),
    {
        &self.mem
    }

    /// The engine.
    pub fn cpu(&self) -> (cpu: &Cpu)
        ensures
            cpu@ == self.cpu_view(),
    {
        &self.cpu
    }

    /// Writes `bytes` into memory from `start` on.
    fn write(&mut self, start: usize, bytes: &[u8])
        requires
            start + bytes@.len() <= MEMORY_SIZE,
        ensures
            final(self).memory_view() == written(old(self).memory_view(), start as int, bytes@),
            final(self).cpu_view() == old(self).cpu_view(),
    {
        proof {
            self.mem.size();
        }
        let mut i: usize = 0;
        while i < bytes.len()
            invariant
                i <= bytes@.len(),
                start + bytes@.len() <= MEMORY_SIZE,
                self.mem@.len() == MEMORY_SIZE,
                self.cpu@ == old(self).cpu@,
                forall|a: int|
                    0 <= a < MEMORY_SIZE ==> self.mem@[a] == if start <= a < start + i {
                        bytes@[a - start]
                    } else {
                        old(self).mem@[a]
                    },
            decreases bytes@.len() - i,
        {
            self.mem.set(start + i, bytes[i]);
            i += 1;
        }
        proof {
            old(self).mem.size();
            assert(self.mem@ =~= written(old(self).mem@, start as int, bytes@));
        }
    }

    /// Loads a program image at `PROGRAM_START`. An image of more than
    /// `PROGRAM_CAPACITY` bytes is refused, and nothing is written.
    pub fn load_rom(&mut self, rom: &[u8]) -> (r: Result<(), Fault>)
        ensures
            final(self).cpu_view() == old(self).cpu_view(),
            rom@.len() > PROGRAM_CAPACITY ==> r == Err::<(), Fault>(Fault::ProgramTooLarge)
                && final(self).memory_view() == old(self).memory_view(),
            rom@.len() <= PROGRAM_CAPACITY ==> r == Ok::<(), Fault>(())
                && final(self).memory_view() == written(
                old(self).memory_view(),
                PROGRAM_START as int,
                rom@,
            ),
    {
        if rom.len() > 3584 {
            return Err(Fault::ProgramTooLarge);
        }
        self.write(0x200, rom);
        Ok(())
    }

    /// Loads the font at address 0.
    pub fn load_font(&mut self)
        ensures
            final(self).cpu_view() == old(self).cpu_view(),
            final(self).memory_view() == written(old(self).memory_view(), 0, font()),
    {
        let font: [u8; 80] = [
            0xF0, 0x90, 0x90, 0x90, 0xF0,
            0x20, 0x60, 0x20, 0x20, 0x70,
            0xF0, 0x10, 0xF0, 0x80, 0xF0,
            0xF0, 0x10, 0xF0, 0x10, 0xF0,
            0x90, 0x90, 0xF0, 0x10, 0x10,
            0xF0, 0x80, 0xF0, 0x10, 0xF0,
            0xF0, 0x80, 0xF0, 0x90, 0xF0,
            0xF0, 0x10, 0x20, 0x40, 0x40,
            0xF0, 0x90, 0xF0, 0x90, 0xF0,
            0xF0, 0x90, 0xF0, 0x10, 0xF0,
            0xF0, 0x90, 0xF0, 0x90, 0x90,
            0xE0, 0x90, 0xE0, 0x90, 0xE0,
            0xF0, 0x80, 0x80, 0x80, 0xF0,
            0xE0, 0x90, 0x90, 0x90, 0xE0,
            0xF0, 0x80, 0xF0, 0x80, 0xF0,
            0xF0, 0x80, 0xF0, 0x80, 0x80,
        ];
        assert(font@ =~= self::font());
        self.write(0, font.as_slice());
    }

    /// One cycle of the engine on the machine's memory, with the random
    /// byte given.
    pub fn step(&mut self, keys: &[u8], rnd: u8) -> (r: Result<Status, Fault>)
        requires
            old(self).wf(),
        ensures
            final(self).wf(),
            r == step_of(old(self).cpu_view(), old(self).memory_view(), keys@, rnd).result,
            final(self).cpu_view() == step_of(
                old(self).cpu_view(),
                old(self).memory_view(),
                keys@,
                rnd,
            ).cpu,
            final(self).memory_view() == step_of(
                old(self).cpu_view(),
                old(self).memory_view(),
                keys@,
                rnd,
            ).mem,
    {
        self.cpu.step(&mut self.mem, keys, rnd)
    }

    /// One cycle of the engine on the machine's memory.
    pub fn cycle(&mut self, keys: &[u8]) -> (r: Result<Status, Fault>)
        requires
            old(self).wf(),
        ensures
            final(self).wf(),
            cycle_can_give(
                old(self).cpu_view(),
                old(self).memory_view(),
                keys@,
                r,
                final(self).cpu_view(),
                final(self).memory_view(),
            ),
    {
        self.cpu.cycle(&mut self.mem, keys)
    }

    /// Counts the timers down once if at least `TIMER_PERIOD_MILLIS` have
    /// passed since they were last counted down, and says whether it did.
    pub fn tick(&mut self, elapsed_millis: u64) -> (counted: bool)
        ensures
            counted == (elapsed_millis >= TIMER_PERIOD_MILLIS),
            final(self).memory_view() == old(self).memory_view(),
            !counted ==> final(self).cpu_view() == old(self).cpu_view(),
            counted ==> final(self).cpu_view() == old(self).cpu_view().counted_down(),
    {
        if elapsed_millis >= 16 {
            self.cpu.timer();
            true
        } else {
            false
        }
    }
}

} // verus!
