//! The execution engine: registers, call stack, timers and screen, and the
//! meaning of every instruction.

use vstd::prelude::*;
use crate::fault::Fault;
use crate::memory::{word_at, Memory, MEMORY_SIZE};
use crate::op::{decode_of, kk_of, nibble_of, nnn_of, x_of, y_of, Op};
use crate::screen::{blit, collides, frame_of, Screen, SCREEN_CELLS};

verus! {

/// Address at which programs are loaded and execution starts.
pub const PROGRAM_START: u16 = 0x200;

/// What a cycle did.
#[derive(Clone, Copy, Debug, PartialEq, Eq, Structural)]
pub enum Status {
    /// One instruction was executed.
    Running,
    /// The instruction waits for a key and none is pressed: nothing changed,
    /// and the same instruction is tried again on the next cycle.
    WaitingForKey,
}

/// A key of the keyboard, as far as the machine tells keys apart: the
/// sixteen keys of its hexadecimal pad, and any other.
#[derive(Clone, Copy, Debug, PartialEq, Eq, Structural)]
pub enum Keycode {
    Key0,
    Key1,
    Key2,
    Key3,
    Key4,
    Key5,
    Key6,
    Key7,
    Key8,
    Key9,
    A,
    B,
    C,
    D,
    E,
    F,
    /// A key that is not on the pad.
    Other,
}

/// The code that no key of the pad has: it stands for every other key.
pub const NO_PAD_KEY: u8 = 20;

/// The code of a key: its hexadecimal digit, or `NO_PAD_KEY`.
pub open spec fn key_code(key: Keycode) -> u8 {
    match key {
        Keycode::Key0 => 0,
        Keycode::Key1 => 1,
        Keycode::Key2 => 2,
        Keycode::Key3 => 3,
        Keycode::Key4 => 4,
        Keycode::Key5 => 5,
        Keycode::Key6 => 6,
        Keycode::Key7 => 7,
        Keycode::Key8 => 8,
        Keycode::Key9 => 9,
        Keycode::A => 10,
        Keycode::B => 11,
        Keycode::C => 12,
        Keycode::D => 13,
        Keycode::E => 14,
        Keycode::F => 15,
        Keycode::Other => NO_PAD_KEY,
    }
}

/// The engine as a mathematical value.
pub struct CpuState {
    /// The sixteen return slots. Slot 0 is never used.
    pub stack: Seq<u16>,
    /// The sixteen registers `V0` to `VF`.
    pub v: Seq<u8>,
    /// The address register `I`.
    pub i: u16,
    /// The program counter.
    pub pc: u16,
    /// The number of active calls, which is the slot of the latest one.
    pub sp: int,
    /// The delay timer.
    pub dt: u8,
    /// The sound timer.
    pub st: u8,
    /// The screen's cells.
    pub screen: Seq<bool>,
}

impl CpuState {
    /// The sizes are right and the stack pointer names a slot.
    pub open spec fn wf(self) -> bool {
        &&& self.stack.len() == 16
        &&& self.v.len() == 16
        &&& 0 <= self.sp <= 15
        &&& self.screen.len() == SCREEN_CELLS
    }

    /// This state with register `x` set to `value`.
    pub open spec fn with_v(self, x: int, value: u8) -> CpuState {
        CpuState { v: self.v.update(x, value), ..self }
    }

    /// This state with both timers counted down by one, stopping at zero.
    pub open spec fn counted_down(self) -> CpuState {
        CpuState {
            dt: if self.dt == 0 { 0u8 } else { (self.dt - 1) as u8 },
            st: if self.st == 0 { 0u8 } else { (self.st - 1) as u8 },
            ..self
        }
    }

    /// This state with the program counter at `pc`.
    pub open spec fn at(self, pc: int) -> CpuState {
        CpuState { pc: pc as u16, ..self }
    }
}

/// A cycle's result together with the engine and the memory it leaves.
pub struct Outcome {
    /// What the cycle returns.
    pub result: Result<Status, Fault>,
    /// The engine after the cycle.
    pub cpu: CpuState,
    /// The memory after the cycle.
    pub mem: Seq<u8>,
}

/// A cycle that executed an instruction.
pub open spec fn ran(cpu: CpuState, mem: Seq<u8>) -> Outcome {
    Outcome { result: Ok(Status::Running), cpu, mem }
}

/// A cycle that failed: engine and memory are as they were.
pub open spec fn failed(fault: Fault, cpu: CpuState, mem: Seq<u8>) -> Outcome {
    Outcome { result: Err(fault), cpu, mem }
}

/// A condition as a flag value.
pub open spec fn flag_of(b: bool) -> u8 {
    if b {
        1u8
    } else {
        0u8
    }
}

/// The `n` sprite rows at `i`, padded with empty rows to fifteen.
pub open spec fn sprite_at(mem: Seq<u8>, i: int, n: int) -> Seq<u8> {
    Seq::new(
        15,
        |r: int|
            if r < n {
                mem[i + r]
            } else {
                0u8
            },
    )
}

/// Memory after registers `V0..=Vx` are stored at `i`.
pub open spec fn stored(mem: Seq<u8>, v: Seq<u8>, i: int, x: int) -> Seq<u8> {
    Seq::new(
        mem.len(),
        |a: int|
            if i <= a <= i + x {
                v[a - i]
            } else {
                mem[a]
            },
    )
}

/// Registers after `V0..=Vx` are loaded from `i`.
pub open spec fn loaded(mem: Seq<u8>, v: Seq<u8>, i: int, x: int) -> Seq<u8> {
    Seq::new(
        v.len(),
        |r: int|
            if r <= x {
                mem[i + r]
            } else {
                v[r]
            },
    )
}

/// The word at the program counter, or why it cannot be fetched: the
/// counter must leave room for two bytes and be even.
pub open spec fn fetch_of(s: CpuState, mem: Seq<u8>) -> Result<u16, Fault> {
    if s.pc as int + 1 >= mem.len() {
        Err(Fault::OutOfBounds)
    } else if s.pc % 2 != 0 {
        Err(Fault::OddProgramCounter)
    } else {
        Ok(word_at(mem, s.pc as int) as u16)
    }
}

/// The effect of instruction `op` with the operand fields of `opcode`, on an
/// engine `s` whose program counter is still at the instruction. `keys` are
/// the keys now pressed, `rnd` is the random byte that `RND` uses.
pub open spec fn execute_of(
    s: CpuState,
    mem: Seq<u8>,
    keys: Seq<u8>,
    rnd: u8,
    op: Op,
    opcode: u16,
) -> Outcome {
    let x = x_of(opcode);
    let y = y_of(opcode);
    let kk = kk_of(opcode) as u8;
    let nnn = nnn_of(opcode);
    let n = nibble_of(opcode);
    let vx = s.v[x];
    let vy = s.v[y];
    let i = s.i as int;
    let next = s.at(s.pc + 2);
    let skip = s.at(s.pc + 4);
    match op {
        Op::CLR => ran(CpuState { screen: Seq::new(SCREEN_CELLS as nat, |k: int| false), ..next }, mem),
        Op::RET => if s.sp == 0 {
            failed(Fault::StackUnderflow, s, mem)
        } else {
            ran(CpuState { pc: s.stack[s.sp], sp: s.sp - 1, ..s }, mem)
        },
        Op::JP => ran(s.at(nnn), mem),
        Op::CALL => if s.sp >= 15 {
            failed(Fault::StackOverflow, s, mem)
        } else {
            ran(
                CpuState {
                    pc: nnn as u16,
                    sp: s.sp + 1,
                    stack: s.stack.update(s.sp + 1, next.pc),
                    ..s
                },
                mem,
            )
        },
        Op::SE => ran(if vx == kk { skip } else { next }, mem),
        Op::SNE => ran(if vx != kk { skip } else { next }, mem),
        Op::SER => ran(if vx == vy { skip } else { next }, mem),
        Op::SNER => ran(if vx != vy { skip } else { next }, mem),
        Op::LD => ran(next.with_v(x, kk), mem),
        Op::ADD => ran(next.with_v(x, ((vx + kk) % 256) as u8), mem),
        Op::LDR => ran(next.with_v(x, vy), mem),
        Op::OR => ran(next.with_v(x, vx | vy), mem),
        Op::AND => ran(next.with_v(x, vx & vy), mem),
        Op::XOR => ran(next.with_v(x, vx ^ vy), mem),
        Op::ADDR => ran(
            next.with_v(0xF, flag_of(vx + vy > 255)).with_v(x, ((vx + vy) % 256) as u8),
            mem,
        ),
        Op::SUB => ran(next.with_v(0xF, flag_of(vx > vy)).with_v(x, ((vx - vy) % 256) as u8), mem),
        Op::SHR => ran(next.with_v(0xF, vx % 2).with_v(x, vx / 2), mem),
        Op::SUBN => ran(next.with_v(0xF, flag_of(vy > vx)).with_v(x, ((vy - vx) % 256) as u8), mem),
        Op::SHL => ran(next.with_v(0xF, vx / 128).with_v(x, ((vx * 2) % 256) as u8), mem),
        Op::LDI => ran(CpuState { i: nnn as u16, ..next }, mem),
        Op::JPA => ran(s.at(nnn + s.v[0]), mem),
        Op::RND => ran(next.with_v(x, rnd & kk), mem),
        Op::DRW => if i + n > mem.len() {
            failed(Fault::OutOfBounds, s, mem)
        } else {
            let sprite = sprite_at(mem, i, n);
            ran(
                CpuState { screen: blit(s.screen, sprite, vx, vy), ..next }.with_v(
                    0xF,
                    flag_of(collides(s.screen, sprite, vx, vy)),
                ),
                mem,
            )
        },
        Op::SKP => ran(if keys.contains(vx) { skip } else { next }, mem),
        Op::SKNP => ran(if !keys.contains(vx) { skip } else { next }, mem),
        Op::LDD => ran(next.with_v(x, s.dt), mem),
        Op::LDK => if keys.len() == 0 {
            Outcome { result: Ok(Status::WaitingForKey), cpu: s, mem }
        } else {
            ran(next.with_v(x, keys[0]), mem)
        },
        Op::LDDT => ran(CpuState { dt: vx, ..next }, mem),
        Op::LDST => ran(CpuState { st: vx, ..next }, mem),
        Op::ADDI => ran(CpuState { i: ((i + vx) % 65536) as u16, ..next }, mem),
        Op::LDF => ran(CpuState { i: (vx * 5) as u16, ..next }, mem),
        Op::LDB => if i + 2 >= mem.len() {
            failed(Fault::OutOfBounds, s, mem)
        } else {
            ran(
                next,
                mem.update(i, vx / 100).update(i + 1, (vx % 100) / 10).update(i + 2, vx % 10),
            )
        },
        Op::LDII => if i + x >= mem.len() {
            failed(Fault::OutOfBounds, s, mem)
        } else {
            ran(next, stored(mem, s.v, i, x))
        },
        Op::LDVX => if i + x >= mem.len() {
            failed(Fault::OutOfBounds, s, mem)
        } else {
            ran(CpuState { v: loaded(mem, s.v, i, x), ..next }, mem)
        },
    }
}

/// One whole cycle: fetch the word at the program counter, decode it, and
/// execute the instruction. A word that cannot be fetched or decoded fails
/// the cycle and changes nothing.
pub open spec fn step_of(s: CpuState, mem: Seq<u8>, keys: Seq<u8>, rnd: u8) -> Outcome {
    match fetch_of(s, mem) {
        Err(fault) => failed(fault, s, mem),
        Ok(opcode) => match decode_of(opcode) {
            None => failed(Fault::InvalidOpcode, s, mem),
            Some(op) => execute_of(s, mem, keys, rnd, op, opcode),
        },
    }
}

/// Whether a cycle that draws its own random byte can return `result` and
/// leave the engine as `cpu` and the memory as `after`: whether a cycle with
/// some random byte does.
pub open spec fn cycle_can_give(
    s: CpuState,
    mem: Seq<u8>,
    keys: Seq<u8>,
    result: Result<Status, Fault>,
    cpu: CpuState,
    after: Seq<u8>,
) -> bool {
    exists|rnd: u8| #[trigger] step_of(s, mem, keys, rnd) == (Outcome { result, cpu, mem: after })
}

/// The engine.
pub struct Cpu {
    stack: [u16; 16],
    v: [u8; 16],
    i: u16,
    pc: u16,
    sp: usize,
    dt: u8,
    st: u8,
    framebuffer: Screen,
}

impl View for Cpu {
    type V = CpuState;

    closed spec fn view(&self) -> CpuState {
        CpuState {
            stack: self.stack@,
            v: self.v@,
            i: self.i,
            pc: self.pc,
            sp: self.sp as int,
            dt: self.dt,
            st: self.st,
            screen: self.framebuffer@,
        }
    }
}

/// Draws a byte from the thread's random number generator, by
/// `rand::random`. Nothing is claimed of the byte. The generator panics
/// where the system gives it no entropy to start from; nothing that is
/// handed to this function bears on that.
#[verifier::external_body]
fn random_byte() -> (byte: u8) {
    rand::random::<u8>()
}

/// Whether `key` is among `keys`.
pub fn is_pressed(keys: &[u8], key: u8) -> (pressed: bool)
    ensures
        pressed == keys@.contains(key),
{
    let mut k: usize = 0;
    while k < keys.len()
        invariant
            k <= keys@.len(),
            forall|j: int| 0 <= j < k ==> keys@[j] != key,
        decreases keys@.len() - k,
    {
        if keys[k] == key {
            return true;
        }
        k += 1;
    }
    false
}

impl Cpu {
    /// The engine's invariant: see `CpuState::wf`.
    pub open spec fn wf(&self) -> bool {
        self@.wf()
    }

    /// The state of an engine at rest.
    pub open spec fn new_state() -> CpuState {
        CpuState {
            stack: Seq::new(16, |k: int| 0u16),
            v: Seq::new(16, |k: int| 0u8),
            i: 0,
            pc: PROGRAM_START,
            sp: 0,
            dt: 0,
            st: 0,
            screen: Seq::new(SCREEN_CELLS as nat, |k: int| false),
        }
    }

    /// An engine at rest: registers, timers and stack zero, the screen dark,
    /// the program counter at `PROGRAM_START`.
    pub fn new() -> (cpu: Self)
        ensures
            cpu.wf(),
            cpu@ == Self::new_state(),
    {
        let cpu = Self {
            stack: [0u16; 16],
            v: [0u8; 16],
            i: 0,
            pc: 0x200,
            sp: 0,
            dt: 0,
            st: 0,
            framebuffer: Screen::new(),
        };
        assert(cpu.stack@ =~= Seq::new(16, |k: int| 0u16));
        assert(cpu.v@ =~= Seq::new(16, |k: int| 0u8));
        cpu
    }

    /// The program counter.
    pub fn pc(&self) -> (pc: u16)
        ensures
            pc == self@.pc,
    {
        self.pc
    }

    /// The address register `I`.
    pub fn index(&self) -> (i: u16)
        ensures
            i == self@.i,
    {
        self.i
    }

    /// The number of active calls.
    pub fn sp(&self) -> (sp: usize)
        ensures
            sp == self@.sp,
    {
        self.sp
    }

    /// Register `Vx`.
    pub fn register(&self, x: usize) -> (value: u8)
        requires
            x < 16,
        ensures
            value == self@.v[x as int],
    {
        self.v[x]
    }

    /// The delay timer.
    pub fn delay(&self) -> (dt: u8)
        ensures
            dt == self@.dt,
    {
        self.dt
    }

    /// The sound timer.
    pub fn sound(&self) -> (st: u8)
        ensures
            st == self@.st,
    {
        self.st
    }

    /// Whether the tone sounds: the sound timer is not zero.
    pub fn tone_active(&self) -> (on: bool)
        ensures
            on == (self@.st > 0),
    {
        self.st > 0
    }

    /// The screen.
    pub fn screen(&self) -> (screen: &Screen)
        ensures
            screen@ == self@.screen,
    {
        &self.framebuffer
    }

    /// The code of a key: its hexadecimal digit, or `NO_PAD_KEY` for a key
    /// that is not on the pad.
    pub fn keycode_to_u8(key: &Keycode) -> (code: u8)
        ensures
            code == key_code(*key),
            code < 16 <==> *key != Keycode::Other,
    {
        match *key {
            Keycode::Key0 => 0,
            Keycode::Key1 => 1,
            Keycode::Key2 => 2,
            Keycode::Key3 => 3,
            Keycode::Key4 => 4,
            Keycode::Key5 => 5,
            Keycode::Key6 => 6,
            Keycode::Key7 => 7,
            Keycode::Key8 => 8,
            Keycode::Key9 => 9,
            Keycode::A => 10,
            Keycode::B => 11,
            Keycode::C => 12,
            Keycode::D => 13,
            Keycode::E => 14,
            Keycode::F => 15,
            Keycode::Other => 20,
        }
    }

    /// Fetches the word at the program counter.
    pub fn fetch(&self, memory: &Memory) -> (r: Result<u16, Fault>)
        ensures
            r == fetch_of(self@, memory@),
    {
        proof {
            memory.size();
        }
        if self.pc >= 4095 {
            Err(Fault::OutOfBounds)
        } else if self.pc % 2 != 0 {
            Err(Fault::OddProgramCounter)
        } else {
            Ok(memory.read16(self.pc as usize))
        }
    }

    /// Counts both timers down by one, stopping at zero.
    pub fn timer(&mut self)
        ensures
            final(self)@ == old(self)@.counted_down(),
    {
        if self.st != 0 {
            self.st -= 1;
        }
        if self.dt != 0 {
            self.dt -= 1;
        }
    }

    /// Reads the `nibble` sprite rows at `i`, padded with empty rows.
    pub fn read_sprite(&self, i: u16, nibble: usize, memory: &Memory) -> (sprite: [u8; 15])
        requires
            nibble <= 15,
            i + nibble <= MEMORY_SIZE,
        ensures
            sprite@ == sprite_at(memory@, i as int, nibble as int),
    {
        proof {
            memory.size();
        }
        let mut sprite: [u8; 15] = [0u8; 15];
        let mut index: usize = 0;
        while index < nibble
            invariant
                index <= nibble <= 15,
                i + nibble <= MEMORY_SIZE,
                forall|r: int| 0 <= r < index ==> sprite@[r] == memory@[i + r],
                forall|r: int| index <= r < 15 ==> sprite@[r] == 0u8,
            decreases nibble - index,
        {
            sprite[index] = memory.read8(i as usize + index);
            index += 1;
        }
        assert(sprite@ =~= sprite_at(memory@, i as int, nibble as int));
        sprite
    }

    /// Paints the screen into `frame`, four bytes per cell. Bytes beyond the
    /// last whole cell of `frame` are left alone.
    pub fn draw(&self, frame: &mut [u8])
        requires
            old(frame)@.len() / 4 <= SCREEN_CELLS,
        ensures
            final(frame)@.len() == old(frame)@.len(),
            forall|b: int|
                0 <= b < old(frame)@.len() ==> final(frame)@[b] == if b / 4 < old(frame)@.len() / 4 {
                    frame_of(self@.screen)[b]
                } else {
                    old(frame)@[b]
                },
    {
        proof {
            self.framebuffer.size();
        }
        let cells: usize = frame.len() / 4;
        let mut c: usize = 0;
        while c < cells
            invariant
                c <= cells,
                cells == old(frame)@.len() / 4,
                cells <= 2048,
                frame@.len() == old(frame)@.len(),
                self.framebuffer@.len() == 2048,
                forall|b: int|
                    0 <= b < frame@.len() ==> frame@[b] == if b / 4 < c {
                        frame_of(self@.screen)[b]
                    } else {
                        old(frame)@[b]
                    },
            decreases cells - c,
        {
            let color: u8 = if self.framebuffer.pixel(c % 64, c / 64) {
                0xFF
            } else {
                0x00
            };
            frame[4 * c] = color;
            frame[4 * c + 1] = color;
            frame[4 * c + 2] = color;
            frame[4 * c + 3] = 0xFF;
            c += 1;
        }
    }
}

/// The sum of two bytes, modulo 256.
fn wrapping_sum(a: u8, b: u8) -> (r: u8)
    ensures
        r == (a + b) % 256,
{
    ((a as u16 + b as u16) % 256) as u8
}

/// The difference of two bytes, modulo 256.
fn wrapping_difference(a: u8, b: u8) -> (r: u8)
    ensures
        r == (a - b) % 256,
{
    ((256 + a as u16 - b as u16) % 256) as u8
}

/// Twice a byte, modulo 256.
fn wrapping_double(a: u8) -> (r: u8)
    ensures
        r == (a * 2) % 256,
{
    ((a as u16 * 2) % 256) as u8
}

/// A condition as a flag value.
fn flag(b: bool) -> (r: u8)
    ensures
        r == flag_of(b),
{
    if b {
        1
    } else {
        0
    }
}

impl Cpu {
    /// Stores `value` in `Vx` and moves on to the next instruction.
    fn assign(&mut self, x: usize, value: u8)
        requires
            x < 16,
            old(self)@.pc <= 4094,
        ensures
            final(self)@ == old(self)@.at(old(self)@.pc + 2).with_v(x as int, value),
    {
        self.v[x] = value;
        self.pc = self.pc + 2;
    }

    /// Stores `flag` in `VF`, then `value` in `Vx`, and moves on to the next
    /// instruction.
    fn assign_flagged(&mut self, x: usize, value: u8, flag: u8)
        requires
            x < 16,
            old(self)@.pc <= 4094,
        ensures
            final(self)@ == old(self)@.at(old(self)@.pc + 2).with_v(0xF, flag).with_v(
                x as int,
                value,
            ),
    {
        self.v[0xF] = flag;
        self.v[x] = value;
        self.pc = self.pc + 2;
    }

    /// Moves on to the next instruction, or over it where `skip` holds.
    fn advance(&mut self, skip: bool)
        requires
            old(self)@.pc <= 4094,
        ensures
            final(self)@ == old(self)@.at(
                if skip {
                    old(self)@.pc + 4
                } else {
                    old(self)@.pc + 2
                },
            ),
    {
        if skip {
            self.pc = self.pc + 4;
        } else {
            self.pc = self.pc + 2;
        }
    }

    /// Stores `V0..=Vx` in memory at `I`.
    fn store_registers(&self, memory: &mut Memory, x: usize)
        requires
            x < 16,
            self@.i + x < MEMORY_SIZE,
        ensures
            final(memory)@ == stored(old(memory)@, self@.v, self@.i as int, x as int),
    {
        proof {
            memory.size();
        }
        let base: usize = self.i as usize;
        let mut r: usize = 0;
        while r <= x
            invariant
                r <= x + 1,
                x < 16,
                base == self@.i,
                base + x < MEMORY_SIZE,
                memory@.len() == MEMORY_SIZE,
                forall|a: int|
                    0 <= a < MEMORY_SIZE ==> memory@[a] == if base <= a < base + r {
                        self@.v[a - base]
                    } else {
                        old(memory)@[a]
                    },
            decreases x + 1 - r,
        {
            memory.set(base + r, self.v[r]);
            r += 1;
        }
        proof {
            old(memory).size();
            assert(memory@ =~= stored(old(memory)@, self@.v, self@.i as int, x as int));
        }
    }

    /// Loads `V0..=Vx` from memory at `I`.
    fn load_registers(&mut self, memory: &Memory, x: usize)
        requires
            x < 16,
            old(self)@.i + x < MEMORY_SIZE,
        ensures
            final(self)@ == (CpuState {
                v: loaded(memory@, old(self)@.v, old(self)@.i as int, x as int),
                ..old(self)@
            }),
    {
        proof {
            memory.size();
        }
        let base: usize = self.i as usize;
        let mut r: usize = 0;
        while r <= x
            invariant
                r <= x + 1,
                x < 16,
                base == old(self)@.i,
                base + x < MEMORY_SIZE,
                memory@.len() == MEMORY_SIZE,
                self@ == (CpuState { v: self@.v, ..old(self)@ }),
                forall|k: int|
                    0 <= k < 16 ==> self@.v[k] == if k < r {
                        memory@[base + k]
                    } else {
                        old(self)@.v[k]
                    },
            decreases x + 1 - r,
        {
            self.v[r] = memory.read8(base + r);
            r += 1;
        }
        assert(self@.v =~= loaded(memory@, old(self)@.v, old(self)@.i as int, x as int));
    }

    /// Returns from a subroutine.
    fn ret(&mut self) -> (r: Result<Status, Fault>)
        requires
            old(self).wf(),
        ensures
            old(self)@.sp == 0 ==> r == Err::<Status, Fault>(Fault::StackUnderflow) && final(self)@
                == old(self)@,
            old(self)@.sp != 0 ==> r == Ok::<Status, Fault>(Status::Running) && final(self)@ == (
            CpuState { pc: old(self)@.stack[old(self)@.sp], sp: old(self)@.sp - 1, ..old(self)@ }),
    {
        if self.sp == 0 {
            return Err(Fault::StackUnderflow);
        }
        self.pc = self.stack[self.sp];
        self.sp = self.sp - 1;
        Ok(Status::Running)
    }

    /// Calls the subroutine at `nnn`.
    fn call(&mut self, nnn: u16) -> (r: Result<Status, Fault>)
        requires
            old(self).wf(),
            old(self)@.pc <= 4094,
        ensures
            old(self)@.sp >= 15 ==> r == Err::<Status, Fault>(Fault::StackOverflow) && final(self)@
                == old(self)@,
            old(self)@.sp < 15 ==> r == Ok::<Status, Fault>(Status::Running) && final(self)@ == (
            CpuState {
                pc: nnn,
                sp: old(self)@.sp + 1,
                stack: old(self)@.stack.update(old(self)@.sp + 1, (old(self)@.pc + 2) as u16),
                ..old(self)@
            }),
    {
        if self.sp >= 15 {
            return Err(Fault::StackOverflow);
        }
        self.sp = self.sp + 1;
        self.stack[self.sp] = self.pc + 2;
        self.pc = nnn;
        Ok(Status::Running)
    }

    /// Draws the `nibble`-row sprite at `I` at `(vx, vy)` and records the
    /// collision in `VF`.
    fn draw_at(
        &mut self,
        memory: &Memory,
        nibble: usize,
        vx: u8,
        vy: u8,
    ) -> (r: Result<Status, Fault>)
        requires
            old(self).wf(),
            old(self)@.pc <= 4094,
            nibble <= 15,
        ensures
            old(self)@.i + nibble > MEMORY_SIZE ==> r == Err::<Status, Fault>(Fault::OutOfBounds)
                && final(self)@ == old(self)@,
            old(self)@.i + nibble <= MEMORY_SIZE ==> r == Ok::<Status, Fault>(Status::Running)
                && final(self)@ == (CpuState {
                screen: blit(
                    old(self)@.screen,
                    sprite_at(memory@, old(self)@.i as int, nibble as int),
                    vx,
                    vy,
                ),
                ..old(self)@.at(old(self)@.pc + 2)
            }).with_v(
                0xF,
                flag_of(
                    collides(
                        old(self)@.screen,
                        sprite_at(memory@, old(self)@.i as int, nibble as int),
                        vx,
                        vy,
                    ),
                ),
            ),
    {
        if self.i as usize + nibble > 4096 {
            return Err(Fault::OutOfBounds);
        }
        let sprite = self.read_sprite(self.i, nibble, memory);
        let collided = self.draw_sprite(sprite, vx, vy);
        self.v[0xF] = if collided {
            1
        } else {
            0
        };
        self.pc = self.pc + 2;
        Ok(Status::Running)
    }

    /// Sets the address register and moves on to the next instruction.
    fn point(&mut self, i: u16)
        requires
            old(self)@.pc <= 4094,
        ensures
            final(self)@ == (CpuState { i, ..old(self)@.at(old(self)@.pc + 2) }),
    {
        self.i = i;
        self.pc = self.pc + 2;
    }

    /// Sets the delay timer and moves on to the next instruction.
    fn set_delay(&mut self, dt: u8)
        requires
            old(self)@.pc <= 4094,
        ensures
            final(self)@ == (CpuState { dt, ..old(self)@.at(old(self)@.pc + 2) }),
    {
        self.dt = dt;
        self.pc = self.pc + 2;
    }

    /// Sets the sound timer and moves on to the next instruction.
    fn set_sound(&mut self, st: u8)
        requires
            old(self)@.pc <= 4094,
        ensures
            final(self)@ == (CpuState { st, ..old(self)@.at(old(self)@.pc + 2) }),
    {
        self.st = st;
        self.pc = self.pc + 2;
    }

    /// Sets the program counter.
    fn jump(&mut self, pc: u16)
        ensures
            final(self)@ == old(self)@.at(pc as int),
    {
        self.pc = pc;
    }

    /// Darkens the screen.
    fn clear_screen(&mut self)
        ensures
            final(self)@ == (CpuState {
                screen: Seq::new(SCREEN_CELLS as nat, |k: int| false),
                ..old(self)@
            }),
    {
        self.framebuffer.clear_screen();
    }

    /// Draws `sprite` on the screen at `(x, y)` and says whether a lit cell
    /// went dark.
    fn draw_sprite(&mut self, sprite: [u8; 15], x: u8, y: u8) -> (flag: bool)
        ensures
            final(self)@ == (CpuState {
                screen: blit(old(self)@.screen, sprite@, x, y),
                ..old(self)@
            }),
            flag == collides(old(self)@.screen, sprite@, x, y),
    {
        self.framebuffer.draw_sprite(sprite, x, y)
    }

    /// Stores the three decimal digits of `vx` at `I`, `I + 1` and `I + 2`.
    fn store_digits(&self, memory: &mut Memory, vx: u8)
        requires
            self@.i + 2 < MEMORY_SIZE,
        ensures
            final(memory)@ == old(memory)@.update(self@.i as int, vx / 100).update(
                self@.i + 1,
                (vx % 100) / 10,
            ).update(self@.i + 2, vx % 10),
    {
        let base: usize = self.i as usize;
        memory.set(base, vx / 100);
        memory.set(base + 1, (vx % 100) / 10);
        memory.set(base + 2, vx % 10);
    }

    /// Executes instruction `op` with the operand fields of `opcode`. The
    /// program counter is still at the instruction. On a fault nothing has
    /// changed.
    pub fn execute(
        &mut self,
        memory: &mut Memory,
        keys: &[u8],
        rnd: u8,
        op: Op,
        opcode: u16,
    ) -> (r: Result<Status, Fault>)
        requires
            old(self).wf(),
            old(self)@.pc <= MEMORY_SIZE - 2,
        ensures
            final(self).wf(),
            r == execute_of(old(self)@, old(memory)@, keys@, rnd, op, opcode).result,
            final(self)@ == execute_of(old(self)@, old(memory)@, keys@, rnd, op, opcode).cpu,
            final(memory)@ == execute_of(old(self)@, old(memory)@, keys@, rnd, op, opcode).mem,
    {
        proof {
            memory.size();
        }
        let x: usize = Op::x(opcode);
        let y: usize = Op::y(opcode);
        let kk: u8 = Op::kk(opcode);
        let nnn: u16 = Op::nnn(opcode);
        let nibble: usize = Op::nibble(opcode);
        let vx: u8 = self.v[x];
        let vy: u8 = self.v[y];
        match op {
            Op::CLR => {
                self.clear_screen();
                self.advance(false)
            },
            Op::RET => {
                return self.ret();
            },
            Op::JP => self.jump(nnn),
            Op::CALL => {
                return self.call(nnn);
            },
            Op::SE => self.advance(vx == kk),
            Op::SNE => self.advance(vx != kk),
            Op::SER => self.advance(vx == vy),
            Op::SNER => self.advance(vx != vy),
            Op::LD => self.assign(x, kk),
            Op::ADD => self.assign(x, wrapping_sum(vx, kk)),
            Op::LDR => self.assign(x, vy),
            Op::OR => self.assign(x, vx | vy),
            Op::AND => self.assign(x, vx & vy),
            Op::XOR => self.assign(x, vx ^ vy),
            Op::ADDR => self.assign_flagged(x, wrapping_sum(vx, vy), flag(vx as u16 + vy as u16 > 255)),
            Op::SUB => self.assign_flagged(x, wrapping_difference(vx, vy), flag(vx > vy)),
            Op::SHR => self.assign_flagged(x, vx / 2, vx % 2),
            Op::SUBN => self.assign_flagged(x, wrapping_difference(vy, vx), flag(vy > vx)),
            Op::SHL => self.assign_flagged(x, wrapping_double(vx), vx / 128),
            Op::LDI => self.point(nnn),
            Op::JPA => {
                let v0: u8 = self.v[0];
                self.jump(nnn + v0 as u16)
            },
            Op::RND => self.assign(x, rnd & kk),
            Op::DRW => {
                return self.draw_at(memory, nibble, vx, vy);
            },
            Op::SKP => {
                let pressed = is_pressed(keys, vx);
                self.advance(pressed)
            },
            Op::SKNP => {
                let pressed = is_pressed(keys, vx);
                self.advance(!pressed)
            },
            Op::LDD => {
                let dt: u8 = self.dt;
                self.assign(x, dt)
            },
            Op::LDK => {
                if keys.len() == 0 {
                    return Ok(Status::WaitingForKey);
                }
                self.assign(x, keys[0])
            },
            Op::LDDT => self.set_delay(vx),
            Op::LDST => self.set_sound(vx),
            Op::ADDI => {
                let sum: u32 = (self.i as u32 + vx as u32) % 65536;
                self.point(sum as u16)
            },
            Op::LDF => self.point(vx as u16 * 5),
            Op::LDB => {
                if self.i >= 4094 {
                    return Err(Fault::OutOfBounds);
                }
                self.store_digits(memory, vx);
                self.advance(false)
            },
            Op::LDII => {
                if self.i as usize + x >= 4096 {
                    return Err(Fault::OutOfBounds);
                }
                self.store_registers(memory, x);
                self.advance(false)
            },
            Op::LDVX => {
                if self.i as usize + x >= 4096 {
                    return Err(Fault::OutOfBounds);
                }
                self.load_registers(memory, x);
                self.advance(false)
            },
        }
        Ok(Status::Running)
    }

    /// One cycle with the random byte given: fetch, decode, execute. On a
    /// fault nothing has changed.
    pub fn step(&mut self, memory: &mut Memory, keys: &[u8], rnd: u8) -> (r: Result<Status, Fault>)
        requires
            old(self).wf(),
        ensures
            final(self).wf(),
            r == step_of(old(self)@, old(memory)@, keys@, rnd).result,
            final(self)@ == step_of(old(self)@, old(memory)@, keys@, rnd).cpu,
            final(memory)@ == step_of(old(self)@, old(memory)@, keys@, rnd).mem,
    {
        proof {
            memory.size();
        }
        let opcode: u16 = match self.fetch(memory) {
            Ok(opcode) => opcode,
            Err(fault) => {
                return Err(fault);
            },
        };
        let op: Op = match Op::decode(opcode) {
            Ok(op) => op,
            Err(fault) => {
                return Err(fault);
            },
        };
        self.execute(memory, keys, rnd, op, opcode)
    }

    /// One cycle. `keys` are the keys now pressed. Where the instruction is
    /// `RND`, a random byte is drawn: the cycle is `step` with some byte.
    pub fn cycle(&mut self, memory: &mut Memory, keys: &[u8]) -> (r: Result<Status, Fault>)
        requires
            old(self).wf(),
        ensures
            final(self).wf(),
            cycle_can_give(old(self)@, old(memory)@, keys@, r, final(self)@, final(memory)@),
    {
        proof {
            memory.size();
        }
        let opcode: u16 = match self.fetch(memory) {
            Ok(opcode) => opcode,
            Err(fault) => {
                assert(step_of(self@, memory@, keys@, 0u8) == (Outcome {
                    result: Err(fault),
                    cpu: self@,
                    mem: memory@,
                }));
                return Err(fault);
            },
        };
        let op: Op = match Op::decode(opcode) {
            Ok(op) => op,
            Err(fault) => {
                assert(step_of(self@, memory@, keys@, 0u8) == (Outcome {
                    result: Err(fault),
                    cpu: self@,
                    mem: memory@,
                }));
                return Err(fault);
            },
        };
        let rnd: u8 = match op {
            Op::RND => random_byte(),
            _ => 0,
        };
        let r = self.execute(memory, keys, rnd, op, opcode);
        proof {
            assert(step_of(old(self)@, old(memory)@, keys@, rnd) == (Outcome {
                result: r,
                cpu: self@,
                mem: memory@,
            }));
        }
        r
    }
}

} // verus!
