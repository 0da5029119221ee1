//! What holds of every cycle, proved from the meaning of the instructions.

use vstd::prelude::*;
use crate::cpu::{fetch_of, step_of, CpuState, Status};
use crate::fault::Fault;
use crate::memory::MEMORY_SIZE;
use crate::op::{decode_of, kk_of, x_of, y_of, Op};

verus! {

/// The engine is valid and the word at its program counter is `opcode`,
/// which encodes `op`.
pub open spec fn at_instruction(s: CpuState, mem: Seq<u8>, op: Op, opcode: u16) -> bool {
    &&& s.wf()
    &&& mem.len() == MEMORY_SIZE
    &&& fetch_of(s, mem) == Ok::<u16, Fault>(opcode)
    &&& decode_of(opcode) == Some(op)
}

/// A cycle keeps a valid engine valid, and the memory its size.
pub proof fn step_keeps_valid(s: CpuState, mem: Seq<u8>, keys: Seq<u8>, rnd: u8)
    requires
        s.wf(),
        mem.len() == MEMORY_SIZE,
    ensures
        step_of(s, mem, keys, rnd).cpu.wf(),
        step_of(s, mem, keys, rnd).mem.len() == MEMORY_SIZE,
{
}

/// A cycle that fails leaves the engine and the memory as they were.
pub proof fn fault_changes_nothing(s: CpuState, mem: Seq<u8>, keys: Seq<u8>, rnd: u8)
    requires
        step_of(s, mem, keys, rnd).result is Err,
    ensures
        step_of(s, mem, keys, rnd).cpu == s,
        step_of(s, mem, keys, rnd).mem == mem,
{
}

/// The random byte matters to `RND` alone: a cycle on any other instruction
/// is the same whatever the byte.
pub proof fn random_byte_matters_to_rnd_only(
    s: CpuState,
    mem: Seq<u8>,
    keys: Seq<u8>,
    a: u8,
    b: u8,
)
    requires
        !(fetch_of(s, mem) is Ok && decode_of(fetch_of(s, mem)->Ok_0) == Some(Op::RND)),
    ensures
        step_of(s, mem, keys, a) == step_of(s, mem, keys, b),
{
}

/// `ADD Vx, kk` leaves `(Vx + kk) mod 256` in `Vx` and changes no other
/// register: the flag register keeps its value unless it is `Vx` itself.
pub proof fn add_immediate_wraps(s: CpuState, mem: Seq<u8>, keys: Seq<u8>, rnd: u8, opcode: u16)
    requires
        at_instruction(s, mem, Op::ADD, opcode),
    ensures
        step_of(s, mem, keys, rnd).result == Ok::<Status, Fault>(Status::Running),
        step_of(s, mem, keys, rnd).cpu.v[x_of(opcode)] == (s.v[x_of(opcode)] + kk_of(opcode)) % 256,
        forall|r: int|
            0 <= r < 16 && r != x_of(opcode) ==> step_of(s, mem, keys, rnd).cpu.v[r] == s.v[r],
{
}

/// `ADD Vx, Vy` leaves `(Vx + Vy) mod 256` in `Vx`, and in the flag
/// register, unless that is `Vx` itself, 1 if the sum is over 255 and 0 if
/// it is not.
pub proof fn add_register_carries(s: CpuState, mem: Seq<u8>, keys: Seq<u8>, rnd: u8, opcode: u16)
    requires
        at_instruction(s, mem, Op::ADDR, opcode),
    ensures
        step_of(s, mem, keys, rnd).cpu.v[x_of(opcode)] == (s.v[x_of(opcode)] + s.v[y_of(opcode)])
            % 256,
        x_of(opcode) != 0xF ==> (step_of(s, mem, keys, rnd).cpu.v[0xF] == 1 <==> s.v[x_of(opcode)]
            + s.v[y_of(opcode)] > 255),
        x_of(opcode) != 0xF ==> (step_of(s, mem, keys, rnd).cpu.v[0xF] == 0 <==> s.v[x_of(opcode)]
            + s.v[y_of(opcode)] <= 255),
{
}

/// `SHR Vx` halves `Vx`, and leaves in the flag register, unless that is
/// `Vx` itself, the lowest bit that `Vx` had before.
pub proof fn shift_right_keeps_low_bit(
    s: CpuState,
    mem: Seq<u8>,
    keys: Seq<u8>,
    rnd: u8,
    opcode: u16,
)
    requires
        at_instruction(s, mem, Op::SHR, opcode),
    ensures
        step_of(s, mem, keys, rnd).cpu.v[x_of(opcode)] == s.v[x_of(opcode)] / 2,
        x_of(opcode) != 0xF ==> step_of(s, mem, keys, rnd).cpu.v[0xF] == s.v[x_of(opcode)] % 2,
{
}

/// `LD B, Vx` stores three decimal digits, hundreds first, that make up
/// `Vx`; it fails, changing nothing, where they would not fit in memory.
pub proof fn stored_digits_make_the_value(
    s: CpuState,
    mem: Seq<u8>,
    keys: Seq<u8>,
    rnd: u8,
    opcode: u16,
)
    requires
        at_instruction(s, mem, Op::LDB, opcode),
    ensures
        s.i + 2 >= MEMORY_SIZE ==> step_of(s, mem, keys, rnd).result == Err::<Status, Fault>(
            Fault::OutOfBounds,
        ),
        s.i + 2 < MEMORY_SIZE ==> ({
            let after = step_of(s, mem, keys, rnd).mem;
            let i = s.i as int;
            &&& after[i] < 10 && after[i + 1] < 10 && after[i + 2] < 10
            &&& after[i] * 100 + after[i + 1] * 10 + after[i + 2] == s.v[x_of(opcode)]
            &&& forall|a: int| 0 <= a < MEMORY_SIZE && !(i <= a <= i + 2) ==> after[a] == mem[a]
        }),
{
}

/// `SKP Vx` moves the program counter on by four where the value of `Vx`
/// is among the pressed keys, and by two where it is not.
pub proof fn skip_if_pressed_skips(s: CpuState, mem: Seq<u8>, keys: Seq<u8>, rnd: u8, opcode: u16)
    requires
        at_instruction(s, mem, Op::SKP, opcode),
    ensures
        keys.contains(s.v[x_of(opcode)]) ==> step_of(s, mem, keys, rnd).cpu.pc == s.pc + 4,
        !keys.contains(s.v[x_of(opcode)]) ==> step_of(s, mem, keys, rnd).cpu.pc == s.pc + 2,
{
}

/// `CLS` leaves every cell of the screen dark, whatever was on it.
pub proof fn clear_darkens_every_cell(
    s: CpuState,
    mem: Seq<u8>,
    keys: Seq<u8>,
    rnd: u8,
    opcode: u16,
    k: int,
)
    requires
        at_instruction(s, mem, Op::CLR, opcode),
        0 <= k < 2048,
    ensures
        step_of(s, mem, keys, rnd).cpu.screen.len() == 2048,
        !step_of(s, mem, keys, rnd).cpu.screen[k],
{
}

} // verus!
