//! The ways in which the machine can fail.

use vstd::prelude::*;

verus! {

/// A fatal condition. The machine never recovers from one by itself: the
/// operation that reports it leaves all state as it found it.
#[derive(Clone, Copy, Debug, PartialEq, Eq, Structural)]
pub enum Fault {
    /// The fetched word is not one of the machine's instructions.
    InvalidOpcode,
    /// A call was made with all fifteen return slots in use.
    StackOverflow,
    /// A return was made with no active call.
    StackUnderflow,
    /// An access through the program counter or the address register would
    /// leave memory.
    OutOfBounds,
    /// The program counter is odd.
    OddProgramCounter,
    /// A program image does not fit between the load address and the end of
    /// memory.
    ProgramTooLarge,
}

} // verus!
