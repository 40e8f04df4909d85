//! The ways in which an operation of the machine can fail.

use vstd::prelude::*;

verus! {

/// An error reported by the machine. Every failing operation leaves the
/// machine exactly as it found it.
#[derive(Clone, Copy, Debug, PartialEq, Eq, Structural)]
pub enum InterpreterError {
    /// The ROM does not fit between the load address and the end of memory.
    RomTooLarge,
    /// An instruction fetch or a memory operand reaches past the end of memory.
    MemoryOutOfBounds,
    /// The fetched word is no instruction; it is carried along.
    UnknownOpcode(u16),
    /// A call was made with the call stack already full.
    StackOverflow,
    /// A return was made with the call stack empty.
    StackUnderflow,
    /// A key index outside `0..=15` was given.
    InvalidKeyIndex,
}

} // verus!
