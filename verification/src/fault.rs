//! Conditions under which the machine refuses to go on.

use vstd::prelude::*;

verus! {

/// Why an operation was refused. Every refusal leaves the machine untouched.
#[derive(Debug, Clone, Copy, PartialEq, Eq, Structural)]
pub enum Fault {
    /// The fetched word matches no instruction.
    UnknownOpcode { opcode: u16 },
    /// A call was made with all sixteen stack frames in use.
    StackOverflow,
    /// A return was made with no frame on the stack.
    StackUnderflow,
    /// An access starting at `address` does not fit into memory.
    MemoryOutOfBounds { address: u16 },
    /// A key index above `0xF`.
    InvalidKey { key: u8 },
    /// A font glyph was asked for a value above `0xF`.
    InvalidDigit { value: u8 },
    /// A program of `len` bytes does not fit behind the load address.
    RomTooLarge { len: usize },
}

} // verus!
