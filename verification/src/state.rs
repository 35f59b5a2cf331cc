//! The abstract machine that every contract of this crate speaks of.

use vstd::prelude::*;

verus! {

/// Pixels per framebuffer row.
pub const DISPLAY_WIDTH: usize = 64;

/// Rows of the framebuffer.
pub const DISPLAY_HEIGHT: usize = 32;

/// Cells of the framebuffer, stored row by row.
pub const DISPLAY_SIZE: usize = 2048;

/// Bytes of addressable memory.
pub const RAM_SIZE: usize = 4096;

/// Number of general registers `V0..VF`.
pub const REGISTER_COUNT: usize = 16;

/// Frames of the call stack.
pub const STACK_SIZE: usize = 16;

/// Keys of the hexadecimal pad.
pub const KEYS_SIZE: usize = 16;

/// Address at which programs are loaded and at which execution starts.
pub const RAM_START_ADDR: usize = 0x200;

/// Bytes taken by the built-in font: sixteen glyphs of five rows each.
pub const FONTSET_SIZE: usize = 80;

/// Largest program that fits between the load address and the end of memory.
pub const MAX_ROM_SIZE: usize = 3584;

/// The built-in font: glyph `d` occupies the five bytes from `5 * d`.
pub open spec fn font() -> Seq<u8> {
    seq![
        0xF0u8, 0x90, 0x90, 0x90, 0xF0,
        0x20, 0x60, 0x20, 0x20, 0x70,
        0xF0, 0x10, 0xF0, 0x80, 0xF0,
        0xF0, 0x10, 0xF0, 0x10, 0xF0,
        0x90, 0x90, 0xF0, 0x10, 0x10,
        0xF0, 0x80, 0xF0, 0x10, 0xF0,
        0xF0, 0x80, 0xF0, 0x90, 0xF0,
        0xF0, 0x10, 0x20, 0x40, 0x40,
        0xF0, 0x90, 0xF0, 0x90, 0xF0,
        0xF0, 0x90, 0xF0, 0x10, 0xF0,
        0xF0, 0x90, 0xF0, 0x90, 0x90,
        0xE0, 0x90, 0xE0, 0x90, 0xE0,
        0xF0, 0x80, 0x80, 0x80, 0xF0,
        0xE0, 0x90, 0x90, 0x90, 0xE0,
        0xF0, 0x80, 0xF0, 0x80, 0xF0,
        0xF0, 0x80, 0xF0, 0x80, 0x80,
    ]
}

/// Everything the machine remembers between two operations.
#[verifier::ext_equal]
pub struct MachineState {
    /// The 4096 bytes of memory.
    pub memory: Seq<u8>,
    /// The registers `V0..VF`.
    pub v: Seq<u8>,
    /// The address register `I`.
    pub i: u16,
    /// The program counter.
    pub pc: u16,
    /// Number of frames on the call stack.
    pub sp: u8,
    /// The call stack; the frames in use are those below `sp`.
    pub stack: Seq<u16>,
    /// The delay timer.
    pub dt: u8,
    /// The sound timer.
    pub st: u8,
    /// Whether each key of the pad is held down.
    pub keys: Seq<bool>,
    /// The framebuffer, row by row; cell `(x, y)` is at `x + 64 * y`.
    pub display: Seq<bool>,
}

impl MachineState {
    /// The shape every machine has: fixed sizes, a stack pointer inside the
    /// stack, and an address register inside the address space.
    pub open spec fn wf(self) -> bool {
        &&& self.memory.len() == RAM_SIZE
        &&& self.v.len() == REGISTER_COUNT
        &&& self.stack.len() == STACK_SIZE
        &&& self.keys.len() == KEYS_SIZE
        &&& self.display.len() == DISPLAY_SIZE
        &&& self.sp <= STACK_SIZE
        &&& self.i <= 0xFFF
    }

    /// The machine as it is created: everything zero but the program counter,
    /// which is at the load address, and the font at the bottom of memory.
    pub open spec fn initial() -> MachineState {
        MachineState {
            memory: Seq::new(
                RAM_SIZE as nat,
                |a: int| if a < FONTSET_SIZE { font()[a] } else { 0u8 },
            ),
            v: Seq::new(REGISTER_COUNT as nat, |r: int| 0u8),
            i: 0,
            pc: RAM_START_ADDR as u16,
            sp: 0,
            stack: Seq::new(STACK_SIZE as nat, |f: int| 0u16),
            dt: 0,
            st: 0,
            keys: Seq::new(KEYS_SIZE as nat, |k: int| false),
            display: Seq::new(DISPLAY_SIZE as nat, |c: int| false),
        }
    }
}

} // verus!
