//! A CHIP-8 interpreter engine: memory and register model, instruction
//! decoding, the fetch-decode-execute step, timers and the XOR sprite blit.
//!
//! The engine does no I/O and keeps no time: a host calls [`Emulator::tick`]
//! for each instruction and [`Emulator::tick_timers`] sixty times a second,
//! reads the framebuffer and forwards key presses.

pub mod display;
pub mod fault;
pub mod instruction;
pub mod keypad;
pub mod laws;
pub mod machine;
mod random;
pub mod semantics;
pub mod state;

pub use crate::fault::Fault;
pub use crate::instruction::{decode, Instruction};
pub use crate::keypad::{key_to_hex, keycode_to_hex};
pub use crate::machine::Emulator;
pub use crate::state::{DISPLAY_HEIGHT, DISPLAY_SIZE, DISPLAY_WIDTH};
