//! A verified interpreter core for a classic 16-bit-opcode virtual machine
//! with an 8-bit register file, 4 KiB of memory, a 16-slot call stack and two
//! countdown timers.

pub mod audible;
pub mod constants;
pub mod cpu;
pub mod drawable;
pub mod dummy_screen;
pub mod dummy_sound_device;
pub mod errors;
pub mod font;
pub mod instructions;
pub mod opcode_decoders;
pub mod rom;

use vstd::prelude::*;

verus! {

/// Composes a big-endian 16-bit opcode from two bytes.
pub open spec fn spec_word(hi: u8, lo: u8) -> u16 {
    (hi * 256 + lo) as u16
}

} // verus!
