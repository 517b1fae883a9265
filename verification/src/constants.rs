//! Fixed geometry and layout constants of the machine.

use vstd::prelude::*;

verus! {

/// Width of the display in pixels; sprite columns wrap modulo this value.
pub const SCREEN_WIDTH: usize = 64;

/// Height of the display in pixels; sprite rows wrap modulo this value.
pub const SCREEN_HEIGHT: usize = 32;

/// Number of addressable bytes of memory.
pub const MEMORY_SIZE: usize = 4096;

/// Address at which loaded programs begin.
pub const PROGRAM_START: u16 = 0x200;

/// Stack-pointer value that denotes an empty call stack.
pub const STACK_EMPTY: u8 = 0xFF;

} // verus!
