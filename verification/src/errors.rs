//! The fatal conditions that stop a run.

use vstd::prelude::*;

verus! {

/// A condition from which the interpreter cannot continue. Each variant
/// records where it occurred so a driver can report a diagnostic.
#[derive(Clone, Copy, Debug, PartialEq, Eq, Structural)]
pub enum CpuError {
    /// The fetched opcode matches no catalog entry.
    DecodeFailure { pc: u16, opcode: u16 },
    /// A return was executed while the call stack was empty.
    StackUnderflow { pc: u16 },
    /// A call was executed while all stack slots were in use.
    StackOverflow { pc: u16 },
    /// A fetch would read past the end of memory.
    AddressOutOfBounds { pc: u16 },
}

} // verus!
