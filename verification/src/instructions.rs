//! The closed set of operation kinds that the machine can execute.

use vstd::prelude::*;

verus! {

/// One operation kind per instruction of the architecture. The decoder
/// resolves every valid 16-bit opcode to exactly one of these.
#[derive(Clone, Copy, Debug, PartialEq, Eq, Structural)]
pub enum Instructions {
    /// 00E0: clear the screen.
    Cls,
    /// 00EE: return from a subroutine.
    Ret,
    /// 1nnn: jump to address nnn.
    Jp,
    /// 2nnn: call the subroutine at address nnn.
    Call,
    /// 3xkk: skip the next instruction if Vx == kk.
    SeVxByte,
    /// 4xkk: skip the next instruction if Vx != kk.
    SneVxByte,
    /// 5xy0: skip the next instruction if Vx == Vy.
    SeVxVy,
    /// 6xkk: load kk into Vx.
    LdVxByte,
    /// 7xkk: add kk to Vx, wrapping, without touching the flag.
    AddVxByte,
    /// 8xy0: copy Vy into Vx.
    LdVxVy,
    /// 8xy1: bitwise or of Vy into Vx.
    OrVxVy,
    /// 8xy2: bitwise and of Vy into Vx.
    AndVxVy,
    /// 8xy3: bitwise xor of Vy into Vx.
    XorVxVy,
    /// 8xy4: add Vy to Vx; VF holds the carry.
    AddVxVy,
    /// 8xy5: subtract Vy from Vx; VF holds the not-borrow.
    SubVxVy,
    /// 8xy6: shift Vx right by one; VF holds the bit shifted out.
    ShrVxVy,
    /// 8xy7: store Vy - Vx into Vx; VF holds the not-borrow.
    SubnVxVy,
    /// 8xyE: shift Vx left by one; VF holds the bit shifted out.
    ShlVxVy,
    /// 9xy0: skip the next instruction if Vx != Vy.
    SneVxVy,
    /// Annn: load address nnn into the index register.
    LdIAddr,
    /// Bnnn: jump to address nnn plus V0.
    JpV0Addr,
    /// Cxkk: load a random byte masked with kk into Vx.
    RndVxByte,
    /// Dxyn: draw an n-row sprite at (Vx, Vy); VF reports collisions.
    DrwVxVyNib,
    /// Ex9E: skip the next instruction if the key in Vx is pressed.
    SkpVx,
    /// ExA1: skip the next instruction if the key in Vx is not pressed.
    SknpVx,
    /// Fx07: load the delay timer into Vx.
    LdVxDt,
    /// Fx0A: wait in place for a key press, then load it into Vx.
    LdVxK,
    /// Fx15: load Vx into the delay timer.
    LdDtVx,
    /// Fx18: load Vx into the sound timer and start the sound.
    LdStVx,
    /// Fx1E: add Vx to the index register.
    AddIVx,
    /// Fx29: point the index register at the font glyph for Vx.
    LdFVx,
    /// Fx33: store the decimal digits of Vx at I, I+1 and I+2.
    LdBVx,
    /// Fx55: store V0..=Vx into memory starting at I.
    LdIVx,
    /// Fx65: load V0..=Vx from memory starting at I.
    LdVxI,
}

} // verus!
