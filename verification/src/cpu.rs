//! The machine state and the fetch-decode-execute engine.

use vstd::prelude::*;
use rand::Rng;
use crate::audible::Audible;
use crate::constants::{PROGRAM_START, STACK_EMPTY};
use crate::drawable::{blank_fb, spec_plot, spec_plot_collision, Drawable};
use crate::errors::CpuError;
use crate::instructions::Instructions;
use crate::opcode_decoders::{
    instr_args_wf, kind_index, lemma_decode_matches, lemma_decoded_args_wf, lemma_kind_index,
    lemma_match_unique, opcode_decoders, entry_ok, opcode_matches, spec_args, spec_decode_kind,
};
use crate::spec_word;

verus! {

/// A decoded instruction: an operation kind and its extracted arguments,
/// in the order that the kind's catalog entry lists them.
#[derive(Debug)]
pub struct Instruction {
    pub int: Instructions,
    pub args: Vec<u8>,
}

/// All persistent state of the machine.
#[derive(Debug)]
pub struct Cpu {
    /// 4096 bytes of memory; the program starts at `PROGRAM_START`.
    pub ram: [u8; 4096],
    /// The sixteen 8-bit registers V0..=VF; VF doubles as the flag register.
    pub registers: [u8; 16],
    /// Sixteen slots of 16-bit return addresses.
    pub stack: [u16; 16],
    /// The sound timer.
    pub st: u8,
    /// The delay timer.
    pub dt: u8,
    /// The index register, used as a memory address.
    pub i: u16,
    /// The stack pointer: an index into `stack`, or `STACK_EMPTY`.
    pub sp: u8,
    /// The program counter.
    pub pc: u16,
}

/// The mathematical model of the machine state.
#[verifier::ext_equal]
pub struct CpuView {
    pub ram: Seq<u8>,
    pub registers: Seq<u8>,
    pub stack: Seq<u16>,
    pub st: u8,
    pub dt: u8,
    pub i: u16,
    pub sp: u8,
    pub pc: u16,
}

impl View for Cpu {
    type V = CpuView;

    open spec fn view(&self) -> CpuView {
        CpuView {
            ram: self.ram@,
            registers: self.registers@,
            stack: self.stack@,
            st: self.st,
            dt: self.dt,
            i: self.i,
            sp: self.sp,
            pc: self.pc,
        }
    }
}

/// The state of a machine that was just switched on: everything zero, the
/// program counter at `PROGRAM_START`, the stack empty.
pub open spec fn spec_initial_state() -> CpuView {
    CpuView {
        ram: Seq::new(4096, |j: int| 0u8),
        registers: Seq::new(16, |j: int| 0u8),
        stack: Seq::new(16, |j: int| 0u16),
        st: 0,
        dt: 0,
        i: 0,
        sp: STACK_EMPTY,
        pc: PROGRAM_START,
    }
}

/// Relies on rand::Rng::gen_range over the half-open range 0..255, as the
/// thread-local generator samples it: a byte below 255.
#[verifier::external_body]
fn random_byte() -> (r: u8)
    ensures
        r < 255,
{
    let mut rng = rand::thread_rng();
    rng.gen_range(0..255)
}

/// The opcode that a fetch at the program counter reads: the byte at `pc`
/// as the high half, the byte after it as the low half.
pub open spec fn spec_fetch(s: CpuView) -> u16 {
    spec_word(s.ram[s.pc as int], s.ram[s.pc as int + 1])
}

/// Everything an instruction can change besides the machine state: the
/// framebuffer and the pending-key slot.
#[verifier::ext_equal]
pub struct ExecOut {
    pub cpu: CpuView,
    pub fb: Seq<bool>,
    pub last_key: u8,
}

/// The 12-bit address assembled from the two address-half arguments.
pub open spec fn spec_addr(args: Seq<u8>) -> u16 {
    (args[0] * 256 + args[1]) as u16
}

/// The program counter after a conditional skip: past the next instruction
/// when the condition held, onto it otherwise.
pub open spec fn spec_skip_pc(pc: u16, cond: bool) -> u16 {
    if cond {
        (pc + 4) as u16
    } else {
        (pc + 2) as u16
    }
}

/// 8-bit wrapping addition.
pub open spec fn wrap_add(a: u8, b: u8) -> u8 {
    ((a + b) % 256) as u8
}

/// 8-bit wrapping subtraction.
pub open spec fn wrap_sub(a: u8, b: u8) -> u8 {
    ((a + 256 - b) % 256) as u8
}

/// Memory after registers 0..count have been stored at `base`.
pub open spec fn spec_store_regs(ram: Seq<u8>, regs: Seq<u8>, base: int, count: int) -> Seq<u8>
    decreases count,
{
    if count <= 0 {
        ram
    } else {
        spec_store_regs(ram, regs, base, count - 1).update(base + count - 1, regs[count - 1])
    }
}

/// Registers after registers 0..count have been loaded from `base`.
pub open spec fn spec_load_regs(regs: Seq<u8>, ram: Seq<u8>, base: int, count: int) -> Seq<u8>
    decreases count,
{
    if count <= 0 {
        regs
    } else {
        spec_load_regs(regs, ram, base, count - 1).update(count - 1, ram[base + count - 1])
    }
}

/// The k-th pixel of a sprite draw, in row-major order over the sprite:
/// its wrapped screen coordinates and its bit value, most significant bit
/// first within each sprite byte.
pub open spec fn sprite_pixel(ram: Seq<u8>, i0: u16, rx: u8, ry: u8, k: int) -> (u8, u8, u8) {
    let row = k / 8;
    let col = k % 8;
    let line = ram[i0 + row];
    (
        ((rx + col) % 64) as u8,
        ((ry + row) % 32) as u8,
        ((line >> ((7 - col) as u8)) & 1) as u8,
    )
}

/// The framebuffer after the first `k` pixels of a sprite draw.
pub open spec fn spec_draw_fb(
    fb: Seq<bool>,
    ram: Seq<u8>,
    i0: u16,
    rx: u8,
    ry: u8,
    k: int,
) -> Seq<bool>
    decreases k,
{
    if k <= 0 {
        fb
    } else {
        let p = sprite_pixel(ram, i0, rx, ry, k - 1);
        spec_plot(spec_draw_fb(fb, ram, i0, rx, ry, k - 1), p.0, p.1, p.2)
    }
}

/// Whether any of the first `k` pixels of a sprite draw cleared a lit pixel.
pub open spec fn spec_draw_collision(
    fb: Seq<bool>,
    ram: Seq<u8>,
    i0: u16,
    rx: u8,
    ry: u8,
    k: int,
) -> bool
    decreases k,
{
    if k <= 0 {
        false
    } else {
        let p = sprite_pixel(ram, i0, rx, ry, k - 1);
        spec_draw_collision(fb, ram, i0, rx, ry, k - 1) || spec_plot_collision(
            spec_draw_fb(fb, ram, i0, rx, ry, k - 1),
            p.0,
            p.1,
            p.2,
        )
    }
}

/// The kind of the instruction a step from `s` would execute, when the
/// fetch stays in memory and the opcode decodes.
pub open spec fn spec_step_kind(s: CpuView) -> Option<Instructions> {
    if s.pc > 4094 {
        None
    } else {
        spec_decode_kind(spec_fetch(s))
    }
}

/// The fatal condition a step from `s` runs into, if any: a fetch past the
/// end of memory, an opcode no catalog entry recognises, or a fatal stack
/// condition of the executed instruction.
pub open spec fn spec_step_err(s: CpuView) -> Option<CpuError> {
    if s.pc > 4094 {
        Some(CpuError::AddressOutOfBounds { pc: s.pc })
    } else {
        match spec_decode_kind(spec_fetch(s)) {
            None => Some(CpuError::DecodeFailure { pc: s.pc, opcode: spec_fetch(s) }),
            Some(kind) => spec_exec_err(s, kind),
        }
    }
}

/// Whether a step from `s` respects the machine limits of `exec_safe`.
pub open spec fn step_safe(s: CpuView) -> bool {
    s.pc <= 4094 ==> match spec_decode_kind(spec_fetch(s)) {
        Some(kind) => exec_safe(s, kind, spec_args(kind, spec_fetch(s))),
        None => true,
    }
}

/// The fatal condition an instruction runs into, if any: a return with an
/// empty stack, or a call with all sixteen stack slots in use.
pub open spec fn spec_exec_err(s: CpuView, kind: Instructions) -> Option<CpuError> {
    match kind {
        Instructions::Ret => if s.sp > 0xF {
            Some(CpuError::StackUnderflow { pc: s.pc })
        } else {
            None
        },
        Instructions::Call => if s.sp == 0xF {
            Some(CpuError::StackOverflow { pc: s.pc })
        } else {
            None
        },
        _ => None,
    }
}

/// The machine limits an instruction must respect so that no read or write
/// leaves memory and no address arithmetic overflows. The engine does not
/// police these: well-formed programs keep the index register in bounds.
pub open spec fn exec_safe(s: CpuView, kind: Instructions, args: Seq<u8>) -> bool {
    match kind {
        Instructions::SkpVx | Instructions::SknpVx => s.registers[args[0] as int] < 16,
        Instructions::DrwVxVyNib => s.i + args[2] <= 4096,
        Instructions::LdBVx => s.i + 2 <= 4095,
        Instructions::LdIVx | Instructions::LdVxI => s.i + args[0] <= 4095,
        Instructions::AddIVx => s.i + s.registers[args[0] as int] <= 65535,
        _ => true,
    }
}

/// The meaning of every instruction: the machine state, framebuffer and
/// pending-key slot after executing `kind` with `args` from state `s`,
/// given the pressed keys, the pending key, the random byte drawn by the
/// random instruction, and the framebuffer. Defined only where
/// `spec_exec_err` reports no fatal condition.
pub open spec fn spec_execute(
    s: CpuView,
    kind: Instructions,
    args: Seq<u8>,
    keys: Seq<u8>,
    last_key: u8,
    rnd: u8,
    fb: Seq<bool>,
) -> ExecOut {
    match kind {
        Instructions::Cls => ExecOut {
            cpu: CpuView { pc: (s.pc + 2) as u16, ..s },
            fb: blank_fb(),
            last_key,
        },
        Instructions::Ret => ExecOut {
            cpu: CpuView {
                pc: s.stack[s.sp as int],
                sp: if s.sp == 0 {
                    STACK_EMPTY
                } else {
                    (s.sp - 1) as u8
                },
                ..s
            },
            fb,
            last_key,
        },
        Instructions::Jp => ExecOut { cpu: CpuView { pc: spec_addr(args), ..s }, fb, last_key },
        Instructions::Call => {
            let new_sp: u8 = if s.sp > 0xF {
                0
            } else {
                (s.sp + 1) as u8
            };
            ExecOut {
                cpu: CpuView {
                    sp: new_sp,
                    stack: s.stack.update(new_sp as int, (s.pc + 2) as u16),
                    pc: spec_addr(args),
                    ..s
                },
                fb,
                last_key,
            }
        },
        Instructions::SeVxByte => ExecOut {
            cpu: CpuView {
                pc: spec_skip_pc(s.pc, s.registers[args[0] as int] == args[1]),
                ..s
            },
            fb,
            last_key,
        },
        Instructions::SneVxByte => ExecOut {
            cpu: CpuView {
                pc: spec_skip_pc(s.pc, s.registers[args[0] as int] != args[1]),
                ..s
            },
            fb,
            last_key,
        },
        Instructions::SeVxVy => ExecOut {
            cpu: CpuView {
                pc: spec_skip_pc(
                    s.pc,
                    s.registers[args[0] as int] == s.registers[args[1] as int],
                ),
                ..s
            },
            fb,
            last_key,
        },
        Instructions::LdVxByte => ExecOut {
            cpu: CpuView {
                registers: s.registers.update(args[0] as int, args[1]),
                pc: (s.pc + 2) as u16,
                ..s
            },
            fb,
            last_key,
        },
        Instructions::AddVxByte => ExecOut {
            cpu: CpuView {
                registers: s.registers.update(
                    args[0] as int,
                    wrap_add(s.registers[args[0] as int], args[1]),
                ),
                pc: (s.pc + 2) as u16,
                ..s
            },
            fb,
            last_key,
        },
        Instructions::LdVxVy => ExecOut {
            cpu: CpuView {
                registers: s.registers.update(args[0] as int, s.registers[args[1] as int]),
                pc: (s.pc + 2) as u16,
                ..s
            },
            fb,
            last_key,
        },
        Instructions::OrVxVy => ExecOut {
            cpu: CpuView {
                registers: s.registers.update(
                    args[0] as int,
                    s.registers[args[0] as int] | s.registers[args[1] as int],
                ),
                pc: (s.pc + 2) as u16,
                ..s
            },
            fb,
            last_key,
        },
        Instructions::AndVxVy => ExecOut {
            cpu: CpuView {
                registers: s.registers.update(
                    args[0] as int,
                    s.registers[args[0] as int] & s.registers[args[1] as int],
                ),
                pc: (s.pc + 2) as u16,
                ..s
            },
            fb,
            last_key,
        },
        Instructions::XorVxVy => ExecOut {
            cpu: CpuView {
                registers: s.registers.update(
                    args[0] as int,
                    s.registers[args[0] as int] ^ s.registers[args[1] as int],
                ),
                pc: (s.pc + 2) as u16,
                ..s
            },
            fb,
            last_key,
        },
        Instructions::AddVxVy => {
            let sum = s.registers[args[0] as int] + s.registers[args[1] as int];
            let flag: u8 = if sum > 255 {
                1
            } else {
                0
            };
            ExecOut {
                cpu: CpuView {
                    registers: s.registers.update(15, flag).update(
                        args[0] as int,
                        (sum % 256) as u8,
                    ),
                    pc: (s.pc + 2) as u16,
                    ..s
                },
                fb,
                last_key,
            }
        },
        Instructions::SubVxVy => {
            let flag: u8 = if s.registers[args[0] as int] > s.registers[args[1] as int] {
                1
            } else {
                0
            };
            let regs1 = s.registers.update(15, flag);
            ExecOut {
                cpu: CpuView {
                    registers: regs1.update(
                        args[0] as int,
                        wrap_sub(regs1[args[0] as int], regs1[args[1] as int]),
                    ),
                    pc: (s.pc + 2) as u16,
                    ..s
                },
                fb,
                last_key,
            }
        },
        Instructions::ShrVxVy => {
            let regs1 = s.registers.update(15, s.registers[args[0] as int] & 1);
            ExecOut {
                cpu: CpuView {
                    registers: regs1.update(args[0] as int, regs1[args[0] as int] >> 1u8),
                    pc: (s.pc + 2) as u16,
                    ..s
                },
                fb,
                last_key,
            }
        },
        Instructions::SubnVxVy => {
            let flag: u8 = if s.registers[args[1] as int] > s.registers[args[0] as int] {
                1
            } else {
                0
            };
            let regs1 = s.registers.update(15, flag);
            ExecOut {
                cpu: CpuView {
                    registers: regs1.update(
                        args[0] as int,
                        wrap_sub(regs1[args[1] as int], regs1[args[0] as int]),
                    ),
                    pc: (s.pc + 2) as u16,
                    ..s
                },
                fb,
                last_key,
            }
        },
        Instructions::ShlVxVy => {
            let regs1 = s.registers.update(15, s.registers[args[0] as int] >> 7u8);
            ExecOut {
                cpu: CpuView {
                    registers: regs1.update(args[0] as int, regs1[args[0] as int] << 1u8),
                    pc: (s.pc + 2) as u16,
                    ..s
                },
                fb,
                last_key,
            }
        },
        Instructions::SneVxVy => ExecOut {
            cpu: CpuView {
                pc: spec_skip_pc(
                    s.pc,
                    s.registers[args[0] as int] != s.registers[args[1] as int],
                ),
                ..s
            },
            fb,
            last_key,
        },
        Instructions::LdIAddr => ExecOut {
            cpu: CpuView { i: spec_addr(args), pc: (s.pc + 2) as u16, ..s },
            fb,
            last_key,
        },
        Instructions::JpV0Addr => ExecOut {
            cpu: CpuView { pc: (spec_addr(args) + s.registers[0]) as u16, ..s },
            fb,
            last_key,
        },
        Instructions::RndVxByte => ExecOut {
            cpu: CpuView {
                registers: s.registers.update(args[0] as int, rnd & args[1]),
                pc: (s.pc + 2) as u16,
                ..s
            },
            fb,
            last_key,
        },
        Instructions::SkpVx => ExecOut {
            cpu: CpuView {
                pc: spec_skip_pc(s.pc, keys[s.registers[args[0] as int] as int] == 1),
                ..s
            },
            fb,
            last_key,
        },
        Instructions::SknpVx => ExecOut {
            cpu: CpuView {
                pc: spec_skip_pc(s.pc, keys[s.registers[args[0] as int] as int] == 0),
                ..s
            },
            fb,
            last_key,
        },
        Instructions::DrwVxVyNib => {
            let rx = s.registers[args[0] as int];
            let ry = s.registers[args[1] as int];
            let collided = spec_draw_collision(fb, s.ram, s.i, rx, ry, 8 * args[2]);
            ExecOut {
                cpu: CpuView {
                    registers: s.registers.update(
                        15,
                        if collided {
                            1u8
                        } else {
                            0u8
                        },
                    ),
                    pc: (s.pc + 2) as u16,
                    ..s
                },
                fb: spec_draw_fb(fb, s.ram, s.i, rx, ry, 8 * args[2]),
                last_key,
            }
        },
        Instructions::LdVxDt => ExecOut {
            cpu: CpuView {
                registers: s.registers.update(args[0] as int, s.dt),
                pc: (s.pc + 2) as u16,
                ..s
            },
            fb,
            last_key,
        },
        Instructions::LdVxK => {
            if last_key != 255 {
                ExecOut {
                    cpu: CpuView {
                        registers: s.registers.update(args[0] as int, last_key),
                        pc: (s.pc + 2) as u16,
                        ..s
                    },
                    fb,
                    last_key: 255,
                }
            } else {
                ExecOut { cpu: s, fb, last_key }
            }
        },
        Instructions::LdDtVx => ExecOut {
            cpu: CpuView {
                dt: s.registers[args[0] as int],
                pc: (s.pc + 2) as u16,
                ..s
            },
            fb,
            last_key,
        },
        Instructions::LdStVx => ExecOut {
            cpu: CpuView {
                st: s.registers[args[0] as int],
                pc: (s.pc + 2) as u16,
                ..s
            },
            fb,
            last_key,
        },
        Instructions::AddIVx => ExecOut {
            cpu: CpuView {
                i: (s.i + s.registers[args[0] as int]) as u16,
                pc: (s.pc + 2) as u16,
                ..s
            },
            fb,
            last_key,
        },
        Instructions::LdFVx => ExecOut {
            cpu: CpuView {
                i: (s.registers[args[0] as int] * 5) as u16,
                pc: (s.pc + 2) as u16,
                ..s
            },
            fb,
            last_key,
        },
        Instructions::LdBVx => {
            let v = s.registers[args[0] as int];
            ExecOut {
                cpu: CpuView {
                    ram: s.ram.update(s.i as int, (v / 100) as u8).update(
                        s.i as int + 1,
                        ((v / 10) % 10) as u8,
                    ).update(s.i as int + 2, (v % 10) as u8),
                    pc: (s.pc + 2) as u16,
                    ..s
                },
                fb,
                last_key,
            }
        },
        Instructions::LdIVx => ExecOut {
            cpu: CpuView {
                ram: spec_store_regs(s.ram, s.registers, s.i as int, args[0] as int + 1),
                pc: (s.pc + 2) as u16,
                ..s
            },
            fb,
            last_key,
        },
        Instructions::LdVxI => ExecOut {
            cpu: CpuView {
                registers: spec_load_regs(s.registers, s.ram, s.i as int, args[0] as int + 1),
                pc: (s.pc + 2) as u16,
                ..s
            },
            fb,
            last_key,
        },
    }
}

impl Cpu {
    /// A machine that was just switched on.
    pub fn new() -> (cpu: Cpu)
        ensures
            cpu@ =~= spec_initial_state(),
    {
        let cpu = Cpu {
            ram: [0; 4096],
            registers: [0; 16],
            stack: [0; 16],
            st: 0x0,
            dt: 0x0,
            i: 0x0,
            sp: STACK_EMPTY,
            pc: PROGRAM_START,
        };
        proof {
            assert(cpu.ram@ =~= Seq::new(4096, |j: int| 0u8));
            assert(cpu.registers@ =~= Seq::new(16, |j: int| 0u8));
            assert(cpu.stack@ =~= Seq::new(16, |j: int| 0u16));
        }
        cpu
    }

    /// Replaces the whole memory with a caller-supplied image, already laid
    /// out with font data and program.
    pub fn load_rom(&mut self, rom: [u8; 4096])
        ensures
            final(self)@ =~= (CpuView { ram: rom@, ..old(self)@ }),
    {
        self.ram = rom;
    }

    /// Returns the machine to the switched-on state.
    pub fn reset(&mut self)
        ensures
            final(self)@ =~= (CpuView { stack: old(self)@.stack, ..spec_initial_state() }),
    {
        self.ram = [0x0; 4096];
        self.registers = [0x0; 16];
        self.st = 0x0;
        self.dt = 0x0;
        self.i = 0x0;
        self.pc = PROGRAM_START;
        self.sp = STACK_EMPTY;
        proof {
            assert(self.ram@ =~= Seq::new(4096, |j: int| 0u8));
            assert(self.registers@ =~= Seq::new(16, |j: int| 0u8));
        }
    }

    /// Runs one instruction: fetch, decode, execute. A fatal condition is
    /// reported as an error and leaves every part of the state untouched.
    pub fn step<D: Drawable, A: Audible>(
        &mut self,
        screen: &mut D,
        audio_device: &mut A,
        pressed_keys: &[u8; 16],
        last_key: &mut u8,
    ) -> (r: Result<(), CpuError>)
        requires
            step_safe(old(self)@),
        ensures
            match spec_step_err(old(self)@) {
                Some(e) => {
                    &&& r == Err::<(), CpuError>(e)
                    &&& final(self)@ == old(self)@
                    &&& final(screen).fb() == old(screen).fb()
                    &&& *final(last_key) == *old(last_key)
                },
                None => {
                    let op = spec_fetch(old(self)@);
                    &&& r == Ok::<(), CpuError>(())
                    &&& spec_decode_kind(op) matches Some(kind) && {
                        &&& kind != Instructions::RndVxByte ==> (ExecOut {
                            cpu: final(self)@,
                            fb: final(screen).fb(),
                            last_key: *final(last_key),
                        }) == spec_execute(
                            old(self)@,
                            kind,
                            spec_args(kind, op),
                            pressed_keys@,
                            *old(last_key),
                            0,
                            old(screen).fb(),
                        )
                        &&& kind == Instructions::RndVxByte ==> exists|rnd: u8|
                            rnd < 255 && (ExecOut {
                                cpu: final(self)@,
                                fb: final(screen).fb(),
                                last_key: *final(last_key),
                            }) == spec_execute(
                                old(self)@,
                                kind,
                                spec_args(kind, op),
                                pressed_keys@,
                                *old(last_key),
                                rnd,
                                old(screen).fb(),
                            )
                    }
                },
            },
            spec_step_kind(old(self)@) == Some(Instructions::LdStVx)
                ==> final(audio_device).playing(),
            spec_step_kind(old(self)@) != Some(Instructions::LdStVx)
                ==> *final(audio_device) == *old(audio_device),
    {
        let opcode = match self.fetch() {
            Ok(op) => op,
            Err(e) => {
                return Err(e);
            },
        };
        let instruction = match self.decode(opcode) {
            Ok(ins) => ins,
            Err(e) => {
                return Err(e);
            },
        };
        self.execute(instruction, screen, audio_device, pressed_keys, last_key)
    }

    /// Whether a step from the current state respects the machine limits,
    /// so that `step` may be called. Drivers check this before stepping.
    pub fn step_is_safe(&self) -> (b: bool)
        ensures
            b == step_safe(self@),
    {
        let opcode = match self.fetch() {
            Ok(op) => op,
            Err(_) => {
                return true;
            },
        };
        match self.decode(opcode) {
            Err(_) => true,
            Ok(ins) => match ins.int {
                Instructions::SkpVx | Instructions::SknpVx => {
                    self.registers[ins.args[0] as usize] < 16
                },
                Instructions::DrwVxVyNib => {
                    self.i as usize + ins.args[2] as usize <= 4096
                },
                Instructions::LdBVx => self.i <= 4093,
                Instructions::LdIVx | Instructions::LdVxI => {
                    self.i as usize + ins.args[0] as usize <= 4095
                },
                Instructions::AddIVx => {
                    self.i as usize + self.registers[ins.args[0] as usize] as usize <= 65535
                },
                _ => true,
            },
        }
    }

    /// Reads the 16-bit big-endian opcode at the program counter, or
    /// reports that the read would leave memory.
    pub fn fetch(&self) -> (r: Result<u16, CpuError>)
        ensures
            self.pc <= 4094 ==> r == Ok::<u16, CpuError>(spec_fetch(self@)),
            self.pc > 4094 ==> r == Err::<u16, CpuError>(
                CpuError::AddressOutOfBounds { pc: self.pc },
            ),
    {
        if self.pc <= 4094 {
            let hi = self.ram[self.pc as usize];
            let lo = self.ram[self.pc as usize + 1];
            Ok((hi as u16) * 256 + (lo as u16))
        } else {
            Err(CpuError::AddressOutOfBounds { pc: self.pc })
        }
    }

    /// Resolves an opcode through the catalog: a linear search for the
    /// entry whose masked pattern matches, then argument extraction in rule
    /// order. An opcode that no entry recognises is a decode failure.
    pub fn decode(&self, opcode: u16) -> (r: Result<Instruction, CpuError>)
        ensures
            match spec_decode_kind(opcode) {
                Some(kind) => {
                    &&& r matches Ok(ins)
                    &&& ins.int == kind
                    &&& ins.args@ == spec_args(kind, opcode)
                    &&& instr_args_wf(kind, ins.args@)
                },
                None => r matches Err(e) && e == (CpuError::DecodeFailure {
                    pc: self.pc,
                    opcode,
                }),
            },
    {
        let table = opcode_decoders();
        let n = table.len();
        let mut idx: usize = 0;
        while idx < n
            invariant
                n == table@.len(),
                n == 34,
                idx <= n,
                forall|k: int| 0 <= k < 34 ==> entry_ok(#[trigger] table@[k], k),
                forall|j: int| 0 <= j < idx
                    ==> !opcode_matches((#[trigger] table@[j]).instruction, opcode),
            decreases n - idx,
        {
            let decoder = &table[idx];
            if opcode & decoder.mask == decoder.pattern {
                proof {
                    lemma_match_unique(opcode, decoder.instruction);
                    lemma_decoded_args_wf(opcode);
                }
                let m = decoder.argument_decoders.len();
                let mut args: Vec<u8> = Vec::new();
                let mut j: usize = 0;
                while j < m
                    invariant
                        m == decoder.argument_decoders@.len(),
                        j <= m,
                        decoder.argument_decoders@ == crate::opcode_decoders::arg_rules(
                            decoder.instruction,
                        ),
                        args@ == spec_args(decoder.instruction, opcode).take(j as int),
                    decreases m - j,
                {
                    let rule = &decoder.argument_decoders[j];
                    let arg: u8 = ((opcode & rule.mask) >> rule.shift) as u8;
                    args.push(arg);
                    proof {
                        assert(args@ =~= spec_args(decoder.instruction, opcode).take(
                            j as int + 1,
                        ));
                    }
                    j += 1;
                }
                proof {
                    assert(args@ =~= spec_args(decoder.instruction, opcode));
                }
                return Ok(Instruction { int: decoder.instruction, args });
            }
            idx += 1;
        }
        proof {
            lemma_decode_matches(opcode);
            match spec_decode_kind(opcode) {
                Some(kind) => {
                    lemma_kind_index(kind);
                    assert(entry_ok(table@[kind_index(kind)], kind_index(kind)));
                    assert(false);
                },
                None => {},
            }
        }
        Err(CpuError::DecodeFailure { pc: self.pc, opcode })
    }

    /// Applies one decoded instruction to the machine state, the screen,
    /// the sound device and the pending-key slot. Fatal stack conditions
    /// are reported without touching any state. The random instruction
    /// draws one byte; every other effect is a function of the inputs.
    #[verifier::loop_isolation(false)]
    #[verifier::rlimit(100)]
    pub fn execute<D: Drawable, A: Audible>(
        &mut self,
        instr: Instruction,
        screen: &mut D,
        audio_device: &mut A,
        pressed_keys: &[u8; 16],
        last_key: &mut u8,
    ) -> (r: Result<(), CpuError>)
        requires
            instr_args_wf(instr.int, instr.args@),
            exec_safe(old(self)@, instr.int, instr.args@),
            old(self)@.pc <= 4094,
        ensures
            match spec_exec_err(old(self)@, instr.int) {
                Some(e) => {
                    &&& r == Err::<(), CpuError>(e)
                    &&& final(self)@ == old(self)@
                    &&& final(screen).fb() == old(screen).fb()
                    &&& *final(last_key) == *old(last_key)
                },
                None => {
                    &&& r == Ok::<(), CpuError>(())
                    &&& instr.int != Instructions::RndVxByte ==> (ExecOut {
                        cpu: final(self)@,
                        fb: final(screen).fb(),
                        last_key: *final(last_key),
                    }) == spec_execute(
                        old(self)@,
                        instr.int,
                        instr.args@,
                        pressed_keys@,
                        *old(last_key),
                        0,
                        old(screen).fb(),
                    )
                    &&& instr.int == Instructions::RndVxByte ==> exists|rnd: u8|
                        rnd < 255 && (ExecOut {
                            cpu: final(self)@,
                            fb: final(screen).fb(),
                            last_key: *final(last_key),
                        }) == spec_execute(
                            old(self)@,
                            instr.int,
                            instr.args@,
                            pressed_keys@,
                            *old(last_key),
                            rnd,
                            old(screen).fb(),
                        )
                },
            },
            instr.int == Instructions::LdStVx ==> final(audio_device).playing(),
            instr.int != Instructions::LdStVx ==> *final(audio_device) == *old(audio_device),
    {
        match instr.int {
            Instructions::Cls => {
                screen.cls();
                self.pc += 2;
            },
            Instructions::Ret => {
                if self.sp > 0xF {
                    return Err(CpuError::StackUnderflow { pc: self.pc });
                }
                self.pc = self.stack[self.sp as usize];
                if self.sp == 0 {
                    self.sp = STACK_EMPTY;
                } else {
                    self.sp -= 1;
                }
            },
            Instructions::Jp => {
                self.pc = (instr.args[0] as u16) * 256 + (instr.args[1] as u16);
            },
            Instructions::Call => {
                if self.sp == 0xF {
                    return Err(CpuError::StackOverflow { pc: self.pc });
                }
                let new_sp: u8 = if self.sp > 0xF {
                    0
                } else {
                    self.sp + 1
                };
                self.stack[new_sp as usize] = self.pc + 2;
                self.sp = new_sp;
                self.pc = (instr.args[0] as u16) * 256 + (instr.args[1] as u16);
            },
            Instructions::SeVxByte => {
                if self.registers[instr.args[0] as usize] == instr.args[1] {
                    self.pc += 4;
                } else {
                    self.pc += 2;
                }
            },
            Instructions::SneVxByte => {
                if self.registers[instr.args[0] as usize] != instr.args[1] {
                    self.pc += 4;
                } else {
                    self.pc += 2;
                }
            },
            Instructions::SeVxVy => {
                if self.registers[instr.args[0] as usize]
                    == self.registers[instr.args[1] as usize] {
                    self.pc += 4;
                } else {
                    self.pc += 2;
                }
            },
            Instructions::LdVxByte => {
                self.registers[instr.args[0] as usize] = instr.args[1];
                self.pc += 2;
            },
            Instructions::AddVxByte => {
                let x = instr.args[0] as usize;
                let sum = self.registers[x] as u16 + instr.args[1] as u16;
                self.registers[x] = (sum % 256) as u8;
                self.pc += 2;
            },
            Instructions::LdVxVy => {
                self.registers[instr.args[0] as usize] = self.registers[instr.args[1] as usize];
                self.pc += 2;
            },
            Instructions::OrVxVy => {
                let v = self.registers[instr.args[0] as usize]
                    | self.registers[instr.args[1] as usize];
                self.registers[instr.args[0] as usize] = v;
                self.pc += 2;
            },
            Instructions::AndVxVy => {
                let v = self.registers[instr.args[0] as usize]
                    & self.registers[instr.args[1] as usize];
                self.registers[instr.args[0] as usize] = v;
                self.pc += 2;
            },
            Instructions::XorVxVy => {
                let v = self.registers[instr.args[0] as usize]
                    ^ self.registers[instr.args[1] as usize];
                self.registers[instr.args[0] as usize] = v;
                self.pc += 2;
            },
            Instructions::AddVxVy => {
                let x = instr.args[0] as usize;
                let result = self.registers[x] as u16
                    + self.registers[instr.args[1] as usize] as u16;
                if result > 255 {
                    self.registers[0xF] = 0x1;
                } else {
                    self.registers[0xF] = 0x0;
                }
                self.registers[x] = (result % 256) as u8;
                self.pc += 2;
            },
            Instructions::SubVxVy => {
                let x = instr.args[0] as usize;
                let y = instr.args[1] as usize;
                if self.registers[x] > self.registers[y] {
                    self.registers[0xF] = 1;
                } else {
                    self.registers[0xF] = 0;
                }
                let result = (self.registers[x] as u16 + 256 - self.registers[y] as u16) % 256;
                self.registers[x] = result as u8;
                self.pc += 2;
            },
            Instructions::ShrVxVy => {
                let x = instr.args[0] as usize;
                self.registers[0xF] = self.registers[x] & 1;
                let v = self.registers[x];
                self.registers[x] = v >> 1u8;
                self.pc += 2;
            },
            Instructions::SubnVxVy => {
                let x = instr.args[0] as usize;
                let y = instr.args[1] as usize;
                if self.registers[y] > self.registers[x] {
                    self.registers[0xF] = 1;
                } else {
                    self.registers[0xF] = 0;
                }
                let result = (self.registers[y] as u16 + 256 - self.registers[x] as u16) % 256;
                self.registers[x] = result as u8;
                self.pc += 2;
            },
            Instructions::ShlVxVy => {
                let x = instr.args[0] as usize;
                self.registers[0xF] = self.registers[x] >> 7u8;
                let v = self.registers[x];
                self.registers[x] = v << 1u8;
                self.pc += 2;
            },
            Instructions::SneVxVy => {
                if self.registers[instr.args[0] as usize]
                    != self.registers[instr.args[1] as usize] {
                    self.pc += 4;
                } else {
                    self.pc += 2;
                }
            },
            Instructions::LdIAddr => {
                self.i = (instr.args[0] as u16) * 256 + (instr.args[1] as u16);
                self.pc += 2;
            },
            Instructions::JpV0Addr => {
                let addr = (instr.args[0] as u16) * 256 + (instr.args[1] as u16);
                self.pc = addr + self.registers[0] as u16;
            },
            Instructions::RndVxByte => {
                let rnd_value = random_byte();
                self.registers[instr.args[0] as usize] = rnd_value & instr.args[1];
                self.pc += 2;
                proof {
                    let out = ExecOut {
                        cpu: self@,
                        fb: final(screen).fb(),
                        last_key: *final(last_key),
                    };
                    assert(out == spec_execute(
                        old(self)@,
                        instr.int,
                        instr.args@,
                        pressed_keys@,
                        *old(last_key),
                        rnd_value,
                        old(screen).fb(),
                    ));
                }
            },
            Instructions::SkpVx => {
                let key_hex = self.registers[instr.args[0] as usize];
                if pressed_keys[key_hex as usize] == 1 {
                    self.pc += 4;
                } else {
                    self.pc += 2;
                }
            },
            Instructions::SknpVx => {
                let key_hex = self.registers[instr.args[0] as usize];
                if pressed_keys[key_hex as usize] == 0 {
                    self.pc += 4;
                } else {
                    self.pc += 2;
                }
            },
            Instructions::DrwVxVyNib => {
                let n = instr.args[2];
                let rx = self.registers[instr.args[0] as usize];
                let ry = self.registers[instr.args[1] as usize];
                let i0 = self.i;
                self.registers[0xF] = 0;
                let mut row: u8 = 0;
                while row < n
                    invariant
                        row <= n,
                        self@ == (CpuView {
                            registers: old(self)@.registers.update(
                                15,
                                if spec_draw_collision(
                                    old(screen).fb(),
                                    old(self)@.ram,
                                    i0,
                                    rx,
                                    ry,
                                    8 * row as int,
                                ) {
                                    1u8
                                } else {
                                    0u8
                                },
                            ),
                            ..old(self)@
                        }),
                        screen.fb() == spec_draw_fb(
                            old(screen).fb(),
                            old(self)@.ram,
                            i0,
                            rx,
                            ry,
                            8 * row as int,
                        ),
                    decreases n - row,
                {
                    let line = self.ram[i0 as usize + row as usize];
                    let mut pos: u8 = 0;
                    while pos < 8
                        invariant
                            pos <= 8,
                            row < n,
                            line == old(self)@.ram[i0 as int + row as int],
                            self@ == (CpuView {
                                registers: old(self)@.registers.update(
                                    15,
                                    if spec_draw_collision(
                                        old(screen).fb(),
                                        old(self)@.ram,
                                        i0,
                                        rx,
                                        ry,
                                        8 * row as int + pos as int,
                                    ) {
                                        1u8
                                    } else {
                                        0u8
                                    },
                                ),
                                ..old(self)@
                            }),
                            screen.fb() == spec_draw_fb(
                                old(screen).fb(),
                                old(self)@.ram,
                                i0,
                                rx,
                                ry,
                                8 * row as int + pos as int,
                            ),
                        decreases 8 - pos,
                    {
                        let ghost k = 8 * row as int + pos as int;
                        let value = (line >> (7 - pos)) & 1;
                        let px = ((rx as u16 + pos as u16) % 64) as u8;
                        let py = ((ry as u16 + row as u16) % 32) as u8;
                        proof {
                            assert(k / 8 == row as int && k % 8 == pos as int);
                            assert(sprite_pixel(old(self)@.ram, i0, rx, ry, k) == (px, py, value));
                        }
                        let set_vf = screen.draw(px, py, value);
                        if set_vf {
                            self.registers[0xF] = 1;
                            proof {
                                assert(self@.registers =~= old(self)@.registers.update(15, 1u8));
                            }
                        }
                        pos += 1;
                    }
                    row += 1;
                }
                self.pc += 2;
            },
            Instructions::LdVxDt => {
                self.registers[instr.args[0] as usize] = self.dt;
                self.pc += 2;
            },
            Instructions::LdVxK => {
                if *last_key != 255 {
                    self.registers[instr.args[0] as usize] = *last_key;
                    self.pc += 2;
                    *last_key = 255;
                }
            },
            Instructions::LdDtVx => {
                self.dt = self.registers[instr.args[0] as usize];
                self.pc += 2;
            },
            Instructions::LdStVx => {
                self.st = self.registers[instr.args[0] as usize];
                audio_device.enable_sound();
                self.pc += 2;
            },
            Instructions::AddIVx => {
                self.i = self.i + self.registers[instr.args[0] as usize] as u16;
                self.pc += 2;
            },
            Instructions::LdFVx => {
                self.i = self.registers[instr.args[0] as usize] as u16 * 5;
                self.pc += 2;
            },
            Instructions::LdBVx => {
                let v = self.registers[instr.args[0] as usize];
                let base = self.i as usize;
                self.ram[base] = v / 100;
                self.ram[base + 1] = (v / 10) % 10;
                self.ram[base + 2] = v % 10;
                self.pc += 2;
            },
            Instructions::LdIVx => {
                let count = instr.args[0] as usize + 1;
                let base = self.i as usize;
                let mut k: usize = 0;
                while k < count
                    invariant
                        k <= count,
                        self@ == (CpuView {
                            ram: spec_store_regs(
                                old(self)@.ram,
                                old(self)@.registers,
                                base as int,
                                k as int,
                            ),
                            ..old(self)@
                        }),
                    decreases count - k,
                {
                    self.ram[base + k] = self.registers[k];
                    k += 1;
                }
                self.pc += 2;
            },
            Instructions::LdVxI => {
                let count = instr.args[0] as usize + 1;
                let base = self.i as usize;
                let mut k: usize = 0;
                while k < count
                    invariant
                        k <= count,
                        self@ == (CpuView {
                            registers: spec_load_regs(
                                old(self)@.registers,
                                old(self)@.ram,
                                base as int,
                                k as int,
                            ),
                            ..old(self)@
                        }),
                    decreases count - k,
                {
                    self.registers[k] = self.ram[base + k];
                    k += 1;
                }
                self.pc += 2;
            },
        }
        Ok(())
    }

    /// Decrements each running timer by one. When the sound timer reaches
    /// zero here, the sound device is told to stop.
    pub fn tick<A: Audible>(&mut self, audio_device: &mut A)
        ensures
            final(self)@ =~= (CpuView {
                dt: if old(self).dt > 0 { (old(self).dt - 1) as u8 } else { 0 },
                st: if old(self).st > 0 { (old(self).st - 1) as u8 } else { 0 },
                ..old(self)@
            }),
            old(self).st == 1 ==> !final(audio_device).playing(),
            old(self).st != 1 ==> *final(audio_device) == *old(audio_device),
    {
        if self.dt > 0 {
            self.dt -= 1;
        }

        if self.st > 0 {
            self.st -= 1;

            if self.st == 0 {
                audio_device.disable_sound();
            }
        }
    }
}

/// Storing registers does not change how much memory there is.
proof fn lemma_store_regs_len(ram: Seq<u8>, regs: Seq<u8>, base: int, count: int)
    requires
        0 <= base,
        base + count <= ram.len(),
    ensures
        spec_store_regs(ram, regs, base, count).len() == ram.len(),
    decreases count,
{
    if count > 0 {
        lemma_store_regs_len(ram, regs, base, count - 1);
    }
}

/// Loading registers does not change how many registers there are.
proof fn lemma_load_regs_len(regs: Seq<u8>, ram: Seq<u8>, base: int, count: int)
    requires
        count <= regs.len(),
    ensures
        spec_load_regs(regs, ram, base, count).len() == regs.len(),
    decreases count,
{
    if count > 0 {
        lemma_load_regs_len(regs, ram, base, count - 1);
    }
}

/// Inside the stored range, memory holds the registers that were stored.
proof fn lemma_store_regs_reads(ram: Seq<u8>, regs: Seq<u8>, base: int, count: int, j: int)
    requires
        0 <= j < count,
        0 <= base,
        base + count <= ram.len(),
    ensures
        spec_store_regs(ram, regs, base, count)[base + j] == regs[j],
    decreases count,
{
    lemma_store_regs_len(ram, regs, base, count - 1);
    if j < count - 1 {
        lemma_store_regs_reads(ram, regs, base, count - 1, j);
    }
}

/// Inside the loaded range, the registers hold the memory that was loaded.
proof fn lemma_load_regs_reads(regs: Seq<u8>, ram: Seq<u8>, base: int, count: int, j: int)
    requires
        0 <= j < count,
        count <= regs.len(),
    ensures
        spec_load_regs(regs, ram, base, count)[j] == ram[base + j],
    decreases count,
{
    lemma_load_regs_len(regs, ram, base, count - 1);
    if j < count - 1 {
        lemma_load_regs_reads(regs, ram, base, count - 1, j);
    }
}

/// The framebuffer position that the k-th pixel of a sprite draw lands on.
pub open spec fn sprite_index(ram: Seq<u8>, i0: u16, rx: u8, ry: u8, k: int) -> int {
    let p = sprite_pixel(ram, i0, rx, ry, k);
    crate::drawable::fb_index(p.0, p.1)
}

/// Every sprite pixel lands on the screen.
proof fn lemma_sprite_index_bounds(ram: Seq<u8>, i0: u16, rx: u8, ry: u8, k: int)
    ensures
        0 <= sprite_index(ram, i0, rx, ry, k) < 2048,
{
}

/// Within one draw of at most fifteen rows, no two pixels land on the same
/// framebuffer position: the eight columns of a row stay distinct under the
/// wrap modulo 64, and the rows stay distinct under the wrap modulo 32.
proof fn lemma_sprite_index_distinct(
    ram: Seq<u8>,
    i0: u16,
    rx: u8,
    ry: u8,
    n: u8,
    k1: int,
    k2: int,
)
    requires
        n <= 15,
        0 <= k1 < k2 < 8 * n,
    ensures
        sprite_index(ram, i0, rx, ry, k1) != sprite_index(ram, i0, rx, ry, k2),
{
    let r1 = k1 / 8;
    let c1 = k1 % 8;
    let r2 = k2 / 8;
    let c2 = k2 % 8;
    assert(0 <= r1 < n && 0 <= r2 < n && 0 <= c1 < 8 && 0 <= c2 < 8);
    if r1 == r2 {
        assert(c1 != c2);
        let a = rx + c1;
        let b = rx + c2;
        assert(a == 64 * (a / 64) + a % 64);
        assert(b == 64 * (b / 64) + b % 64);
        assert(a % 64 != b % 64);
    } else {
        let a = ry + r1;
        let b = ry + r2;
        assert(a == 32 * (a / 32) + a % 32);
        assert(b == 32 * (b / 32) + b % 32);
        assert(a % 32 != b % 32);
    }
}

/// A draw never changes how many pixels there are.
proof fn lemma_draw_fb_len(fb: Seq<bool>, ram: Seq<u8>, i0: u16, rx: u8, ry: u8, k: int)
    requires
        fb.len() == 2048,
    ensures
        spec_draw_fb(fb, ram, i0, rx, ry, k).len() == 2048,
    decreases k,
{
    if k > 0 {
        lemma_draw_fb_len(fb, ram, i0, rx, ry, k - 1);
        lemma_sprite_index_bounds(ram, i0, rx, ry, k - 1);
    }
}

/// A position that none of the first `k` pixels lands on keeps its value.
proof fn lemma_draw_fb_frame(
    fb: Seq<bool>,
    ram: Seq<u8>,
    i0: u16,
    rx: u8,
    ry: u8,
    k: int,
    i: int,
)
    requires
        fb.len() == 2048,
        0 <= i < 2048,
        forall|j: int| 0 <= j < k ==> sprite_index(ram, i0, rx, ry, j) != i,
    ensures
        spec_draw_fb(fb, ram, i0, rx, ry, k)[i] == fb[i],
    decreases k,
{
    if k > 0 {
        lemma_draw_fb_frame(fb, ram, i0, rx, ry, k - 1, i);
        lemma_draw_fb_len(fb, ram, i0, rx, ry, k - 1);
        lemma_sprite_index_bounds(ram, i0, rx, ry, k - 1);
    }
}

/// The position that pixel `j` lands on holds its old value xor-ed with the
/// sprite bit, once the draw has processed pixel `j`.
proof fn lemma_draw_fb_value(
    fb: Seq<bool>,
    ram: Seq<u8>,
    i0: u16,
    rx: u8,
    ry: u8,
    n: u8,
    k: int,
    j: int,
)
    requires
        fb.len() == 2048,
        n <= 15,
        0 <= j < k <= 8 * n,
    ensures
        spec_draw_fb(fb, ram, i0, rx, ry, k)[sprite_index(ram, i0, rx, ry, j)] == (fb[sprite_index(
            ram,
            i0,
            rx,
            ry,
            j,
        )] ^ (sprite_pixel(ram, i0, rx, ry, j).2 > 0)),
    decreases k,
{
    lemma_draw_fb_len(fb, ram, i0, rx, ry, k - 1);
    lemma_sprite_index_bounds(ram, i0, rx, ry, k - 1);
    lemma_sprite_index_bounds(ram, i0, rx, ry, j);
    if j == k - 1 {
        assert forall|j2: int| 0 <= j2 < k - 1 implies sprite_index(ram, i0, rx, ry, j2)
            != sprite_index(ram, i0, rx, ry, j) by {
            lemma_sprite_index_distinct(ram, i0, rx, ry, n, j2, j);
        }
        lemma_draw_fb_frame(fb, ram, i0, rx, ry, k - 1, sprite_index(ram, i0, rx, ry, j));
    } else {
        lemma_draw_fb_value(fb, ram, i0, rx, ry, n, k - 1, j);
        lemma_sprite_index_distinct(ram, i0, rx, ry, n, j, k - 1);
    }
}

/// Drawing the same sprite at the same place twice restores the
/// framebuffer: within one draw every pixel lands on its own position, so
/// the second draw xor-s every touched position back.
pub proof fn lemma_draw_twice_restores(
    fb: Seq<bool>,
    ram: Seq<u8>,
    i0: u16,
    rx: u8,
    ry: u8,
    n: u8,
)
    requires
        fb.len() == crate::drawable::fb_size(),
        n <= 15,
    ensures
        spec_draw_fb(spec_draw_fb(fb, ram, i0, rx, ry, 8 * n), ram, i0, rx, ry, 8 * n) == fb,
{
    let full1 = spec_draw_fb(fb, ram, i0, rx, ry, 8 * n);
    let full2 = spec_draw_fb(full1, ram, i0, rx, ry, 8 * n);
    lemma_draw_fb_len(fb, ram, i0, rx, ry, 8 * n);
    lemma_draw_fb_len(full1, ram, i0, rx, ry, 8 * n);
    assert forall|i: int| 0 <= i < 2048 implies full2[i] == fb[i] by {
        if exists|j: int| 0 <= j < 8 * n && sprite_index(ram, i0, rx, ry, j) == i {
            let j = choose|j: int| 0 <= j < 8 * n && sprite_index(ram, i0, rx, ry, j) == i;
            lemma_draw_fb_value(fb, ram, i0, rx, ry, n, 8 * n, j);
            lemma_draw_fb_value(full1, ram, i0, rx, ry, n, 8 * n, j);
        } else {
            assert forall|j: int| 0 <= j < 8 * n implies sprite_index(ram, i0, rx, ry, j)
                != i by {}
            lemma_draw_fb_frame(fb, ram, i0, rx, ry, 8 * n, i);
            lemma_draw_fb_frame(full1, ram, i0, rx, ry, 8 * n, i);
        }
    }
    assert(full2 =~= fb);
}

/// A call followed by a return comes back: the return lands just past the
/// call, the stack pointer is as it was (empty again when it started out
/// empty), and nothing else of the machine has moved. During the call the
/// stack top holds the return address.
pub proof fn lemma_call_return_roundtrip(
    s: CpuView,
    args: Seq<u8>,
    keys: Seq<u8>,
    last_key: u8,
    fb: Seq<bool>,
)
    requires
        s.sp == STACK_EMPTY || s.sp < 0xF,
        s.stack.len() == 16,
    ensures
        ({
            let mid = spec_execute(s, Instructions::Call, args, keys, last_key, 0, fb).cpu;
            let back = spec_execute(mid, Instructions::Ret, seq![], keys, last_key, 0, fb).cpu;
            &&& spec_exec_err(s, Instructions::Call) is None
            &&& spec_exec_err(mid, Instructions::Ret) is None
            &&& mid.pc == spec_addr(args)
            &&& mid.sp <= 0xF
            &&& mid.stack[mid.sp as int] == (s.pc + 2) as u16
            &&& back.pc == (s.pc + 2) as u16
            &&& (s.sp == STACK_EMPTY ==> back.sp == STACK_EMPTY)
            &&& (s.sp < 0xF ==> back.sp == s.sp)
            &&& back.registers == s.registers
            &&& back.ram == s.ram
            &&& back.i == s.i
            &&& back.dt == s.dt
            &&& back.st == s.st
        }),
{
}

/// Storing registers 0..=x to memory and loading the same range back
/// restores those registers, whatever happened to the register file in
/// between.
pub proof fn lemma_store_load_roundtrip(
    s: CpuView,
    x: u8,
    wiped: Seq<u8>,
    keys: Seq<u8>,
    last_key: u8,
    fb: Seq<bool>,
)
    requires
        x < 16,
        s.registers.len() == 16,
        s.ram.len() == 4096,
        s.i + x <= 4095,
        wiped.len() == 16,
    ensures
        ({
            let stored = spec_execute(s, Instructions::LdIVx, seq![x], keys, last_key, 0, fb).cpu;
            let wiped_state = CpuView { registers: wiped, ..stored };
            let loaded = spec_execute(
                wiped_state,
                Instructions::LdVxI,
                seq![x],
                keys,
                last_key,
                0,
                fb,
            ).cpu;
            forall|j: int| 0 <= j <= x ==> loaded.registers[j] == s.registers[j]
        }),
{
    let stored = spec_execute(s, Instructions::LdIVx, seq![x], keys, last_key, 0, fb).cpu;
    let wiped_state = CpuView { registers: wiped, ..stored };
    let loaded = spec_execute(wiped_state, Instructions::LdVxI, seq![x], keys, last_key, 0, fb).cpu;
    assert forall|j: int| 0 <= j <= x implies loaded.registers[j] == s.registers[j] by {
        lemma_load_regs_reads(wiped, stored.ram, s.i as int, x as int + 1, j);
        lemma_store_regs_reads(s.ram, s.registers, s.i as int, x as int + 1, j);
    }
}

} // verus!
