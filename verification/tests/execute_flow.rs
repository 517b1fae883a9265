use chip8::constants::STACK_EMPTY;
use chip8::cpu::{Cpu, Instruction};
use chip8::dummy_screen::DummyScreen;
use chip8::dummy_sound_device::DummySoundDevice;
use chip8::errors::CpuError;
use chip8::instructions::Instructions;

fn run_with_keys(cpu: &mut Cpu, int: Instructions, args: Vec<u8>, keys: [u8; 16]) {
    let mut screen = DummyScreen::new();
    let mut audio = DummySoundDevice::new();
    let mut last_key: u8 = 255;
    cpu.execute(Instruction { int, args }, &mut screen, &mut audio, &keys, &mut last_key)
        .unwrap();
}

fn run(cpu: &mut Cpu, int: Instructions, args: Vec<u8>) {
    run_with_keys(cpu, int, args, [0u8; 16]);
}

fn step(cpu: &mut Cpu) -> Result<(), CpuError> {
    let mut screen = DummyScreen::new();
    let mut audio = DummySoundDevice::new();
    let keys = [0u8; 16];
    let mut last_key: u8 = 255;
    cpu.step(&mut screen, &mut audio, &keys, &mut last_key)
}

#[test]
fn call_then_return_comes_back_past_the_call() {
    let mut cpu = Cpu::new();
    cpu.pc = 0x300;
    // CALL 0x320 at 0x300, RET at 0x320.
    cpu.ram[0x300] = 0x23;
    cpu.ram[0x301] = 0x20;
    cpu.ram[0x320] = 0x00;
    cpu.ram[0x321] = 0xEE;

    step(&mut cpu).unwrap();
    assert_eq!(cpu.pc, 0x320);
    assert_eq!(cpu.sp, 0);
    assert_eq!(cpu.stack[0], 0x302);

    step(&mut cpu).unwrap();
    assert_eq!(cpu.pc, 0x302);
    assert_eq!(cpu.sp, STACK_EMPTY);
}

#[test]
fn return_on_empty_stack_is_a_stack_underflow() {
    let mut cpu = Cpu::new();
    cpu.pc = 0x300;
    cpu.ram[0x300] = 0x00;
    cpu.ram[0x301] = 0xEE;
    let r = step(&mut cpu);
    assert_eq!(r.unwrap_err(), CpuError::StackUnderflow { pc: 0x300 });
    assert_eq!(cpu.pc, 0x300);
}

#[test]
fn call_on_a_full_stack_is_a_stack_overflow() {
    let mut cpu = Cpu::new();
    cpu.pc = 0x300;
    cpu.sp = 0xF;
    cpu.ram[0x300] = 0x23;
    cpu.ram[0x301] = 0x20;
    let r = step(&mut cpu);
    assert_eq!(r.unwrap_err(), CpuError::StackOverflow { pc: 0x300 });
    assert_eq!(cpu.sp, 0xF);
    assert_eq!(cpu.pc, 0x300);
}

#[test]
fn sixteen_nested_calls_fill_the_stack() {
    let mut cpu = Cpu::new();
    for _ in 0..16 {
        run(&mut cpu, Instructions::Call, vec![0x3, 0x00]);
    }
    assert_eq!(cpu.sp, 0xF);
    let mut screen = DummyScreen::new();
    let mut audio = DummySoundDevice::new();
    let keys = [0u8; 16];
    let mut last_key: u8 = 255;
    let r = cpu.execute(
        Instruction { int: Instructions::Call, args: vec![0x3, 0x00] },
        &mut screen,
        &mut audio,
        &keys,
        &mut last_key,
    );
    assert!(matches!(r, Err(CpuError::StackOverflow { .. })));
}

#[test]
fn fetch_past_memory_end_is_out_of_bounds() {
    let mut cpu = Cpu::new();
    cpu.pc = 4095;
    assert_eq!(step(&mut cpu).unwrap_err(), CpuError::AddressOutOfBounds { pc: 4095 });
    cpu.pc = 0xFFFF;
    assert_eq!(step(&mut cpu).unwrap_err(), CpuError::AddressOutOfBounds { pc: 0xFFFF });
}

#[test]
fn unknown_opcode_is_a_decode_failure() {
    let mut cpu = Cpu::new();
    cpu.pc = 0x200;
    // 0x0000 matches no catalog entry.
    let r = step(&mut cpu);
    assert_eq!(r.unwrap_err(), CpuError::DecodeFailure { pc: 0x200, opcode: 0x0000 });
}

#[test]
fn jump_sets_the_program_counter() {
    let mut cpu = Cpu::new();
    run(&mut cpu, Instructions::Jp, vec![0x4, 0x56]);
    assert_eq!(cpu.pc, 0x456);
}

#[test]
fn jump_plus_v0_adds_the_register() {
    let mut cpu = Cpu::new();
    cpu.registers[0] = 0x10;
    run(&mut cpu, Instructions::JpV0Addr, vec![0x4, 0x00]);
    assert_eq!(cpu.pc, 0x410);
}

#[test]
fn skips_take_four_or_two() {
    let mut cpu = Cpu::new();
    cpu.registers[1] = 0x33;
    run(&mut cpu, Instructions::SeVxByte, vec![1, 0x33]);
    assert_eq!(cpu.pc, 0x204);
    run(&mut cpu, Instructions::SeVxByte, vec![1, 0x44]);
    assert_eq!(cpu.pc, 0x206);

    let mut cpu = Cpu::new();
    cpu.registers[1] = 0x33;
    run(&mut cpu, Instructions::SneVxByte, vec![1, 0x44]);
    assert_eq!(cpu.pc, 0x204);

    let mut cpu = Cpu::new();
    cpu.registers[1] = 7;
    cpu.registers[2] = 7;
    run(&mut cpu, Instructions::SeVxVy, vec![1, 2]);
    assert_eq!(cpu.pc, 0x204);
    run(&mut cpu, Instructions::SneVxVy, vec![1, 2]);
    assert_eq!(cpu.pc, 0x206);
    cpu.registers[2] = 8;
    run(&mut cpu, Instructions::SneVxVy, vec![1, 2]);
    assert_eq!(cpu.pc, 0x20A);
}

#[test]
fn key_skips_follow_the_pressed_bitset() {
    let mut keys = [0u8; 16];
    keys[0x4] = 1;

    let mut cpu = Cpu::new();
    cpu.registers[0] = 0x4;
    run_with_keys(&mut cpu, Instructions::SkpVx, vec![0], keys);
    assert_eq!(cpu.pc, 0x204);
    run_with_keys(&mut cpu, Instructions::SknpVx, vec![0], keys);
    assert_eq!(cpu.pc, 0x206);

    let mut cpu = Cpu::new();
    cpu.registers[0] = 0x5;
    run_with_keys(&mut cpu, Instructions::SkpVx, vec![0], keys);
    assert_eq!(cpu.pc, 0x202);
    run_with_keys(&mut cpu, Instructions::SknpVx, vec![0], keys);
    assert_eq!(cpu.pc, 0x206);
}

#[test]
fn wait_for_key_stalls_until_a_key_arrives() {
    let mut cpu = Cpu::new();
    let mut screen = DummyScreen::new();
    let mut audio = DummySoundDevice::new();
    let keys = [0u8; 16];

    let mut last_key: u8 = 255;
    cpu.execute(
        Instruction { int: Instructions::LdVxK, args: vec![2] },
        &mut screen,
        &mut audio,
        &keys,
        &mut last_key,
    )
    .unwrap();
    assert_eq!(cpu.pc, 0x200, "the program counter must not advance while no key is pending");

    let mut last_key: u8 = 0xB;
    cpu.execute(
        Instruction { int: Instructions::LdVxK, args: vec![2] },
        &mut screen,
        &mut audio,
        &keys,
        &mut last_key,
    )
    .unwrap();
    assert_eq!(cpu.registers[2], 0xB);
    assert_eq!(cpu.pc, 0x202);
    assert_eq!(last_key, 255, "the pending key is consumed");
}

#[test]
fn step_is_safe_spots_the_machine_limits() {
    let mut cpu = Cpu::new();
    // DRW V0, V1, 15 with the index register near the end of memory.
    cpu.ram[0x200] = 0xD0;
    cpu.ram[0x201] = 0x1F;
    cpu.i = 4090;
    assert!(!cpu.step_is_safe());
    cpu.i = 4081;
    assert!(cpu.step_is_safe());

    // SKP V0 with a register value past the bitset.
    let mut cpu = Cpu::new();
    cpu.ram[0x200] = 0xE0;
    cpu.ram[0x201] = 0x9E;
    cpu.registers[0] = 16;
    assert!(!cpu.step_is_safe());
    cpu.registers[0] = 15;
    assert!(cpu.step_is_safe());

    // An unknown opcode is safe to step: it reports a decode failure.
    let mut cpu = Cpu::new();
    assert!(cpu.step_is_safe());
}
