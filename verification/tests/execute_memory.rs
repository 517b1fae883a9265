use chip8::cpu::{Cpu, Instruction};
use chip8::dummy_screen::DummyScreen;
use chip8::dummy_sound_device::DummySoundDevice;
use chip8::instructions::Instructions;

fn run(cpu: &mut Cpu, int: Instructions, args: Vec<u8>) {
    let mut screen = DummyScreen::new();
    let mut audio = DummySoundDevice::new();
    let keys = [0u8; 16];
    let mut last_key: u8 = 255;
    cpu.execute(Instruction { int, args }, &mut screen, &mut audio, &keys, &mut last_key)
        .unwrap();
}

#[test]
fn store_then_load_restores_the_registers() {
    let mut cpu = Cpu::new();
    cpu.i = 0x400;
    cpu.registers[0] = 0x11;
    cpu.registers[1] = 0x22;
    cpu.registers[2] = 0x33;
    cpu.registers[3] = 0x44;
    run(&mut cpu, Instructions::LdIVx, vec![3]);
    assert_eq!(&cpu.ram[0x400..0x404], &[0x11, 0x22, 0x33, 0x44]);

    for k in 0..4 {
        cpu.registers[k] = 0;
    }
    run(&mut cpu, Instructions::LdVxI, vec![3]);
    assert_eq!(cpu.registers[0], 0x11);
    assert_eq!(cpu.registers[1], 0x22);
    assert_eq!(cpu.registers[2], 0x33);
    assert_eq!(cpu.registers[3], 0x44);
}

#[test]
fn store_and_load_are_inclusive_of_the_named_register() {
    let mut cpu = Cpu::new();
    cpu.i = 0x500;
    cpu.registers[0] = 0xAA;
    run(&mut cpu, Instructions::LdIVx, vec![0]);
    assert_eq!(cpu.ram[0x500], 0xAA);
    assert_eq!(cpu.ram[0x501], 0);

    cpu.ram[0x501] = 0x77;
    cpu.registers[0] = 0;
    cpu.registers[1] = 0;
    run(&mut cpu, Instructions::LdVxI, vec![0]);
    assert_eq!(cpu.registers[0], 0xAA);
    assert_eq!(cpu.registers[1], 0, "only registers up to Vx are loaded");
}

#[test]
fn bcd_stores_the_three_decimal_digits() {
    let mut cpu = Cpu::new();
    cpu.i = 0x600;
    cpu.registers[5] = 254;
    run(&mut cpu, Instructions::LdBVx, vec![5]);
    assert_eq!(cpu.ram[0x600], 2);
    assert_eq!(cpu.ram[0x601], 5);
    assert_eq!(cpu.ram[0x602], 4);

    cpu.registers[5] = 7;
    run(&mut cpu, Instructions::LdBVx, vec![5]);
    assert_eq!(cpu.ram[0x600], 0);
    assert_eq!(cpu.ram[0x601], 0);
    assert_eq!(cpu.ram[0x602], 7);
}

#[test]
fn index_register_ops() {
    let mut cpu = Cpu::new();
    run(&mut cpu, Instructions::LdIAddr, vec![0xA, 0xBC]);
    assert_eq!(cpu.i, 0xABC);

    cpu.registers[3] = 0x10;
    run(&mut cpu, Instructions::AddIVx, vec![3]);
    assert_eq!(cpu.i, 0xACC);

    cpu.registers[4] = 0xC;
    run(&mut cpu, Instructions::LdFVx, vec![4]);
    assert_eq!(cpu.i, 0xC * 5, "five bytes per font glyph, glyphs from address 0");
}

#[test]
fn timers_move_through_registers() {
    let mut cpu = Cpu::new();
    cpu.dt = 0x42;
    run(&mut cpu, Instructions::LdVxDt, vec![6]);
    assert_eq!(cpu.registers[6], 0x42);

    cpu.registers[7] = 0x99;
    run(&mut cpu, Instructions::LdDtVx, vec![7]);
    assert_eq!(cpu.dt, 0x99);
}

#[test]
fn loading_the_sound_timer_starts_the_sound() {
    let mut cpu = Cpu::new();
    cpu.registers[1] = 30;
    let mut screen = DummyScreen::new();
    let mut audio = DummySoundDevice::new();
    let keys = [0u8; 16];
    let mut last_key: u8 = 255;
    cpu.execute(
        Instruction { int: Instructions::LdStVx, args: vec![1] },
        &mut screen,
        &mut audio,
        &keys,
        &mut last_key,
    )
    .unwrap();
    assert_eq!(cpu.st, 30);
    assert!(audio.on);
}
