use chip8::cpu::{Cpu, Instruction};
use chip8::dummy_screen::DummyScreen;
use chip8::dummy_sound_device::DummySoundDevice;
use chip8::instructions::Instructions;

fn run(cpu: &mut Cpu, int: Instructions, args: Vec<u8>) {
    let mut screen = DummyScreen::new();
    let mut audio = DummySoundDevice::new();
    let keys = [0u8; 16];
    let mut last_key: u8 = 255;
    cpu.execute(Instruction { int, args }, &mut screen, &mut audio, &keys, &mut last_key)
        .unwrap();
}

#[test]
fn add_reg_carries_and_wraps() {
    let mut cpu = Cpu::new();
    cpu.registers[0] = 0xFF;
    cpu.registers[1] = 0x01;
    run(&mut cpu, Instructions::AddVxVy, vec![0, 1]);
    assert_eq!(cpu.registers[0], 0x00);
    assert_eq!(cpu.registers[0xF], 1);
}

#[test]
fn add_reg_without_carry() {
    let mut cpu = Cpu::new();
    cpu.registers[0] = 0x01;
    cpu.registers[1] = 0x01;
    cpu.registers[0xF] = 1;
    run(&mut cpu, Instructions::AddVxVy, vec![0, 1]);
    assert_eq!(cpu.registers[0], 0x02);
    assert_eq!(cpu.registers[0xF], 0);
}

#[test]
fn sub_reg_sets_not_borrow_flag() {
    let mut cpu = Cpu::new();
    cpu.registers[2] = 0x05;
    cpu.registers[3] = 0x03;
    run(&mut cpu, Instructions::SubVxVy, vec![2, 3]);
    assert_eq!(cpu.registers[2], 0x02);
    assert_eq!(cpu.registers[0xF], 1);
}

#[test]
fn sub_reg_wraps_on_borrow() {
    let mut cpu = Cpu::new();
    cpu.registers[2] = 0x03;
    cpu.registers[3] = 0x05;
    cpu.registers[0xF] = 1;
    run(&mut cpu, Instructions::SubVxVy, vec![2, 3]);
    assert_eq!(cpu.registers[2], 0xFE);
    assert_eq!(cpu.registers[0xF], 0);
}

#[test]
fn subn_reg_subtracts_the_other_way() {
    let mut cpu = Cpu::new();
    cpu.registers[4] = 0x03;
    cpu.registers[5] = 0x08;
    run(&mut cpu, Instructions::SubnVxVy, vec![4, 5]);
    assert_eq!(cpu.registers[4], 0x05);
    assert_eq!(cpu.registers[0xF], 1);

    let mut cpu = Cpu::new();
    cpu.registers[4] = 0x08;
    cpu.registers[5] = 0x03;
    run(&mut cpu, Instructions::SubnVxVy, vec![4, 5]);
    assert_eq!(cpu.registers[4], 0xFB);
    assert_eq!(cpu.registers[0xF], 0);
}

#[test]
fn shift_right_reports_the_dropped_bit() {
    let mut cpu = Cpu::new();
    cpu.registers[6] = 0x03;
    run(&mut cpu, Instructions::ShrVxVy, vec![6, 0]);
    assert_eq!(cpu.registers[6], 0x01);
    assert_eq!(cpu.registers[0xF], 1);

    let mut cpu = Cpu::new();
    cpu.registers[6] = 0x04;
    run(&mut cpu, Instructions::ShrVxVy, vec![6, 0]);
    assert_eq!(cpu.registers[6], 0x02);
    assert_eq!(cpu.registers[0xF], 0);
}

#[test]
fn shift_left_reports_the_dropped_bit() {
    let mut cpu = Cpu::new();
    cpu.registers[7] = 0x81;
    run(&mut cpu, Instructions::ShlVxVy, vec![7, 0]);
    assert_eq!(cpu.registers[7], 0x02);
    assert_eq!(cpu.registers[0xF], 1);

    let mut cpu = Cpu::new();
    cpu.registers[7] = 0x41;
    run(&mut cpu, Instructions::ShlVxVy, vec![7, 0]);
    assert_eq!(cpu.registers[7], 0x82);
    assert_eq!(cpu.registers[0xF], 0);
}

#[test]
fn add_byte_wraps_without_flag() {
    let mut cpu = Cpu::new();
    cpu.registers[1] = 0xF0;
    cpu.registers[0xF] = 0;
    run(&mut cpu, Instructions::AddVxByte, vec![1, 0x20]);
    assert_eq!(cpu.registers[1], 0x10);
    assert_eq!(cpu.registers[0xF], 0);
}

#[test]
fn bitwise_ops_combine_into_vx() {
    let mut cpu = Cpu::new();
    cpu.registers[0] = 0b1100;
    cpu.registers[1] = 0b1010;
    run(&mut cpu, Instructions::OrVxVy, vec![0, 1]);
    assert_eq!(cpu.registers[0], 0b1110);

    let mut cpu = Cpu::new();
    cpu.registers[0] = 0b1100;
    cpu.registers[1] = 0b1010;
    run(&mut cpu, Instructions::AndVxVy, vec![0, 1]);
    assert_eq!(cpu.registers[0], 0b1000);

    let mut cpu = Cpu::new();
    cpu.registers[0] = 0b1100;
    cpu.registers[1] = 0b1010;
    run(&mut cpu, Instructions::XorVxVy, vec![0, 1]);
    assert_eq!(cpu.registers[0], 0b0110);
}

#[test]
fn load_ops_move_values() {
    let mut cpu = Cpu::new();
    run(&mut cpu, Instructions::LdVxByte, vec![3, 0xAB]);
    assert_eq!(cpu.registers[3], 0xAB);
    run(&mut cpu, Instructions::LdVxVy, vec![4, 3]);
    assert_eq!(cpu.registers[4], 0xAB);
}

#[test]
fn random_masks_the_drawn_byte() {
    let mut cpu = Cpu::new();
    cpu.registers[2] = 0xFF;
    run(&mut cpu, Instructions::RndVxByte, vec![2, 0x00]);
    assert_eq!(cpu.registers[2], 0x00);

    let mut cpu = Cpu::new();
    run(&mut cpu, Instructions::RndVxByte, vec![2, 0x0F]);
    assert_eq!(cpu.registers[2] & 0xF0, 0);
}

#[test]
fn sub_reg_on_the_flag_register_compares_the_starting_values() {
    // With Vx = VF the not-borrow comparison still reads the registers as
    // they were when the instruction began; the subtraction then operates
    // on the freshly written flag.
    let mut cpu = Cpu::new();
    cpu.registers[0xF] = 0x05;
    cpu.registers[1] = 0x03;
    run(&mut cpu, Instructions::SubVxVy, vec![0xF, 1]);
    // flag := 1 (5 > 3), then VF := 1 - 3 wrapping.
    assert_eq!(cpu.registers[0xF], 0xFE);
}

#[test]
fn shift_right_on_the_flag_register_shifts_the_written_flag() {
    let mut cpu = Cpu::new();
    cpu.registers[0xF] = 0x03;
    run(&mut cpu, Instructions::ShrVxVy, vec![0xF, 0]);
    // flag := 3 & 1 = 1, then VF := 1 >> 1.
    assert_eq!(cpu.registers[0xF], 0x00);
}

#[test]
fn arithmetic_advances_the_program_counter_by_two() {
    let mut cpu = Cpu::new();
    assert_eq!(cpu.pc, 0x200);
    run(&mut cpu, Instructions::AddVxVy, vec![0, 1]);
    assert_eq!(cpu.pc, 0x202);
    run(&mut cpu, Instructions::LdVxByte, vec![0, 1]);
    assert_eq!(cpu.pc, 0x204);
}
