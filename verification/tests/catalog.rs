use chip8::cpu::Cpu;
use chip8::errors::CpuError;
use chip8::instructions::Instructions;
use chip8::opcode_decoders::{opcode_decoders, ArgumentType};

#[test]
fn catalog_has_one_entry_per_kind() {
    let table = opcode_decoders();
    assert_eq!(table.len(), 34);
    for a in 0..table.len() {
        for b in 0..table.len() {
            if a != b {
                assert_ne!(table[a].instruction, table[b].instruction);
            }
        }
    }
}

#[test]
fn catalog_matches_at_most_one_entry_for_every_opcode() {
    let table = opcode_decoders();
    for op in 0..=0xFFFFu16 {
        let mut matches = 0;
        for entry in table.iter() {
            if op & entry.mask == entry.pattern {
                matches += 1;
            }
        }
        assert!(matches <= 1, "opcode {:#06X} matched {} entries", op, matches);
    }
}

#[test]
fn catalog_recognises_every_documented_encoding() {
    let table = opcode_decoders();
    let mut recognised = 0u32;
    for op in 0..=0xFFFFu16 {
        for entry in table.iter() {
            if op & entry.mask == entry.pattern {
                recognised += 1;
            }
        }
    }
    // 2 fixed encodings, 10 whole top-nibble families of 4096,
    // 12 low-nibble families of 256, 10 low-byte families of 16.
    assert_eq!(recognised, 2 + 10 * 4096 + 12 * 256 + 10 * 16);
}

#[test]
fn argument_rules_carry_the_documented_shapes() {
    let table = opcode_decoders();
    for entry in table.iter() {
        match entry.instruction {
            Instructions::Cls | Instructions::Ret => {
                assert_eq!(entry.argument_decoders.len(), 0);
            }
            Instructions::DrwVxVyNib => {
                assert_eq!(entry.argument_decoders.len(), 3);
                assert_eq!(entry.argument_decoders[0].mask, 0x0F00);
                assert_eq!(entry.argument_decoders[0].shift, 8);
                assert_eq!(entry.argument_decoders[0].kind, ArgumentType::Reg);
                assert_eq!(entry.argument_decoders[2].mask, 0x000F);
            }
            Instructions::Jp => {
                assert_eq!(entry.argument_decoders.len(), 2);
                assert_eq!(entry.argument_decoders[0].kind, ArgumentType::Addr);
            }
            _ => {
                assert!(entry.argument_decoders.len() <= 3);
            }
        }
    }
}

#[test]
fn decode_resolves_each_kind() {
    let cpu = Cpu::new();
    let cases: Vec<(u16, Instructions, Vec<u8>)> = vec![
        (0x00E0, Instructions::Cls, vec![]),
        (0x00EE, Instructions::Ret, vec![]),
        (0x1234, Instructions::Jp, vec![0x2, 0x34]),
        (0x2345, Instructions::Call, vec![0x3, 0x45]),
        (0x3A7F, Instructions::SeVxByte, vec![0xA, 0x7F]),
        (0x4B01, Instructions::SneVxByte, vec![0xB, 0x01]),
        (0x5120, Instructions::SeVxVy, vec![0x1, 0x2]),
        (0x6C55, Instructions::LdVxByte, vec![0xC, 0x55]),
        (0x70FF, Instructions::AddVxByte, vec![0x0, 0xFF]),
        (0x8120, Instructions::LdVxVy, vec![0x1, 0x2]),
        (0x8341, Instructions::OrVxVy, vec![0x3, 0x4]),
        (0x8562, Instructions::AndVxVy, vec![0x5, 0x6]),
        (0x8783, Instructions::XorVxVy, vec![0x7, 0x8]),
        (0x89A4, Instructions::AddVxVy, vec![0x9, 0xA]),
        (0x8BC5, Instructions::SubVxVy, vec![0xB, 0xC]),
        (0x8D06, Instructions::ShrVxVy, vec![0xD, 0x0]),
        (0x8EF7, Instructions::SubnVxVy, vec![0xE, 0xF]),
        (0x812E, Instructions::ShlVxVy, vec![0x1, 0x2]),
        (0x9340, Instructions::SneVxVy, vec![0x3, 0x4]),
        (0xAFED, Instructions::LdIAddr, vec![0xF, 0xED]),
        (0xB123, Instructions::JpV0Addr, vec![0x1, 0x23]),
        (0xC47A, Instructions::RndVxByte, vec![0x4, 0x7A]),
        (0xD125, Instructions::DrwVxVyNib, vec![0x1, 0x2, 0x5]),
        (0xE39E, Instructions::SkpVx, vec![0x3]),
        (0xE5A1, Instructions::SknpVx, vec![0x5]),
        (0xF107, Instructions::LdVxDt, vec![0x1]),
        (0xF20A, Instructions::LdVxK, vec![0x2]),
        (0xF315, Instructions::LdDtVx, vec![0x3]),
        (0xF418, Instructions::LdStVx, vec![0x4]),
        (0xF51E, Instructions::AddIVx, vec![0x5]),
        (0xF629, Instructions::LdFVx, vec![0x6]),
        (0xF733, Instructions::LdBVx, vec![0x7]),
        (0xF855, Instructions::LdIVx, vec![0x8]),
        (0xF965, Instructions::LdVxI, vec![0x9]),
    ];
    for (op, kind, args) in cases {
        let ins = cpu.decode(op).unwrap();
        assert_eq!(ins.int, kind, "opcode {:#06X}", op);
        assert_eq!(ins.args, args, "opcode {:#06X}", op);
    }
}

#[test]
fn decode_rejects_unknown_opcodes() {
    let mut cpu = Cpu::new();
    cpu.pc = 0x300;
    for op in [0x0000u16, 0x00E1, 0x5121, 0x8008, 0x9001, 0xE000, 0xF000, 0xF099, 0xFFFF] {
        let r = cpu.decode(op);
        assert_eq!(r.unwrap_err(), CpuError::DecodeFailure { pc: 0x300, opcode: op });
    }
}

#[test]
fn wait_key_entry_masks_only_the_low_nibble() {
    // The wait-for-key entry carries mask 0xF00F, so encodings with any
    // middle byte still resolve to it.
    let cpu = Cpu::new();
    let ins = cpu.decode(0xF25A).unwrap();
    assert_eq!(ins.int, Instructions::LdVxK);
    assert_eq!(ins.args, vec![0x2]);
}
