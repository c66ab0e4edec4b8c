use chip8::instruction::{decode, Instruction};
use chip8::machine::Chip8;
use chip8::model::Flow;

#[test]
fn decodes_control_flow() {
    assert_eq!(decode(0x00E0), Instruction::Cls);
    assert_eq!(decode(0x00EE), Instruction::Ret);
    assert_eq!(decode(0x1ABC), Instruction::Jp { nnn: 0xABC });
    assert_eq!(decode(0x2300), Instruction::Call { nnn: 0x300 });
    assert_eq!(decode(0xB123), Instruction::JpV0 { nnn: 0x123 });
}

#[test]
fn decodes_skips_and_loads() {
    assert_eq!(decode(0x3A12), Instruction::SeByte { x: 0xA, kk: 0x12 });
    assert_eq!(decode(0x4B34), Instruction::SneByte { x: 0xB, kk: 0x34 });
    assert_eq!(decode(0x5120), Instruction::SeReg { x: 1, y: 2 });
    assert_eq!(decode(0x9120), Instruction::SneReg { x: 1, y: 2 });
    assert_eq!(decode(0x6CFF), Instruction::LdByte { x: 0xC, kk: 0xFF });
    assert_eq!(decode(0x7D01), Instruction::AddByte { x: 0xD, kk: 1 });
    assert_eq!(decode(0xA456), Instruction::LdI { nnn: 0x456 });
    assert_eq!(decode(0xC37F), Instruction::Rnd { x: 3, kk: 0x7F });
    assert_eq!(decode(0xD125), Instruction::Drw { x: 1, y: 2, n: 5 });
    assert_eq!(decode(0xE59E), Instruction::Skp { x: 5 });
    assert_eq!(decode(0xE5A1), Instruction::Sknp { x: 5 });
}

#[test]
fn decodes_the_arithmetic_family() {
    assert_eq!(decode(0x8AB0), Instruction::LdReg { x: 0xA, y: 0xB });
    assert_eq!(decode(0x8AB1), Instruction::Or { x: 0xA, y: 0xB });
    assert_eq!(decode(0x8AB2), Instruction::And { x: 0xA, y: 0xB });
    assert_eq!(decode(0x8AB3), Instruction::Xor { x: 0xA, y: 0xB });
    assert_eq!(decode(0x8AB4), Instruction::AddReg { x: 0xA, y: 0xB });
    assert_eq!(decode(0x8AB5), Instruction::Sub { x: 0xA, y: 0xB });
    assert_eq!(decode(0x8AB6), Instruction::Shr { x: 0xA, y: 0xB });
    assert_eq!(decode(0x8AB7), Instruction::Subn { x: 0xA, y: 0xB });
    assert_eq!(decode(0x8ABE), Instruction::Shl { x: 0xA, y: 0xB });
}

#[test]
fn decodes_the_last_family() {
    assert_eq!(decode(0xF707), Instruction::LdVxDt { x: 7 });
    assert_eq!(decode(0xF70A), Instruction::LdKey { x: 7 });
    assert_eq!(decode(0xF715), Instruction::LdDtVx { x: 7 });
    assert_eq!(decode(0xF718), Instruction::LdStVx { x: 7 });
    assert_eq!(decode(0xF71E), Instruction::AddI { x: 7 });
    assert_eq!(decode(0xF729), Instruction::LdFont { x: 7 });
    assert_eq!(decode(0xF733), Instruction::Bcd { x: 7 });
    assert_eq!(decode(0xF755), Instruction::Store { x: 7 });
    assert_eq!(decode(0xF765), Instruction::Load { x: 7 });
}

#[test]
fn unmatched_words_decode_to_unknown() {
    for w in [0x0000u16, 0x0123, 0x00E1, 0x5121, 0x9121, 0x8AB8, 0x8ABF, 0xE500, 0xE59F, 0xF700, 0xF7FF] {
        assert_eq!(decode(w), Instruction::Unknown { opcode: w });
    }
}

#[test]
fn every_word_decodes_with_fields_in_range() {
    for w in 0u32..=0xFFFF {
        let w = w as u16;
        match decode(w) {
            Instruction::Drw { x, y, n } => assert!(x < 16 && y < 16 && n < 16),
            Instruction::Jp { nnn } | Instruction::Call { nnn } | Instruction::LdI { nnn } | Instruction::JpV0 { nnn } => {
                assert_eq!(nnn, w & 0x0FFF)
            }
            Instruction::LdByte { x, kk } => {
                assert_eq!(x as u16, (w >> 8) & 0xF);
                assert_eq!(kk as u16, w & 0xFF);
            }
            Instruction::Unknown { opcode } => assert_eq!(opcode, w),
            _ => {}
        }
    }
}

#[test]
fn unknown_word_changes_nothing_and_execution_goes_on() {
    let mut c = Chip8::new();
    assert_eq!(c.load_rom(&[0x01, 0x23, 0x60, 0x09]), Ok(()));
    let before_memory = *c.memory();
    assert_eq!(c.cycle(0), Ok(chip8::model::Tick::Executed));
    assert_eq!(c.program_counter(), 0x202);
    assert_eq!(*c.registers(), [0u8; 16]);
    assert_eq!(*c.memory(), before_memory);
    assert_eq!(c.index(), 0);
    assert!(!c.is_dirty());
    assert_eq!(c.ignored_words(), 1);
    assert_eq!(c.execute(0x8AB9, 0), Ok(Flow::Next));
    assert_eq!(c.program_counter(), 0x202);
    assert_eq!(c.ignored_words(), 2);
    assert_eq!(c.cycle(0), Ok(chip8::model::Tick::Executed));
    assert_eq!(c.registers()[0], 9);
    assert_eq!(c.program_counter(), 0x204);
    assert_eq!(c.ignored_words(), 2);
}
