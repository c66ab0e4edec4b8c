use chip8::machine::Chip8;
use chip8::model::{Fault, Flow, RomError, Tick};

#[test]
fn startup_state() {
    let c = Chip8::new();
    assert_eq!(c.program_counter(), 0x200);
    assert_eq!(c.index(), 0);
    assert_eq!(*c.registers(), [0u8; 16]);
    assert_eq!(c.delay_timer(), 0);
    assert_eq!(c.sound_timer(), 0);
    assert_eq!(c.stack_depth(), 0);
    assert!(c.stack().is_empty());
    assert_eq!(c.key(), None);
    assert!(!c.is_dirty());
    assert_eq!(c.ignored_words(), 0);
    assert!(!c.quirks().shift && !c.quirks().load_store);
    assert!(c.display().iter().all(|row| row.iter().all(|p| !*p)));
    assert_eq!(&c.memory()[0..5], &[0xF0, 0x90, 0x90, 0x90, 0xF0]);
    assert_eq!(&c.memory()[75..80], &[0xF0, 0x80, 0xF0, 0x80, 0x80]);
    assert_eq!(&c.memory()[..80], &chip8::model::FONT[..]);
    assert!(c.memory()[80..].iter().all(|b| *b == 0));
}

#[test]
fn two_instruction_program() {
    let mut c = Chip8::new();
    assert_eq!(c.load_rom(&[0x60, 0x05, 0x70, 0x03]), Ok(()));
    assert_eq!(&c.memory()[0x200..0x204], &[0x60, 0x05, 0x70, 0x03]);
    assert_eq!(c.fetch(), Ok(0x6005));
    assert_eq!(c.cycle(0), Ok(Tick::Executed));
    assert_eq!(c.cycle(0), Ok(Tick::Executed));
    assert_eq!(c.registers()[0], 8);
    assert_eq!(c.program_counter(), 0x204);
}

#[test]
fn call_then_return_comes_back_after_the_call() {
    let mut c = Chip8::new();
    let mut rom = vec![0u8; 0x102];
    rom[0] = 0x23;
    rom[1] = 0x00;
    rom[0x100] = 0x00;
    rom[0x101] = 0xEE;
    assert_eq!(c.load_rom(&rom), Ok(()));
    assert_eq!(c.cycle(0), Ok(Tick::Executed));
    assert_eq!(c.program_counter(), 0x300);
    assert_eq!(c.stack_depth(), 1);
    assert_eq!(c.stack().as_slice(), &[0x200]);
    assert_eq!(c.cycle(0), Ok(Tick::Executed));
    assert_eq!(c.program_counter(), 0x202);
    assert_eq!(c.stack_depth(), 0);
    assert!(c.stack().is_empty());
}

#[test]
fn seventeenth_nested_call_overflows() {
    let mut c = Chip8::new();
    // Each call jumps to the next call, two bytes on.
    let mut rom: Vec<u8> = Vec::new();
    for k in 0u16..17 {
        let target: u16 = 0x200 + 2 * (k + 1);
        rom.push(0x20 | (target >> 8) as u8);
        rom.push((target & 0xFF) as u8);
    }
    assert_eq!(c.load_rom(&rom), Ok(()));
    for k in 0u8..16 {
        assert_eq!(c.cycle(0), Ok(Tick::Executed));
        assert_eq!(c.stack_depth(), k + 1);
    }
    let pc = c.program_counter();
    assert_eq!(pc, 0x220);
    assert_eq!(c.cycle(0), Err(Fault::StackOverflow { pc: 0x220, opcode: 0x2222 }));
    assert_eq!(c.stack_depth(), 16);
    assert_eq!(c.program_counter(), pc);
    assert_eq!(c.stack().len(), 16);
}

#[test]
fn return_on_an_empty_stack_is_a_fault() {
    let mut c = Chip8::new();
    assert_eq!(c.execute(0x00EE, 0), Err(Fault::StackUnderflow { pc: 0x200, opcode: 0x00EE }));
    assert_eq!(c.program_counter(), 0x200);
}

#[test]
fn jumps_set_the_program_counter() {
    let mut c = Chip8::new();
    assert_eq!(c.execute(0x1ABC, 0), Ok(Flow::Jumped));
    assert_eq!(c.program_counter(), 0xABC);
    assert_eq!(c.execute(0x60FF, 0), Ok(Flow::Next));
    assert_eq!(c.execute(0xBFFF, 0), Ok(Flow::Jumped));
    assert_eq!(c.program_counter(), 0x10FE);
}

#[test]
fn jump_in_a_cycle_is_not_advanced() {
    let mut c = Chip8::new();
    assert_eq!(c.load_rom(&[0x12, 0x08]), Ok(()));
    assert_eq!(c.cycle(0), Ok(Tick::Executed));
    assert_eq!(c.program_counter(), 0x208);
}

#[test]
fn program_counter_outside_the_program_is_a_fault() {
    let mut c = Chip8::new();
    assert_eq!(c.execute(0x1100, 0), Ok(Flow::Jumped));
    assert_eq!(c.fetch(), Err(Fault::ProgramCounter { pc: 0x100 }));
    assert_eq!(c.cycle(0), Err(Fault::ProgramCounter { pc: 0x100 }));
    assert_eq!(c.execute(0x6001, 0), Err(Fault::ProgramCounter { pc: 0x100 }));
    assert_eq!(c.registers()[0], 0);
    let mut c = Chip8::new();
    assert_eq!(c.execute(0x1FFF, 0), Ok(Flow::Jumped));
    assert_eq!(c.cycle(0), Err(Fault::ProgramCounter { pc: 0xFFF }));
    let mut c = Chip8::new();
    assert_eq!(c.execute(0x1FFE, 0), Ok(Flow::Jumped));
    assert_eq!(c.cycle(0), Ok(Tick::Executed));
    assert_eq!(c.program_counter(), 0x1000);
}

#[test]
fn skips_move_two_further() {
    let mut c = Chip8::new();
    assert_eq!(c.load_rom(&[0x61, 0x07, 0x31, 0x07, 0x00, 0x00, 0x41, 0x07, 0x51, 0x20, 0x91, 0x20]), Ok(()));
    assert_eq!(c.cycle(0), Ok(Tick::Executed));
    assert_eq!(c.program_counter(), 0x202);
    assert_eq!(c.cycle(0), Ok(Tick::Executed));
    assert_eq!(c.program_counter(), 0x206);
    assert_eq!(c.cycle(0), Ok(Tick::Executed));
    assert_eq!(c.program_counter(), 0x208);
    assert_eq!(c.cycle(0), Ok(Tick::Executed));
    assert_eq!(c.program_counter(), 0x20A);
    assert_eq!(c.cycle(0), Ok(Tick::Executed));
    assert_eq!(c.program_counter(), 0x20E);
}

#[test]
fn skip_by_execute_adds_two() {
    let mut c = Chip8::new();
    assert_eq!(c.execute(0x3000, 0), Ok(Flow::Next));
    assert_eq!(c.program_counter(), 0x202);
    assert_eq!(c.execute(0x3001, 0), Ok(Flow::Next));
    assert_eq!(c.program_counter(), 0x202);
    assert_eq!(c.execute(0x4001, 0), Ok(Flow::Next));
    assert_eq!(c.program_counter(), 0x204);
    assert_eq!(c.execute(0x5010, 0), Ok(Flow::Next));
    assert_eq!(c.program_counter(), 0x206);
    assert_eq!(c.execute(0x9010, 0), Ok(Flow::Next));
    assert_eq!(c.program_counter(), 0x206);
}

#[test]
fn delay_timer_holds_execution_back() {
    let mut c = Chip8::new();
    assert_eq!(c.load_rom(&[0x61, 0x02, 0xF1, 0x15, 0x62, 0x09]), Ok(()));
    assert_eq!(c.cycle(0), Ok(Tick::Executed));
    assert_eq!(c.cycle(0), Ok(Tick::Executed));
    assert_eq!(c.delay_timer(), 2);
    assert_eq!(c.program_counter(), 0x204);
    assert_eq!(c.cycle(0), Ok(Tick::Delayed));
    assert_eq!(c.delay_timer(), 1);
    assert_eq!(c.program_counter(), 0x204);
    assert_eq!(c.cycle(0), Ok(Tick::Delayed));
    assert_eq!(c.delay_timer(), 0);
    assert_eq!(c.registers()[2], 0);
    assert_eq!(c.cycle(0), Ok(Tick::Executed));
    assert_eq!(c.registers()[2], 9);
    assert_eq!(c.program_counter(), 0x206);
}

#[test]
fn sound_timer_goes_down_with_each_executed_instruction() {
    let mut c = Chip8::new();
    assert_eq!(c.load_rom(&[0x61, 0x02, 0xF1, 0x18, 0x00, 0x00, 0x00, 0x00, 0x00, 0x00]), Ok(()));
    assert_eq!(c.cycle(0), Ok(Tick::Executed));
    assert_eq!(c.sound_timer(), 0);
    assert_eq!(c.cycle(0), Ok(Tick::Executed));
    assert_eq!(c.sound_timer(), 1);
    assert_eq!(c.cycle(0), Ok(Tick::Executed));
    assert_eq!(c.sound_timer(), 0);
    assert_eq!(c.cycle(0), Ok(Tick::Executed));
    assert_eq!(c.sound_timer(), 0);
}

#[test]
fn oversized_image_is_refused() {
    let mut c = Chip8::new();
    let rom = vec![0xAAu8; 3586];
    assert_eq!(c.load_rom(&rom), Err(RomError::TooLarge { len: 3586 }));
    assert!(c.memory()[0x200..].iter().all(|b| *b == 0));
    let rom = vec![0xAAu8; 3585];
    assert_eq!(c.load_rom(&rom), Err(RomError::TooLarge { len: 3585 }));
}

#[test]
fn odd_image_is_refused() {
    let mut c = Chip8::new();
    assert_eq!(c.load_rom(&[0x60, 0x05, 0x70]), Err(RomError::OddLength { len: 3 }));
    assert!(c.memory()[0x200..].iter().all(|b| *b == 0));
}

#[test]
fn largest_image_fills_memory_to_the_end() {
    let mut c = Chip8::new();
    let rom: Vec<u8> = (0..3584u32).map(|k| (k % 251) as u8 + 1).collect();
    assert_eq!(c.load_rom(&rom), Ok(()));
    assert_eq!(&c.memory()[0x200..], &rom[..]);
    assert_eq!(&c.memory()[..80], &chip8::model::FONT[..]);
    assert!(c.memory()[80..0x200].iter().all(|b| *b == 0));
}

#[test]
fn empty_image_changes_nothing() {
    let mut c = Chip8::new();
    assert_eq!(c.load_rom(&[]), Ok(()));
    assert!(c.memory()[80..].iter().all(|b| *b == 0));
}
