use chip8::machine::Chip8;
use chip8::model::{Flow, Quirks};

fn run(c: &mut Chip8, words: &[u16]) {
    for w in words {
        assert_eq!(c.execute(*w, 0), Ok(Flow::Next));
    }
}

fn ld(x: u16, kk: u16) -> u16 {
    0x6000 | (x << 8) | kk
}

#[test]
fn add_byte_wraps_and_sets_carry_for_every_register() {
    for x in 0u16..15 {
        let mut c = Chip8::new();
        run(&mut c, &[ld(x, 250), 0x7000 | (x << 8) | 10]);
        assert_eq!(c.registers()[x as usize], 4);
        assert_eq!(c.registers()[15], 1);
        run(&mut c, &[ld(x, 5), 0x7000 | (x << 8) | 10]);
        assert_eq!(c.registers()[x as usize], 15);
        assert_eq!(c.registers()[15], 0);
    }
}

#[test]
fn add_byte_on_vf_leaves_the_carry_there() {
    let mut c = Chip8::new();
    run(&mut c, &[ld(15, 250), 0x7F0A]);
    assert_eq!(c.registers()[15], 1);
    run(&mut c, &[ld(15, 5), 0x7F0A]);
    assert_eq!(c.registers()[15], 0);
}

#[test]
fn add_byte_at_the_edge_of_the_byte() {
    let mut c = Chip8::new();
    run(&mut c, &[ld(0, 255), 0x7000]);
    assert_eq!((c.registers()[0], c.registers()[15]), (255, 0));
    run(&mut c, &[0x7001]);
    assert_eq!((c.registers()[0], c.registers()[15]), (0, 1));
}

#[test]
fn sub_without_and_with_borrow() {
    let mut c = Chip8::new();
    run(&mut c, &[ld(1, 10), ld(2, 3), 0x8125]);
    assert_eq!(c.registers()[1], 7);
    assert_eq!(c.registers()[15], 1);
    let mut c = Chip8::new();
    run(&mut c, &[ld(1, 3), ld(2, 10), 0x8125]);
    assert_eq!(c.registers()[1], 249);
    assert_eq!(c.registers()[15], 0);
}

#[test]
fn sub_of_equal_values_does_not_borrow() {
    let mut c = Chip8::new();
    run(&mut c, &[ld(1, 9), ld(2, 9), 0x8125]);
    assert_eq!((c.registers()[1], c.registers()[15]), (0, 1));
}

#[test]
fn subn_subtracts_the_other_way() {
    let mut c = Chip8::new();
    run(&mut c, &[ld(1, 3), ld(2, 10), 0x8127]);
    assert_eq!((c.registers()[1], c.registers()[15]), (7, 1));
    let mut c = Chip8::new();
    run(&mut c, &[ld(1, 10), ld(2, 3), 0x8127]);
    assert_eq!((c.registers()[1], c.registers()[15]), (249, 0));
}

#[test]
fn add_reg_sets_carry_only_above_255() {
    let mut c = Chip8::new();
    run(&mut c, &[ld(3, 200), ld(4, 55), 0x8344]);
    assert_eq!((c.registers()[3], c.registers()[15]), (255, 0));
    run(&mut c, &[ld(3, 200), ld(4, 56), 0x8344]);
    assert_eq!((c.registers()[3], c.registers()[15]), (0, 1));
    run(&mut c, &[ld(3, 255), ld(4, 255), 0x8344]);
    assert_eq!((c.registers()[3], c.registers()[15]), (254, 1));
}

#[test]
fn shr_with_shift_quirk_reads_vx() {
    let mut c = Chip8::with_quirks(Quirks { shift: true, load_store: false });
    run(&mut c, &[ld(1, 0b0101), ld(2, 0b1000_0000), 0x8126]);
    assert_eq!(c.registers()[1], 0b0010);
    assert_eq!(c.registers()[15], 1);
    assert_eq!(c.registers()[2], 0b1000_0000);
}

#[test]
fn shr_without_shift_quirk_reads_vy() {
    let mut c = Chip8::new();
    run(&mut c, &[ld(1, 0b0101), ld(2, 0b1000_0110), 0x8126]);
    assert_eq!(c.registers()[1], 0b0100_0011);
    assert_eq!(c.registers()[15], 0);
}

#[test]
fn shl_puts_the_high_bit_in_vf() {
    let mut c = Chip8::with_quirks(Quirks { shift: true, load_store: false });
    run(&mut c, &[ld(1, 0b1100_0001), 0x812E]);
    assert_eq!((c.registers()[1], c.registers()[15]), (0b1000_0010, 1));
    let mut c = Chip8::new();
    run(&mut c, &[ld(1, 0xFF), ld(2, 0b0100_0001), 0x812E]);
    assert_eq!((c.registers()[1], c.registers()[15]), (0b1000_0010, 0));
}

#[test]
fn shift_of_vf_keeps_the_shifted_value() {
    let mut c = Chip8::with_quirks(Quirks { shift: true, load_store: false });
    run(&mut c, &[ld(15, 0b0111), 0x8F06]);
    assert_eq!(c.registers()[15], 0b0011);
}

#[test]
fn bitwise_operations_and_register_copy() {
    let mut c = Chip8::new();
    run(&mut c, &[ld(1, 0b1100), ld(2, 0b1010), 0x8121]);
    assert_eq!(c.registers()[1], 0b1110);
    run(&mut c, &[ld(1, 0b1100), 0x8122]);
    assert_eq!(c.registers()[1], 0b1000);
    run(&mut c, &[ld(1, 0b1100), 0x8123]);
    assert_eq!(c.registers()[1], 0b0110);
    run(&mut c, &[0x8120]);
    assert_eq!(c.registers()[1], 0b1010);
    assert_eq!(c.registers()[15], 0);
}

#[test]
fn random_byte_is_masked() {
    let mut c = Chip8::new();
    assert_eq!(c.execute(0xC10F, 0xAB), Ok(Flow::Next));
    assert_eq!(c.registers()[1], 0x0B);
    assert_eq!(c.execute(0xC1F0, 0xAB), Ok(Flow::Next));
    assert_eq!(c.registers()[1], 0xA0);
    assert_eq!(c.execute(0xC100, 0xFF), Ok(Flow::Next));
    assert_eq!(c.registers()[1], 0);
}

#[test]
fn index_register_arithmetic() {
    let mut c = Chip8::new();
    run(&mut c, &[0xA123]);
    assert_eq!(c.index(), 0x123);
    run(&mut c, &[ld(0, 0x10), 0xF01E]);
    assert_eq!(c.index(), 0x133);
    run(&mut c, &[ld(4, 0xA), 0xF429]);
    assert_eq!(c.index(), 50);
    run(&mut c, &[ld(4, 255), 0xF429]);
    assert_eq!(c.index(), 1275);
}

#[test]
fn index_register_wraps_at_sixteen_bits() {
    let mut c = Chip8::new();
    run(&mut c, &[0xAFFF, ld(0, 255)]);
    let mut expected: u32 = 0xFFF;
    for _ in 0..300 {
        run(&mut c, &[0xF01E]);
        expected = (expected + 255) % 65536;
        assert_eq!(c.index() as u32, expected);
    }
    assert_eq!(c.index(), 15059);
    assert_eq!(c.registers()[15], 0);
}

#[test]
fn timers_are_loaded_and_read() {
    let mut c = Chip8::new();
    run(&mut c, &[ld(1, 7), 0xF118, 0xF115, 0xF207]);
    assert_eq!(c.sound_timer(), 7);
    assert_eq!(c.delay_timer(), 7);
    assert_eq!(c.registers()[2], 7);
}
