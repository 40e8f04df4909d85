use chip8::{Interpreter, InterpreterError};

fn machine(program: &[u16]) -> Interpreter {
    let mut rom = Vec::new();
    for word in program {
        rom.push((word >> 8) as u8);
        rom.push((word & 0xFF) as u8);
    }
    Interpreter::with_seed(&rom, 0).unwrap()
}

fn run(program: &[u16]) -> Interpreter {
    let mut m = machine(program);
    for _ in 0..program.len() {
        m.step().unwrap();
    }
    m
}

#[test]
fn load_sets_a_register_and_advances_by_two() {
    let m = run(&[0x6A42]);
    assert_eq!(m.registers()[0xA], 0x42);
    assert_eq!(m.program_counter(), 514);
}

#[test]
fn add_immediate_wraps_and_leaves_the_flag() {
    let m = run(&[0x60FF, 0x7002]);
    assert_eq!(m.registers()[0], 1);
    assert_eq!(m.registers()[0xF], 0);
}

#[test]
fn move_copies_a_register() {
    let m = run(&[0x6133, 0x8010]);
    assert_eq!(m.registers()[0], 0x33);
    assert_eq!(m.registers()[1], 0x33);
}

#[test]
fn bitwise_instructions_combine_registers() {
    let m = run(&[0x600C, 0x610A, 0x8011]);
    assert_eq!(m.registers()[0], 0x0E);
    let m = run(&[0x600C, 0x610A, 0x8012]);
    assert_eq!(m.registers()[0], 0x08);
    let m = run(&[0x600C, 0x610A, 0x8013]);
    assert_eq!(m.registers()[0], 0x06);
    assert_eq!(m.registers()[1], 0x0A);
}

#[test]
fn add_with_carry() {
    let m = run(&[0x60FA, 0x610A, 0x8014]);
    assert_eq!(m.registers()[0], 4);
    assert_eq!(m.registers()[0xF], 1);
    let m = run(&[0x600A, 0x6114, 0x8014]);
    assert_eq!(m.registers()[0], 30);
    assert_eq!(m.registers()[0xF], 0);
}

#[test]
fn add_to_255_does_not_carry() {
    let m = run(&[0x60FF, 0x6100, 0x8014]);
    assert_eq!(m.registers()[0], 255);
    assert_eq!(m.registers()[0xF], 0);
}

#[test]
fn subtract_with_borrow() {
    let m = run(&[0x600A, 0x6114, 0x8015]);
    assert_eq!(m.registers()[0], 246);
    assert_eq!(m.registers()[0xF], 0);
    let m = run(&[0x6014, 0x610A, 0x8015]);
    assert_eq!(m.registers()[0], 10);
    assert_eq!(m.registers()[0xF], 1);
}

#[test]
fn subtract_equal_values_does_not_borrow() {
    let m = run(&[0x6005, 0x6105, 0x8015]);
    assert_eq!(m.registers()[0], 0);
    assert_eq!(m.registers()[0xF], 1);
}

#[test]
fn subtract_reversed_takes_vx_from_vy() {
    let m = run(&[0x600A, 0x6114, 0x8017]);
    assert_eq!(m.registers()[0], 10);
    assert_eq!(m.registers()[0xF], 1);
    let m = run(&[0x6014, 0x610A, 0x8017]);
    assert_eq!(m.registers()[0], 246);
    assert_eq!(m.registers()[0xF], 0);
}

#[test]
fn shift_right_puts_the_low_bit_in_the_flag() {
    let m = run(&[0x6005, 0x8006]);
    assert_eq!(m.registers()[0], 2);
    assert_eq!(m.registers()[0xF], 1);
    let m = run(&[0x6004, 0x8006]);
    assert_eq!(m.registers()[0], 2);
    assert_eq!(m.registers()[0xF], 0);
}

#[test]
fn shift_left_puts_the_high_bit_in_the_flag() {
    let m = run(&[0x6081, 0x800E]);
    assert_eq!(m.registers()[0], 0x02);
    assert_eq!(m.registers()[0xF], 1);
    let m = run(&[0x6040, 0x800E]);
    assert_eq!(m.registers()[0], 0x80);
    assert_eq!(m.registers()[0xF], 0);
}

#[test]
fn shifts_ignore_the_second_register() {
    let m = run(&[0x6005, 0x61FF, 0x8016]);
    assert_eq!(m.registers()[0], 2);
    assert_eq!(m.registers()[1], 0xFF);
}

#[test]
fn flag_wins_when_the_target_is_vf() {
    let m = run(&[0x6FFA, 0x610A, 0x8F14]);
    assert_eq!(m.registers()[0xF], 1);
    let m = run(&[0x6F05, 0x8F06]);
    assert_eq!(m.registers()[0xF], 1);
}

#[test]
fn skip_if_equal_immediate() {
    let m = run(&[0x6042, 0x3042]);
    assert_eq!(m.program_counter(), 512 + 2 + 4);
    let m = run(&[0x6042, 0x3043]);
    assert_eq!(m.program_counter(), 512 + 2 + 2);
}

#[test]
fn skip_if_not_equal_immediate() {
    let m = run(&[0x6042, 0x4043]);
    assert_eq!(m.program_counter(), 512 + 2 + 4);
    let m = run(&[0x6042, 0x4042]);
    assert_eq!(m.program_counter(), 512 + 2 + 2);
}

#[test]
fn skip_if_registers_equal() {
    let m = run(&[0x6007, 0x6107, 0x5010]);
    assert_eq!(m.program_counter(), 512 + 4 + 4);
    let m = run(&[0x6007, 0x6108, 0x5010]);
    assert_eq!(m.program_counter(), 512 + 4 + 2);
}

#[test]
fn skip_if_registers_not_equal() {
    let m = run(&[0x6007, 0x6108, 0x9010]);
    assert_eq!(m.program_counter(), 512 + 4 + 4);
    let m = run(&[0x6007, 0x6107, 0x9010]);
    assert_eq!(m.program_counter(), 512 + 4 + 2);
}

#[test]
fn jump_sets_the_program_counter() {
    let m = run(&[0x1ABC]);
    assert_eq!(m.program_counter(), 0xABC);
}

#[test]
fn jump_with_offset_adds_v0() {
    let m = run(&[0x6005, 0xB300]);
    assert_eq!(m.program_counter(), 0x305);
    let m = run(&[0x60FF, 0xBFFF]);
    assert_eq!(m.program_counter(), 0x10FE);
}

#[test]
fn load_index_and_add_to_index() {
    let m = run(&[0xA123]);
    assert_eq!(m.index_register(), 0x123);
    let m = run(&[0xA0FF, 0x6002, 0xF01E]);
    assert_eq!(m.index_register(), 0x101);
    assert_eq!(m.registers()[0xF], 0);
}

#[test]
fn add_to_index_can_pass_the_end_of_memory() {
    let m = run(&[0xAFFF, 0x60FF, 0xF01E]);
    assert_eq!(m.index_register(), 0x10FE);
}

#[test]
fn glyph_address_is_five_times_the_low_nibble() {
    let m = run(&[0x600A, 0xF029]);
    assert_eq!(m.index_register(), 50);
    let m = run(&[0x601A, 0xF029]);
    assert_eq!(m.index_register(), 50);
    let m = run(&[0x6000, 0xA123, 0xF029]);
    assert_eq!(m.index_register(), 0);
}

#[test]
fn store_decimal_writes_three_digits() {
    let m = run(&[0x60FE, 0xA300, 0xF033]);
    assert_eq!(&m.memory()[0x300..0x303], &[2, 5, 4]);
    assert_eq!(m.index_register(), 0x300);
    let m = run(&[0x6007, 0xA300, 0xF033]);
    assert_eq!(&m.memory()[0x300..0x303], &[0, 0, 7]);
}

#[test]
fn store_registers_copies_v0_to_vx() {
    let m = run(&[0x6001, 0x6102, 0x6203, 0x6304, 0xA300, 0xF255]);
    assert_eq!(&m.memory()[0x300..0x304], &[1, 2, 3, 0]);
    assert_eq!(m.index_register(), 0x300);
    assert_eq!(m.registers()[3], 4);
}

#[test]
fn load_registers_reads_v0_to_vx() {
    let mut m = machine(&[0xA208, 0xF265, 0x0000, 0x0000, 0x1122, 0x3344]);
    m.step().unwrap();
    m.step().unwrap();
    assert_eq!(&m.registers()[0..4], &[0x11, 0x22, 0x33, 0x00]);
    assert_eq!(m.index_register(), 0x208);
    assert_eq!(m.program_counter(), 516);
}

#[test]
fn store_all_registers_then_load_them_back() {
    let mut program = Vec::new();
    for x in 0..16u16 {
        program.push(0x6000 | (x << 8) | (0x10 + x));
    }
    program.push(0xA400);
    program.push(0xFF55);
    for x in 0..16u16 {
        program.push(0x6000 | (x << 8));
    }
    program.push(0xFF65);
    let m = run(&program);
    let expected: Vec<u8> = (0x10..0x20).collect();
    assert_eq!(&m.memory()[0x400..0x410], &expected[..]);
    assert_eq!(&m.registers()[..], &expected[..]);
}

#[test]
fn timers_are_set_and_read_through_registers() {
    let m = run(&[0x6033, 0xF015, 0xF107]);
    assert_eq!(m.delay_timer(), 0x33);
    assert_eq!(m.registers()[1], 0x33);
    let m = run(&[0x6044, 0xF018]);
    assert_eq!(m.sound_timer(), 0x44);
    assert_eq!(m.delay_timer(), 0);
}

#[test]
fn step_does_not_touch_the_timers() {
    let m = run(&[0x6003, 0xF015, 0xF018, 0x6100, 0x6200, 0x6300]);
    assert_eq!(m.delay_timer(), 3);
    assert_eq!(m.sound_timer(), 3);
}

#[test]
fn random_with_zero_mask_is_zero() {
    for seed in [0u32, 1, 0xFFFF_FFFF, 123_456_789] {
        let mut m = Interpreter::with_seed(&[0x60, 0xAA, 0xC0, 0x00], seed).unwrap();
        m.step().unwrap();
        m.step().unwrap();
        assert_eq!(m.registers()[0], 0);
    }
}

#[test]
fn random_takes_the_top_byte_of_the_next_state() {
    let m = run(&[0xC0FF]);
    assert_eq!(m.registers()[0], 0x3C);
    let m = run(&[0xC00F]);
    assert_eq!(m.registers()[0], 0x0C);
    assert_eq!(m.program_counter(), 514);
}

#[test]
fn random_moves_the_source_on() {
    let m = run(&[0xC0FF, 0xC1FF]);
    assert_eq!(m.registers()[0], 0x3C);
    assert_eq!(m.registers()[1], 0x47);
}

#[test]
fn same_rom_and_seed_give_the_same_run() {
    let program = [0xC0FF, 0xC1FF, 0xC2FF, 0x8014, 0x8123];
    let first = run(&program);
    let second = run(&program);
    assert_eq!(first.registers(), second.registers());
}

#[test]
fn all_zero_word_is_unknown_and_nothing_moves() {
    let mut m = machine(&[0x0000]);
    assert_eq!(m.step(), Err(InterpreterError::UnknownOpcode(0x0000)));
    assert_eq!(m.program_counter(), 512);
    assert_eq!(m.step(), Err(InterpreterError::UnknownOpcode(0x0000)));
}

#[test]
fn unassigned_words_are_unknown() {
    for word in [0x0123u16, 0x00E1, 0x5121, 0x8008, 0x800F, 0x9011, 0xE000, 0xE19F, 0xF0FF, 0xF000] {
        let mut m = machine(&[word]);
        assert_eq!(m.step(), Err(InterpreterError::UnknownOpcode(word)));
        assert_eq!(m.program_counter(), 512);
        assert_eq!(m.registers(), &[0u8; 16]);
    }
}

#[test]
fn fetch_past_the_end_of_memory_fails() {
    let mut m = machine(&[0x1FFF]);
    m.step().unwrap();
    assert_eq!(m.program_counter(), 0xFFF);
    assert_eq!(m.step(), Err(InterpreterError::MemoryOutOfBounds));
    assert_eq!(m.program_counter(), 0xFFF);
}

#[test]
fn fetch_of_the_last_word_succeeds() {
    let mut rom = vec![0u8; 3584];
    rom[0] = 0x1F;
    rom[1] = 0xFE;
    rom[3582] = 0x6A;
    rom[3583] = 0x55;
    let mut m = Interpreter::new(&rom).unwrap();
    m.step().unwrap();
    assert_eq!(m.program_counter(), 0xFFE);
    m.step().unwrap();
    assert_eq!(m.registers()[0xA], 0x55);
    assert_eq!(m.program_counter(), 0x1000);
    assert_eq!(m.step(), Err(InterpreterError::MemoryOutOfBounds));
}

#[test]
fn store_decimal_past_the_end_of_memory_fails() {
    let mut m = machine(&[0x60FE, 0xAFFE, 0xF033]);
    m.step().unwrap();
    m.step().unwrap();
    assert_eq!(m.step(), Err(InterpreterError::MemoryOutOfBounds));
    assert_eq!(m.program_counter(), 516);
    assert_eq!(m.memory()[0xFFE], 0);
    assert_eq!(m.memory()[0xFFF], 0);
    let m = run(&[0x60FE, 0xAFFD, 0xF033]);
    assert_eq!(&m.memory()[0xFFD..], &[2, 5, 4]);
}

#[test]
fn register_range_past_the_end_of_memory_fails() {
    let mut m = machine(&[0x6011, 0x6122, 0xAFFF, 0xF155]);
    for _ in 0..3 {
        m.step().unwrap();
    }
    assert_eq!(m.step(), Err(InterpreterError::MemoryOutOfBounds));
    assert_eq!(m.memory()[0xFFF], 0);
    assert_eq!(m.program_counter(), 518);
    let mut m = machine(&[0x6011, 0x6122, 0xAFFF, 0xF165]);
    for _ in 0..3 {
        m.step().unwrap();
    }
    assert_eq!(m.step(), Err(InterpreterError::MemoryOutOfBounds));
    assert_eq!(&m.registers()[0..2], &[0x11, 0x22]);
    let m = run(&[0x6011, 0x6122, 0xAFFF, 0xF055]);
    assert_eq!(m.memory()[0xFFF], 0x11);
}
