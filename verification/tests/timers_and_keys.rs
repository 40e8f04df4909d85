use chip8::{Interpreter, InterpreterError};

fn machine(program: &[u16]) -> Interpreter {
    let mut rom = Vec::new();
    for word in program {
        rom.push((word >> 8) as u8);
        rom.push((word & 0xFF) as u8);
    }
    Interpreter::new(&rom).unwrap()
}

#[test]
fn tick_takes_one_from_each_timer() {
    let mut m = machine(&[0x6005, 0xF015, 0x6009, 0xF018]);
    for _ in 0..4 {
        m.step().unwrap();
    }
    m.tick_timers();
    assert_eq!(m.delay_timer(), 4);
    assert_eq!(m.sound_timer(), 8);
    m.tick_timers();
    assert_eq!(m.delay_timer(), 3);
    assert_eq!(m.sound_timer(), 7);
}

#[test]
fn tick_leaves_a_zero_timer_at_zero() {
    let mut m = machine(&[0x6001, 0xF015]);
    m.tick_timers();
    assert_eq!(m.delay_timer(), 0);
    assert_eq!(m.sound_timer(), 0);
    m.step().unwrap();
    m.step().unwrap();
    m.tick_timers();
    m.tick_timers();
    m.tick_timers();
    assert_eq!(m.delay_timer(), 0);
    assert_eq!(m.sound_timer(), 0);
}

#[test]
fn tick_changes_nothing_but_the_timers() {
    let mut m = machine(&[0x6A07, 0xA123, 0xFA15]);
    for _ in 0..3 {
        m.step().unwrap();
    }
    let pc = m.program_counter();
    m.tick_timers();
    assert_eq!(m.program_counter(), pc);
    assert_eq!(m.registers()[0xA], 7);
    assert_eq!(m.index_register(), 0x123);
    assert_eq!(m.delay_timer(), 6);
}

#[test]
fn timers_count_down_from_255() {
    let mut m = machine(&[0x60FF, 0xF015]);
    m.step().unwrap();
    m.step().unwrap();
    for expected in (0..255u8).rev() {
        m.tick_timers();
        assert_eq!(m.delay_timer(), expected);
    }
    m.tick_timers();
    assert_eq!(m.delay_timer(), 0);
}

#[test]
fn sound_is_active_until_its_timer_runs_out() {
    let mut m = machine(&[0x6003, 0xF018]);
    assert!(!m.sound_active());
    m.step().unwrap();
    m.step().unwrap();
    assert!(m.sound_active());
    m.tick_timers();
    assert!(m.sound_active());
    m.tick_timers();
    assert!(m.sound_active());
    m.tick_timers();
    assert!(!m.sound_active());
    m.tick_timers();
    assert!(!m.sound_active());
}

#[test]
fn sound_set_to_zero_is_not_active() {
    let mut m = machine(&[0x6005, 0xF018, 0x6000, 0xF018]);
    m.step().unwrap();
    m.step().unwrap();
    assert!(m.sound_active());
    m.step().unwrap();
    m.step().unwrap();
    assert!(!m.sound_active());
}

#[test]
fn press_and_release_change_one_key() {
    let mut m = machine(&[0x1200]);
    assert_eq!(m.press_key(0xA), Ok(()));
    let mut expected = [false; 16];
    expected[0xA] = true;
    assert_eq!(m.keypad(), &expected);
    assert_eq!(m.press_key(0), Ok(()));
    expected[0] = true;
    assert_eq!(m.keypad(), &expected);
    assert_eq!(m.release_key(0xA), Ok(()));
    expected[0xA] = false;
    assert_eq!(m.keypad(), &expected);
}

#[test]
fn press_and_release_are_idempotent() {
    let mut m = machine(&[0x1200]);
    m.press_key(3).unwrap();
    let once = *m.keypad();
    m.press_key(3).unwrap();
    assert_eq!(m.keypad(), &once);
    m.release_key(3).unwrap();
    let released = *m.keypad();
    m.release_key(3).unwrap();
    assert_eq!(m.keypad(), &released);
    assert_eq!(released, [false; 16]);
}

#[test]
fn key_index_out_of_range_is_refused() {
    let mut m = machine(&[0x1200]);
    m.press_key(15).unwrap();
    let before = *m.keypad();
    assert_eq!(m.press_key(16), Err(InterpreterError::InvalidKeyIndex));
    assert_eq!(m.press_key(255), Err(InterpreterError::InvalidKeyIndex));
    assert_eq!(m.release_key(16), Err(InterpreterError::InvalidKeyIndex));
    assert_eq!(m.keypad(), &before);
    assert_eq!(m.release_key(15), Ok(()));
}

#[test]
fn key_wait_holds_until_a_key_is_pressed() {
    let mut m = machine(&[0xF50A, 0x6001]);
    for _ in 0..5 {
        assert_eq!(m.step(), Ok(()));
        assert_eq!(m.program_counter(), 512);
        assert_eq!(m.registers(), &[0u8; 16]);
    }
    m.press_key(0xB).unwrap();
    m.step().unwrap();
    assert_eq!(m.registers()[5], 0xB);
    assert_eq!(m.program_counter(), 514);
}

#[test]
fn key_wait_takes_the_lowest_pressed_key() {
    let mut m = machine(&[0xF00A]);
    m.press_key(9).unwrap();
    m.press_key(4).unwrap();
    m.press_key(0xF).unwrap();
    m.step().unwrap();
    assert_eq!(m.registers()[0], 4);
}

#[test]
fn key_wait_goes_on_waiting_after_a_release() {
    let mut m = machine(&[0xF00A]);
    m.press_key(2).unwrap();
    m.release_key(2).unwrap();
    m.step().unwrap();
    assert_eq!(m.program_counter(), 512);
    m.press_key(0).unwrap();
    m.step().unwrap();
    assert_eq!(m.registers()[0], 0);
    assert_eq!(m.program_counter(), 514);
}

#[test]
fn skip_if_key_pressed() {
    let mut m = machine(&[0x6007, 0xE09E]);
    m.step().unwrap();
    m.press_key(7).unwrap();
    m.step().unwrap();
    assert_eq!(m.program_counter(), 512 + 2 + 4);
    let mut m = machine(&[0x6007, 0xE09E]);
    m.step().unwrap();
    m.press_key(8).unwrap();
    m.step().unwrap();
    assert_eq!(m.program_counter(), 512 + 2 + 2);
}

#[test]
fn skip_if_key_released() {
    let mut m = machine(&[0x6007, 0xE0A1]);
    m.step().unwrap();
    m.step().unwrap();
    assert_eq!(m.program_counter(), 512 + 2 + 4);
    let mut m = machine(&[0x6007, 0xE0A1]);
    m.step().unwrap();
    m.press_key(7).unwrap();
    m.step().unwrap();
    assert_eq!(m.program_counter(), 512 + 2 + 2);
}

#[test]
fn key_skips_read_the_low_nibble_of_the_register() {
    let mut m = machine(&[0x6037, 0xE09E]);
    m.step().unwrap();
    m.press_key(7).unwrap();
    m.step().unwrap();
    assert_eq!(m.program_counter(), 512 + 2 + 4);
}
