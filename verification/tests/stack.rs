use chip8::{Interpreter, InterpreterError};

#[test]
fn call_pushes_the_return_address_and_jumps() {
    let mut m = Interpreter::new(&[0x22, 0x08]).unwrap();
    m.step().unwrap();
    assert_eq!(m.program_counter(), 0x208);
    assert_eq!(m.stack_depth(), 1);
}

#[test]
fn call_then_return_comes_back_after_the_call() {
    let rom = [0x60, 0x01, 0x22, 0x08, 0x61, 0x02, 0x00, 0x00, 0x00, 0xEE];
    let mut m = Interpreter::new(&rom).unwrap();
    m.step().unwrap();
    let depth = m.stack_depth();
    let call_at = m.program_counter();
    m.step().unwrap();
    assert_eq!(m.stack_depth(), depth + 1);
    m.step().unwrap();
    assert_eq!(m.program_counter(), call_at + 2);
    assert_eq!(m.stack_depth(), depth);
    m.step().unwrap();
    assert_eq!(m.registers()[1], 2);
}

#[test]
fn nested_calls_return_in_reverse_order() {
    let rom = [
        0x22, 0x06, // 0x200: call 0x206
        0x6A, 0x01, // 0x202
        0x00, 0x00, // 0x204
        0x22, 0x0C, // 0x206: call 0x20C
        0x6B, 0x02, // 0x208
        0x00, 0xEE, // 0x20A
        0x6C, 0x03, // 0x20C
        0x00, 0xEE, // 0x20E
    ];
    let mut m = Interpreter::new(&rom).unwrap();
    m.step().unwrap();
    m.step().unwrap();
    assert_eq!(m.stack_depth(), 2);
    m.step().unwrap();
    m.step().unwrap();
    assert_eq!(m.program_counter(), 0x208);
    m.step().unwrap();
    m.step().unwrap();
    assert_eq!(m.program_counter(), 0x202);
    assert_eq!(m.stack_depth(), 0);
    m.step().unwrap();
    assert_eq!(&m.registers()[0xA..0xD], &[1, 2, 3]);
}

#[test]
fn seventeenth_call_overflows_the_stack() {
    let mut m = Interpreter::new(&[0x22, 0x00]).unwrap();
    for depth in 1..=16 {
        assert_eq!(m.step(), Ok(()));
        assert_eq!(m.stack_depth(), depth);
    }
    assert_eq!(m.step(), Err(InterpreterError::StackOverflow));
    assert_eq!(m.stack_depth(), 16);
    assert_eq!(m.program_counter(), 0x200);
    assert_eq!(m.step(), Err(InterpreterError::StackOverflow));
}

#[test]
fn full_stack_unwinds_completely() {
    // Sixteen subroutines, four bytes apart: each calls the next and then
    // returns. The last one only returns.
    let mut rom = Vec::new();
    for i in 0..16u16 {
        let target = 0x200 + 4 * (i + 1);
        rom.push(0x20 | (target >> 8) as u8);
        rom.push((target & 0xFF) as u8);
        rom.push(0x00);
        rom.push(0xEE);
    }
    rom.push(0x00);
    rom.push(0xEE);
    let mut m = Interpreter::new(&rom).unwrap();
    for _ in 0..16 {
        m.step().unwrap();
    }
    assert_eq!(m.stack_depth(), 16);
    assert_eq!(m.program_counter(), 0x240);
    for remaining in (0..16u16).rev() {
        m.step().unwrap();
        assert_eq!(m.stack_depth(), remaining as usize);
        assert_eq!(m.program_counter(), 0x200 + 4 * remaining + 2);
    }
    assert_eq!(m.program_counter(), 0x202);
    assert_eq!(m.step(), Err(InterpreterError::StackUnderflow));
}

#[test]
fn return_with_an_empty_stack_underflows() {
    let mut m = Interpreter::new(&[0x00, 0xEE]).unwrap();
    assert_eq!(m.step(), Err(InterpreterError::StackUnderflow));
    assert_eq!(m.program_counter(), 0x200);
    assert_eq!(m.stack_depth(), 0);
}

#[test]
fn return_after_the_stack_has_emptied_underflows() {
    let rom = [0x22, 0x02, 0x00, 0xEE];
    let mut m = Interpreter::new(&rom).unwrap();
    m.step().unwrap();
    m.step().unwrap();
    assert_eq!(m.program_counter(), 0x202);
    assert_eq!(m.step(), Err(InterpreterError::StackUnderflow));
}
