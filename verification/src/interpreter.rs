//! The executable machine.

use vstd::prelude::*;
use crate::alu::{add_with_carry, decimal_digits, shift_left, shift_right, subtract_with_borrow};
use crate::display::Display;
use crate::error::InterpreterError;
use crate::instruction::{decode, Instruction};
use crate::random::RandomSource;
use crate::state::{
    any_pressed,
    executed,
    initial,
    is_lowest_pressed,
    lemma_lowest_pressed_is_unique,
    pressed,
    released,
    stepped,
    ticked,
    with_registers_loaded,
    with_registers_stored,
    MachineState,
    MAX_ROM_SIZE,
    PROGRAM_START,
    STACK_CAPACITY,
};

verus! {

/// The seed of the random source of a machine built with
/// [`Interpreter::new`].
pub const DEFAULT_SEED: u32 = 0x2545_F491;

/// The built-in font: for each hexadecimal digit, in order, the five rows of
/// its glyph, each four pixels wide in the high nibble.
pub const FONT: [u8; 80] = [
    0xF0, 0x90, 0x90, 0x90, 0xF0,
    0x20, 0x60, 0x20, 0x20, 0x70,
    0xF0, 0x10, 0xF0, 0x80, 0xF0,
    0xF0, 0x10, 0xF0, 0x10, 0xF0,
    0x90, 0x90, 0xF0, 0x10, 0x10,
    0xF0, 0x80, 0xF0, 0x10, 0xF0,
    0xF0, 0x80, 0xF0, 0x90, 0xF0,
    0xF0, 0x10, 0x20, 0x40, 0x40,
    0xF0, 0x90, 0xF0, 0x90, 0xF0,
    0xF0, 0x90, 0xF0, 0x10, 0xF0,
    0xF0, 0x90, 0xF0, 0x90, 0x90,
    0xE0, 0x90, 0xE0, 0x90, 0xE0,
    0xF0, 0x80, 0x80, 0x80, 0xF0,
    0xE0, 0x90, 0x90, 0x90, 0xE0,
    0xF0, 0x80, 0xF0, 0x80, 0xF0,
    0xF0, 0x80, 0xF0, 0x80, 0x80,
];

/// The bytes of the built-in font.
pub open spec fn font() -> Seq<u8> {
    FONT@
}

/// The memory with the built-in font in its first eighty bytes.
pub open spec fn with_font(memory: Seq<u8>) -> Seq<u8> {
    Seq::new(
        memory.len(),
        |a: int|
            if a < 80 {
                font()[a]
            } else {
                memory[a]
            },
    )
}

/// The machine: memory, registers, call stack, timers, display, keypad and
/// random source, owned together and changed only through these methods.
#[derive(Debug)]
pub struct Interpreter {
    memory: [u8; 4096],
    registers: [u8; 16],
    index: u16,
    pc: u16,
    stack: [u16; 16],
    depth: usize,
    delay_timer: u8,
    sound_timer: u8,
    display: Display,
    keypad: [bool; 16],
    random: RandomSource,
}

impl View for Interpreter {
    type V = MachineState;

    closed spec fn view(&self) -> MachineState {
        MachineState {
            memory: self.memory@,
            registers: self.registers@,
            index: self.index,
            pc: self.pc,
            stack: self.stack@.take(self.depth as int),
            delay_timer: self.delay_timer,
            sound_timer: self.sound_timer,
            framebuffer: self.display@,
            keypad: self.keypad@,
            random: self.random@,
        }
    }
}

impl Interpreter {
    #[verifier::type_invariant]
    spec fn within_capacity(self) -> bool {
        self.depth <= 16 && self.display@.len() == 2048
    }

    /// Builds a machine around `rom`, with the random source seeded with
    /// [`DEFAULT_SEED`]. A ROM of up to 3584 bytes is loaded at address 512;
    /// a longer one is refused.
    pub fn new(rom: &[u8]) -> (result: Result<Interpreter, InterpreterError>)
        ensures
            rom@.len() <= MAX_ROM_SIZE ==> result is Ok && result->Ok_0@ == initial(
                rom@,
                DEFAULT_SEED,
            ),
            rom@.len() > MAX_ROM_SIZE ==> result is Err && result->Err_0
                == InterpreterError::RomTooLarge,
    {
        Interpreter::with_seed(rom, DEFAULT_SEED)
    }

    /// Builds a machine around `rom`, with the random source seeded with
    /// `seed`. A ROM of up to 3584 bytes is loaded at address 512; a longer
    /// one is refused.
    pub fn with_seed(rom: &[u8], seed: u32) -> (result: Result<Interpreter, InterpreterError>)
        ensures
            rom@.len() <= MAX_ROM_SIZE ==> result is Ok && result->Ok_0@ == initial(rom@, seed),
            rom@.len() > MAX_ROM_SIZE ==> result is Err && result->Err_0
                == InterpreterError::RomTooLarge,
    {
        if rom.len() > MAX_ROM_SIZE {
            return Err(InterpreterError::RomTooLarge);
        }
        let mut memory: [u8; 4096] = [0u8;4096];
        let mut i: usize = 0;
        while i < rom.len()
            invariant
                i <= rom@.len() <= 3584,
                forall|a: int|
                    0 <= a < 4096 ==> #[trigger] memory@[a] == if 512 <= a < 512 + i {
                        rom@[a - 512]
                    } else {
                        0u8
                    },
            decreases rom@.len() - i,
        {
            memory[512 + i] = rom[i];
            i += 1;
        }
        let display = Display::new();
        let machine = Interpreter {
            memory,
            registers: [0u8;16],
            index: 0,
            pc: PROGRAM_START,
            stack: [0u16;16],
            depth: 0,
            delay_timer: 0,
            sound_timer: 0,
            display,
            keypad: [false;16],
            random: RandomSource::new(seed),
        };
        proof {
            let model = initial(rom@, seed);
            assert(machine@.memory =~= model.memory);
            assert(machine@.registers =~= model.registers);
            assert(machine@.keypad =~= model.keypad);
            assert(machine@.stack =~= model.stack);
        }
        Ok(machine)
    }

    /// Writes the built-in font to the first eighty bytes of memory, where
    /// the glyph-address instruction looks for it: the glyph of digit `d`
    /// takes the five bytes from address `5 * d`. Nothing else changes.
    pub fn load_font(&mut self)
        ensures
            final(self)@ == (MachineState { memory: with_font(old(self)@.memory), ..old(self)@ }),
            final(self)@.well_formed(),
    {
        proof {
            use_type_invariant(&*self);
        }
        store_font(&mut self.memory);
    }

    /// Decrements the delay timer and the sound timer by one each, leaving a
    /// timer that is zero at zero.
    pub fn tick_timers(&mut self)
        ensures
            final(self)@ == ticked(old(self)@),
            final(self)@.well_formed(),
    {
        proof {
            use_type_invariant(&*self);
        }
        if self.delay_timer > 0 {
            self.delay_timer = self.delay_timer - 1;
        }
        if self.sound_timer > 0 {
            self.sound_timer = self.sound_timer - 1;
        }
    }

    /// Whether the host should be sounding its tone: the sound timer is not
    /// zero.
    pub fn sound_active(&self) -> (active: bool)
        ensures
            active == self@.sound_active(),
    {
        self.sound_timer > 0
    }

    /// Records that `key` is pressed. A key outside `0..=15` is refused and
    /// nothing changes.
    pub fn press_key(&mut self, key: u8) -> (result: Result<(), InterpreterError>)
        ensures
            key < 16 ==> result is Ok && final(self)@ == pressed(old(self)@, key),
            key >= 16 ==> result == Err::<(), InterpreterError>(InterpreterError::InvalidKeyIndex)
                && final(self)@ == old(self)@,
            final(self)@.well_formed(),
    {
        proof {
            use_type_invariant(&*self);
        }
        if key >= 16 {
            return Err(InterpreterError::InvalidKeyIndex);
        }
        self.keypad[key as usize] = true;
        Ok(())
    }

    /// Records that `key` is released. A key outside `0..=15` is refused and
    /// nothing changes.
    pub fn release_key(&mut self, key: u8) -> (result: Result<(), InterpreterError>)
        ensures
            key < 16 ==> result is Ok && final(self)@ == released(old(self)@, key),
            key >= 16 ==> result == Err::<(), InterpreterError>(InterpreterError::InvalidKeyIndex)
                && final(self)@ == old(self)@,
            final(self)@.well_formed(),
    {
        proof {
            use_type_invariant(&*self);
        }
        if key >= 16 {
            return Err(InterpreterError::InvalidKeyIndex);
        }
        self.keypad[key as usize] = false;
        Ok(())
    }

    /// The pixels, row-major: the pixel in column `x` of row `y` has index
    /// `y * 64 + x`.
    pub fn framebuffer(&self) -> (pixels: &[bool; 2048])
        ensures
            pixels@ == self@.framebuffer,
            self@.well_formed(),
    {
        proof {
            use_type_invariant(self);
        }
        self.display.pixels()
    }

    /// The memory.
    pub fn memory(&self) -> (memory: &[u8; 4096])
        ensures
            memory@ == self@.memory,
    {
        &self.memory
    }

    /// The registers `V0` to `VF`.
    pub fn registers(&self) -> (registers: &[u8; 16])
        ensures
            registers@ == self@.registers,
    {
        &self.registers
    }

    /// The keys: `true` for a pressed key.
    pub fn keypad(&self) -> (keypad: &[bool; 16])
        ensures
            keypad@ == self@.keypad,
    {
        &self.keypad
    }

    /// The index register `I`.
    pub fn index_register(&self) -> (index: u16)
        ensures
            index == self@.index,
    {
        self.index
    }

    /// The program counter.
    pub fn program_counter(&self) -> (pc: u16)
        ensures
            pc == self@.pc,
    {
        self.pc
    }

    /// The number of return addresses on the call stack.
    pub fn stack_depth(&self) -> (depth: usize)
        ensures
            depth == self@.stack.len(),
            depth <= STACK_CAPACITY,
    {
        proof {
            use_type_invariant(self);
        }
        self.depth
    }

    /// The delay timer.
    pub fn delay_timer(&self) -> (timer: u8)
        ensures
            timer == self@.delay_timer,
    {
        self.delay_timer
    }

    /// The sound timer.
    pub fn sound_timer(&self) -> (timer: u8)
        ensures
            timer == self@.sound_timer,
    {
        self.sound_timer
    }
}

/// Copies the first `count` registers to memory at `at` and after.
fn store_registers(memory: &mut [u8; 4096], registers: &[u8; 16], at: usize, count: usize)
    requires
        count <= 16,
        at + count <= 4096,
    ensures
        final(memory)@ == with_registers_stored(old(memory)@, registers@, at as int, count as int),
    no_unwind
{
    let ghost before = memory@;
    let mut i: usize = 0;
    while i < count
        invariant
            i <= count <= 16,
            at + count <= 4096,
            memory@ == with_registers_stored(before, registers@, at as int, i as int),
        decreases count - i,
    {
        memory[at + i] = registers[i];
        i += 1;
        assert(memory@ =~= with_registers_stored(before, registers@, at as int, i as int));
    }
    assert(with_registers_stored(before, registers@, at as int, 0) =~= before);
}

/// Reads the first `count` registers from memory at `at` and after.
fn load_registers(registers: &mut [u8; 16], memory: &[u8; 4096], at: usize, count: usize)
    requires
        count <= 16,
        at + count <= 4096,
    ensures
        final(registers)@ == with_registers_loaded(
            old(registers)@,
            memory@,
            at as int,
            count as int,
        ),
    no_unwind
{
    let ghost before = registers@;
    let mut i: usize = 0;
    while i < count
        invariant
            i <= count <= 16,
            at + count <= 4096,
            registers@ == with_registers_loaded(before, memory@, at as int, i as int),
        decreases count - i,
    {
        registers[i] = memory[at + i];
        i += 1;
        assert(registers@ =~= with_registers_loaded(before, memory@, at as int, i as int));
    }
    assert(with_registers_loaded(before, memory@, at as int, 0) =~= before);
}

/// Writes the built-in font to the first eighty bytes of memory.
fn store_font(memory: &mut [u8; 4096])
    ensures
        final(memory)@ == with_font(old(memory)@),
    no_unwind
{
    let ghost before = memory@;
    let mut i: usize = 0;
    while i < 80
        invariant
            i <= 80,
            forall|a: int|
                0 <= a < 4096 ==> #[trigger] memory@[a] == if a < i {
                    font()[a]
                } else {
                    before[a]
                },
        decreases 80 - i,
    {
        memory[i] = FONT[i];
        i += 1;
    }
    assert(memory@ =~= with_font(before));
}

/// Finds the pressed key with the lowest index.
fn find_lowest_pressed(keypad: &[bool; 16]) -> (found: Option<u8>)
    ensures
        found is Some <==> any_pressed(keypad@),
        found matches Some(key) ==> is_lowest_pressed(keypad@, key as int),
{
    let mut key: u8 = 0;
    while key < 16
        invariant
            key <= 16,
            forall|lower: int| 0 <= lower < key ==> !#[trigger] keypad@[lower],
        decreases 16 - key,
    {
        if keypad[key as usize] {
            proof {
                lemma_lowest_pressed_is_unique(keypad@, key as int);
            }
            return Some(key);
        }
        key += 1;
    }
    None
}

impl Interpreter {
    /// Puts `value` in register `Vx`.
    fn set_register(&mut self, x: u8, value: u8)
        requires
            x < 16,
        ensures
            final(self)@ == old(self)@.with_register(x, value),
    {
        proof {
            use_type_invariant(&*self);
        }
        self.registers[x as usize] = value;
    }

    /// Sets `VF` to 1 if `flag`, else to 0.
    fn set_flag(&mut self, flag: bool)
        ensures
            final(self)@ == old(self)@.with_flag(flag),
    {
        self.set_register(
            0xF,
            if flag {
                1
            } else {
                0
            },
        );
    }

    /// Moves the program counter to the next instruction, or past it if
    /// `skip`.
    fn advance(&mut self, skip: bool)
        ensures
            final(self)@ == old(self)@.skipped_if(skip),
            !skip ==> final(self)@ == old(self)@.advanced(),
    {
        proof {
            use_type_invariant(&*self);
        }
        self.pc = self.pc.wrapping_add(
            if skip {
                4
            } else {
                2
            },
        );
    }

    /// Carries out an instruction that only moves the program counter or
    /// the call stack, or clears the display.
    fn execute_control(&mut self, instruction: Instruction) -> (result: Result<
        (),
        InterpreterError,
    >)
        requires
            instruction.well_formed(),
            is_control(instruction),
        ensures
            carried_out(executed(old(self)@, instruction), old(self)@, final(self)@, result),
    {
        proof {
            use_type_invariant(&*self);
        }
        match instruction {
            Instruction::ClearScreen => {
                self.display = Display::new();
                self.advance(false);
            },
            Instruction::Return => {
                if self.depth == 0 {
                    return Err(InterpreterError::StackUnderflow);
                }
                let ghost before = self@.stack;
                self.pc = self.stack[self.depth - 1];
                self.depth = self.depth - 1;
                assert(self@.stack =~= before.drop_last());
            },
            Instruction::Jump { addr } => {
                self.pc = addr;
            },
            Instruction::Call { addr } => {
                if self.depth >= STACK_CAPACITY {
                    return Err(InterpreterError::StackOverflow);
                }
                let ghost before = self@.stack;
                let return_address = self.pc.wrapping_add(2);
                self.stack[self.depth] = return_address;
                self.depth = self.depth + 1;
                self.pc = addr;
                assert(self@.stack =~= before.push(return_address));
            },
            Instruction::JumpWithOffset { addr } => {
                self.pc = addr.wrapping_add(self.registers[0] as u16);
            },
            Instruction::SkipIfEqual { x, value } => {
                let skip = self.registers[x as usize] == value;
                self.advance(skip);
            },
            Instruction::SkipIfNotEqual { x, value } => {
                let skip = self.registers[x as usize] != value;
                self.advance(skip);
            },
            Instruction::SkipIfRegistersEqual { x, y } => {
                let skip = self.registers[x as usize] == self.registers[y as usize];
                self.advance(skip);
            },
            Instruction::SkipIfRegistersNotEqual { x, y } => {
                let skip = self.registers[x as usize] != self.registers[y as usize];
                self.advance(skip);
            },
            _ => {},
        }
        Ok(())
    }

    /// Carries out an instruction that computes a register from registers,
    /// an immediate byte or the random source.
    fn execute_arithmetic(&mut self, instruction: Instruction) -> (result: Result<
        (),
        InterpreterError,
    >)
        requires
            instruction.well_formed(),
            is_arithmetic(instruction),
        ensures
            carried_out(executed(old(self)@, instruction), old(self)@, final(self)@, result),
    {
        proof {
            use_type_invariant(&*self);
        }
        match instruction {
            Instruction::Load { x, value } => {
                self.set_register(x, value);
            },
            Instruction::AddImmediate { x, value } => {
                let (sum, _) = add_with_carry(self.registers[x as usize], value);
                self.set_register(x, sum);
            },
            Instruction::Move { x, y } => {
                let value = self.registers[y as usize];
                self.set_register(x, value);
            },
            Instruction::Or { x, y } => {
                let value = self.registers[x as usize] | self.registers[y as usize];
                self.set_register(x, value);
            },
            Instruction::And { x, y } => {
                let value = self.registers[x as usize] & self.registers[y as usize];
                self.set_register(x, value);
            },
            Instruction::Xor { x, y } => {
                let value = self.registers[x as usize] ^ self.registers[y as usize];
                self.set_register(x, value);
            },
            Instruction::Add { x, y } => {
                let (sum, carry) = add_with_carry(
                    self.registers[x as usize],
                    self.registers[y as usize],
                );
                self.set_register(x, sum);
                self.set_flag(carry);
            },
            Instruction::Subtract { x, y } => {
                let (difference, no_borrow) = subtract_with_borrow(
                    self.registers[x as usize],
                    self.registers[y as usize],
                );
                self.set_register(x, difference);
                self.set_flag(no_borrow);
            },
            Instruction::SubtractReversed { x, y } => {
                let (difference, no_borrow) = subtract_with_borrow(
                    self.registers[y as usize],
                    self.registers[x as usize],
                );
                self.set_register(x, difference);
                self.set_flag(no_borrow);
            },
            Instruction::ShiftRight { x, y } => {
                let (shifted, out) = shift_right(self.registers[x as usize]);
                self.set_register(x, shifted);
                self.set_flag(out);
            },
            Instruction::ShiftLeft { x, y } => {
                let (shifted, out) = shift_left(self.registers[x as usize]);
                self.set_register(x, shifted);
                self.set_flag(out);
            },
            Instruction::Random { x, mask } => {
                let mut source = self.random;
                let byte = source.next_byte();
                self.random = source;
                self.set_register(x, byte & mask);
            },
            _ => {},
        }
        self.advance(false);
        Ok(())
    }

    /// Carries out an instruction that draws, or reads the keypad or a
    /// timer, or sets a timer.
    fn execute_device(&mut self, instruction: Instruction) -> (result: Result<
        (),
        InterpreterError,
    >)
        requires
            instruction.well_formed(),
            is_device(instruction),
        ensures
            carried_out(executed(old(self)@, instruction), old(self)@, final(self)@, result),
    {
        proof {
            use_type_invariant(&*self);
        }
        match instruction {
            Instruction::Draw { x, y, rows } => {
                let start = self.index as usize;
                if start + rows as usize > 4096 {
                    return Err(InterpreterError::MemoryOutOfBounds);
                }
                let left = self.registers[x as usize];
                let top = self.registers[y as usize];
                let collision = self.display.draw(&self.memory, start, rows as usize, left, top);
                self.set_flag(collision);
                self.advance(false);
            },
            Instruction::SkipIfKeyPressed { x } => {
                let key = self.registers[x as usize] % 16;
                let skip = self.keypad[key as usize];
                self.advance(skip);
            },
            Instruction::SkipIfKeyReleased { x } => {
                let key = self.registers[x as usize] % 16;
                let skip = !self.keypad[key as usize];
                self.advance(skip);
            },
            Instruction::WaitForKey { x } => {
                match find_lowest_pressed(&self.keypad) {
                    None => {},
                    Some(key) => {
                        proof {
                            lemma_lowest_pressed_is_unique(self.keypad@, key as int);
                        }
                        self.set_register(x, key);
                        self.advance(false);
                    },
                }
            },
            Instruction::ReadDelay { x } => {
                let value = self.delay_timer;
                self.set_register(x, value);
                self.advance(false);
            },
            Instruction::SetDelay { x } => {
                self.delay_timer = self.registers[x as usize];
                self.advance(false);
            },
            Instruction::SetSound { x } => {
                self.sound_timer = self.registers[x as usize];
                self.advance(false);
            },
            _ => {},
        }
        Ok(())
    }

    /// Carries out an instruction that sets the index register or moves
    /// bytes between registers and memory.
    fn execute_memory(&mut self, instruction: Instruction) -> (result: Result<
        (),
        InterpreterError,
    >)
        requires
            instruction.well_formed(),
            is_memory(instruction),
        ensures
            carried_out(executed(old(self)@, instruction), old(self)@, final(self)@, result),
    {
        proof {
            use_type_invariant(&*self);
        }
        match instruction {
            Instruction::LoadIndex { addr } => {
                self.index = addr;
            },
            Instruction::AddToIndex { x } => {
                self.index = self.index.wrapping_add(self.registers[x as usize] as u16);
            },
            Instruction::GlyphAddress { x } => {
                self.index = (self.registers[x as usize] % 16) as u16 * 5;
            },
            Instruction::StoreDecimal { x } => {
                let at = self.index as usize;
                if at + 2 >= 4096 {
                    return Err(InterpreterError::MemoryOutOfBounds);
                }
                let (hundreds, tens, units) = decimal_digits(self.registers[x as usize]);
                self.memory[at] = hundreds;
                self.memory[at + 1] = tens;
                self.memory[at + 2] = units;
            },
            Instruction::StoreRegisters { x } => {
                let at = self.index as usize;
                if at + x as usize >= 4096 {
                    return Err(InterpreterError::MemoryOutOfBounds);
                }
                store_registers(&mut self.memory, &self.registers, at, x as usize + 1);
            },
            Instruction::LoadRegisters { x } => {
                let at = self.index as usize;
                if at + x as usize >= 4096 {
                    return Err(InterpreterError::MemoryOutOfBounds);
                }
                let memory = &self.memory;
                load_registers(&mut self.registers, memory, at, x as usize + 1);
            },
            _ => {},
        }
        self.advance(false);
        Ok(())
    }

    /// Carries out one instruction: changes the machine as the instruction
    /// says, or reports the error that stops it and changes nothing.
    fn execute(&mut self, instruction: Instruction) -> (result: Result<(), InterpreterError>)
        requires
            instruction.well_formed(),
        ensures
            carried_out(executed(old(self)@, instruction), old(self)@, final(self)@, result),
    {
        match instruction {
            Instruction::ClearScreen
            | Instruction::Return
            | Instruction::Jump { .. }
            | Instruction::Call { .. }
            | Instruction::JumpWithOffset { .. }
            | Instruction::SkipIfEqual { .. }
            | Instruction::SkipIfNotEqual { .. }
            | Instruction::SkipIfRegistersEqual { .. }
            | Instruction::SkipIfRegistersNotEqual { .. } => self.execute_control(instruction),
            Instruction::Load { .. }
            | Instruction::AddImmediate { .. }
            | Instruction::Move { .. }
            | Instruction::Or { .. }
            | Instruction::And { .. }
            | Instruction::Xor { .. }
            | Instruction::Add { .. }
            | Instruction::Subtract { .. }
            | Instruction::SubtractReversed { .. }
            | Instruction::ShiftRight { .. }
            | Instruction::ShiftLeft { .. }
            | Instruction::Random { .. } => self.execute_arithmetic(instruction),
            Instruction::Draw { .. }
            | Instruction::SkipIfKeyPressed { .. }
            | Instruction::SkipIfKeyReleased { .. }
            | Instruction::WaitForKey { .. }
            | Instruction::ReadDelay { .. }
            | Instruction::SetDelay { .. }
            | Instruction::SetSound { .. } => self.execute_device(instruction),
            Instruction::LoadIndex { .. }
            | Instruction::AddToIndex { .. }
            | Instruction::GlyphAddress { .. }
            | Instruction::StoreDecimal { .. }
            | Instruction::StoreRegisters { .. }
            | Instruction::LoadRegisters { .. } => self.execute_memory(instruction),
        }
    }

    /// Executes one instruction: fetches the word at the program counter,
    /// decodes it and carries it out. On any error nothing changes.
    pub fn step(&mut self) -> (result: Result<(), InterpreterError>)
        ensures
            match stepped(old(self)@) {
                Ok(next) => result is Ok && final(self)@ == next,
                Err(error) => result == Err::<(), InterpreterError>(error) && final(self)@ == old(
                    self,
                )@,
            },
            final(self)@.well_formed(),
    {
        proof {
            use_type_invariant(&*self);
        }
        let pc = self.pc as usize;
        if pc + 1 >= 4096 {
            return Err(InterpreterError::MemoryOutOfBounds);
        }
        let high = self.memory[pc];
        let low = self.memory[pc + 1];
        let opcode: u16 = ((high as u16) << 8) | (low as u16);
        assert(((high as u16) << 8) | (low as u16) == high * 0x100 + low) by (bit_vector);
        let result = match decode(opcode) {
            None => Err(InterpreterError::UnknownOpcode(opcode)),
            Some(instruction) => self.execute(instruction),
        };
        proof {
            use_type_invariant(&*self);
        }
        result
    }
}

/// Whether the machine went from `before` to `after`, reporting `result`, as
/// `expected` asks: to the expected state with `Ok`, or nowhere with the
/// expected error.
spec fn carried_out(
    expected: Result<MachineState, InterpreterError>,
    before: MachineState,
    after: MachineState,
    result: Result<(), InterpreterError>,
) -> bool {
    match expected {
        Ok(next) => result is Ok && after == next,
        Err(error) => result == Err::<(), InterpreterError>(error) && after == before,
    }
}

/// The instructions that only move the program counter or the call stack,
/// or clear the display.
spec fn is_control(instruction: Instruction) -> bool {
    instruction is ClearScreen || instruction is Return || instruction is Jump
        || instruction is Call || instruction is JumpWithOffset || instruction is SkipIfEqual
        || instruction is SkipIfNotEqual || instruction is SkipIfRegistersEqual
        || instruction is SkipIfRegistersNotEqual
}

/// The instructions that compute a register from registers, an immediate
/// byte or the random source.
spec fn is_arithmetic(instruction: Instruction) -> bool {
    instruction is Load || instruction is AddImmediate || instruction is Move || instruction is Or
        || instruction is And || instruction is Xor || instruction is Add
        || instruction is Subtract || instruction is SubtractReversed
        || instruction is ShiftRight || instruction is ShiftLeft || instruction is Random
}

/// The instructions that draw, read the keypad or a timer, or set a timer.
spec fn is_device(instruction: Instruction) -> bool {
    instruction is Draw || instruction is SkipIfKeyPressed || instruction is SkipIfKeyReleased
        || instruction is WaitForKey || instruction is ReadDelay || instruction is SetDelay
        || instruction is SetSound
}

/// The instructions that set the index register or move bytes between
/// registers and memory.
spec fn is_memory(instruction: Instruction) -> bool {
    instruction is LoadIndex || instruction is AddToIndex || instruction is GlyphAddress
        || instruction is StoreDecimal || instruction is StoreRegisters
        || instruction is LoadRegisters
}

} // verus!
