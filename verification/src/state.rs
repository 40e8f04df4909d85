//! The mathematical model of the machine, and what each operation does to it.
//!
//! [`MachineState`] holds the machine's regions as sequences and integers.
//! [`stepped`] says what one fetch-decode-execute cycle makes of a state,
//! [`ticked`] what a timer tick does, [`pressed`] and [`released`] what the
//! host's key reports do. The executable machine is proved against these.

use vstd::prelude::*;
use crate::display::{blank, collides, drawn};
use crate::error::InterpreterError;
use crate::instruction::{decoded, Instruction};
use crate::random::{next_state, output_byte};

verus! {

/// The number of bytes of memory.
pub const MEMORY_SIZE: usize = 4096;

/// The address at which a ROM is loaded and execution starts.
pub const PROGRAM_START: u16 = 512;

/// The largest ROM that fits between the load address and the end of memory.
pub const MAX_ROM_SIZE: usize = 3584;

/// The number of return addresses that the call stack holds.
pub const STACK_CAPACITY: usize = 16;

/// The state of the machine.
pub struct MachineState {
    /// The 4096 bytes of memory.
    pub memory: Seq<u8>,
    /// The registers `V0` to `VF`.
    pub registers: Seq<u8>,
    /// The index register `I`.
    pub index: u16,
    /// The program counter.
    pub pc: u16,
    /// The return addresses, the innermost call last.
    pub stack: Seq<u16>,
    /// The delay timer.
    pub delay_timer: u8,
    /// The sound timer.
    pub sound_timer: u8,
    /// The 2048 pixels, row-major.
    pub framebuffer: Seq<bool>,
    /// The sixteen keys: `true` for a pressed key.
    pub keypad: Seq<bool>,
    /// The state of the random source.
    pub random: u32,
}

impl MachineState {
    /// Every region has its size, and the stack is within its capacity.
    pub open spec fn well_formed(self) -> bool {
        &&& self.memory.len() == 4096
        &&& self.registers.len() == 16
        &&& self.stack.len() <= 16
        &&& self.framebuffer.len() == 2048
        &&& self.keypad.len() == 16
    }

    /// The value of register `Vx`.
    pub open spec fn register(self, x: u8) -> u8 {
        self.registers[x as int]
    }

    /// The state with `value` in register `Vx`.
    pub open spec fn with_register(self, x: u8, value: u8) -> MachineState {
        MachineState { registers: self.registers.update(x as int, value), ..self }
    }

    /// The state with `VF` set to 1 if `flag`, else to 0.
    pub open spec fn with_flag(self, flag: bool) -> MachineState {
        self.with_register(0xF, if flag { 1u8 } else { 0u8 })
    }

    /// The address `distance` bytes after the program counter.
    pub open spec fn address_after(self, distance: int) -> u16 {
        ((self.pc + distance) % 0x1_0000) as u16
    }

    /// The state with the program counter on the next instruction.
    pub open spec fn advanced(self) -> MachineState {
        MachineState { pc: self.address_after(2), ..self }
    }

    /// The state with the program counter past the next instruction if
    /// `condition` holds, else on it.
    pub open spec fn skipped_if(self, condition: bool) -> MachineState {
        MachineState { pc: self.address_after(if condition { 4 } else { 2 }), ..self }
    }

    /// Whether the key that `Vx` names, by its low nibble, is pressed.
    pub open spec fn key_of_register_pressed(self, x: u8) -> bool {
        self.keypad[self.register(x) as int % 16]
    }

    /// Whether the host should be sounding its tone: the sound timer is not
    /// zero.
    pub open spec fn sound_active(self) -> bool {
        self.sound_timer > 0
    }

    /// The `rows` sprite bytes at `I`.
    pub open spec fn sprite(self, rows: u8) -> Seq<u8> {
        self.memory.subrange(self.index as int, self.index + rows)
    }
}

/// Whether any of the keys is pressed.
pub open spec fn any_pressed(keypad: Seq<bool>) -> bool {
    exists|key: int| 0 <= key < keypad.len() && #[trigger] keypad[key]
}

/// Whether `key` is pressed and no key with a lower index is.
pub open spec fn is_lowest_pressed(keypad: Seq<bool>, key: int) -> bool {
    &&& 0 <= key < keypad.len()
    &&& keypad[key]
    &&& forall|lower: int| 0 <= lower < key ==> !#[trigger] keypad[lower]
}

/// The pressed key with the lowest index; meaningful when a key is pressed.
pub open spec fn lowest_pressed(keypad: Seq<bool>) -> int {
    choose|key: int| is_lowest_pressed(keypad, key)
}

/// The lowest pressed key is the one key that is pressed with no pressed key
/// below it.
pub proof fn lemma_lowest_pressed_is_unique(keypad: Seq<bool>, key: int)
    requires
        is_lowest_pressed(keypad, key),
    ensures
        lowest_pressed(keypad) == key,
        any_pressed(keypad),
{
    let chosen = lowest_pressed(keypad);
    assert(is_lowest_pressed(keypad, chosen));
    if chosen < key {
        assert(!keypad[chosen]);
    }
    if key < chosen {
        assert(!keypad[key]);
    }
}

/// The state of a machine that has just been built around `rom`, with its
/// random source seeded with `seed`: memory is zero but for the ROM at the
/// load address, the program counter is on the ROM's first byte, and
/// everything else is zero, empty, clear or released.
pub open spec fn initial(rom: Seq<u8>, seed: u32) -> MachineState {
    MachineState {
        memory: Seq::new(
            4096,
            |a: int|
                if 512 <= a < 512 + rom.len() {
                    rom[a - 512]
                } else {
                    0u8
                },
        ),
        registers: Seq::new(16, |i: int| 0u8),
        index: 0,
        pc: 512,
        stack: Seq::empty(),
        delay_timer: 0,
        sound_timer: 0,
        framebuffer: blank(),
        keypad: Seq::new(16, |k: int| false),
        random: seed,
    }
}

/// The word at the program counter, high byte first, or `None` where the
/// word would reach past the end of memory.
pub open spec fn fetched(state: MachineState) -> Option<u16> {
    if state.pc + 1 < 4096 {
        Some((state.memory[state.pc as int] * 0x100 + state.memory[state.pc + 1]) as u16)
    } else {
        None
    }
}

/// The memory with the hundreds, tens and units of `value` at `at`,
/// `at + 1` and `at + 2`.
pub open spec fn with_decimal(memory: Seq<u8>, at: int, value: u8) -> Seq<u8> {
    memory.update(at, (value / 100) as u8).update(at + 1, ((value / 10) % 10) as u8).update(
        at + 2,
        (value % 10) as u8,
    )
}

/// The memory with the first `count` registers copied to `at` and after.
pub open spec fn with_registers_stored(
    memory: Seq<u8>,
    registers: Seq<u8>,
    at: int,
    count: int,
) -> Seq<u8> {
    Seq::new(
        memory.len(),
        |a: int|
            if at <= a < at + count {
                registers[a - at]
            } else {
                memory[a]
            },
    )
}

/// The registers with the first `count` of them read from `at` and after.
pub open spec fn with_registers_loaded(
    registers: Seq<u8>,
    memory: Seq<u8>,
    at: int,
    count: int,
) -> Seq<u8> {
    Seq::new(
        registers.len(),
        |i: int|
            if i < count {
                memory[at + i]
            } else {
                registers[i]
            },
    )
}

/// What executing `instruction` makes of `state`: the next state, or the
/// error that stops the instruction before it changes anything.
///
/// Instructions that write a flag write `VF` last, so the flag wins where
/// `Vx` is `VF`.
pub open spec fn executed(state: MachineState, instruction: Instruction) -> Result<
    MachineState,
    InterpreterError,
> {
    match instruction {
        Instruction::ClearScreen => Ok(MachineState { framebuffer: blank(), ..state }.advanced()),
        Instruction::Return => if state.stack.len() == 0 {
            Err(InterpreterError::StackUnderflow)
        } else {
            Ok(MachineState { pc: state.stack.last(), stack: state.stack.drop_last(), ..state })
        },
        Instruction::Jump { addr } => Ok(MachineState { pc: addr, ..state }),
        Instruction::Call { addr } => if state.stack.len() >= 16 {
            Err(InterpreterError::StackOverflow)
        } else {
            Ok(MachineState { pc: addr, stack: state.stack.push(state.address_after(2)), ..state })
        },
        Instruction::SkipIfEqual { x, value } => Ok(state.skipped_if(state.register(x) == value)),
        Instruction::SkipIfNotEqual { x, value } => Ok(
            state.skipped_if(state.register(x) != value),
        ),
        Instruction::SkipIfRegistersEqual { x, y } => Ok(
            state.skipped_if(state.register(x) == state.register(y)),
        ),
        Instruction::SkipIfRegistersNotEqual { x, y } => Ok(
            state.skipped_if(state.register(x) != state.register(y)),
        ),
        Instruction::Load { x, value } => Ok(state.with_register(x, value).advanced()),
        Instruction::AddImmediate { x, value } => Ok(
            state.with_register(x, ((state.register(x) + value) % 256) as u8).advanced(),
        ),
        Instruction::Move { x, y } => Ok(state.with_register(x, state.register(y)).advanced()),
        Instruction::Or { x, y } => Ok(
            state.with_register(x, state.register(x) | state.register(y)).advanced(),
        ),
        Instruction::And { x, y } => Ok(
            state.with_register(x, state.register(x) & state.register(y)).advanced(),
        ),
        Instruction::Xor { x, y } => Ok(
            state.with_register(x, state.register(x) ^ state.register(y)).advanced(),
        ),
        Instruction::Add { x, y } => {
            let sum = state.register(x) + state.register(y);
            Ok(state.with_register(x, (sum % 256) as u8).with_flag(sum > 255).advanced())
        },
        Instruction::Subtract { x, y } => {
            let difference = state.register(x) - state.register(y);
            Ok(
                state.with_register(x, (difference % 256) as u8).with_flag(
                    difference >= 0,
                ).advanced(),
            )
        },
        Instruction::SubtractReversed { x, y } => {
            let difference = state.register(y) - state.register(x);
            Ok(
                state.with_register(x, (difference % 256) as u8).with_flag(
                    difference >= 0,
                ).advanced(),
            )
        },
        Instruction::ShiftRight { x, y } => {
            let value = state.register(x);
            Ok(state.with_register(x, (value / 2) as u8).with_flag(value % 2 == 1).advanced())
        },
        Instruction::ShiftLeft { x, y } => {
            let value = state.register(x);
            Ok(
                state.with_register(x, ((value * 2) % 256) as u8).with_flag(
                    value >= 128,
                ).advanced(),
            )
        },
        Instruction::LoadIndex { addr } => Ok(MachineState { index: addr, ..state }.advanced()),
        Instruction::JumpWithOffset { addr } => Ok(
            MachineState { pc: ((addr + state.register(0)) % 0x1_0000) as u16, ..state },
        ),
        Instruction::Random { x, mask } => {
            let random = next_state(state.random);
            Ok(
                MachineState { random, ..state }.with_register(
                    x,
                    output_byte(random) & mask,
                ).advanced(),
            )
        },
        Instruction::Draw { x, y, rows } => if state.index + rows > 4096 {
            Err(InterpreterError::MemoryOutOfBounds)
        } else {
            let sprite = state.sprite(rows);
            let left = state.register(x) as int;
            let top = state.register(y) as int;
            Ok(
                MachineState {
                    framebuffer: drawn(state.framebuffer, sprite, left, top),
                    ..state
                }.with_flag(collides(state.framebuffer, sprite, left, top)).advanced(),
            )
        },
        Instruction::SkipIfKeyPressed { x } => Ok(
            state.skipped_if(state.key_of_register_pressed(x)),
        ),
        Instruction::SkipIfKeyReleased { x } => Ok(
            state.skipped_if(!state.key_of_register_pressed(x)),
        ),
        Instruction::ReadDelay { x } => Ok(state.with_register(x, state.delay_timer).advanced()),
        Instruction::WaitForKey { x } => if any_pressed(state.keypad) {
            Ok(state.with_register(x, lowest_pressed(state.keypad) as u8).advanced())
        } else {
            Ok(state)
        },
        Instruction::SetDelay { x } => Ok(
            MachineState { delay_timer: state.register(x), ..state }.advanced(),
        ),
        Instruction::SetSound { x } => Ok(
            MachineState { sound_timer: state.register(x), ..state }.advanced(),
        ),
        Instruction::AddToIndex { x } => Ok(
            MachineState {
                index: ((state.index + state.register(x)) % 0x1_0000) as u16,
                ..state
            }.advanced(),
        ),
        Instruction::GlyphAddress { x } => Ok(
            MachineState { index: ((state.register(x) % 16) * 5) as u16, ..state }.advanced(),
        ),
        Instruction::StoreDecimal { x } => if state.index + 2 >= 4096 {
            Err(InterpreterError::MemoryOutOfBounds)
        } else {
            Ok(
                MachineState {
                    memory: with_decimal(state.memory, state.index as int, state.register(x)),
                    ..state
                }.advanced(),
            )
        },
        Instruction::StoreRegisters { x } => if state.index + x >= 4096 {
            Err(InterpreterError::MemoryOutOfBounds)
        } else {
            Ok(
                MachineState {
                    memory: with_registers_stored(
                        state.memory,
                        state.registers,
                        state.index as int,
                        x + 1,
                    ),
                    ..state
                }.advanced(),
            )
        },
        Instruction::LoadRegisters { x } => if state.index + x >= 4096 {
            Err(InterpreterError::MemoryOutOfBounds)
        } else {
            Ok(
                MachineState {
                    registers: with_registers_loaded(
                        state.registers,
                        state.memory,
                        state.index as int,
                        x + 1,
                    ),
                    ..state
                }.advanced(),
            )
        },
    }
}

/// What one fetch-decode-execute cycle makes of `state`. A fetch past the
/// end of memory, a word that is no instruction, and an instruction that
/// cannot be carried out each give an error and no next state.
pub open spec fn stepped(state: MachineState) -> Result<MachineState, InterpreterError> {
    match fetched(state) {
        None => Err(InterpreterError::MemoryOutOfBounds),
        Some(opcode) => match decoded(opcode) {
            None => Err(InterpreterError::UnknownOpcode(opcode)),
            Some(instruction) => executed(state, instruction),
        },
    }
}

/// A timer after one tick: one less, and never below zero.
pub open spec fn ticked_timer(timer: u8) -> u8 {
    if timer > 0 {
        (timer - 1) as u8
    } else {
        0
    }
}

/// The state after one timer tick.
pub open spec fn ticked(state: MachineState) -> MachineState {
    MachineState {
        delay_timer: ticked_timer(state.delay_timer),
        sound_timer: ticked_timer(state.sound_timer),
        ..state
    }
}

/// The state with `key` pressed.
pub open spec fn pressed(state: MachineState, key: u8) -> MachineState {
    MachineState { keypad: state.keypad.update(key as int, true), ..state }
}

/// The state with `key` released.
pub open spec fn released(state: MachineState, key: u8) -> MachineState {
    MachineState { keypad: state.keypad.update(key as int, false), ..state }
}

} // verus!
