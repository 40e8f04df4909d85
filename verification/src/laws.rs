//! Laws of the machine: what holds of every state, proved over the model.
//!
//! A law about an instruction speaks of a state that is *at* the
//! instruction: the word at its program counter is the instruction's
//! encoding, so the next step executes it.

use vstd::prelude::*;
use crate::display::{
    blank,
    collides,
    drawn,
    lemma_collision_is_a_cleared_pixel,
    lemma_draw_twice_restores,
};
use crate::error::InterpreterError;
use crate::instruction::{lemma_decoded_encoding, Instruction};
use crate::state::{
    any_pressed,
    executed,
    fetched,
    initial,
    lemma_lowest_pressed_is_unique,
    pressed,
    released,
    stepped,
    ticked,
    MachineState,
};

verus! {

/// Whether the word at the program counter of `state` is the encoding of
/// `instruction`.
pub open spec fn at_instruction(state: MachineState, instruction: Instruction) -> bool {
    instruction.well_formed() && fetched(state) == Some(instruction.encoding() as u16)
}

/// The state after `count` timer ticks.
pub open spec fn ticked_times(state: MachineState, count: nat) -> MachineState
    decreases count,
{
    if count == 0 {
        state
    } else {
        ticked(ticked_times(state, (count - 1) as nat))
    }
}

/// A step of a state that is at an instruction executes that instruction.
pub proof fn lemma_step_executes(state: MachineState, instruction: Instruction)
    requires
        at_instruction(state, instruction),
    ensures
        stepped(state) == executed(state, instruction),
{
    lemma_decoded_encoding(instruction);
}

/// A machine built around a ROM that fits holds the ROM's bytes, unchanged
/// and in order, from address 512 on, and zero everywhere else in memory.
pub proof fn lemma_rom_is_loaded_verbatim(rom: Seq<u8>, seed: u32)
    requires
        rom.len() <= 3584,
    ensures
        initial(rom, seed).well_formed(),
        initial(rom, seed).memory.subrange(512, 512 + rom.len() as int) == rom,
        initial(rom, seed).pc == 512,
        forall|a: int|
            0 <= a < 4096 && !(512 <= a < 512 + rom.len()) ==> #[trigger] initial(
                rom,
                seed,
            ).memory[a] == 0,
{
    assert(initial(rom, seed).memory.subrange(512, 512 + rom.len() as int) =~= rom);
}

/// The clear-screen instruction leaves every pixel clear, whatever the
/// display held, and changes nothing else but the program counter.
pub proof fn lemma_clear_screen_clears_every_pixel(state: MachineState)
    requires
        state.well_formed(),
        at_instruction(state, Instruction::ClearScreen),
    ensures
        stepped(state) is Ok,
        stepped(state)->Ok_0 == (MachineState { framebuffer: blank(), ..state }).advanced(),
        forall|p: int| 0 <= p < 2048 ==> !#[trigger] stepped(state)->Ok_0.framebuffer[p],
        stepped(state)->Ok_0.framebuffer.len() == 2048,
{
    lemma_step_executes(state, Instruction::ClearScreen);
}

/// Drawing the same sprite twice in succession at the same place restores
/// the display. The coordinate registers must not be `VF`, which the first
/// draw overwrites with its collision flag.
pub proof fn lemma_drawing_twice_restores_the_display(
    state: MachineState,
    x: u8,
    y: u8,
    rows: u8,
)
    requires
        state.well_formed(),
        x < 15,
        y < 15,
        rows < 16,
        state.index + rows <= 4096,
    ensures
        executed(state, Instruction::Draw { x, y, rows }) is Ok,
        executed(executed(state, Instruction::Draw { x, y, rows })->Ok_0, Instruction::Draw {
            x,
            y,
            rows,
        }) is Ok,
        executed(executed(state, Instruction::Draw { x, y, rows })->Ok_0, Instruction::Draw {
            x,
            y,
            rows,
        })->Ok_0.framebuffer == state.framebuffer,
{
    lemma_draw_twice_restores(
        state.framebuffer,
        state.sprite(rows),
        state.register(x) as int,
        state.register(y) as int,
    );
}

/// After a draw, `VF` is 1 if some pixel went from set to clear and 0 if
/// none did.
pub proof fn lemma_collision_flag_reports_cleared_pixels(
    state: MachineState,
    x: u8,
    y: u8,
    rows: u8,
)
    requires
        state.well_formed(),
        x < 16,
        y < 16,
        rows < 16,
        state.index + rows <= 4096,
    ensures
        executed(state, Instruction::Draw { x, y, rows }) is Ok,
        ({
            let next = executed(state, Instruction::Draw { x, y, rows })->Ok_0;
            let cleared = exists|p: int|
                0 <= p < 2048 && #[trigger] state.framebuffer[p] && !next.framebuffer[p];
            next.register(0xF) == if cleared {
                1u8
            } else {
                0u8
            }
        }),
{
    lemma_collision_is_a_cleared_pixel(
        state.framebuffer,
        state.sprite(rows),
        state.register(x) as int,
        state.register(y) as int,
    );
}

/// A call followed at once by a return leaves the program counter on the
/// instruction after the call and the stack as it was: the two steps
/// together do what advancing past the call would have done.
pub proof fn lemma_call_then_return_round_trip(state: MachineState, addr: u16)
    requires
        state.well_formed(),
        state.stack.len() < 16,
        at_instruction(state, Instruction::Call { addr }),
        state.memory[addr as int] == 0x00,
        addr + 1 < 4096,
        state.memory[addr + 1] == 0xEE,
    ensures
        stepped(state) is Ok,
        stepped(state)->Ok_0.stack.len() == state.stack.len() + 1,
        stepped(stepped(state)->Ok_0) == Ok::<MachineState, InterpreterError>(state.advanced()),
        state.advanced().stack == state.stack,
        state.advanced().pc == state.pc + 2,
{
    lemma_step_executes(state, Instruction::Call { addr });
    let called = stepped(state)->Ok_0;
    assert(called.pc == addr);
    lemma_step_executes(called, Instruction::Return);
    assert(called.stack.drop_last() =~= state.stack);
}

/// A call with sixteen return addresses on the stack fails with a stack
/// overflow; with fewer it succeeds.
pub proof fn lemma_call_overflows_a_full_stack(state: MachineState, addr: u16)
    requires
        state.well_formed(),
        at_instruction(state, Instruction::Call { addr }),
    ensures
        state.stack.len() == 16 ==> stepped(state) == Err::<MachineState, InterpreterError>(
            InterpreterError::StackOverflow,
        ),
        state.stack.len() < 16 ==> stepped(state) is Ok,
{
    lemma_step_executes(state, Instruction::Call { addr });
}

/// A return with an empty stack fails with a stack underflow; with a
/// return address on the stack it succeeds.
pub proof fn lemma_return_underflows_an_empty_stack(state: MachineState)
    requires
        state.well_formed(),
        at_instruction(state, Instruction::Return),
    ensures
        state.stack.len() == 0 ==> stepped(state) == Err::<MachineState, InterpreterError>(
            InterpreterError::StackUnderflow,
        ),
        state.stack.len() > 0 ==> stepped(state) is Ok,
{
    lemma_step_executes(state, Instruction::Return);
}

/// After `count` ticks each timer has lost `count`, or stands at zero if it
/// held less; nothing else has changed.
pub proof fn lemma_ticks_count_down_to_zero(state: MachineState, count: nat)
    ensures
        ticked_times(state, count) == (MachineState {
            delay_timer: if state.delay_timer >= count {
                (state.delay_timer - count) as u8
            } else {
                0u8
            },
            sound_timer: if state.sound_timer >= count {
                (state.sound_timer - count) as u8
            } else {
                0u8
            },
            ..state
        }),
    decreases count,
{
    if count > 0 {
        lemma_ticks_count_down_to_zero(state, (count - 1) as nat);
    }
}

/// Setting the sound timer from a register that is not zero makes the sound
/// active, and as many ticks as the register held make it silent again.
pub proof fn lemma_sound_lasts_as_long_as_its_timer(state: MachineState, x: u8, count: nat)
    requires
        state.well_formed(),
        x < 16,
        state.register(x) > 0,
    ensures
        executed(state, Instruction::SetSound { x }) is Ok,
        executed(state, Instruction::SetSound { x })->Ok_0.sound_active(),
        count < state.register(x) ==> ticked_times(
            executed(state, Instruction::SetSound { x })->Ok_0,
            count,
        ).sound_active(),
        count >= state.register(x) ==> !ticked_times(
            executed(state, Instruction::SetSound { x })->Ok_0,
            count,
        ).sound_active(),
{
    lemma_ticks_count_down_to_zero(executed(state, Instruction::SetSound { x })->Ok_0, count);
}

/// While no key is pressed, a step at a key-wait instruction changes
/// nothing: the program counter stays on the instruction.
pub proof fn lemma_key_wait_holds_while_no_key_is_pressed(state: MachineState, x: u8)
    requires
        state.well_formed(),
        at_instruction(state, Instruction::WaitForKey { x }),
        !any_pressed(state.keypad),
    ensures
        stepped(state) == Ok::<MachineState, InterpreterError>(state),
        at_instruction(stepped(state)->Ok_0, Instruction::WaitForKey { x }),
{
    lemma_step_executes(state, Instruction::WaitForKey { x });
}

/// Once a key is pressed, with no other key down, the next step at a
/// key-wait instruction stores that key's index in the target register and
/// moves the program counter on by two.
pub proof fn lemma_key_wait_ends_with_the_pressed_key(state: MachineState, x: u8, key: u8)
    requires
        state.well_formed(),
        at_instruction(state, Instruction::WaitForKey { x }),
        !any_pressed(state.keypad),
        key < 16,
    ensures
        stepped(pressed(state, key)) == Ok::<MachineState, InterpreterError>(
            pressed(state, key).with_register(x, key).advanced(),
        ),
        stepped(pressed(state, key))->Ok_0.register(x) == key,
        stepped(pressed(state, key))->Ok_0.pc == state.pc + 2,
{
    let waiting = pressed(state, key);
    lemma_step_executes(waiting, Instruction::WaitForKey { x });
    assert forall|lower: int| 0 <= lower < key implies !#[trigger] waiting.keypad[lower] by {
        assert(!state.keypad[lower]);
    }
    lemma_lowest_pressed_is_unique(waiting.keypad, key as int);
}

/// The random instruction with mask zero stores zero, whatever the random
/// source hands out.
pub proof fn lemma_random_with_zero_mask_is_zero(state: MachineState, x: u8)
    requires
        state.well_formed(),
        x < 16,
    ensures
        executed(state, Instruction::Random { x, mask: 0 }) is Ok,
        executed(state, Instruction::Random { x, mask: 0 })->Ok_0.register(x) == 0,
{
    assert(forall|byte: u8| #[trigger] (byte & 0) == 0) by (bit_vector);
}

/// The random instruction stores a byte that has no bit outside the mask.
pub proof fn lemma_random_stays_within_the_mask(state: MachineState, x: u8, mask: u8)
    requires
        state.well_formed(),
        x < 16,
    ensures
        executed(state, Instruction::Random { x, mask }) is Ok,
        executed(state, Instruction::Random { x, mask })->Ok_0.register(x) & !mask == 0,
{
    assert(forall|byte: u8, m: u8| #[trigger] (byte & m) & !m == 0) by (bit_vector);
}

/// Executing an instruction keeps every region at its size and the stack
/// within its capacity.
pub proof fn lemma_execution_keeps_the_state_well_formed(
    state: MachineState,
    instruction: Instruction,
)
    requires
        state.well_formed(),
        instruction.well_formed(),
        executed(state, instruction) is Ok,
    ensures
        executed(state, instruction)->Ok_0.well_formed(),
{
}

/// No instruction changes the keypad: only the host's key reports do.
pub proof fn lemma_execution_keeps_the_keypad(state: MachineState, instruction: Instruction)
    requires
        state.well_formed(),
        instruction.well_formed(),
        executed(state, instruction) is Ok,
    ensures
        executed(state, instruction)->Ok_0.keypad == state.keypad,
{
}

/// A step never counts a timer down: but for the two instructions that set
/// a timer from a register, executing an instruction keeps both timers.
pub proof fn lemma_execution_only_sets_timers(state: MachineState, instruction: Instruction)
    requires
        state.well_formed(),
        instruction.well_formed(),
        executed(state, instruction) is Ok,
    ensures
        !(instruction is SetDelay) ==> executed(state, instruction)->Ok_0.delay_timer
            == state.delay_timer,
        !(instruction is SetSound) ==> executed(state, instruction)->Ok_0.sound_timer
            == state.sound_timer,
{
}

/// Only the draw and the clear-screen instructions change the display.
pub proof fn lemma_only_draw_and_clear_change_the_display(
    state: MachineState,
    instruction: Instruction,
)
    requires
        state.well_formed(),
        instruction.well_formed(),
        executed(state, instruction) is Ok,
        !(instruction is Draw),
        !(instruction is ClearScreen),
    ensures
        executed(state, instruction)->Ok_0.framebuffer == state.framebuffer,
{
}

/// Pressing a key that is pressed, or releasing one that is released,
/// changes nothing; so does reporting the same thing twice.
pub proof fn lemma_key_reports_are_idempotent(state: MachineState, key: u8)
    requires
        state.well_formed(),
        key < 16,
    ensures
        state.keypad[key as int] ==> pressed(state, key) == state,
        !state.keypad[key as int] ==> released(state, key) == state,
        pressed(pressed(state, key), key) == pressed(state, key),
        released(released(state, key), key) == released(state, key),
{
    assert(pressed(pressed(state, key), key).keypad =~= pressed(state, key).keypad);
    assert(released(released(state, key), key).keypad =~= released(state, key).keypad);
    if state.keypad[key as int] {
        assert(pressed(state, key).keypad =~= state.keypad);
    } else {
        assert(released(state, key).keypad =~= state.keypad);
    }
}

} // verus!
