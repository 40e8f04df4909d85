//! The machine's source of random bytes: a linear congruential generator
//! over 32-bit states whose output is the top byte of the state.

use vstd::prelude::*;

verus! {

/// The multiplier of the generator.
pub const MULTIPLIER: u64 = 1664525;

/// The increment of the generator.
pub const INCREMENT: u64 = 1013904223;

/// The number of states, 2^32.
pub const MODULUS: u64 = 0x1_0000_0000;

/// The state that follows `state`.
pub open spec fn next_state(state: u32) -> u32 {
    ((state as int * MULTIPLIER as int + INCREMENT as int) % (MODULUS as int)) as u32
}

/// The byte that a generator in state `state` hands out: its top eight bits.
pub open spec fn output_byte(state: u32) -> u8 {
    (state as int / 0x100_0000) as u8
}

/// A deterministic generator of bytes. Two sources built from the same seed
/// hand out the same bytes in the same order.
#[derive(Clone, Copy, Debug)]
pub struct RandomSource {
    state: u32,
}

impl View for RandomSource {
    type V = u32;

    closed spec fn view(&self) -> u32 {
        self.state
    }
}

impl RandomSource {
    /// A source whose state is `seed`.
    pub fn new(seed: u32) -> (source: RandomSource)
        ensures
            source@ == seed,
    {
        RandomSource { state: seed }
    }

    /// The current state.
    pub fn state(&self) -> (state: u32)
        ensures
            state == self@,
    {
        self.state
    }

    /// Moves to the next state and hands out that state's byte.
    pub fn next_byte(&mut self) -> (byte: u8)
        ensures
            final(self)@ == next_state(old(self)@),
            byte == output_byte(next_state(old(self)@)),
        no_unwind
    {
        let wide: u64 = self.state as u64 * MULTIPLIER + INCREMENT;
        let next: u64 = wide % MODULUS;
        self.state = next as u32;
        (next / 0x100_0000) as u8
    }
}

/// Every byte value is the output of some state: the state whose top byte
/// it is.
pub proof fn lemma_every_byte_is_an_output(byte: u8)
    ensures
        output_byte((byte as int * 0x100_0000) as u32) == byte,
{
}

} // verus!
