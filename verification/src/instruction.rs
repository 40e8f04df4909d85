//! The instruction set: what a 16-bit word means, and the decoder.
//!
//! A word is four nibbles. The first selects a family; the others are, by
//! family, a register `x`, a register `y`, an immediate byte (the low eight
//! bits), an address (the low twelve bits) or a row count (the low nibble).

use vstd::prelude::*;

verus! {

/// One decoded instruction. `x` and `y` name registers, `value` and `mask`
/// are immediate bytes, `addr` is a twelve-bit address.
#[derive(Clone, Copy, Debug, PartialEq, Eq, Structural)]
pub enum Instruction {
    /// `00E0`: clear the framebuffer.
    ClearScreen,
    /// `00EE`: return from a subroutine.
    Return,
    /// `1nnn`: jump to `addr`.
    Jump { addr: u16 },
    /// `2nnn`: call the subroutine at `addr`.
    Call { addr: u16 },
    /// `3xkk`: skip the next instruction if `Vx == value`.
    SkipIfEqual { x: u8, value: u8 },
    /// `4xkk`: skip the next instruction if `Vx != value`.
    SkipIfNotEqual { x: u8, value: u8 },
    /// `5xy0`: skip the next instruction if `Vx == Vy`.
    SkipIfRegistersEqual { x: u8, y: u8 },
    /// `6xkk`: `Vx = value`.
    Load { x: u8, value: u8 },
    /// `7xkk`: `Vx = Vx + value`, wrapping, flag untouched.
    AddImmediate { x: u8, value: u8 },
    /// `8xy0`: `Vx = Vy`.
    Move { x: u8, y: u8 },
    /// `8xy1`: `Vx = Vx | Vy`.
    Or { x: u8, y: u8 },
    /// `8xy2`: `Vx = Vx & Vy`.
    And { x: u8, y: u8 },
    /// `8xy3`: `Vx = Vx ^ Vy`.
    Xor { x: u8, y: u8 },
    /// `8xy4`: `Vx = Vx + Vy`, wrapping; `VF` is the carry.
    Add { x: u8, y: u8 },
    /// `8xy5`: `Vx = Vx - Vy`, wrapping; `VF` is 1 when nothing was borrowed.
    Subtract { x: u8, y: u8 },
    /// `8xy6`: `Vx = Vx >> 1`; `VF` is the bit shifted out. `y` is carried by
    /// the encoding and not read.
    ShiftRight { x: u8, y: u8 },
    /// `8xy7`: `Vx = Vy - Vx`, wrapping; `VF` is 1 when nothing was borrowed.
    SubtractReversed { x: u8, y: u8 },
    /// `8xyE`: `Vx = Vx << 1`; `VF` is the bit shifted out. `y` is carried by
    /// the encoding and not read.
    ShiftLeft { x: u8, y: u8 },
    /// `9xy0`: skip the next instruction if `Vx != Vy`.
    SkipIfRegistersNotEqual { x: u8, y: u8 },
    /// `Annn`: `I = addr`.
    LoadIndex { addr: u16 },
    /// `Bnnn`: jump to `addr + V0`.
    JumpWithOffset { addr: u16 },
    /// `Cxkk`: `Vx = random byte & mask`.
    Random { x: u8, mask: u8 },
    /// `Dxyn`: draw the `rows`-row sprite at `I` at (`Vx`, `Vy`); `VF` is the
    /// collision flag.
    Draw { x: u8, y: u8, rows: u8 },
    /// `Ex9E`: skip the next instruction if the key named by `Vx` is pressed.
    SkipIfKeyPressed { x: u8 },
    /// `ExA1`: skip the next instruction if the key named by `Vx` is released.
    SkipIfKeyReleased { x: u8 },
    /// `Fx07`: `Vx = delay timer`.
    ReadDelay { x: u8 },
    /// `Fx0A`: wait for a key and store its index in `Vx`.
    WaitForKey { x: u8 },
    /// `Fx15`: `delay timer = Vx`.
    SetDelay { x: u8 },
    /// `Fx18`: `sound timer = Vx`.
    SetSound { x: u8 },
    /// `Fx1E`: `I = I + Vx`, wrapping at sixteen bits.
    AddToIndex { x: u8 },
    /// `Fx29`: `I =` address of the glyph for the low nibble of `Vx`.
    GlyphAddress { x: u8 },
    /// `Fx33`: store the three decimal digits of `Vx` at `I`, `I+1`, `I+2`.
    StoreDecimal { x: u8 },
    /// `Fx55`: store `V0..=Vx` at `I..=I+x`.
    StoreRegisters { x: u8 },
    /// `Fx65`: load `V0..=Vx` from `I..=I+x`.
    LoadRegisters { x: u8 },
}

/// The word made of a family nibble and a twelve-bit address.
pub open spec fn word_with_address(family: int, addr: u16) -> int {
    family * 0x1000 + addr
}

/// The word made of a family nibble, a register and an immediate byte.
pub open spec fn word_with_byte(family: int, x: u8, byte: u8) -> int {
    family * 0x1000 + x * 0x100 + byte
}

/// The word made of a family nibble, two registers and a last nibble.
pub open spec fn word_with_registers(family: int, x: u8, y: u8, last: int) -> int {
    family * 0x1000 + x * 0x100 + y * 0x10 + last
}

impl Instruction {
    /// The operands fit their fields: registers and row counts in a nibble,
    /// addresses in twelve bits.
    pub open spec fn well_formed(self) -> bool {
        match self {
            Instruction::ClearScreen | Instruction::Return => true,
            Instruction::Jump { addr }
            | Instruction::Call { addr }
            | Instruction::LoadIndex { addr }
            | Instruction::JumpWithOffset { addr } => addr < 0x1000,
            Instruction::SkipIfEqual { x, value }
            | Instruction::SkipIfNotEqual { x, value }
            | Instruction::Load { x, value }
            | Instruction::AddImmediate { x, value } => x < 16,
            Instruction::Random { x, mask } => x < 16,
            Instruction::SkipIfRegistersEqual { x, y }
            | Instruction::Move { x, y }
            | Instruction::Or { x, y }
            | Instruction::And { x, y }
            | Instruction::Xor { x, y }
            | Instruction::Add { x, y }
            | Instruction::Subtract { x, y }
            | Instruction::ShiftRight { x, y }
            | Instruction::SubtractReversed { x, y }
            | Instruction::ShiftLeft { x, y }
            | Instruction::SkipIfRegistersNotEqual { x, y } => x < 16 && y < 16,
            Instruction::Draw { x, y, rows } => x < 16 && y < 16 && rows < 16,
            Instruction::SkipIfKeyPressed { x }
            | Instruction::SkipIfKeyReleased { x }
            | Instruction::ReadDelay { x }
            | Instruction::WaitForKey { x }
            | Instruction::SetDelay { x }
            | Instruction::SetSound { x }
            | Instruction::AddToIndex { x }
            | Instruction::GlyphAddress { x }
            | Instruction::StoreDecimal { x }
            | Instruction::StoreRegisters { x }
            | Instruction::LoadRegisters { x } => x < 16,
        }
    }

    /// The word that stands for the instruction in memory.
    pub open spec fn encoding(self) -> int {
        match self {
            Instruction::ClearScreen => 0x00E0,
            Instruction::Return => 0x00EE,
            Instruction::Jump { addr } => word_with_address(0x1, addr),
            Instruction::Call { addr } => word_with_address(0x2, addr),
            Instruction::SkipIfEqual { x, value } => word_with_byte(0x3, x, value),
            Instruction::SkipIfNotEqual { x, value } => word_with_byte(0x4, x, value),
            Instruction::SkipIfRegistersEqual { x, y } => word_with_registers(0x5, x, y, 0x0),
            Instruction::Load { x, value } => word_with_byte(0x6, x, value),
            Instruction::AddImmediate { x, value } => word_with_byte(0x7, x, value),
            Instruction::Move { x, y } => word_with_registers(0x8, x, y, 0x0),
            Instruction::Or { x, y } => word_with_registers(0x8, x, y, 0x1),
            Instruction::And { x, y } => word_with_registers(0x8, x, y, 0x2),
            Instruction::Xor { x, y } => word_with_registers(0x8, x, y, 0x3),
            Instruction::Add { x, y } => word_with_registers(0x8, x, y, 0x4),
            Instruction::Subtract { x, y } => word_with_registers(0x8, x, y, 0x5),
            Instruction::ShiftRight { x, y } => word_with_registers(0x8, x, y, 0x6),
            Instruction::SubtractReversed { x, y } => word_with_registers(0x8, x, y, 0x7),
            Instruction::ShiftLeft { x, y } => word_with_registers(0x8, x, y, 0xE),
            Instruction::SkipIfRegistersNotEqual { x, y } => word_with_registers(0x9, x, y, 0x0),
            Instruction::LoadIndex { addr } => word_with_address(0xA, addr),
            Instruction::JumpWithOffset { addr } => word_with_address(0xB, addr),
            Instruction::Random { x, mask } => word_with_byte(0xC, x, mask),
            Instruction::Draw { x, y, rows } => word_with_registers(0xD, x, y, rows as int),
            Instruction::SkipIfKeyPressed { x } => word_with_byte(0xE, x, 0x9E),
            Instruction::SkipIfKeyReleased { x } => word_with_byte(0xE, x, 0xA1),
            Instruction::ReadDelay { x } => word_with_byte(0xF, x, 0x07),
            Instruction::WaitForKey { x } => word_with_byte(0xF, x, 0x0A),
            Instruction::SetDelay { x } => word_with_byte(0xF, x, 0x15),
            Instruction::SetSound { x } => word_with_byte(0xF, x, 0x18),
            Instruction::AddToIndex { x } => word_with_byte(0xF, x, 0x1E),
            Instruction::GlyphAddress { x } => word_with_byte(0xF, x, 0x29),
            Instruction::StoreDecimal { x } => word_with_byte(0xF, x, 0x33),
            Instruction::StoreRegisters { x } => word_with_byte(0xF, x, 0x55),
            Instruction::LoadRegisters { x } => word_with_byte(0xF, x, 0x65),
        }
    }
}

/// A word is an instruction when some well-formed instruction has it as its
/// encoding.
pub open spec fn is_instruction(opcode: u16) -> bool {
    exists|instruction: Instruction|
        instruction.well_formed() && #[trigger] instruction.encoding() == opcode
}

/// The instruction that a word stands for: the well-formed instruction whose
/// encoding it is, if there is one.
pub open spec fn decoded(opcode: u16) -> Option<Instruction> {
    if is_instruction(opcode) {
        Some(
            choose|instruction: Instruction|
                instruction.well_formed() && #[trigger] instruction.encoding() == opcode,
        )
    } else {
        None
    }
}

/// No two well-formed instructions share an encoding.
pub proof fn lemma_encoding_is_injective(a: Instruction, b: Instruction)
    requires
        a.well_formed(),
        b.well_formed(),
        a.encoding() == b.encoding(),
    ensures
        a == b,
{
}

/// A well-formed instruction is what its encoding decodes to.
pub proof fn lemma_decoded_encoding(instruction: Instruction)
    requires
        instruction.well_formed(),
    ensures
        0 <= instruction.encoding() < 0x1_0000,
        decoded(instruction.encoding() as u16) == Some(instruction),
{
    let opcode = instruction.encoding() as u16;
    assert(is_instruction(opcode));
    let chosen = choose|other: Instruction|
        other.well_formed() && #[trigger] other.encoding() == opcode;
    lemma_encoding_is_injective(chosen, instruction);
}

/// The fields of a word, read with shifts and masks, are its four digits in
/// base sixteen, and the word is their sum.
proof fn lemma_fields(opcode: u16)
    ensures
        opcode >> 12 < 0x10,
        (opcode >> 8) & 0xF < 0x10,
        (opcode >> 4) & 0xF < 0x10,
        opcode & 0xF < 0x10,
        opcode & 0xFF == ((opcode >> 4) & 0xF) * 0x10 + (opcode & 0xF),
        opcode & 0xFFF == ((opcode >> 8) & 0xF) * 0x100 + (opcode & 0xFF),
        opcode == (opcode >> 12) * 0x1000 + (opcode & 0xFFF),
{
    assert(opcode >> 12 < 0x10) by (bit_vector);
    assert((opcode >> 8) & 0xF < 0x10) by (bit_vector);
    assert((opcode >> 4) & 0xF < 0x10) by (bit_vector);
    assert(opcode & 0xF < 0x10) by (bit_vector);
    assert(opcode & 0xFF == ((opcode >> 4) & 0xF) * 0x10 + (opcode & 0xF)) by (bit_vector);
    assert(opcode & 0xFFF == ((opcode >> 8) & 0xF) * 0x100 + (opcode & 0xFF)) by (bit_vector);
    assert(opcode == (opcode >> 12) * 0x1000 + (opcode & 0xFFF)) by (bit_vector);
}

/// The last nibbles that the arithmetic family `8xy_` leaves unassigned.
spec fn unassigned_arithmetic(last: int) -> bool {
    0x8 <= last <= 0xD || last == 0xF
}

/// The low bytes that the timer and memory family `Fx__` leaves unassigned.
spec fn unassigned_miscellaneous(byte: int) -> bool {
    byte != 0x07 && byte != 0x0A && byte != 0x15 && byte != 0x18 && byte != 0x1E && byte != 0x29
        && byte != 0x33 && byte != 0x55 && byte != 0x65
}

/// The digit patterns that no instruction has.
spec fn unassigned(family: int, x: int, y: int, last: int) -> bool {
    let byte = y * 0x10 + last;
    let addr = x * 0x100 + byte;
    ||| family == 0x0 && addr != 0x0E0 && addr != 0x0EE
    ||| family == 0x5 && last != 0
    ||| family == 0x8 && unassigned_arithmetic(last)
    ||| family == 0x9 && last != 0
    ||| family == 0xE && byte != 0x9E && byte != 0xA1
    ||| family == 0xF && unassigned_miscellaneous(byte)
}

/// A word whose digits form an unassigned pattern is no instruction.
proof fn lemma_unassigned_is_no_instruction(opcode: u16, family: int, x: int, y: int, last: int)
    requires
        0 <= family < 0x10,
        0 <= x < 0x10,
        0 <= y < 0x10,
        0 <= last < 0x10,
        opcode == family * 0x1000 + x * 0x100 + y * 0x10 + last,
        unassigned(family, x, y, last),
    ensures
        !is_instruction(opcode),
{
    assert forall|instruction: Instruction| instruction.well_formed() implies
        #[trigger] instruction.encoding() != opcode by {
        match instruction {
            Instruction::ClearScreen | Instruction::Return => {},
            Instruction::Jump { addr }
            | Instruction::Call { addr }
            | Instruction::LoadIndex { addr }
            | Instruction::JumpWithOffset { addr } => {},
            Instruction::SkipIfEqual { x, value }
            | Instruction::SkipIfNotEqual { x, value }
            | Instruction::Load { x, value }
            | Instruction::AddImmediate { x, value } => {},
            Instruction::Random { x, mask } => {},
            Instruction::SkipIfRegistersEqual { x, y }
            | Instruction::Move { x, y }
            | Instruction::Or { x, y }
            | Instruction::And { x, y }
            | Instruction::Xor { x, y }
            | Instruction::Add { x, y }
            | Instruction::Subtract { x, y }
            | Instruction::ShiftRight { x, y }
            | Instruction::SubtractReversed { x, y }
            | Instruction::ShiftLeft { x, y }
            | Instruction::SkipIfRegistersNotEqual { x, y } => {},
            Instruction::Draw { x, y, rows } => {},
            Instruction::SkipIfKeyPressed { x }
            | Instruction::SkipIfKeyReleased { x }
            | Instruction::ReadDelay { x }
            | Instruction::WaitForKey { x }
            | Instruction::SetDelay { x }
            | Instruction::SetSound { x }
            | Instruction::AddToIndex { x }
            | Instruction::GlyphAddress { x }
            | Instruction::StoreDecimal { x }
            | Instruction::StoreRegisters { x }
            | Instruction::LoadRegisters { x } => {},
        }
    }
}

/// Reads the instruction that a word stands for, or `None` where the word
/// is no instruction.
pub fn decode(opcode: u16) -> (result: Option<Instruction>)
    ensures
        result == decoded(opcode),
        result is Some <==> is_instruction(opcode),
        result matches Some(instruction) ==> instruction.well_formed() && instruction.encoding()
            == opcode,
{
    proof {
        lemma_fields(opcode);
    }
    let family: u16 = opcode >> 12;
    let x: u8 = ((opcode >> 8) & 0xF) as u8;
    let y: u8 = ((opcode >> 4) & 0xF) as u8;
    let last: u8 = (opcode & 0xF) as u8;
    let byte: u8 = (opcode & 0xFF) as u8;
    let addr: u16 = opcode & 0xFFF;
    let result = match family {
        0x0 => match addr {
            0x0E0 => Some(Instruction::ClearScreen),
            0x0EE => Some(Instruction::Return),
            _ => None,
        },
        0x1 => Some(Instruction::Jump { addr }),
        0x2 => Some(Instruction::Call { addr }),
        0x3 => Some(Instruction::SkipIfEqual { x, value: byte }),
        0x4 => Some(Instruction::SkipIfNotEqual { x, value: byte }),
        0x5 => match last {
            0x0 => Some(Instruction::SkipIfRegistersEqual { x, y }),
            _ => None,
        },
        0x6 => Some(Instruction::Load { x, value: byte }),
        0x7 => Some(Instruction::AddImmediate { x, value: byte }),
        0x8 => match last {
            0x0 => Some(Instruction::Move { x, y }),
            0x1 => Some(Instruction::Or { x, y }),
            0x2 => Some(Instruction::And { x, y }),
            0x3 => Some(Instruction::Xor { x, y }),
            0x4 => Some(Instruction::Add { x, y }),
            0x5 => Some(Instruction::Subtract { x, y }),
            0x6 => Some(Instruction::ShiftRight { x, y }),
            0x7 => Some(Instruction::SubtractReversed { x, y }),
            0xE => Some(Instruction::ShiftLeft { x, y }),
            _ => None,
        },
        0x9 => match last {
            0x0 => Some(Instruction::SkipIfRegistersNotEqual { x, y }),
            _ => None,
        },
        0xA => Some(Instruction::LoadIndex { addr }),
        0xB => Some(Instruction::JumpWithOffset { addr }),
        0xC => Some(Instruction::Random { x, mask: byte }),
        0xD => Some(Instruction::Draw { x, y, rows: last }),
        0xE => match byte {
            0x9E => Some(Instruction::SkipIfKeyPressed { x }),
            0xA1 => Some(Instruction::SkipIfKeyReleased { x }),
            _ => None,
        },
        _ => match byte {
            0x07 => Some(Instruction::ReadDelay { x }),
            0x0A => Some(Instruction::WaitForKey { x }),
            0x15 => Some(Instruction::SetDelay { x }),
            0x18 => Some(Instruction::SetSound { x }),
            0x1E => Some(Instruction::AddToIndex { x }),
            0x29 => Some(Instruction::GlyphAddress { x }),
            0x33 => Some(Instruction::StoreDecimal { x }),
            0x55 => Some(Instruction::StoreRegisters { x }),
            0x65 => Some(Instruction::LoadRegisters { x }),
            _ => None,
        },
    };
    proof {
        match result {
            Some(instruction) => {
                assert(instruction.well_formed());
                assert(instruction.encoding() == opcode);
                lemma_decoded_encoding(instruction);
            },
            None => {
                lemma_unassigned_is_no_instruction(
                    opcode,
                    family as int,
                    x as int,
                    y as int,
                    last as int,
                );
            },
        }
    }
    result
}

} // verus!
