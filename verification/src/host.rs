//! The rules by which a host drives the machine: which keyboard symbol
//! stands for which key, when a frame is due, and where a pixel lies in the
//! window. They are functions of plain values; the host does the input,
//! the sleeping and the painting.

use vstd::prelude::*;

verus! {

/// The number of instructions that the host runs in a second.
pub const STEPS_PER_SECOND: u64 = 700;

/// The length of a frame in nanoseconds: a whole number of microseconds, the
/// largest that fits `STEPS_PER_SECOND` times in a second.
pub const FRAME_NANOS: u64 = 1_428_000;

/// The side of the square that one pixel takes in the window.
pub const PIXEL_SCALE: u32 = 10;

/// The width of the window.
pub const WINDOW_WIDTH: u32 = 640;

/// The height of the window.
pub const WINDOW_HEIGHT: u32 = 320;

/// The keyboard layout: at index `k`, the symbol that stands for key `k`.
/// The keys form the four-by-four block `1234`, `qwer`, `asdf`, `zxcv`,
/// which stands for the keypad `123C`, `456D`, `789E`, `A0BF`.
pub open spec fn layout() -> Seq<char> {
    seq!['x', '1', '2', '3', 'q', 'w', 'e', 'a', 's', 'd', 'z', 'c', '4', 'r', 'f', 'v']
}

/// No symbol stands for two keys.
pub proof fn lemma_layout_has_no_repeats(first: int, second: int)
    requires
        0 <= first < 16,
        0 <= second < 16,
        layout()[first] == layout()[second],
    ensures
        first == second,
{
}

/// The key that a keyboard symbol stands for, or `None` for a symbol that
/// stands for no key.
pub fn key_for_symbol(symbol: char) -> (key: Option<u8>)
    ensures
        match key {
            Some(k) => k < 16 && layout()[k as int] == symbol,
            None => forall|k: int| 0 <= k < 16 ==> layout()[k] != symbol,
        },
{
    match symbol {
        'x' => Some(0x0),
        '1' => Some(0x1),
        '2' => Some(0x2),
        '3' => Some(0x3),
        'q' => Some(0x4),
        'w' => Some(0x5),
        'e' => Some(0x6),
        'a' => Some(0x7),
        's' => Some(0x8),
        'd' => Some(0x9),
        'z' => Some(0xA),
        'c' => Some(0xB),
        '4' => Some(0xC),
        'r' => Some(0xD),
        'f' => Some(0xE),
        'v' => Some(0xF),
        _ => None,
    }
}

/// The symbol of the key that ends the program: escape.
pub const QUIT_SYMBOL: char = '\u{1b}';

/// What the host does with a key event.
#[derive(Clone, Copy, Debug, PartialEq, Eq, Structural)]
pub enum KeyAction {
    /// End the program.
    Quit,
    /// Report the key as pressed.
    Press { key: u8 },
    /// Report the key as released.
    Release { key: u8 },
    /// Do nothing: the symbol stands for no key.
    Ignore,
}

/// Decides what a key event means: escape going down ends the program, a
/// symbol of the layout presses or releases its key, and anything else is
/// ignored.
pub fn key_action(symbol: char, down: bool) -> (action: KeyAction)
    ensures
        match action {
            KeyAction::Quit => symbol == QUIT_SYMBOL && down,
            KeyAction::Press { key } => down && key < 16 && layout()[key as int] == symbol,
            KeyAction::Release { key } => !down && key < 16 && layout()[key as int] == symbol,
            KeyAction::Ignore => !(symbol == QUIT_SYMBOL && down) && forall|k: int|
                0 <= k < 16 ==> layout()[k] != symbol,
        },
{
    if symbol == QUIT_SYMBOL && down {
        return KeyAction::Quit;
    }
    match key_for_symbol(symbol) {
        Some(key) => if down {
            KeyAction::Press { key }
        } else {
            KeyAction::Release { key }
        },
        None => KeyAction::Ignore,
    }
}

/// What the host does next, given the time since the last frame.
#[derive(Clone, Copy, Debug, PartialEq, Eq, Structural)]
pub enum FrameAction {
    /// A frame is due: step the machine, tick its timers, paint.
    Run,
    /// No frame is due yet: sleep for this many nanoseconds.
    Wait { nanos: u64 },
}

/// The action for a host that ran its last frame `elapsed_nanos`
/// nanoseconds ago: a frame once more than a frame's length has passed,
/// else a sleep for what is left of it.
pub open spec fn action_after(elapsed_nanos: u128) -> FrameAction {
    if elapsed_nanos > FRAME_NANOS {
        FrameAction::Run
    } else {
        FrameAction::Wait { nanos: (FRAME_NANOS - elapsed_nanos) as u64 }
    }
}

/// Decides whether a frame is due.
pub fn frame_action(elapsed_nanos: u128) -> (action: FrameAction)
    ensures
        action == action_after(elapsed_nanos),
{
    if elapsed_nanos > FRAME_NANOS as u128 {
        FrameAction::Run
    } else {
        FrameAction::Wait { nanos: FRAME_NANOS - elapsed_nanos as u64 }
    }
}

/// The top left corner, in the window, of the square for the pixel with
/// index `index`.
pub fn pixel_origin(index: usize) -> (origin: (i32, i32))
    requires
        index < 2048,
    ensures
        origin.0 == (index % 64) * 10,
        origin.1 == (index / 64) * 10,
{
    (((index % 64) * 10) as i32, ((index / 64) * 10) as i32)
}

} // verus!
