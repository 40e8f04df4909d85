//! A CHIP-8 virtual machine core.
//!
//! The machine owns its memory, registers, call stack, framebuffer, timers,
//! keypad state and random source. A host drives it: it builds an
//! [`Interpreter`] from ROM bytes, calls [`Interpreter::step`] to execute one
//! instruction, calls [`Interpreter::tick_timers`] at its own cadence, reports
//! key presses, and reads the framebuffer and the sound flag.
//!
//! Every operation is specified over [`MachineState`], the mathematical model
//! of the machine, and proved against that model.

pub mod alu;
pub mod display;
pub mod error;
pub mod host;
pub mod instruction;
pub mod interpreter;
pub mod laws;
pub mod random;
pub mod state;

pub use error::InterpreterError;
pub use instruction::Instruction;
pub use interpreter::Interpreter;
pub use random::RandomSource;
pub use state::MachineState;
