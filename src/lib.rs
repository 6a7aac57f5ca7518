//! An Intel 8080 instruction-execution engine whose behaviour is stated as
//! spec functions over a mathematical machine state and proved by Verus.
pub mod alu;
pub mod emulator;
pub mod flags;
pub mod laws;
pub mod semantics;
pub mod state;

pub use emulator::Emulator;
pub use flags::{Flag, Flags};
pub use state::{EmuError, Event, Reg16, Reg8};
