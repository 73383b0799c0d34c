//! An interpreter core for the CHIP-8 virtual machine: memory layout, the
//! opcode decoder, per-instruction semantics and sprite drawing, each stated
//! as a contract over a mathematical model of the machine.
use vstd::prelude::*;

pub mod arguments;
pub mod draw;
pub mod emulator;
pub mod error;
pub mod font;
pub mod instruction;
pub mod semantics;
pub mod theorems;

pub use arguments::{Arguments, CompatabilityMode, Scale};
pub use draw::Draw;
pub use emulator::Chip8;
pub use error::{EngineError, LoadError, RunError};
pub use instruction::{DecodeError, Instruction};
