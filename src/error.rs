use vstd::prelude::*;
use crate::instruction::DecodeError;

verus! {

/// Why a program could not be loaded.
#[derive(Debug, Clone, Copy, PartialEq, Eq, Structural)]
pub enum LoadError {
    /// The program does not fit in memory after the reserved first 0x200 bytes.
    TooLarge,
}

/// Why the machine could not execute a step.
#[derive(Debug, Clone, Copy, PartialEq, Eq, Structural)]
pub enum EngineError {
    /// The fetched word is no instruction.
    Decode(DecodeError),
    /// A call with all stack entries in use.
    StackOverflow,
    /// A return with an empty stack.
    StackUnderflow,
    /// The instruction names a register above 0xF, an address above 0xFFF or a
    /// sprite taller than 15 rows: no opcode word carries such operands.
    InvalidOperand,
    /// The program counter leaves no room for a two-byte instruction in memory.
    ProgramCounterOutOfRange,
    /// The rows of a sprite that would be drawn reach past the end of memory.
    SpriteOutOfMemory,
}

/// Why one cycle of the run loop ended in failure.
#[derive(Debug)]
pub enum RunError {
    /// The machine could not execute the step.
    Engine(EngineError),
    /// The draw sink failed.
    Draw(anyhow::Error),
}

} // verus!
