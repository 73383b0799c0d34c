use vstd::prelude::*;
use crate::arguments::CompatabilityMode;
use crate::error::{EngineError, LoadError};
use crate::font::FONT;
use crate::instruction::{decode_spec, DecodeError, Instruction};

verus! {

/// Bytes of addressable memory.
pub const MEMORY_SIZE: usize = 4096;

/// Address at which a program is loaded and execution starts.
pub const PROGRAM_START: usize = 0x200;

/// Address of the first glyph of the font.
pub const FONT_START: usize = 0x50;

/// Bytes taken by the font: sixteen glyphs of five bytes.
pub const FONT_SIZE: usize = 80;

/// Return addresses the call stack can hold.
pub const STACK_SIZE: usize = 24;

/// Pixel columns of the display.
pub const WIDTH: usize = 64;

/// Pixel rows of the display.
pub const HEIGHT: usize = 32;

/// Index of the flag register.
pub const FLAG: u8 = 0xF;

/// The machine as a mathematical value.
pub struct Machine {
    /// The 4096 bytes of memory.
    pub memory: Seq<u8>,
    /// 32 rows of 64 pixels.
    pub display: Seq<Seq<bool>>,
    /// Return addresses in use, the most recent last.
    pub stack: Seq<u16>,
    /// The sixteen general-purpose registers; the last is the flag register.
    pub registers: Seq<u8>,
    pub program_counter: u16,
    pub index_register: u16,
    pub delay_timer: u8,
    pub sound_timer: u8,
    pub mode: CompatabilityMode,
}

impl Machine {
    /// The shape every reachable machine has.
    pub open spec fn wf(self) -> bool {
        &&& self.memory.len() == MEMORY_SIZE
        &&& self.display.len() == HEIGHT
        &&& forall|r: int| 0 <= r < HEIGHT ==> (#[trigger] self.display[r]).len() == WIDTH
        &&& self.stack.len() <= STACK_SIZE
        &&& self.registers.len() == 16
    }

    /// Value of register `r`.
    pub open spec fn reg(self, r: u8) -> u8 {
        self.registers[r as int]
    }

    /// The machine with register `r` set to `v`.
    pub open spec fn with_reg(self, r: u8, v: u8) -> Machine {
        Machine { registers: self.registers.update(r as int, v), ..self }
    }

    /// The machine with the next instruction skipped when `cond` holds.
    pub open spec fn skip_if(self, cond: bool) -> Machine {
        if cond {
            Machine { program_counter: wrap16(self.program_counter + 2), ..self }
        } else {
            self
        }
    }
}

/// An integer reduced to 8 bits.
pub open spec fn wrap8(v: int) -> u8 {
    (v % 256) as u8
}

/// An integer reduced to 16 bits.
pub open spec fn wrap16(v: int) -> u16 {
    (v % 65536) as u16
}

/// An unlit display.
pub open spec fn blank_display() -> Seq<Seq<bool>> {
    Seq::new(HEIGHT as nat, |r: int| Seq::new(WIDTH as nat, |c: int| false))
}

/// Memory right after loading `program`: the font at 0x50, the program at
/// 0x200, zero everywhere else.
pub open spec fn initial_memory(program: Seq<u8>) -> Seq<u8> {
    Seq::new(
        MEMORY_SIZE as nat,
        |a: int|
            if FONT_START <= a < FONT_START + FONT_SIZE {
                FONT@[a - FONT_START]
            } else if PROGRAM_START <= a < PROGRAM_START + program.len() {
                program[a - PROGRAM_START]
            } else {
                0u8
            },
    )
}

/// A machine freshly loaded with `program`, ready to run it.
pub open spec fn initial_machine(program: Seq<u8>, mode: CompatabilityMode) -> Machine {
    Machine {
        memory: initial_memory(program),
        display: blank_display(),
        stack: Seq::empty(),
        registers: Seq::new(16, |i: int| 0u8),
        program_counter: PROGRAM_START as u16,
        index_register: 0,
        delay_timer: 0,
        sound_timer: 0,
        mode,
    }
}

/// Loading: fails exactly when the program does not fit after 0x200.
pub open spec fn load_spec(program: Seq<u8>, mode: CompatabilityMode) -> Result<Machine, LoadError> {
    if PROGRAM_START + program.len() > MEMORY_SIZE {
        Err(LoadError::TooLarge)
    } else {
        Ok(initial_machine(program, mode))
    }
}

/// Pixel `c` (0 is leftmost) of a sprite row byte: the most significant bit
/// comes first.
pub open spec fn sprite_pixel(byte: u8, c: int) -> bool {
    byte & (0x80u8 >> (c as u8)) != 0u8
}

/// Whether display cell (`rr`, `cc`) lies under a sprite of `height` rows drawn
/// at (`column`, `row`), after clipping at the right and bottom edges.
pub open spec fn in_sprite(column: int, row: int, height: int, rr: int, cc: int) -> bool {
    &&& row <= rr < row + height
    &&& rr < HEIGHT
    &&& column <= cc < column + 8
    &&& cc < WIDTH
}

/// Sprite rows that fall on the display.
pub open spec fn rows_drawn(row: int, height: int) -> int {
    if row + height <= HEIGHT {
        height
    } else {
        HEIGHT - row
    }
}

/// The display after XOR-ing in the sprite at the index register.
pub open spec fn drawn_display(m: Machine, column: int, row: int, height: int) -> Seq<Seq<bool>> {
    Seq::new(
        HEIGHT as nat,
        |rr: int|
            Seq::new(
                WIDTH as nat,
                |cc: int|
                    if in_sprite(column, row, height, rr, cc) {
                        m.display[rr][cc] ^ sprite_pixel(
                            m.memory[m.index_register + rr - row],
                            cc - column,
                        )
                    } else {
                        m.display[rr][cc]
                    },
            ),
    )
}

/// Whether a lit pixel lies under the clipped sprite.
pub open spec fn collides(m: Machine, column: int, row: int, height: int) -> bool {
    exists|rr: int, cc: int|
        0 <= rr < HEIGHT && 0 <= cc < WIDTH && in_sprite(column, row, height, rr, cc)
            && #[trigger] m.display[rr][cc]
}

/// Drawing a sprite of `height` rows from the index register at (`column`,
/// `row`): fails when the rows that fall on the display reach past memory;
/// else XORs the sprite in and sets the flag register to 1 on a collision,
/// to 0 otherwise.
#[verifier::opaque]
pub open spec fn draw_spec(m: Machine, column: int, row: int, height: int) -> Result<
    Machine,
    EngineError,
> {
    if m.index_register + rows_drawn(row, height) > MEMORY_SIZE {
        Err(EngineError::SpriteOutOfMemory)
    } else {
        Ok(
            Machine {
                display: drawn_display(m, column, row, height),
                registers: m.registers.update(
                    FLAG as int,
                    if collides(m, column, row, height) {
                        1u8
                    } else {
                        0u8
                    },
                ),
                ..m
            },
        )
    }
}

/// The register a shift reads: Y on the COSMAC VIP, X itself otherwise.
pub open spec fn shift_source(m: Machine, x: u8, y: u8) -> u8 {
    match m.mode {
        CompatabilityMode::Cosmac => m.reg(y),
        _ => m.reg(x),
    }
}

/// Register X becomes X + Y, wrapped to 8 bits; the flag register becomes 1
/// when the sum exceeds 255, else 0. The flag is written first.
#[verifier::opaque]
pub open spec fn add_spec(m: Machine, x: u8, y: u8) -> Machine {
    let sum = m.reg(x) + m.reg(y);
    let flag: u8 = if sum > 255 {
        1
    } else {
        0
    };
    m.with_reg(FLAG, flag).with_reg(x, wrap8(sum))
}

/// Register X becomes `a - b`, wrapped to 8 bits; the flag register becomes 1
/// when `a > b`, else 0. The flag is written first.
#[verifier::opaque]
pub open spec fn subtract_spec(m: Machine, x: u8, a: u8, b: u8) -> Machine {
    let flag: u8 = if a > b {
        1
    } else {
        0
    };
    m.with_reg(FLAG, flag).with_reg(x, wrap8(a - b))
}

/// Register X becomes `v` shifted left by one, wrapped to 8 bits; then the
/// flag register becomes the most significant bit of `v`.
#[verifier::opaque]
pub open spec fn shift_left_spec(m: Machine, x: u8, v: u8) -> Machine {
    m.with_reg(x, wrap8(v * 2)).with_reg(FLAG, v / 128)
}

/// Register X becomes `v` shifted right by one; then the flag register
/// becomes the least significant bit of `v`.
#[verifier::opaque]
pub open spec fn shift_right_spec(m: Machine, x: u8, v: u8) -> Machine {
    m.with_reg(x, v / 2).with_reg(FLAG, v % 2)
}

/// What one instruction does to the machine, `random` being the byte drawn
/// for a random instruction.
pub open spec fn exec_spec(m: Machine, i: Instruction, random: u8) -> Result<Machine, EngineError> {
    if !i.well_formed() {
        Err(EngineError::InvalidOperand)
    } else {
        match i {
            Instruction::ClearScreen => Ok(Machine { display: blank_display(), ..m }),
            Instruction::Return => if m.stack.len() == 0 {
                Err(EngineError::StackUnderflow)
            } else {
                Ok(
                    Machine {
                        program_counter: m.stack.last(),
                        stack: m.stack.drop_last(),
                        ..m
                    },
                )
            },
            Instruction::Goto(a) => Ok(Machine { program_counter: a, ..m }),
            Instruction::Subroutine(a) => if m.stack.len() >= STACK_SIZE {
                Err(EngineError::StackOverflow)
            } else {
                Ok(Machine { stack: m.stack.push(m.program_counter), program_counter: a, ..m })
            },
            Instruction::IsEqualVal { register, value } => Ok(m.skip_if(m.reg(register) == value)),
            Instruction::NotEqualVal { register, value } => Ok(m.skip_if(m.reg(register) != value)),
            Instruction::IsEqual { register_x, register_y } => Ok(
                m.skip_if(m.reg(register_x) == m.reg(register_y)),
            ),
            Instruction::NotEqual { register_x, register_y } => Ok(
                m.skip_if(m.reg(register_x) != m.reg(register_y)),
            ),
            Instruction::SetVal { register, value } => Ok(m.with_reg(register, value)),
            Instruction::AddVal { register, value } => Ok(
                m.with_reg(register, wrap8(m.reg(register) + value)),
            ),
            Instruction::SetRegister { register_x, register_y } => Ok(
                m.with_reg(register_x, m.reg(register_y)),
            ),
            Instruction::Or { register_x, register_y } => Ok(
                m.with_reg(register_x, m.reg(register_x) | m.reg(register_y)),
            ),
            Instruction::And { register_x, register_y } => Ok(
                m.with_reg(register_x, m.reg(register_x) & m.reg(register_y)),
            ),
            Instruction::Xor { register_x, register_y } => Ok(
                m.with_reg(register_x, m.reg(register_x) ^ m.reg(register_y)),
            ),
            Instruction::Add { register_x, register_y } => Ok(add_spec(m, register_x, register_y)),
            Instruction::SubtractRight { register_x, register_y } => Ok(
                subtract_spec(m, register_x, m.reg(register_x), m.reg(register_y)),
            ),
            Instruction::SubtractLeft { register_x, register_y } => Ok(
                subtract_spec(m, register_x, m.reg(register_y), m.reg(register_x)),
            ),
            Instruction::ShiftLeft { register_x, register_y } => Ok(
                shift_left_spec(m, register_x, shift_source(m, register_x, register_y)),
            ),
            Instruction::ShiftRight { register_x, register_y } => Ok(
                shift_right_spec(m, register_x, shift_source(m, register_x, register_y)),
            ),
            Instruction::SetIndexRegister(a) => Ok(Machine { index_register: a, ..m }),
            Instruction::Rand { register, value } => Ok(m.with_reg(register, random & value)),
            Instruction::Display { x_coord_register, y_coord_register, sprite_height } => draw_spec(
                m,
                (m.reg(x_coord_register) % 64) as int,
                (m.reg(y_coord_register) % 32) as int,
                sprite_height as int,
            ),
        }
    }
}

/// The big-endian word at the program counter.
pub open spec fn fetch_spec(m: Machine) -> u16 {
    (m.memory[m.program_counter as int] * 256 + m.memory[m.program_counter + 1]) as u16
}

/// One fetch-decode-execute step: the word at the program counter is
/// decoded, the program counter moves past it, and the instruction runs.
pub open spec fn step_spec(m: Machine, random: u8) -> Result<Machine, EngineError> {
    if m.program_counter + 1 >= MEMORY_SIZE {
        Err(EngineError::ProgramCounterOutOfRange)
    } else {
        match decode_spec(fetch_spec(m)) {
            None => Err(EngineError::Decode(DecodeError::UnknownOpcode(fetch_spec(m)))),
            Some(i) => exec_spec(
                Machine { program_counter: (m.program_counter + 2) as u16, ..m },
                i,
                random,
            ),
        }
    }
}

} // verus!
