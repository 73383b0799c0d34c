use vstd::prelude::*;
use vstd::arithmetic::div_mod::{lemma_breakdown, lemma_div_denominator, lemma_fundamental_div_mod};

verus! {

/// One decoded CHIP-8 instruction, with the operands its opcode carries.
#[derive(Debug, Clone, Copy, PartialEq, Eq, Structural)]
pub enum Instruction {
    /// 00E0
    ClearScreen,
    /// 00EE
    Return,
    /// 1NNN
    Goto(u16),
    /// 2NNN
    Subroutine(u16),
    /// 3XNN
    IsEqualVal { register: u8, value: u8 },
    /// 4XNN
    NotEqualVal { register: u8, value: u8 },
    /// 5XY0
    IsEqual { register_x: u8, register_y: u8 },
    /// 6XNN
    SetVal { register: u8, value: u8 },
    /// 7XNN
    AddVal { register: u8, value: u8 },
    /// 8XY0
    SetRegister { register_x: u8, register_y: u8 },
    /// 8XY1
    Or { register_x: u8, register_y: u8 },
    /// 8XY2
    And { register_x: u8, register_y: u8 },
    /// 8XY3
    Xor { register_x: u8, register_y: u8 },
    /// 8XY4
    Add { register_x: u8, register_y: u8 },
    /// 8XY5
    SubtractRight { register_x: u8, register_y: u8 },
    /// 8XY6
    ShiftLeft { register_x: u8, register_y: u8 },
    /// 8XY7
    SubtractLeft { register_x: u8, register_y: u8 },
    /// 8XYE
    ShiftRight { register_x: u8, register_y: u8 },
    /// 9XY0
    NotEqual { register_x: u8, register_y: u8 },
    /// ANNN
    SetIndexRegister(u16),
    /// CXNN
    Rand { register: u8, value: u8 },
    /// DXYN
    Display { x_coord_register: u8, y_coord_register: u8, sprite_height: u8 },
}

/// Why a 16-bit word could not be decoded.
#[derive(Debug, Clone, Copy, PartialEq, Eq, Structural)]
pub enum DecodeError {
    /// The word matches no row of the opcode table.
    UnknownOpcode(u16),
}

/// The highest nibble of a word: the opcode family.
pub open spec fn family_of(w: u16) -> u16 {
    w / 4096
}

/// The second nibble of a word: the X register operand.
pub open spec fn x_of(w: u16) -> u8 {
    (w / 256 % 16) as u8
}

/// The third nibble of a word: the Y register operand.
pub open spec fn y_of(w: u16) -> u8 {
    (w / 16 % 16) as u8
}

/// The lowest nibble of a word.
pub open spec fn n_of(w: u16) -> u8 {
    (w % 16) as u8
}

/// The lowest byte of a word: an immediate value.
pub open spec fn nn_of(w: u16) -> u8 {
    (w % 256) as u8
}

/// The lowest twelve bits of a word: an address.
pub open spec fn nnn_of(w: u16) -> u16 {
    w % 4096
}

/// What an `8XY?` word means, looking at its lowest nibble only.
pub open spec fn arith_spec(w: u16) -> Option<Instruction> {
    let register_x = x_of(w);
    let register_y = y_of(w);
    let n = n_of(w);
    if n == 0 {
        Some(Instruction::SetRegister { register_x, register_y })
    } else if n == 1 {
        Some(Instruction::Or { register_x, register_y })
    } else if n == 2 {
        Some(Instruction::And { register_x, register_y })
    } else if n == 3 {
        Some(Instruction::Xor { register_x, register_y })
    } else if n == 4 {
        Some(Instruction::Add { register_x, register_y })
    } else if n == 5 {
        Some(Instruction::SubtractRight { register_x, register_y })
    } else if n == 6 {
        Some(Instruction::ShiftLeft { register_x, register_y })
    } else if n == 7 {
        Some(Instruction::SubtractLeft { register_x, register_y })
    } else if n == 0xE {
        Some(Instruction::ShiftRight { register_x, register_y })
    } else {
        None
    }
}

/// The opcode table: the instruction a word stands for, if any.
pub open spec fn decode_spec(w: u16) -> Option<Instruction> {
    let f = family_of(w);
    if w == 0x00E0 {
        Some(Instruction::ClearScreen)
    } else if w == 0x00EE {
        Some(Instruction::Return)
    } else if f == 1 {
        Some(Instruction::Goto(nnn_of(w)))
    } else if f == 2 {
        Some(Instruction::Subroutine(nnn_of(w)))
    } else if f == 3 {
        Some(Instruction::IsEqualVal { register: x_of(w), value: nn_of(w) })
    } else if f == 4 {
        Some(Instruction::NotEqualVal { register: x_of(w), value: nn_of(w) })
    } else if f == 5 && n_of(w) == 0 {
        Some(Instruction::IsEqual { register_x: x_of(w), register_y: y_of(w) })
    } else if f == 6 {
        Some(Instruction::SetVal { register: x_of(w), value: nn_of(w) })
    } else if f == 7 {
        Some(Instruction::AddVal { register: x_of(w), value: nn_of(w) })
    } else if f == 8 {
        arith_spec(w)
    } else if f == 9 && n_of(w) == 0 {
        Some(Instruction::NotEqual { register_x: x_of(w), register_y: y_of(w) })
    } else if f == 0xA {
        Some(Instruction::SetIndexRegister(nnn_of(w)))
    } else if f == 0xC {
        Some(Instruction::Rand { register: x_of(w), value: nn_of(w) })
    } else if f == 0xD {
        Some(
            Instruction::Display {
                x_coord_register: x_of(w),
                y_coord_register: y_of(w),
                sprite_height: n_of(w),
            },
        )
    } else {
        None
    }
}

/// The result of decoding a word: the instruction, or the word itself as an
/// unknown opcode.
pub open spec fn decode_result(w: u16) -> Result<Instruction, DecodeError> {
    match decode_spec(w) {
        Some(i) => Ok(i),
        None => Err(DecodeError::UnknownOpcode(w)),
    }
}

impl Instruction {
    /// Register operands below 16, addresses below 0x1000 and sprite heights
    /// below 16: what a single opcode word can carry.
    pub open spec fn well_formed(self) -> bool {
        match self {
            Instruction::ClearScreen | Instruction::Return => true,
            Instruction::Goto(a) | Instruction::Subroutine(a) | Instruction::SetIndexRegister(a) => a
                < 0x1000,
            Instruction::IsEqualVal { register, .. }
            | Instruction::NotEqualVal { register, .. }
            | Instruction::SetVal { register, .. }
            | Instruction::AddVal { register, .. }
            | Instruction::Rand { register, .. } => register < 16,
            Instruction::IsEqual { register_x, register_y }
            | Instruction::SetRegister { register_x, register_y }
            | Instruction::Or { register_x, register_y }
            | Instruction::And { register_x, register_y }
            | Instruction::Xor { register_x, register_y }
            | Instruction::Add { register_x, register_y }
            | Instruction::SubtractRight { register_x, register_y }
            | Instruction::ShiftLeft { register_x, register_y }
            | Instruction::SubtractLeft { register_x, register_y }
            | Instruction::ShiftRight { register_x, register_y }
            | Instruction::NotEqual { register_x, register_y } => register_x < 16 && register_y
                < 16,
            Instruction::Display { x_coord_register, y_coord_register, sprite_height } =>
                x_coord_register < 16 && y_coord_register < 16 && sprite_height < 16,
        }
    }

    /// The opcode word that stands for a well-formed instruction.
    pub open spec fn encode(self) -> u16 {
        match self {
            Instruction::ClearScreen => 0x00E0,
            Instruction::Return => 0x00EE,
            Instruction::Goto(a) => (0x1000 + a) as u16,
            Instruction::Subroutine(a) => (0x2000 + a) as u16,
            Instruction::IsEqualVal { register, value } => (0x3000 + register * 256 + value) as u16,
            Instruction::NotEqualVal { register, value } => (0x4000 + register * 256
                + value) as u16,
            Instruction::IsEqual { register_x, register_y } => (0x5000 + register_x * 256
                + register_y * 16) as u16,
            Instruction::SetVal { register, value } => (0x6000 + register * 256 + value) as u16,
            Instruction::AddVal { register, value } => (0x7000 + register * 256 + value) as u16,
            Instruction::SetRegister { register_x, register_y } => (0x8000 + register_x * 256 + register_y
                * 16) as u16,
            Instruction::Or { register_x, register_y } => (0x8001 + register_x * 256 + register_y
                * 16) as u16,
            Instruction::And { register_x, register_y } => (0x8002 + register_x * 256 + register_y
                * 16) as u16,
            Instruction::Xor { register_x, register_y } => (0x8003 + register_x * 256 + register_y
                * 16) as u16,
            Instruction::Add { register_x, register_y } => (0x8004 + register_x * 256 + register_y
                * 16) as u16,
            Instruction::SubtractRight { register_x, register_y } => (0x8005 + register_x * 256
                + register_y * 16) as u16,
            Instruction::ShiftLeft { register_x, register_y } => (0x8006 + register_x * 256
                + register_y * 16) as u16,
            Instruction::SubtractLeft { register_x, register_y } => (0x8007 + register_x * 256
                + register_y * 16) as u16,
            Instruction::ShiftRight { register_x, register_y } => (0x800E + register_x * 256
                + register_y * 16) as u16,
            Instruction::NotEqual { register_x, register_y } => (0x9000 + register_x * 256
                + register_y * 16) as u16,
            Instruction::SetIndexRegister(a) => (0xA000 + a) as u16,
            Instruction::Rand { register, value } => (0xC000 + register * 256 + value) as u16,
            Instruction::Display { x_coord_register, y_coord_register, sprite_height } => (0xD000
                + x_coord_register * 256 + y_coord_register * 16 + sprite_height) as u16,
        }
    }

    /// Whether the operands fit the opcode fields: see `well_formed`.
    pub fn has_valid_operands(&self) -> (r: bool)
        ensures
            r == self.well_formed(),
    {
        match *self {
            Instruction::ClearScreen | Instruction::Return => true,
            Instruction::Goto(a) | Instruction::Subroutine(a) | Instruction::SetIndexRegister(a) => a
                < 0x1000,
            Instruction::IsEqualVal { register, .. }
            | Instruction::NotEqualVal { register, .. }
            | Instruction::SetVal { register, .. }
            | Instruction::AddVal { register, .. }
            | Instruction::Rand { register, .. } => register < 16,
            Instruction::IsEqual { register_x, register_y }
            | Instruction::SetRegister { register_x, register_y }
            | Instruction::Or { register_x, register_y }
            | Instruction::And { register_x, register_y }
            | Instruction::Xor { register_x, register_y }
            | Instruction::Add { register_x, register_y }
            | Instruction::SubtractRight { register_x, register_y }
            | Instruction::ShiftLeft { register_x, register_y }
            | Instruction::SubtractLeft { register_x, register_y }
            | Instruction::ShiftRight { register_x, register_y }
            | Instruction::NotEqual { register_x, register_y } => register_x < 16 && register_y
                < 16,
            Instruction::Display { x_coord_register, y_coord_register, sprite_height } =>
                x_coord_register < 16 && y_coord_register < 16 && sprite_height < 16,
        }
    }

    /// Decodes an `8XY?` word by its lowest nibble; the highest nibble is not
    /// looked at.
    pub fn parse_8xxx(value: u16) -> (r: Option<Instruction>)
        ensures
            r == arith_spec(value),
    {
        let instruction = (value % 16) as u8;
        let register_x = (value / 256 % 16) as u8;
        let register_y = (value / 16 % 16) as u8;
        match instruction {
            0 => Some(Instruction::SetRegister { register_x, register_y }),
            1 => Some(Instruction::Or { register_x, register_y }),
            2 => Some(Instruction::And { register_x, register_y }),
            3 => Some(Instruction::Xor { register_x, register_y }),
            4 => Some(Instruction::Add { register_x, register_y }),
            5 => Some(Instruction::SubtractRight { register_x, register_y }),
            6 => Some(Instruction::ShiftLeft { register_x, register_y }),
            7 => Some(Instruction::SubtractLeft { register_x, register_y }),
            0xE => Some(Instruction::ShiftRight { register_x, register_y }),
            _ => None,
        }
    }

    /// Decodes a 16-bit word by the opcode table; a word that matches no row
    /// is an error that carries the word.
    pub fn decode(value: u16) -> (r: Result<Instruction, DecodeError>)
        ensures
            r == decode_result(value),
            r is Ok ==> r->Ok_0.well_formed(),
    {
        let family = value / 4096;
        let register = (value / 256 % 16) as u8;
        let register_y = (value / 16 % 16) as u8;
        let low = (value % 16) as u8;
        let byte = (value % 256) as u8;
        let address = value % 4096;
        if value == 0x00E0 {
            Ok(Instruction::ClearScreen)
        } else if value == 0x00EE {
            Ok(Instruction::Return)
        } else if family == 1 {
            Ok(Instruction::Goto(address))
        } else if family == 2 {
            Ok(Instruction::Subroutine(address))
        } else if family == 3 {
            Ok(Instruction::IsEqualVal { register, value: byte })
        } else if family == 4 {
            Ok(Instruction::NotEqualVal { register, value: byte })
        } else if family == 5 && low == 0 {
            Ok(Instruction::IsEqual { register_x: register, register_y })
        } else if family == 6 {
            Ok(Instruction::SetVal { register, value: byte })
        } else if family == 7 {
            Ok(Instruction::AddVal { register, value: byte })
        } else if family == 8 {
            match Instruction::parse_8xxx(value) {
                Some(instruction) => Ok(instruction),
                None => Err(DecodeError::UnknownOpcode(value)),
            }
        } else if family == 9 && low == 0 {
            Ok(Instruction::NotEqual { register_x: register, register_y })
        } else if family == 0xA {
            Ok(Instruction::SetIndexRegister(address))
        } else if family == 0xC {
            Ok(Instruction::Rand { register, value: byte })
        } else if family == 0xD {
            Ok(
                Instruction::Display {
                    x_coord_register: register,
                    y_coord_register: register_y,
                    sprite_height: low,
                },
            )
        } else {
            Err(DecodeError::UnknownOpcode(value))
        }
    }
}

impl TryFrom<u16> for Instruction {
    type Error = DecodeError;

    fn try_from(value: u16) -> (r: Result<Instruction, DecodeError>) {
        Instruction::decode(value)
    }
}

impl vstd::std_specs::convert::TryFromSpecImpl<u16> for Instruction {
    open spec fn obeys_try_from_spec() -> bool {
        true
    }

    open spec fn try_from_spec(v: u16) -> Result<Instruction, DecodeError> {
        decode_result(v)
    }
}

/// How a word is made of its four nibbles.
proof fn lemma_nibbles(w: u16)
    ensures
        family_of(w) < 16,
        x_of(w) < 16,
        y_of(w) < 16,
        n_of(w) < 16,
        w == family_of(w) * 4096 + x_of(w) * 256 + y_of(w) * 16 + n_of(w),
        nn_of(w) == y_of(w) * 16 + n_of(w),
        nnn_of(w) == x_of(w) * 256 + y_of(w) * 16 + n_of(w),
{
    let v = w as int;
    lemma_fundamental_div_mod(v, 16);
    lemma_fundamental_div_mod(v / 16, 16);
    lemma_fundamental_div_mod(v / 256, 16);
    lemma_div_denominator(v, 16, 16);
    lemma_div_denominator(v, 256, 16);
    lemma_breakdown(v, 16, 16);
    lemma_breakdown(v, 256, 16);
    lemma_breakdown(v, 16, 256);
    assert(v / 4096 < 16);
    assert(w / 16 == v / 16);
    assert(w / 256 == v / 256);
}

/// The nibbles of a word put together from four nibbles.
proof fn lemma_word(f: int, x: int, y: int, n: int)
    requires
        0 <= f < 16,
        0 <= x < 16,
        0 <= y < 16,
        0 <= n < 16,
    ensures
        family_of((f * 4096 + x * 256 + y * 16 + n) as u16) == f,
        x_of((f * 4096 + x * 256 + y * 16 + n) as u16) == x,
        y_of((f * 4096 + x * 256 + y * 16 + n) as u16) == y,
        n_of((f * 4096 + x * 256 + y * 16 + n) as u16) == n,
{
    let w = (f * 4096 + x * 256 + y * 16 + n) as u16;
    lemma_nibbles(w);
}

/// Decoding the opcode word of any well-formed instruction gives that
/// instruction back.
pub proof fn lemma_decode_encode(i: Instruction)
    requires
        i.well_formed(),
    ensures
        decode_spec(i.encode()) == Some(i),
{
    lemma_nibbles(i.encode());
    match i {
        Instruction::ClearScreen | Instruction::Return => {},
        Instruction::Goto(a) => {
            lemma_nibbles(a);
            lemma_word(1, x_of(a) as int, y_of(a) as int, n_of(a) as int);
        },
        Instruction::Subroutine(a) => {
            lemma_nibbles(a);
            lemma_word(2, x_of(a) as int, y_of(a) as int, n_of(a) as int);
        },
        Instruction::SetIndexRegister(a) => {
            lemma_nibbles(a);
            lemma_word(10, x_of(a) as int, y_of(a) as int, n_of(a) as int);
        },
        Instruction::IsEqualVal { register, value } => {
            lemma_nibbles(value as u16);
            lemma_word(3, register as int, y_of(value as u16) as int, n_of(value as u16) as int);
        },
        Instruction::NotEqualVal { register, value } => {
            lemma_nibbles(value as u16);
            lemma_word(4, register as int, y_of(value as u16) as int, n_of(value as u16) as int);
        },
        Instruction::SetVal { register, value } => {
            lemma_nibbles(value as u16);
            lemma_word(6, register as int, y_of(value as u16) as int, n_of(value as u16) as int);
        },
        Instruction::AddVal { register, value } => {
            lemma_nibbles(value as u16);
            lemma_word(7, register as int, y_of(value as u16) as int, n_of(value as u16) as int);
        },
        Instruction::Rand { register, value } => {
            lemma_nibbles(value as u16);
            lemma_word(12, register as int, y_of(value as u16) as int, n_of(value as u16) as int);
        },
        Instruction::IsEqual { register_x, register_y } => {
            lemma_word(5, register_x as int, register_y as int, 0);
        },
        Instruction::SetRegister { register_x, register_y } => {
            lemma_word(8, register_x as int, register_y as int, 0);
        },
        Instruction::Or { register_x, register_y } => {
            lemma_word(8, register_x as int, register_y as int, 1);
        },
        Instruction::And { register_x, register_y } => {
            lemma_word(8, register_x as int, register_y as int, 2);
        },
        Instruction::Xor { register_x, register_y } => {
            lemma_word(8, register_x as int, register_y as int, 3);
        },
        Instruction::Add { register_x, register_y } => {
            lemma_word(8, register_x as int, register_y as int, 4);
        },
        Instruction::SubtractRight { register_x, register_y } => {
            lemma_word(8, register_x as int, register_y as int, 5);
        },
        Instruction::ShiftLeft { register_x, register_y } => {
            lemma_word(8, register_x as int, register_y as int, 6);
        },
        Instruction::SubtractLeft { register_x, register_y } => {
            lemma_word(8, register_x as int, register_y as int, 7);
        },
        Instruction::ShiftRight { register_x, register_y } => {
            lemma_word(8, register_x as int, register_y as int, 14);
        },
        Instruction::NotEqual { register_x, register_y } => {
            lemma_word(9, register_x as int, register_y as int, 0);
        },
        Instruction::Display { x_coord_register, y_coord_register, sprite_height } => {
            lemma_word(0xD, x_coord_register as int, y_coord_register as int, sprite_height as int);
        },
    }
}

/// Every word that decodes is the opcode word of what it decodes to.
pub proof fn lemma_encode_decode(w: u16)
    requires
        decode_spec(w) is Some,
    ensures
        decode_spec(w)->Some_0.encode() == w,
        decode_spec(w)->Some_0.well_formed(),
{
    lemma_nibbles(w);
}

} // verus!
