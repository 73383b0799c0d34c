use chip8::{DecodeError, Instruction};

#[test]
fn test_parse_display() {
    let val: u16 = 0xD654;

    let instruction: Instruction = val.try_into().unwrap();

    assert_eq!(
        instruction,
        Instruction::Display {
            x_coord_register: 6,
            y_coord_register: 5,
            sprite_height: 4,
        }
    );
}

#[test]
fn test_parse_goto() {
    let val: u16 = 0x1736;

    let instruction: Instruction = val.try_into().unwrap();

    assert_eq!(instruction, Instruction::Goto(0x736));
}

#[test]
fn test_parse_set_register() {
    let val: u16 = 0x6736;

    let instruction: Instruction = val.try_into().unwrap();

    assert_eq!(
        instruction,
        Instruction::SetVal {
            register: 0x7,
            value: 0x36,
        }
    );
}

#[test]
fn test_parse_is_equal() {
    let val: u16 = 0x5730;

    let instruction: Instruction = val.try_into().unwrap();

    assert_eq!(
        instruction,
        Instruction::IsEqual {
            register_x: 0x7,
            register_y: 0x3,
        }
    );
}

#[test]
fn test_parse_8xxx() {
    let val = 0x8760;

    let instruction: Instruction = val.try_into().unwrap();

    assert_eq!(
        instruction,
        Instruction::SetRegister {
            register_x: 0x7,
            register_y: 0x6,
        }
    );
}

#[test]
fn decodes_every_row_of_the_table() {
    let cases = [
        (0x00E0u16, Instruction::ClearScreen),
        (0x00EE, Instruction::Return),
        (0x1ABC, Instruction::Goto(0xABC)),
        (0x2ABC, Instruction::Subroutine(0xABC)),
        (0x3A12, Instruction::IsEqualVal { register: 0xA, value: 0x12 }),
        (0x4A12, Instruction::NotEqualVal { register: 0xA, value: 0x12 }),
        (0x5AB0, Instruction::IsEqual { register_x: 0xA, register_y: 0xB }),
        (0x6A12, Instruction::SetVal { register: 0xA, value: 0x12 }),
        (0x7A12, Instruction::AddVal { register: 0xA, value: 0x12 }),
        (0x8AB0, Instruction::SetRegister { register_x: 0xA, register_y: 0xB }),
        (0x8AB1, Instruction::Or { register_x: 0xA, register_y: 0xB }),
        (0x8AB2, Instruction::And { register_x: 0xA, register_y: 0xB }),
        (0x8AB3, Instruction::Xor { register_x: 0xA, register_y: 0xB }),
        (0x8AB4, Instruction::Add { register_x: 0xA, register_y: 0xB }),
        (0x8AB5, Instruction::SubtractRight { register_x: 0xA, register_y: 0xB }),
        (0x8AB6, Instruction::ShiftLeft { register_x: 0xA, register_y: 0xB }),
        (0x8AB7, Instruction::SubtractLeft { register_x: 0xA, register_y: 0xB }),
        (0x8ABE, Instruction::ShiftRight { register_x: 0xA, register_y: 0xB }),
        (0x9AB0, Instruction::NotEqual { register_x: 0xA, register_y: 0xB }),
        (0xAABC, Instruction::SetIndexRegister(0xABC)),
        (0xCA12, Instruction::Rand { register: 0xA, value: 0x12 }),
        (0xDAB5, Instruction::Display { x_coord_register: 0xA, y_coord_register: 0xB, sprite_height: 5 }),
    ];
    for (word, expected) in cases {
        assert_eq!(Instruction::decode(word), Ok(expected));
    }
}

#[test]
fn unknown_words_are_errors() {
    for word in [0xF000u16, 0x0000, 0x00E1, 0x5AB1, 0x8AB8, 0x8ABF, 0x9AB1, 0xB123, 0xE09E] {
        assert_eq!(Instruction::decode(word), Err(DecodeError::UnknownOpcode(word)));
        let parsed: Result<Instruction, DecodeError> = word.try_into();
        assert_eq!(parsed, Err(DecodeError::UnknownOpcode(word)));
    }
}

#[test]
fn parse_8xxx_reads_the_low_nibble() {
    assert_eq!(
        Instruction::parse_8xxx(0x8124),
        Some(Instruction::Add { register_x: 1, register_y: 2 })
    );
    assert_eq!(Instruction::parse_8xxx(0x8128), None);
}
