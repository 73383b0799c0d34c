use chip8::{Chip8, CompatabilityMode, EngineError, Instruction, LoadError};

fn load(program: &[u8], mode: CompatabilityMode) -> Chip8 {
    Chip8::new(program, mode).unwrap()
}

fn run(chip: &mut Chip8, steps: usize) {
    for _ in 0..steps {
        chip.step(0).unwrap();
    }
}

fn lit_pixels(chip: &Chip8) -> usize {
    chip.display().iter().flatten().filter(|p| **p).count()
}

#[test]
fn add_register_sets_carry() {
    // V0 = 250, V1 = 10, V0 += V1
    let mut chip = load(&[0x60, 250, 0x61, 10, 0x80, 0x14], CompatabilityMode::Cosmac);
    run(&mut chip, 3);
    assert_eq!(chip.registers()[0], 4);
    assert_eq!(chip.registers()[0xF], 1);

    let mut chip = load(&[0x60, 1, 0x61, 1, 0x80, 0x14], CompatabilityMode::Cosmac);
    run(&mut chip, 3);
    assert_eq!(chip.registers()[0], 2);
    assert_eq!(chip.registers()[0xF], 0);
}

#[test]
fn subtract_right_from_left_sets_not_borrow() {
    let mut chip = load(&[0x60, 5, 0x61, 10, 0x80, 0x15], CompatabilityMode::Cosmac);
    run(&mut chip, 3);
    assert_eq!(chip.registers()[0], 251);
    assert_eq!(chip.registers()[0xF], 0);

    let mut chip = load(&[0x60, 10, 0x61, 5, 0x80, 0x15], CompatabilityMode::Cosmac);
    run(&mut chip, 3);
    assert_eq!(chip.registers()[0], 5);
    assert_eq!(chip.registers()[0xF], 1);
}

#[test]
fn subtract_left_from_right() {
    let mut chip = load(&[0x60, 5, 0x61, 10, 0x80, 0x17], CompatabilityMode::Cosmac);
    run(&mut chip, 3);
    assert_eq!(chip.registers()[0], 5);
    assert_eq!(chip.registers()[0xF], 1);

    let mut chip = load(&[0x60, 10, 0x61, 5, 0x80, 0x17], CompatabilityMode::Cosmac);
    run(&mut chip, 3);
    assert_eq!(chip.registers()[0], 251);
    assert_eq!(chip.registers()[0xF], 0);
}

#[test]
fn shift_left_source_depends_on_mode() {
    // V0 = 0x00, V1 = 0x81, shift left V0 by V1
    let program = [0x60, 0x00, 0x61, 0x81, 0x80, 0x16];
    let mut chip = load(&program, CompatabilityMode::Cosmac);
    run(&mut chip, 3);
    assert_eq!(chip.registers()[0], 0x02);
    assert_eq!(chip.registers()[0xF], 1);

    let program = [0x60, 0x81, 0x61, 0x00, 0x80, 0x16];
    let mut chip = load(&program, CompatabilityMode::Super);
    run(&mut chip, 3);
    assert_eq!(chip.registers()[0], 0x02);
    assert_eq!(chip.registers()[0xF], 1);
}

#[test]
fn shift_right_flag_is_low_bit() {
    let program = [0x60, 0x00, 0x61, 0x83, 0x80, 0x1E];
    let mut chip = load(&program, CompatabilityMode::Cosmac);
    run(&mut chip, 3);
    assert_eq!(chip.registers()[0], 0x41);
    assert_eq!(chip.registers()[0xF], 1);

    let program = [0x60, 0x82, 0x80, 0x1E];
    let mut chip = load(&program, CompatabilityMode::Xo);
    run(&mut chip, 2);
    assert_eq!(chip.registers()[0], 0x41);
    assert_eq!(chip.registers()[0xF], 0);
}

#[test]
fn register_writes_and_wrapping_add() {
    // V2 = 0xF0, V2 += 0x20, V3 = V2, V3 |= V4(0x0F) ...
    let program = [
        0x62, 0xF0, // V2 = 0xF0
        0x72, 0x20, // V2 += 0x20 -> 0x10, no flag
        0x64, 0x0F, // V4 = 0x0F
        0x83, 0x20, // V3 = V2
        0x83, 0x41, // V3 |= V4 -> 0x1F
        0x85, 0x40, // V5 = V4
        0x85, 0x32, // V5 &= V3 -> 0x0F
        0x86, 0x30, // V6 = V3
        0x86, 0x43, // V6 ^= V4 -> 0x10
    ];
    let mut chip = load(&program, CompatabilityMode::Cosmac);
    run(&mut chip, 9);
    let r = chip.registers();
    assert_eq!(r[2], 0x10);
    assert_eq!(r[3], 0x1F);
    assert_eq!(r[5], 0x0F);
    assert_eq!(r[6], 0x10);
    assert_eq!(r[0xF], 0);
}

#[test]
fn skips_advance_past_one_instruction() {
    let program = [
        0x60, 0x07, // V0 = 7
        0x30, 0x07, // skip if V0 == 7
        0x61, 0x01, // skipped
        0x40, 0x07, // skip if V0 != 7: not taken
        0x62, 0x01, // V2 = 1
    ];
    let mut chip = load(&program, CompatabilityMode::Cosmac);
    run(&mut chip, 4);
    assert_eq!(chip.registers()[1], 0);
    assert_eq!(chip.registers()[2], 1);
    assert_eq!(chip.program_counter(), 0x20A);
}

#[test]
fn register_skips_compare_two_registers() {
    let program = [
        0x60, 0x03, // V0 = 3
        0x61, 0x03, // V1 = 3
        0x50, 0x10, // skip if V0 == V1
        0x00, 0x00, // skipped (would not decode)
        0x90, 0x10, // skip if V0 != V1: not taken
        0x63, 0x09, // V3 = 9
    ];
    let mut chip = load(&program, CompatabilityMode::Cosmac);
    run(&mut chip, 5);
    assert_eq!(chip.registers()[3], 9);
}

#[test]
fn goto_call_and_return() {
    let program = [
        0x22, 0x06, // 0x200: call 0x206
        0x60, 0x01, // 0x202: V0 = 1
        0x12, 0x08, // 0x204: goto 0x208
        0x00, 0xEE, // 0x206: return
        0x61, 0x02, // 0x208: V1 = 2
    ];
    let mut chip = load(&program, CompatabilityMode::Cosmac);
    chip.step(0).unwrap();
    assert_eq!(chip.program_counter(), 0x206);
    assert_eq!(chip.stack_depth(), 1);
    chip.step(0).unwrap();
    assert_eq!(chip.program_counter(), 0x202);
    assert_eq!(chip.stack_depth(), 0);
    run(&mut chip, 3);
    assert_eq!(chip.registers()[0], 1);
    assert_eq!(chip.registers()[1], 2);
    assert_eq!(chip.program_counter(), 0x20A);
}

#[test]
fn stack_overflows_on_the_25th_call() {
    // 0x200: call 0x200, forever
    let mut chip = load(&[0x22, 0x00], CompatabilityMode::Cosmac);
    for depth in 1..=24 {
        chip.step(0).unwrap();
        assert_eq!(chip.stack_depth(), depth);
    }
    assert_eq!(chip.step(0), Err(EngineError::StackOverflow));
    assert_eq!(chip.stack_depth(), 24);
    assert_eq!(chip.program_counter(), 0x200);
}

#[test]
fn return_with_empty_stack_underflows() {
    let mut chip = load(&[0x00, 0xEE], CompatabilityMode::Cosmac);
    assert_eq!(chip.step(0), Err(EngineError::StackUnderflow));
    assert_eq!(chip.program_counter(), 0x200);
}

#[test]
fn unknown_opcode_stops_the_machine() {
    let mut chip = load(&[0xF0, 0x00], CompatabilityMode::Cosmac);
    assert_eq!(
        chip.step(0),
        Err(EngineError::Decode(chip8::DecodeError::UnknownOpcode(0xF000)))
    );
}

#[test]
fn program_counter_at_end_of_memory() {
    let mut chip = load(&[0x1F, 0xFF], CompatabilityMode::Cosmac);
    chip.step(0).unwrap();
    assert_eq!(chip.program_counter(), 0xFFF);
    assert_eq!(chip.step(0), Err(EngineError::ProgramCounterOutOfRange));
}

#[test]
fn invalid_operands_are_refused() {
    let mut chip = load(&[], CompatabilityMode::Cosmac);
    let before = chip.registers();
    assert_eq!(
        chip.run_instruction(Instruction::SetVal { register: 16, value: 1 }, 0),
        Err(EngineError::InvalidOperand)
    );
    assert_eq!(chip.registers(), before);
}

#[test]
fn random_byte_is_masked() {
    let mut chip = load(&[], CompatabilityMode::Cosmac);
    chip.run_instruction(Instruction::Rand { register: 3, value: 0x0F }, 0xAB).unwrap();
    assert_eq!(chip.registers()[3], 0x0B);
}

#[test]
fn set_index_register() {
    let mut chip = load(&[0xA1, 0x23], CompatabilityMode::Cosmac);
    run(&mut chip, 1);
    assert_eq!(chip.index_register(), 0x123);
}

#[test]
fn drawing_twice_collides_and_erases() {
    let program = [
        0xA2, 0x08, // I = 0x208
        0xD0, 0x01, // draw 1 row at (V0, V0)
        0xD0, 0x01, // draw it again
        0x00, 0x00, //
        0xFF, // sprite row: eight lit pixels
    ];
    let mut chip = load(&program, CompatabilityMode::Cosmac);
    run(&mut chip, 2);
    assert_eq!(chip.registers()[0xF], 0);
    assert_eq!(lit_pixels(&chip), 8);
    assert!(chip.display()[0][..8].iter().all(|p| *p));
    run(&mut chip, 1);
    assert_eq!(chip.registers()[0xF], 1);
    assert_eq!(lit_pixels(&chip), 0);
}

#[test]
fn sprite_bits_are_read_most_significant_first() {
    let program = [
        0xA2, 0x06, // I = 0x206
        0xD0, 0x01, // draw 1 row at (0, 0)
        0x00, 0x00, //
        0xC1, // 1100_0001
    ];
    let mut chip = load(&program, CompatabilityMode::Cosmac);
    run(&mut chip, 2);
    let row = chip.display()[0];
    assert_eq!(&row[..8], &[true, true, false, false, false, false, false, true]);
    assert_eq!(lit_pixels(&chip), 3);
}

#[test]
fn draw_clips_at_the_right_edge() {
    let program = [
        0x60, 60, // V0 = 60
        0x61, 2, // V1 = 2
        0xA2, 0x0A, // I = 0x20A
        0xD0, 0x11, // draw 1 row at (60, 2)
        0x00, 0x00, //
        0xFF, //
    ];
    let mut chip = load(&program, CompatabilityMode::Cosmac);
    run(&mut chip, 4);
    let display = chip.display();
    assert!(display[2][60..64].iter().all(|p| *p));
    assert_eq!(lit_pixels(&chip), 4);
    assert!(!display[2][0..4].iter().any(|p| *p));
    assert!(!display[3][0..4].iter().any(|p| *p));
}

#[test]
fn draw_clips_at_the_bottom_edge() {
    let program = [
        0x60, 0, // V0 = 0
        0x61, 31, // V1 = 31
        0xA2, 0x0A, // I = 0x20A
        0xD0, 0x13, // draw 3 rows at (0, 31)
        0x00, 0x00, //
        0xFF, 0xFF, 0xFF, //
    ];
    let mut chip = load(&program, CompatabilityMode::Cosmac);
    run(&mut chip, 4);
    let display = chip.display();
    assert!(display[31][0..8].iter().all(|p| *p));
    assert!(!display[0].iter().any(|p| *p));
    assert_eq!(lit_pixels(&chip), 8);
}

#[test]
fn draw_coordinates_wrap_around_the_display() {
    let program = [
        0x60, 66, // V0 = 66 -> column 2
        0x61, 33, // V1 = 33 -> row 1
        0xA2, 0x0A, // I = 0x20A
        0xD0, 0x11, //
        0x00, 0x00, //
        0x80, //
    ];
    let mut chip = load(&program, CompatabilityMode::Cosmac);
    run(&mut chip, 4);
    assert!(chip.display()[1][2]);
    assert_eq!(lit_pixels(&chip), 1);
}

#[test]
fn sprite_past_end_of_memory_is_refused() {
    let program = [
        0xAF, 0xFF, // I = 0xFFF
        0xD0, 0x02, // two rows: 0xFFF and 0x1000
    ];
    let mut chip = load(&program, CompatabilityMode::Cosmac);
    run(&mut chip, 1);
    assert_eq!(chip.step(0), Err(EngineError::SpriteOutOfMemory));
    assert_eq!(lit_pixels(&chip), 0);
}

#[test]
fn clear_screen_blanks_the_display() {
    let program = [
        0xA0, 0x50, // I = font glyph 0
        0xD0, 0x05, // draw it
        0x00, 0xE0, // clear
    ];
    let mut chip = load(&program, CompatabilityMode::Cosmac);
    run(&mut chip, 2);
    assert_eq!(lit_pixels(&chip), 14);
    run(&mut chip, 1);
    assert_eq!(lit_pixels(&chip), 0);
}

#[test]
fn too_large_program_is_refused() {
    let program = vec![0u8; 4096 - 0x200 + 1];
    assert_eq!(Chip8::new(&program, CompatabilityMode::Cosmac).err(), Some(LoadError::TooLarge));
    let program = vec![0u8; 4096 - 0x200];
    assert!(Chip8::new(&program, CompatabilityMode::Cosmac).is_ok());
}

#[test]
fn one_byte_program_loads() {
    let chip = load(&[0xAB], CompatabilityMode::Xo);
    let memory = chip.memory();
    assert_eq!(memory[0x200], 0xAB);
    assert!(memory[0x201..].iter().all(|b| *b == 0));
    assert!(memory[..0x50].iter().all(|b| *b == 0));
    assert_eq!(&memory[0x50..0x55], &[0xF0, 0x90, 0x90, 0x90, 0xF0]);
    assert_eq!(&memory[0x9B..0xA0], &[0xF0, 0x80, 0xF0, 0x80, 0x80]);
    assert!(memory[0xA0..0x200].iter().all(|b| *b == 0));
    assert_eq!(chip.program_counter(), 0x200);
    assert_eq!(chip.stack_depth(), 0);
    assert_eq!(chip.compatibility_mode(), CompatabilityMode::Xo);
    assert_eq!(lit_pixels(&chip), 0);
}
