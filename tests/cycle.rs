use chip8::{Chip8, CompatabilityMode, Draw, EngineError, RunError};

struct Recorder {
    frames: Vec<[[bool; 64]; 32]>,
    fail: bool,
}

impl Draw for Recorder {
    fn draw(&mut self, buffer: &[[bool; 64]; 32]) -> anyhow::Result<()> {
        self.frames.push(*buffer);
        if self.fail {
            Err(anyhow::Error::msg("window closed"))
        } else {
            Ok(())
        }
    }
}

#[test]
fn cycle_steps_then_presents_the_display() {
    let program = [
        0xA2, 0x06, // I = 0x206
        0xD0, 0x01, // draw one row at (0, 0)
        0x00, 0x00, //
        0x80, //
    ];
    let mut chip = Chip8::new(&program, CompatabilityMode::Cosmac).unwrap();
    let mut sink = Recorder { frames: Vec::new(), fail: false };
    chip.run_cycle(&mut sink).unwrap();
    chip.run_cycle(&mut sink).unwrap();
    assert_eq!(sink.frames.len(), 2);
    assert!(!sink.frames[0][0][0]);
    assert!(sink.frames[1][0][0]);
    assert_eq!(sink.frames[1], *chip.display());
}

#[test]
fn cycle_masks_the_random_byte() {
    // V0 = random & 0x0F, repeated
    let mut chip = Chip8::new(&[0xC0, 0x0F, 0x12, 0x00], CompatabilityMode::Cosmac).unwrap();
    let mut sink = Recorder { frames: Vec::new(), fail: false };
    for _ in 0..64 {
        chip.run_cycle(&mut sink).unwrap();
        assert!(chip.registers()[0] <= 0x0F);
    }
}

#[test]
fn cycle_reports_engine_errors_before_drawing() {
    let mut chip = Chip8::new(&[0x00, 0xEE], CompatabilityMode::Cosmac).unwrap();
    let mut sink = Recorder { frames: Vec::new(), fail: false };
    match chip.run_cycle(&mut sink) {
        Err(RunError::Engine(e)) => assert_eq!(e, EngineError::StackUnderflow),
        other => panic!("unexpected result {:?}", other),
    }
    assert!(sink.frames.is_empty());
}

#[test]
fn cycle_passes_draw_errors_on() {
    let mut chip = Chip8::new(&[0x60, 0x01], CompatabilityMode::Cosmac).unwrap();
    let mut sink = Recorder { frames: Vec::new(), fail: true };
    match chip.run_cycle(&mut sink) {
        Err(RunError::Draw(e)) => assert_eq!(e.to_string(), "window closed"),
        other => panic!("unexpected result {:?}", other),
    }
    assert_eq!(chip.registers()[0], 1);
}
