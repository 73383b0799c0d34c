use vstd::prelude::*;
use bitvec::order::Msb0;
use bitvec::view::BitView;
use crate::arguments::CompatabilityMode;
use crate::draw::Draw;
use crate::error::{EngineError, LoadError, RunError};
use crate::font::FONT;
use crate::instruction::Instruction;
use crate::semantics::{
    add_spec, blank_display, collides, draw_spec, drawn_display, exec_spec, fetch_spec, in_sprite,
    initial_memory, load_spec, rows_drawn, shift_left_spec, shift_right_spec, shift_source,
    sprite_pixel, step_spec, subtract_spec, wrap16, wrap8, Machine, FLAG, FONT_SIZE, FONT_START,
    HEIGHT, MEMORY_SIZE, PROGRAM_START, STACK_SIZE, WIDTH,
};

verus! {

/// A CHIP-8 machine: memory, display, registers, call stack and timers.
#[derive(Debug, Clone, Copy)]
pub struct Chip8 {
    memory: [u8; 4096],
    display: [[bool; 64]; 32],
    stack: [u16; 24],
    stack_pointer: usize,
    var_registers: [u8; 16],
    program_counter: u16,
    index_register: u16,
    delay_timer: u8,
    sound_timer: u8,
    compatibility_mode: CompatabilityMode,
}

/// The rows of a display grid as sequences.
pub open spec fn grid_view(d: [[bool; 64]; 32]) -> Seq<Seq<bool>> {
    d@.map_values(|row: [bool; 64]| row@)
}

impl View for Chip8 {
    type V = Machine;

    closed spec fn view(&self) -> Machine {
        Machine {
            memory: self.memory@,
            display: grid_view(self.display),
            stack: self.stack@.subrange(0, self.stack_pointer as int),
            registers: self.var_registers@,
            program_counter: self.program_counter,
            index_register: self.index_register,
            delay_timer: self.delay_timer,
            sound_timer: self.sound_timer,
            mode: self.compatibility_mode,
        }
    }
}

/// Relies on rand's `random::<u8>`: a byte drawn from the thread-local
/// generator; nothing is known of its value.
#[verifier::external_body]
fn random_byte() -> (r: u8) {
    rand::random::<u8>()
}

/// Relies on bitvec's `view_bits::<Msb0>` and indexing of the bit-slice:
/// index `column` of a byte viewed most significant bit first is the bit
/// selected by `0x80 >> column`.
#[verifier::external_body]
fn sprite_bit(byte: u8, column: usize) -> (r: bool)
    requires
        column < 8,
    ensures
        r == sprite_pixel(byte, column as int),
{
    byte.view_bits::<Msb0>()[column]
}

impl Chip8 {
    /// The stack pointer never passes the stack's capacity.
    pub closed spec fn inv(&self) -> bool {
        self.stack_pointer <= STACK_SIZE
    }

    /// Every machine that keeps its invariant has the shape of a reachable one.
    pub proof fn lemma_inv_wf(&self)
        requires
            self.inv(),
        ensures
            self@.wf(),
    {
    }

    /// Loads `executable` at 0x200 and the font at 0x50; fails when the
    /// program does not fit in memory after 0x200.
    pub fn new(executable: &[u8], compatibility_mode: CompatabilityMode) -> (r: Result<
        Chip8,
        LoadError,
    >)
        ensures
            match load_spec(executable@, compatibility_mode) {
                Ok(m) => r is Ok && r->Ok_0.inv() && r->Ok_0@ == m,
                Err(e) => r == Err::<Chip8, LoadError>(e),
            },
    {
        if executable.len() > MEMORY_SIZE - PROGRAM_START {
            return Err(LoadError::TooLarge);
        }
        let mut memory = [0u8; 4096];
        let mut i: usize = 0;
        while i < FONT_SIZE
            invariant
                0 <= i <= FONT_SIZE,
                executable@.len() + PROGRAM_START <= MEMORY_SIZE,
                forall|a: int|
                    0 <= a < MEMORY_SIZE ==> #[trigger] memory@[a] == if FONT_START <= a
                        < FONT_START + i {
                        FONT@[a - FONT_START]
                    } else {
                        0u8
                    },
            decreases FONT_SIZE - i,
        {
            memory[FONT_START + i] = FONT[i];
            i += 1;
        }
        let mut j: usize = 0;
        while j < executable.len()
            invariant
                0 <= j <= executable@.len(),
                executable@.len() + PROGRAM_START <= MEMORY_SIZE,
                forall|a: int|
                    0 <= a < MEMORY_SIZE ==> #[trigger] memory@[a] == if FONT_START <= a
                        < FONT_START + FONT_SIZE {
                        FONT@[a - FONT_START]
                    } else if PROGRAM_START <= a < PROGRAM_START + j {
                        executable@[a - PROGRAM_START]
                    } else {
                        0u8
                    },
            decreases executable@.len() - j,
        {
            memory[PROGRAM_START + j] = executable[j];
            j += 1;
        }
        let chip = Chip8 {
            memory,
            display: [[false; 64]; 32],
            stack: [0u16; 24],
            stack_pointer: 0,
            var_registers: [0u8; 16],
            program_counter: PROGRAM_START as u16,
            index_register: 0,
            delay_timer: 0,
            sound_timer: 0,
            compatibility_mode,
        };
        assert(chip@.memory =~= initial_memory(executable@));
        assert(chip@.display =~= blank_display()) by {
            assert forall|r: int| 0 <= r < HEIGHT implies chip@.display[r] =~= blank_display()[r] by {
            }
        }
        assert(chip@.stack =~= Seq::<u16>::empty());
        assert(chip@.registers =~= Seq::new(16, |i: int| 0u8));
        Ok(chip)
    }

    /// Skips the next instruction when `cond` holds.
    fn skip_next_if(&mut self, cond: bool)
        ensures
            *final(self) == (Chip8 {
                program_counter: if cond {
                    wrap16(old(self).program_counter + 2)
                } else {
                    old(self).program_counter
                },
                ..*old(self)
            }),
    {
        if cond {
            self.program_counter = self.program_counter.wrapping_add(2);
        }
    }

    /// Applies one decoded instruction; `random` is the byte a random
    /// instruction masks. On an error the machine is left as it was.
    #[verifier::spinoff_prover]
    pub fn run_instruction(&mut self, instruction: Instruction, random: u8) -> (r: Result<
        (),
        EngineError,
    >)
        requires
            old(self).inv(),
        ensures
            final(self).inv(),
            match exec_spec(old(self)@, instruction, random) {
                Ok(m) => r is Ok && final(self)@ == m,
                Err(e) => r == Err::<(), EngineError>(e) && *final(self) == *old(self),
            },
    {
        if !instruction.has_valid_operands() {
            return Err(EngineError::InvalidOperand);
        }
        match instruction {
            Instruction::ClearScreen => {
                self.display = [[false; 64]; 32];
                assert(self@.display =~= blank_display()) by {
                    assert forall|r: int| 0 <= r < HEIGHT implies self@.display[r]
                        =~= blank_display()[r] by {}
                }
            },
            Instruction::Return => {
                if self.stack_pointer == 0 {
                    return Err(EngineError::StackUnderflow);
                }
                self.stack_pointer -= 1;
                self.program_counter = self.stack[self.stack_pointer];
                assert(self@.stack =~= old(self)@.stack.drop_last());
            },
            Instruction::Goto(address) => self.program_counter = address,
            Instruction::Subroutine(address) => {
                if self.stack_pointer >= STACK_SIZE {
                    return Err(EngineError::StackOverflow);
                }
                self.stack[self.stack_pointer] = self.program_counter;
                self.stack_pointer += 1;
                self.program_counter = address;
                assert(self@.stack =~= old(self)@.stack.push(old(self).program_counter));
            },
            Instruction::IsEqualVal { register, value } => {
                let cond = self.var_registers[register as usize] == value;
                self.skip_next_if(cond);
            },
            Instruction::NotEqualVal { register, value } => {
                let cond = self.var_registers[register as usize] != value;
                self.skip_next_if(cond);
            },
            Instruction::IsEqual { register_x, register_y } => {
                let cond = self.var_registers[register_x as usize]
                    == self.var_registers[register_y as usize];
                self.skip_next_if(cond);
            },
            Instruction::NotEqual { register_x, register_y } => {
                let cond = self.var_registers[register_x as usize]
                    != self.var_registers[register_y as usize];
                self.skip_next_if(cond);
            },
            Instruction::SetVal { register, value } => {
                self.var_registers[register as usize] = value;
            },
            Instruction::AddVal { register, value } => {
                self.var_registers[register as usize] = self.var_registers[register as usize].wrapping_add(
                    value,
                );
            },
            Instruction::SetRegister { register_x, register_y } => {
                self.var_registers[register_x as usize] = self.var_registers[register_y as usize];
            },
            Instruction::Or { register_x, register_y } => {
                self.var_registers[register_x as usize] = self.var_registers[register_x as usize]
                    | self.var_registers[register_y as usize];
            },
            Instruction::And { register_x, register_y } => {
                self.var_registers[register_x as usize] = self.var_registers[register_x as usize]
                    & self.var_registers[register_y as usize];
            },
            Instruction::Xor { register_x, register_y } => {
                self.var_registers[register_x as usize] = self.var_registers[register_x as usize]
                    ^ self.var_registers[register_y as usize];
            },
            Instruction::Rand { register, value } => {
                self.var_registers[register as usize] = random & value;
            },
            Instruction::Add { register_x, register_y } => self.add(register_x, register_y),
            Instruction::SubtractRight { register_x, register_y } => {
                let x = self.var_registers[register_x as usize];
                let y = self.var_registers[register_y as usize];
                self.subtract(register_x, x, y);
            },
            Instruction::SubtractLeft { register_x, register_y } => {
                let x = self.var_registers[register_x as usize];
                let y = self.var_registers[register_y as usize];
                self.subtract(register_x, y, x);
            },
            Instruction::ShiftLeft { register_x, register_y } => {
                let value = self.shift_source(register_x, register_y);
                self.shift_left(register_x, value);
            },
            Instruction::ShiftRight { register_x, register_y } => {
                let value = self.shift_source(register_x, register_y);
                self.shift_right(register_x, value);
            },
            Instruction::SetIndexRegister(address) => self.index_register = address,
            Instruction::Display { x_coord_register, y_coord_register, sprite_height } => {
                let column = self.var_registers[x_coord_register as usize] % 64;
                let row = self.var_registers[y_coord_register as usize] % 32;
                return self.draw(column, row, sprite_height);
            },
        }
        Ok(())
    }

    /// Adds register Y into register X; the flag register is set to the carry.
    fn add(&mut self, register_x: u8, register_y: u8)
        requires
            old(self).inv(),
            register_x < 16,
            register_y < 16,
        ensures
            final(self).inv(),
            final(self)@ == add_spec(old(self)@, register_x, register_y),
    {
        proof {
            reveal(add_spec);
        }
        let sum = self.var_registers[register_x as usize] as u16
            + self.var_registers[register_y as usize] as u16;
        self.var_registers[FLAG as usize] = if sum > 255 {
            1
        } else {
            0
        };
        self.var_registers[register_x as usize] = (sum % 256) as u8;
    }

    /// Stores `minuend - subtrahend`, wrapped, in register X; the flag
    /// register is set when the minuend is the larger.
    fn subtract(&mut self, register_x: u8, minuend: u8, subtrahend: u8)
        requires
            old(self).inv(),
            register_x < 16,
        ensures
            final(self).inv(),
            final(self)@ == subtract_spec(old(self)@, register_x, minuend, subtrahend),
    {
        proof {
            reveal(subtract_spec);
        }
        self.var_registers[FLAG as usize] = if minuend > subtrahend {
            1
        } else {
            0
        };
        let difference = ((minuend as u16 + 256 - subtrahend as u16) % 256) as u8;
        assert(difference == wrap8(minuend - subtrahend));
        self.var_registers[register_x as usize] = difference;
    }

    /// Shifts `value` left by one into register X; the flag register gets the
    /// bit shifted out.
    fn shift_left(&mut self, register_x: u8, value: u8)
        requires
            old(self).inv(),
            register_x < 16,
        ensures
            final(self).inv(),
            final(self)@ == shift_left_spec(old(self)@, register_x, value),
    {
        proof {
            reveal(shift_left_spec);
        }
        self.var_registers[register_x as usize] = (value % 128) * 2;
        self.var_registers[FLAG as usize] = value / 128;
    }

    /// Shifts `value` right by one into register X; the flag register gets
    /// the bit shifted out.
    fn shift_right(&mut self, register_x: u8, value: u8)
        requires
            old(self).inv(),
            register_x < 16,
        ensures
            final(self).inv(),
            final(self)@ == shift_right_spec(old(self)@, register_x, value),
    {
        proof {
            reveal(shift_right_spec);
        }
        self.var_registers[register_x as usize] = value / 2;
        self.var_registers[FLAG as usize] = value % 2;
    }

    /// The value a shift instruction reads: register Y on the COSMAC VIP,
    /// register X itself otherwise.
    fn shift_source(&self, register_x: u8, register_y: u8) -> (r: u8)
        requires
            register_x < 16,
            register_y < 16,
        ensures
            r == shift_source(self@, register_x, register_y),
    {
        match self.compatibility_mode {
            CompatabilityMode::Cosmac => self.var_registers[register_y as usize],
            _ => self.var_registers[register_x as usize],
        }
    }

    /// XORs the sprite of `sprite_height` rows at the index register into the
    /// display at (`start_column`, `start_row`), clipping at the right and
    /// bottom edges, and sets the flag register to whether a lit pixel lay
    /// under the sprite.
    fn draw(&mut self, start_column: u8, start_row: u8, sprite_height: u8) -> (r: Result<
        (),
        EngineError,
    >)
        requires
            old(self).inv(),
            start_column < WIDTH,
            start_row < HEIGHT,
        ensures
            final(self).inv(),
            match draw_spec(old(self)@, start_column as int, start_row as int, sprite_height as int) {
                Ok(m) => r is Ok && final(self)@ == m,
                Err(e) => r == Err::<(), EngineError>(e) && *final(self) == *old(self),
            },
    {
        let rows: usize = if start_row as usize + sprite_height as usize <= HEIGHT {
            sprite_height as usize
        } else {
            HEIGHT - start_row as usize
        };
        let columns: usize = if start_column as usize + 8 <= WIDTH {
            8
        } else {
            WIDTH - start_column as usize
        };
        let sprite_address = self.index_register as usize;
        proof {
            reveal(draw_spec);
        }
        if sprite_address + rows > MEMORY_SIZE {
            return Err(EngineError::SpriteOutOfMemory);
        }
        let ghost m = self@;
        let ghost c0 = start_column as int;
        let ghost r0 = start_row as int;
        let ghost h = sprite_height as int;
        let mut display = self.display;
        let mut collided = false;
        let mut row: usize = 0;
        while row < rows
            invariant
                self@ == m,
                m.display == grid_view(self.display),
                c0 == start_column as int,
                r0 == start_row as int,
                h == sprite_height as int,
                sprite_address == m.index_register,
                sprite_address + rows <= MEMORY_SIZE,
                rows == rows_drawn(r0, h),
                r0 + rows <= HEIGHT,
                c0 + columns <= WIDTH,
                columns == if c0 + 8 <= WIDTH { 8 } else { WIDTH - c0 },
                0 <= row <= rows,
                forall|rr: int, cc: int|
                    0 <= rr < HEIGHT && 0 <= cc < WIDTH ==> #[trigger] display[rr][cc] == if rr
                        < r0 + row && in_sprite(c0, r0, h, rr, cc) {
                        self.display[rr][cc] ^ sprite_pixel(
                            self.memory[sprite_address + rr - r0],
                            cc - c0,
                        )
                    } else {
                        self.display[rr][cc]
                    },
                collided <==> exists|rr: int, cc: int|
                    0 <= rr < HEIGHT && 0 <= cc < WIDTH && rr < r0 + row && in_sprite(
                        c0,
                        r0,
                        h,
                        rr,
                        cc,
                    ) && #[trigger] self.display[rr][cc],
            decreases rows - row,
        {
            let byte = self.memory[sprite_address + row];
            let display_row = start_row as usize + row;
            let mut column: usize = 0;
            while column < columns
                invariant
                    self@ == m,
                    c0 == start_column as int,
                    r0 == start_row as int,
                    h == sprite_height as int,
                    sprite_address == m.index_register,
                    sprite_address + rows <= MEMORY_SIZE,
                    rows == rows_drawn(r0, h),
                    r0 + rows <= HEIGHT,
                    c0 + columns <= WIDTH,
                    columns == if c0 + 8 <= WIDTH { 8 } else { WIDTH - c0 },
                    0 <= row < rows,
                    display_row == r0 + row,
                    byte == self.memory[sprite_address + row],
                    0 <= column <= columns,
                    forall|rr: int, cc: int|
                        0 <= rr < HEIGHT && 0 <= cc < WIDTH ==> #[trigger] display[rr][cc] == if (
                        rr < r0 + row || (rr == r0 + row && cc < c0 + column)) && in_sprite(
                            c0,
                            r0,
                            h,
                            rr,
                            cc,
                        ) {
                            self.display[rr][cc] ^ sprite_pixel(
                                self.memory[sprite_address + rr - r0],
                                cc - c0,
                            )
                        } else {
                            self.display[rr][cc]
                        },
                    collided <==> exists|rr: int, cc: int|
                        0 <= rr < HEIGHT && 0 <= cc < WIDTH && (rr < r0 + row || (rr == r0 + row
                            && cc < c0 + column)) && in_sprite(c0, r0, h, rr, cc)
                            && #[trigger] self.display[rr][cc],
                decreases columns - column,
            {
                let display_column = start_column as usize + column;
                let bit = sprite_bit(byte, column);
                let lit = display[display_row][display_column];
                assert(lit == self.display[display_row as int][display_column as int]);
                if lit {
                    collided = true;
                }
                display[display_row][display_column] = lit ^ bit;
                column += 1;
            }
            row += 1;
        }
        proof {
            assert(collided == collides(m, c0, r0, h)) by {
                if collided {
                    let (rr, cc) = choose|rr: int, cc: int|
                        0 <= rr < HEIGHT && 0 <= cc < WIDTH && rr < r0 + rows && in_sprite(
                            c0,
                            r0,
                            h,
                            rr,
                            cc,
                        ) && #[trigger] self.display[rr][cc];
                    assert(m.display[rr][cc]);
                }
                if collides(m, c0, r0, h) {
                    let (rr, cc) = choose|rr: int, cc: int|
                        0 <= rr < HEIGHT && 0 <= cc < WIDTH && in_sprite(c0, r0, h, rr, cc)
                            && #[trigger] m.display[rr][cc];
                    assert(self.display[rr][cc]);
                }
            }
            assert forall|rr: int| 0 <= rr < HEIGHT implies #[trigger] grid_view(display)[rr]
                =~= drawn_display(m, c0, r0, h)[rr] by {}
            assert(grid_view(display) =~= drawn_display(m, c0, r0, h));
        }
        self.display = display;
        self.var_registers[FLAG as usize] = if collided {
            1
        } else {
            0
        };
        Ok(())
    }

    /// The big-endian word at the program counter.
    fn fetch(&self) -> (r: u16)
        requires
            self.program_counter + 1 < MEMORY_SIZE,
        ensures
            r == fetch_spec(self@),
    {
        let address = self.program_counter as usize;
        self.memory[address] as u16 * 256 + self.memory[address + 1] as u16
    }

    /// One fetch-decode-execute step: decodes the word at the program
    /// counter, moves the program counter past it and runs the instruction,
    /// `random` being the byte a random instruction masks. On an error the
    /// machine is left as it was.
    pub fn step(&mut self, random: u8) -> (r: Result<(), EngineError>)
        requires
            old(self).inv(),
        ensures
            final(self).inv(),
            match step_spec(old(self)@, random) {
                Ok(m) => r is Ok && final(self)@ == m,
                Err(e) => r == Err::<(), EngineError>(e) && *final(self) == *old(self),
            },
    {
        if self.program_counter as usize + 1 >= MEMORY_SIZE {
            return Err(EngineError::ProgramCounterOutOfRange);
        }
        let word = self.fetch();
        let instruction = match Instruction::decode(word) {
            Ok(instruction) => instruction,
            Err(e) => return Err(EngineError::Decode(e)),
        };
        let resume = self.program_counter;
        self.program_counter = resume + 2;
        let result = self.run_instruction(instruction, random);
        if result.is_err() {
            self.program_counter = resume;
        }
        result
    }

    /// One cycle of the run loop: a step with a freshly drawn random byte,
    /// then the display is handed to `ui`. Whatever byte was drawn, the
    /// machine moved as `step` does with it; a failed step is reported
    /// before anything is drawn.
    pub fn run_cycle<D: Draw>(&mut self, ui: &mut D) -> (r: Result<(), RunError>)
        requires
            old(self).inv(),
        ensures
            final(self).inv(),
            exists|random: u8|
                match #[trigger] step_spec(old(self)@, random) {
                    Ok(m) => final(self)@ == m && (r is Ok || r->Err_0 is Draw),
                    Err(e) => r == Err::<(), RunError>(RunError::Engine(e)) && *final(self)
                        == *old(self),
                },
    {
        let random = random_byte();
        match self.step(random) {
            Err(e) => Err(RunError::Engine(e)),
            Ok(()) => match ui.draw(&self.display) {
                Ok(()) => Ok(()),
                Err(e) => Err(RunError::Draw(e)),
            },
        }
    }

    /// The display grid.
    pub fn display(&self) -> (r: &[[bool; 64]; 32])
        ensures
            grid_view(*r) == self@.display,
    {
        &self.display
    }

    /// The sixteen general-purpose registers.
    pub fn registers(&self) -> (r: [u8; 16])
        ensures
            r@ == self@.registers,
    {
        self.var_registers
    }

    /// The whole memory.
    pub fn memory(&self) -> (r: &[u8; 4096])
        ensures
            r@ == self@.memory,
    {
        &self.memory
    }

    /// Address of the next instruction.
    pub fn program_counter(&self) -> (r: u16)
        ensures
            r == self@.program_counter,
    {
        self.program_counter
    }

    /// The address sprites are read from.
    pub fn index_register(&self) -> (r: u16)
        ensures
            r == self@.index_register,
    {
        self.index_register
    }

    /// Return addresses in use on the call stack.
    pub fn stack_depth(&self) -> (r: usize)
        requires
            self.inv(),
        ensures
            r == self@.stack.len(),
    {
        self.stack_pointer
    }

    /// The shift semantics this machine follows.
    pub fn compatibility_mode(&self) -> (r: CompatabilityMode)
        ensures
            r == self@.mode,
    {
        self.compatibility_mode
    }
}

} // verus!
