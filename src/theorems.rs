use vstd::prelude::*;
use crate::arguments::CompatabilityMode;
use crate::error::{EngineError, LoadError};
use crate::instruction::{decode_result, decode_spec, DecodeError, Instruction};
use crate::semantics::{
    blank_display, collides, draw_spec, exec_spec, in_sprite, load_spec, sprite_pixel, Machine,
    FLAG, HEIGHT, MEMORY_SIZE, PROGRAM_START, STACK_SIZE, WIDTH,
};

verus! {

/// A word that matches no row of the opcode table is reported as an unknown
/// opcode carrying that word.
pub proof fn lemma_unknown_opcode(w: u16)
    requires
        decode_spec(w) is None,
    ensures
        decode_result(w) == Err::<Instruction, DecodeError>(DecodeError::UnknownOpcode(w)),
{
}

/// Drawing the same sprite twice at the same place leaves the display as it
/// was, since every pixel is XOR-ed twice with the same bit.
pub proof fn lemma_draw_twice_restores(m: Machine, column: int, row: int, height: int)
    requires
        m.wf(),
        0 <= column < WIDTH,
        0 <= row < HEIGHT,
        0 <= height,
        draw_spec(m, column, row, height) is Ok,
    ensures
        draw_spec(draw_spec(m, column, row, height)->Ok_0, column, row, height) is Ok,
        draw_spec(draw_spec(m, column, row, height)->Ok_0, column, row, height)->Ok_0.display
            == m.display,
{
    reveal(draw_spec);
    let m1 = draw_spec(m, column, row, height)->Ok_0;
    let m2 = draw_spec(m1, column, row, height)->Ok_0;
    assert forall|rr: int| 0 <= rr < HEIGHT implies #[trigger] m2.display[rr] =~= m.display[rr] by {
        assert forall|cc: int| 0 <= cc < WIDTH implies m2.display[rr][cc] == m.display[rr][cc] by {
            if in_sprite(column, row, height, rr, cc) {
                let b = sprite_pixel(m.memory[m.index_register + rr - row], cc - column);
                assert(m2.display[rr][cc] == (m.display[rr][cc] ^ b) ^ b);
            }
        }
    }
    assert(m2.display =~= m.display);
}

/// On a blank display a draw finds no collision and clears the flag; drawing
/// the same sprite again blanks the display and sets the flag exactly when
/// some pixel of the sprite that falls on the display is lit.
pub proof fn lemma_draw_twice_on_blank(m: Machine, column: int, row: int, height: int)
    requires
        m.wf(),
        m.display == blank_display(),
        0 <= column < WIDTH,
        0 <= row < HEIGHT,
        0 <= height,
        draw_spec(m, column, row, height) is Ok,
    ensures
        draw_spec(m, column, row, height)->Ok_0.registers[FLAG as int] == 0,
        draw_spec(draw_spec(m, column, row, height)->Ok_0, column, row, height) is Ok,
        draw_spec(draw_spec(m, column, row, height)->Ok_0, column, row, height)->Ok_0.display
            == blank_display(),
        draw_spec(draw_spec(m, column, row, height)->Ok_0, column, row, height)->Ok_0.registers[FLAG as int]
            == if exists|rr: int, cc: int|
            0 <= rr < HEIGHT && 0 <= cc < WIDTH && in_sprite(column, row, height, rr, cc)
                && #[trigger] sprite_pixel(m.memory[m.index_register + rr - row], cc - column) {
            1u8
        } else {
            0u8
        },
{
    lemma_draw_twice_restores(m, column, row, height);
    reveal(draw_spec);
    let m1 = draw_spec(m, column, row, height)->Ok_0;
    assert(!collides(m, column, row, height));
    if exists|rr: int, cc: int|
        0 <= rr < HEIGHT && 0 <= cc < WIDTH && in_sprite(column, row, height, rr, cc)
            && #[trigger] sprite_pixel(m.memory[m.index_register + rr - row], cc - column) {
        let (rr, cc) = choose|rr: int, cc: int|
            0 <= rr < HEIGHT && 0 <= cc < WIDTH && in_sprite(column, row, height, rr, cc)
                && #[trigger] sprite_pixel(m.memory[m.index_register + rr - row], cc - column);
        assert(m1.display[rr][cc]);
        assert(collides(m1, column, row, height));
    } else {
        if collides(m1, column, row, height) {
            let (rr, cc) = choose|rr: int, cc: int|
                0 <= rr < HEIGHT && 0 <= cc < WIDTH && in_sprite(column, row, height, rr, cc)
                    && #[trigger] m1.display[rr][cc];
            assert(sprite_pixel(m.memory[m.index_register + rr - row], cc - column));
        }
    }
}

/// A draw changes no pixel outside the sprite clipped to the display: bits
/// past the right edge or rows past the bottom edge are discarded, never
/// wrapped around.
pub proof fn lemma_draw_clips(m: Machine, column: int, row: int, height: int, rr: int, cc: int)
    requires
        m.wf(),
        0 <= column < WIDTH,
        0 <= row < HEIGHT,
        0 <= height,
        draw_spec(m, column, row, height) is Ok,
        0 <= rr < HEIGHT,
        0 <= cc < WIDTH,
        !in_sprite(column, row, height, rr, cc),
    ensures
        draw_spec(m, column, row, height)->Ok_0.display[rr][cc] == m.display[rr][cc],
{
    reveal(draw_spec);
}

/// Applies `n` calls of the subroutine at `address` in a row.
pub open spec fn call_repeatedly(m: Machine, address: u16, n: nat) -> Result<Machine, EngineError>
    decreases n,
{
    if n == 0 {
        Ok(m)
    } else {
        match call_repeatedly(m, address, (n - 1) as nat) {
            Ok(m1) => exec_spec(m1, Instruction::Subroutine(address), 0),
            Err(e) => Err(e),
        }
    }
}

/// From an empty stack, up to 24 nested calls succeed, each holding one more
/// return address.
pub proof fn lemma_nested_calls(m: Machine, address: u16, n: nat)
    requires
        m.stack.len() == 0,
        address < 0x1000,
        n <= STACK_SIZE,
    ensures
        call_repeatedly(m, address, n) is Ok,
        call_repeatedly(m, address, n)->Ok_0.stack.len() == n,
    decreases n,
{
    if n > 0 {
        lemma_nested_calls(m, address, (n - 1) as nat);
    }
}

/// From an empty stack, the 25th nested call fails with a stack overflow.
pub proof fn lemma_call_overflow(m: Machine, address: u16)
    requires
        m.stack.len() == 0,
        address < 0x1000,
    ensures
        call_repeatedly(m, address, (STACK_SIZE + 1) as nat) == Err::<Machine, EngineError>(
            EngineError::StackOverflow,
        ),
{
    lemma_nested_calls(m, address, STACK_SIZE as nat);
}

/// A return with nothing on the stack fails with a stack underflow.
pub proof fn lemma_return_underflow(m: Machine, random: u8)
    requires
        m.stack.len() == 0,
    ensures
        exec_spec(m, Instruction::Return, random) == Err::<Machine, EngineError>(
            EngineError::StackUnderflow,
        ),
{
}

/// A call followed by a return comes back to the instruction after the call
/// with the stack as it was.
pub proof fn lemma_call_return(m: Machine, address: u16, random: u8)
    requires
        m.stack.len() < STACK_SIZE,
        address < 0x1000,
    ensures
        exec_spec(m, Instruction::Subroutine(address), random) is Ok,
        exec_spec(exec_spec(m, Instruction::Subroutine(address), random)->Ok_0, Instruction::Return, random)
            == Ok::<Machine, EngineError>(m),
{
    let m1 = exec_spec(m, Instruction::Subroutine(address), random)->Ok_0;
    assert(m1.stack.drop_last() =~= m.stack);
}

/// A program loads exactly when it fits in memory after 0x200; memory past its
/// last byte is zero.
pub proof fn lemma_load(program: Seq<u8>, mode: CompatabilityMode)
    ensures
        load_spec(program, mode) is Err <==> program.len() > MEMORY_SIZE - PROGRAM_START,
        load_spec(program, mode) is Err ==> load_spec(program, mode) == Err::<Machine, LoadError>(
            LoadError::TooLarge,
        ),
        load_spec(program, mode) is Ok ==> forall|a: int|
            PROGRAM_START + program.len() <= a < MEMORY_SIZE ==> #[trigger] load_spec(
                program,
                mode,
            )->Ok_0.memory[a] == 0,
{
}

} // verus!
