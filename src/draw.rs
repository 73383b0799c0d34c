use vstd::prelude::*;

verus! {

/// The error a draw sink reports; the interpreter carries it through unchanged.
#[verifier::external_type_specification]
#[verifier::external_body]
pub struct ExAnyhowError(anyhow::Error);

/// Allows the emulator to be switched out with different user interfaces.
pub trait Draw {
    /// Draws the emulator's bitmap grid onto a screen.
    ///
    /// Each item of `buffer` is one pixel, rows top to bottom, each row left to
    /// right; `true` is lit. The grid is 32 rows of 64 pixels.
    fn draw(&mut self, buffer: &[[bool; 64]; 32]) -> Result<(), anyhow::Error>;
}

} // verus!
