use vstd::prelude::*;

use crate::raster::Frame;

verus! {

/// A user signal that the render loop acts on.
#[derive(Clone, Copy, Debug, PartialEq, Eq, Structural)]
pub enum Input {
    /// The user asked to close the window.
    Quit,
}

/// A display backend: owns the window, its canvas and its event source.
pub trait Window: Sized {
    /// Opens a `w` by `h` window, or says in words why the platform could not.
    fn init(w: u16, h: u16) -> Result<Self, String>;

    /// Clears the canvas with the frame's background, draws its image at the
    /// top-left corner at native size, and presents the result.
    fn render(&mut self, frame: Frame);

    /// Drains the pending events without blocking; `Some(Input::Quit)` when
    /// one of them asks to close the window.
    fn handle_events(&mut self) -> Option<Input>;
}

} // verus!
