//! Mouse coordinates and the state of the mouse buttons.

use vstd::prelude::*;

verus! {

/// Mouse position, in pixels.
pub type MousePosition = (i32, i32);

/// Index of a mouse button.
pub type MouseButton = usize;

/// The pointer's coordinates and the state of each of the five buttons
/// that can be queried.
#[derive(Debug, PartialEq, Eq, Clone, Copy)]
pub struct MouseState {
    /// Coordinates in pixels.
    pub coords: MousePosition,
    /// State of each mouse button.
    pub button_pressed: [bool; 5],
}

impl Default for MouseState {
    fn default() -> (r: Self)
        ensures
            r.coords == (0i32, 0i32),
            forall|i: int| 0 <= i < 5 ==> !r.button_pressed[i],
    {
        MouseState { coords: (0, 0), button_pressed: [false, false, false, false, false] }
    }
}

} // verus!
