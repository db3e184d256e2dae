//! Edge-triggered keyboard and mouse events from polled device state.
//!
//! The library turns successive snapshots of the keyboard and the mouse into
//! discrete events and delivers them to subscribers. Polling itself (the
//! platform query, the pause between two queries, the thread that does both)
//! is left to the program that uses the library.

use vstd::prelude::*;

pub mod device_events;
pub mod device_state;
pub mod keymap;
pub mod mouse_state;

pub use device_events::callback::callback_guard::{CallbackGuard, Channel};
pub use device_events::callback::keyboard_callback::{KeyboardCallback, KeyboardCallbacks};
pub use device_events::callback::mouse_callback::{
    MouseButtonCallback,
    MouseCallbacks,
    MouseMoveCallback,
};
pub use device_events::event_loop::{init_event_loop, EventLoop};
pub use device_events::keyboard_poll::{keyboard_cycle, KeyboardEvent};
pub use device_events::mouse_poll::{mouse_cycle, MouseEvent};
pub use device_events::notice::Notice;
pub use keymap::Keycode;
pub use mouse_state::{MouseButton, MousePosition, MouseState};

verus! {

} // verus!
