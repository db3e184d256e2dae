//! Subscriptions, and the events that two polls of a device give.

use vstd::prelude::*;

pub mod callback;
pub mod event_loop;
pub mod keyboard_poll;
pub mod mouse_poll;
pub mod notice;

verus! {

} // verus!
