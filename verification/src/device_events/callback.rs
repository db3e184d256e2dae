//! Callbacks, the registries that hold them and the guards that keep them
//! subscribed.

use vstd::prelude::*;

pub mod callback_guard;
pub mod keyboard_callback;
pub mod liveness;
pub mod mouse_callback;
pub mod registry;

verus! {

} // verus!
