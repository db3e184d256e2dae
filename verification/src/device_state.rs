//! What each platform reports of its devices, turned into the keys and the
//! mouse state that the rest of the library works with.

use vstd::prelude::*;

pub mod linux;
pub mod macos;
pub mod windows;

verus! {

} // verus!
