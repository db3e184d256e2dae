//! What a polling cycle reports of each event it delivered.

use vstd::prelude::*;

verus! {

/// An event together with the numbers of the callbacks that were called with
/// it, in the order of the calls.
#[derive(Debug, Clone, PartialEq, Eq)]
pub struct Notice<E> {
    /// The event.
    pub event: E,
    /// The numbers of the callbacks that were called with it.
    pub notified: Vec<u64>,
}

} // verus!
