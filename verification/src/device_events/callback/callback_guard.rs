//! Callback guard.
//!
//! A guard is the only thing that keeps a callback subscribed. It is given
//! up by handing it to `release` of the registries it came from, which takes
//! it for good: there is no second guard for the same callback, and no way
//! to make one.

use std::marker::PhantomData;
use vstd::prelude::*;

verus! {

/// The kind of event that a registry delivers.
#[derive(Debug, Clone, Copy, PartialEq, Eq, Hash, Structural)]
pub enum Channel {
    KeyDown,
    KeyUp,
    MouseMove,
    MouseDown,
    MouseUp,
}

/// Callback guard returned when adding a callback as an event listener. The
/// listener stays subscribed for as long as the guard is held; once the guard
/// is given up, the listener is never called again and leaves its registry
/// at the next dispatch pass.
#[derive(Debug)]
pub struct CallbackGuard<Arg> {
    channel: Channel,
    id: u64,
    _arg: PhantomData<Arg>,
}

impl<Arg> CallbackGuard<Arg> {
    /// The channel on which the guarded callback listens.
    pub closed spec fn channel(&self) -> Channel {
        self.channel
    }

    /// The number under which the guarded callback was registered.
    pub closed spec fn id(&self) -> u64 {
        self.id
    }

    pub(crate) fn new(channel: Channel, id: u64) -> (guard: Self)
        ensures
            guard.channel() == channel,
            guard.id() == id,
    {
        CallbackGuard { channel, id, _arg: PhantomData }
    }

    pub(crate) fn get_channel(&self) -> (channel: Channel)
        ensures
            channel == self.channel(),
    {
        self.channel
    }

    pub(crate) fn get_id(&self) -> (id: u64)
        ensures
            id == self.id(),
    {
        self.id
    }
}

} // verus!
