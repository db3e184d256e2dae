//! The loop that owns the registries of both devices and the snapshots of
//! their last poll, and its one-time start.

use crate::device_events::callback::callback_guard::{CallbackGuard, Channel};
use crate::device_events::callback::keyboard_callback::{
    accepts_every_key,
    KeyboardCallback,
    KeyboardCallbacks,
};
use crate::device_events::callback::mouse_callback::{
    accepts_every_button,
    accepts_every_position,
    MouseButtonCallback,
    MouseCallbacks,
    MouseMoveCallback,
};
use crate::device_events::callback::registry::RegistryState;
use crate::device_events::keyboard_poll::{keyboard_cycle, keyboard_cycle_post, KeyboardEvent};
use crate::device_events::mouse_poll::{mouse_cycle, mouse_cycle_post, MouseEvent};
use crate::device_events::notice::Notice;
use crate::keymap::Keycode;
use crate::mouse_state::{MouseButton, MousePosition, MouseState};
use std::time::Duration;
use vstd::prelude::*;

verus! {

/// The pause between two polls that a loop uses where none is asked for, in
/// microseconds.
pub const DEFAULT_POLL_MICROS: u64 = 100;

/// The registries of both devices, the snapshots of the last poll of each,
/// and the pause between two polls.
pub struct EventLoop<K, M, B> {
    keyboard_callbacks: KeyboardCallbacks<K>,
    mouse_callbacks: MouseCallbacks<M, B>,
    sleep_dur: Duration,
    prev_keys: Vec<Keycode>,
    previous_mouse_state: MouseState,
}

impl<K: KeyboardCallback, M: MouseMoveCallback, B: MouseButtonCallback> EventLoop<K, M, B> {
    /// The keyboard registries.
    pub closed spec fn keyboard(&self) -> KeyboardCallbacks<K> {
        self.keyboard_callbacks
    }

    /// The mouse registries.
    pub closed spec fn mouse(&self) -> MouseCallbacks<M, B> {
        self.mouse_callbacks
    }

    /// The pause between two polls.
    pub closed spec fn poll_interval(&self) -> Duration {
        self.sleep_dur
    }

    /// The keys that were down at the last keyboard cycle.
    pub closed spec fn prev_keys(&self) -> Seq<Keycode> {
        self.prev_keys@
    }

    /// The state of the mouse at the last mouse cycle.
    pub closed spec fn previous_mouse_state(&self) -> MouseState {
        self.previous_mouse_state
    }

    /// All registries are well formed.
    pub open spec fn wf(&self) -> bool {
        &&& self.keyboard().wf()
        &&& self.mouse().wf()
    }

    /// The loop as [`EventLoop::new`] makes it for `sleep_dur`: nothing is
    /// subscribed, no key is down, the pointer is at the origin and no
    /// button is down.
    pub open spec fn is_fresh(&self, sleep_dur: Duration) -> bool {
        &&& self.poll_interval() == sleep_dur
        &&& self.keyboard().key_down() == RegistryState::<K>::empty()
        &&& self.keyboard().key_up() == RegistryState::<K>::empty()
        &&& self.mouse().mouse_move() == RegistryState::<M>::empty()
        &&& self.mouse().mouse_down() == RegistryState::<B>::empty()
        &&& self.mouse().mouse_up() == RegistryState::<B>::empty()
        &&& self.prev_keys() == Seq::<Keycode>::empty()
        &&& self.previous_mouse_state().coords == (0i32, 0i32)
        &&& forall|b: int| 0 <= b < 5 ==> !self.previous_mouse_state().button_pressed@[b]
    }

    /// Whether only the subscriptions of the loop differ between `self` and
    /// `other`: the snapshots and the pause are the same.
    pub open spec fn same_poll_state(&self, other: &Self) -> bool {
        &&& self.poll_interval() == other.poll_interval()
        &&& self.prev_keys() == other.prev_keys()
        &&& self.previous_mouse_state() == other.previous_mouse_state()
    }

    /// A loop that polls every `sleep_dur`, without subscribers.
    pub fn new(sleep_dur: Duration) -> (r: Self)
        ensures
            r.wf(),
            r.is_fresh(sleep_dur),
    {
        EventLoop {
            keyboard_callbacks: KeyboardCallbacks::new(),
            mouse_callbacks: MouseCallbacks::new(),
            sleep_dur,
            prev_keys: Vec::new(),
            previous_mouse_state: MouseState::default(),
        }
    }

    /// The pause between two polls.
    pub fn interval(&self) -> (sleep_dur: Duration)
        ensures
            sleep_dur == self.poll_interval(),
    {
        self.sleep_dur
    }

    /// Whether the registry of `channel` can take no further subscriber.
    pub fn is_full(&self, channel: Channel) -> (full: bool)
        ensures
            full == (registry_next_id(*self, channel) >= u64::MAX),
    {
        match channel {
            Channel::KeyDown => self.keyboard_callbacks.key_down_is_full(),
            Channel::KeyUp => self.keyboard_callbacks.key_up_is_full(),
            Channel::MouseMove => self.mouse_callbacks.mouse_move_is_full(),
            Channel::MouseDown => self.mouse_callbacks.mouse_down_is_full(),
            Channel::MouseUp => self.mouse_callbacks.mouse_up_is_full(),
        }
    }

    /// Subscribes `callback` to the keys that go down.
    pub fn on_key_down(&mut self, callback: K) -> (guard: CallbackGuard<Keycode>)
        requires
            old(self).wf(),
            old(self).keyboard().key_down().next_id < u64::MAX,
            accepts_every_key(callback),
        ensures
            final(self).wf(),
            final(self).same_poll_state(old(self)),
            final(self).mouse() == old(self).mouse(),
            final(self).keyboard().key_up() == old(self).keyboard().key_up(),
            final(self).keyboard().key_down() == old(self).keyboard().key_down().subscribed(
                callback,
            ),
            guard.channel() == Channel::KeyDown,
            guard.id() == old(self).keyboard().key_down().next_id,
    {
        self.keyboard_callbacks.push_key_down(callback)
    }

    /// Subscribes `callback` to the keys that come up.
    pub fn on_key_up(&mut self, callback: K) -> (guard: CallbackGuard<Keycode>)
        requires
            old(self).wf(),
            old(self).keyboard().key_up().next_id < u64::MAX,
            accepts_every_key(callback),
        ensures
            final(self).wf(),
            final(self).same_poll_state(old(self)),
            final(self).mouse() == old(self).mouse(),
            final(self).keyboard().key_down() == old(self).keyboard().key_down(),
            final(self).keyboard().key_up() == old(self).keyboard().key_up().subscribed(callback),
            guard.channel() == Channel::KeyUp,
            guard.id() == old(self).keyboard().key_up().next_id,
    {
        self.keyboard_callbacks.push_key_up(callback)
    }

    /// Subscribes `callback` to the moves of the pointer.
    pub fn on_mouse_move(&mut self, callback: M) -> (guard: CallbackGuard<MousePosition>)
        requires
            old(self).wf(),
            old(self).mouse().mouse_move().next_id < u64::MAX,
            accepts_every_position(callback),
        ensures
            final(self).wf(),
            final(self).same_poll_state(old(self)),
            final(self).keyboard() == old(self).keyboard(),
            final(self).mouse().mouse_up() == old(self).mouse().mouse_up(),
            final(self).mouse().mouse_down() == old(self).mouse().mouse_down(),
            final(self).mouse().mouse_move() == old(self).mouse().mouse_move().subscribed(
                callback,
            ),
            guard.channel() == Channel::MouseMove,
            guard.id() == old(self).mouse().mouse_move().next_id,
    {
        self.mouse_callbacks.push_mouse_move(callback)
    }

    /// Subscribes `callback` to the buttons that come up.
    pub fn on_mouse_up(&mut self, callback: B) -> (guard: CallbackGuard<MouseButton>)
        requires
            old(self).wf(),
            old(self).mouse().mouse_up().next_id < u64::MAX,
            accepts_every_button(callback),
        ensures
            final(self).wf(),
            final(self).same_poll_state(old(self)),
            final(self).keyboard() == old(self).keyboard(),
            final(self).mouse().mouse_move() == old(self).mouse().mouse_move(),
            final(self).mouse().mouse_down() == old(self).mouse().mouse_down(),
            final(self).mouse().mouse_up() == old(self).mouse().mouse_up().subscribed(callback),
            guard.channel() == Channel::MouseUp,
            guard.id() == old(self).mouse().mouse_up().next_id,
    {
        self.mouse_callbacks.push_mouse_up(callback)
    }

    /// Subscribes `callback` to the buttons that go down.
    pub fn on_mouse_down(&mut self, callback: B) -> (guard: CallbackGuard<MouseButton>)
        requires
            old(self).wf(),
            old(self).mouse().mouse_down().next_id < u64::MAX,
            accepts_every_button(callback),
        ensures
            final(self).wf(),
            final(self).same_poll_state(old(self)),
            final(self).keyboard() == old(self).keyboard(),
            final(self).mouse().mouse_move() == old(self).mouse().mouse_move(),
            final(self).mouse().mouse_up() == old(self).mouse().mouse_up(),
            final(self).mouse().mouse_down() == old(self).mouse().mouse_down().subscribed(
                callback,
            ),
            guard.channel() == Channel::MouseDown,
            guard.id() == old(self).mouse().mouse_down().next_id,
    {
        self.mouse_callbacks.push_mouse_down(callback)
    }

    /// Gives up `guard`: the callback it stands for is released in the
    /// registry of the guard's channel, and in no other.
    pub fn release<Arg>(&mut self, guard: CallbackGuard<Arg>)
        requires
            old(self).wf(),
        ensures
            final(self).wf(),
            final(self).same_poll_state(old(self)),
            released_in(*old(self), *final(self), guard.channel(), guard.id()),
    {
        match guard.get_channel() {
            Channel::KeyDown | Channel::KeyUp => {
                self.keyboard_callbacks.release(guard);
            },
            _ => {
                self.mouse_callbacks.release(guard);
            },
        }
    }

    /// One cycle of the keyboard poll, with `keys` the keys that are down
    /// now: see [`keyboard_cycle`].
    pub fn poll_keyboard(&mut self, keys: Vec<Keycode>) -> (notices: Vec<Notice<KeyboardEvent>>)
        requires
            old(self).wf(),
        ensures
            final(self).wf(),
            final(self).prev_keys() == keys@,
            final(self).poll_interval() == old(self).poll_interval(),
            final(self).previous_mouse_state() == old(self).previous_mouse_state(),
            final(self).mouse() == old(self).mouse(),
            keyboard_cycle_post(
                old(self).keyboard(),
                final(self).keyboard(),
                old(self).prev_keys(),
                keys@,
                notices@,
            ),
    {
        keyboard_cycle(&mut self.keyboard_callbacks, &mut self.prev_keys, keys)
    }

    /// One cycle of the mouse poll, with `state` the state of the mouse now:
    /// see [`mouse_cycle`].
    pub fn poll_mouse(&mut self, state: MouseState) -> (notices: Vec<Notice<MouseEvent>>)
        requires
            old(self).wf(),
        ensures
            final(self).wf(),
            final(self).previous_mouse_state() == state,
            final(self).poll_interval() == old(self).poll_interval(),
            final(self).prev_keys() == old(self).prev_keys(),
            final(self).keyboard() == old(self).keyboard(),
            mouse_cycle_post(
                old(self).mouse(),
                final(self).mouse(),
                old(self).previous_mouse_state(),
                state,
                notices@,
            ),
    {
        mouse_cycle(&mut self.mouse_callbacks, &mut self.previous_mouse_state, state)
    }
}

/// The number that the next subscriber of `channel` will get.
pub open spec fn registry_next_id<K: KeyboardCallback, M: MouseMoveCallback, B: MouseButtonCallback>(
    event_loop: EventLoop<K, M, B>,
    channel: Channel,
) -> nat {
    match channel {
        Channel::KeyDown => event_loop.keyboard().key_down().next_id,
        Channel::KeyUp => event_loop.keyboard().key_up().next_id,
        Channel::MouseMove => event_loop.mouse().mouse_move().next_id,
        Channel::MouseDown => event_loop.mouse().mouse_down().next_id,
        Channel::MouseUp => event_loop.mouse().mouse_up().next_id,
    }
}

/// Whether `after` is `before` with subscriber `id` of `channel` released and
/// every other registry unchanged.
pub open spec fn released_in<K: KeyboardCallback, M: MouseMoveCallback, B: MouseButtonCallback>(
    before: EventLoop<K, M, B>,
    after: EventLoop<K, M, B>,
    channel: Channel,
    id: u64,
) -> bool {
    &&& after.keyboard().key_down() == if channel == Channel::KeyDown {
        before.keyboard().key_down().released(id)
    } else {
        before.keyboard().key_down()
    }
    &&& after.keyboard().key_up() == if channel == Channel::KeyUp {
        before.keyboard().key_up().released(id)
    } else {
        before.keyboard().key_up()
    }
    &&& after.mouse().mouse_move() == if channel == Channel::MouseMove {
        before.mouse().mouse_move().released(id)
    } else {
        before.mouse().mouse_move()
    }
    &&& after.mouse().mouse_down() == if channel == Channel::MouseDown {
        before.mouse().mouse_down().released(id)
    } else {
        before.mouse().mouse_down()
    }
    &&& after.mouse().mouse_up() == if channel == Channel::MouseUp {
        before.mouse().mouse_up().released(id)
    } else {
        before.mouse().mouse_up()
    }
}

/// What an initialisation with `sleep_dur` does to the place where the loop
/// is kept: an empty place gets a fresh loop that polls every `sleep_dur`,
/// and the call says that it started one; a place that holds a loop is left
/// as it is, and the call says that it did nothing.
pub open spec fn init_outcome<K: KeyboardCallback, M: MouseMoveCallback, B: MouseButtonCallback>(
    before: Option<EventLoop<K, M, B>>,
    after: Option<EventLoop<K, M, B>>,
    sleep_dur: Duration,
    started: bool,
) -> bool {
    &&& started == (before is None)
    &&& before is Some ==> after == before
    &&& before is None ==> after is Some && after->0.wf() && after->0.is_fresh(sleep_dur)
}

/// Starts the loop in `event_loop` unless there is one already. Returns
/// whether it started one.
pub fn init_event_loop<K: KeyboardCallback, M: MouseMoveCallback, B: MouseButtonCallback>(
    event_loop: &mut Option<EventLoop<K, M, B>>,
    sleep_dur: Duration,
) -> (started: bool)
    ensures
        init_outcome(*old(event_loop), *final(event_loop), sleep_dur, started),
{
    if event_loop.is_none() {
        *event_loop = Some(EventLoop::new(sleep_dur));
        true
    } else {
        false
    }
}

/// Idempotent initialisation. Of two initialisations in a row of the same
/// place, the second starts nothing and leaves the place as the first left
/// it, whatever pause it asks for; where the place was empty, the first
/// starts the loop, which keeps the pause that the first asked for.
pub proof fn lemma_init_twice<K: KeyboardCallback, M: MouseMoveCallback, B: MouseButtonCallback>(
    empty: Option<EventLoop<K, M, B>>,
    once: Option<EventLoop<K, M, B>>,
    twice: Option<EventLoop<K, M, B>>,
    first: Duration,
    second: Duration,
    started_first: bool,
    started_second: bool,
)
    requires
        init_outcome(empty, once, first, started_first),
        init_outcome(once, twice, second, started_second),
    ensures
        !started_second,
        twice == once,
        twice is Some,
        empty is None ==> started_first && twice->0.poll_interval() == first,
        empty is Some ==> !started_first && twice == empty,
{
}

} // verus!
