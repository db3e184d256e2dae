//! Mouse callbacks.

use crate::device_events::callback::callback_guard::{CallbackGuard, Channel};
use crate::device_events::callback::registry::{CallbackRegistry, RegistryState, Subscription};
use crate::device_events::callback::registry::lemma_pruned_from;
use crate::mouse_state::{MouseButton, MousePosition};
use vstd::prelude::*;

verus! {

/// Mouse move callback.
pub trait MouseMoveCallback: Fn(MousePosition) + Sync + Send + 'static {

}

impl<F: Fn(MousePosition) + Sync + Send + 'static> MouseMoveCallback for F {

}

/// Mouse button callback.
pub trait MouseButtonCallback: Fn(MouseButton) + Sync + Send + 'static {

}

impl<F: Fn(MouseButton) + Sync + Send + 'static> MouseButtonCallback for F {

}

/// Whether `callback` may be called with every position.
pub open spec fn accepts_every_position<M: MouseMoveCallback>(callback: M) -> bool {
    forall|position: MousePosition| call_requires(callback, (position,))
}

/// Whether `callback` may be called with every button.
pub open spec fn accepts_every_button<B: MouseButtonCallback>(callback: B) -> bool {
    forall|button: MouseButton| call_requires(callback, (button,))
}

/// Whether every callback among `entries` may be called with every position.
pub open spec fn all_accept_positions<M: MouseMoveCallback>(
    entries: Seq<Subscription<M>>,
) -> bool {
    forall|i: int|
        0 <= i < entries.len() ==> accepts_every_position((#[trigger] entries[i]).callback)
}

/// Whether every callback among `entries` may be called with every button.
pub open spec fn all_accept_buttons<B: MouseButtonCallback>(
    entries: Seq<Subscription<B>>,
) -> bool {
    forall|i: int|
        0 <= i < entries.len() ==> accepts_every_button((#[trigger] entries[i]).callback)
}

/// Whether every callback among `entries` has been called with `position`
/// and has returned: what each of them ensures of such a call holds.
pub open spec fn all_called_with_position<M: MouseMoveCallback>(
    entries: Seq<Subscription<M>>,
    position: MousePosition,
) -> bool {
    forall|i: int|
        0 <= i < entries.len() ==> call_ensures((#[trigger] entries[i]).callback, (position,), ())
}

/// Whether every callback among `entries` has been called with `button` and
/// has returned: what each of them ensures of such a call holds.
pub open spec fn all_called_with_button<B: MouseButtonCallback>(
    entries: Seq<Subscription<B>>,
    button: MouseButton,
) -> bool {
    forall|i: int|
        0 <= i < entries.len() ==> call_ensures((#[trigger] entries[i]).callback, (button,), ())
}

/// Mouse callbacks: one registry for the moves of the pointer, one for the
/// buttons that come up, one for the buttons that go down.
pub struct MouseCallbacks<M, B> {
    mouse_move: CallbackRegistry<M>,
    mouse_up: CallbackRegistry<B>,
    mouse_down: CallbackRegistry<B>,
}

impl<M: MouseMoveCallback, B: MouseButtonCallback> Default for MouseCallbacks<M, B> {
    fn default() -> (r: Self)
        ensures
            r.wf(),
            r.mouse_move() == RegistryState::<M>::empty(),
            r.mouse_up() == RegistryState::<B>::empty(),
            r.mouse_down() == RegistryState::<B>::empty(),
    {
        MouseCallbacks::new()
    }
}

impl<M: MouseMoveCallback, B: MouseButtonCallback> MouseCallbacks<M, B> {
    /// The state of the mouse-move registry.
    pub closed spec fn mouse_move(&self) -> RegistryState<M> {
        self.mouse_move@
    }

    /// The state of the mouse-up registry.
    pub closed spec fn mouse_up(&self) -> RegistryState<B> {
        self.mouse_up@
    }

    /// The state of the mouse-down registry.
    pub closed spec fn mouse_down(&self) -> RegistryState<B> {
        self.mouse_down@
    }

    /// The three registries are well formed and hold only callbacks that may
    /// be called with every argument of their channel.
    pub open spec fn wf(&self) -> bool {
        &&& self.mouse_move().wf()
        &&& self.mouse_up().wf()
        &&& self.mouse_down().wf()
        &&& all_accept_positions(self.mouse_move().entries)
        &&& all_accept_buttons(self.mouse_up().entries)
        &&& all_accept_buttons(self.mouse_down().entries)
    }

    /// Three registries without subscribers.
    pub fn new() -> (r: Self)
        ensures
            r.wf(),
            r.mouse_move() == RegistryState::<M>::empty(),
            r.mouse_up() == RegistryState::<B>::empty(),
            r.mouse_down() == RegistryState::<B>::empty(),
    {
        MouseCallbacks {
            mouse_move: CallbackRegistry::new(),
            mouse_up: CallbackRegistry::new(),
            mouse_down: CallbackRegistry::new(),
        }
    }

    /// Whether the mouse-move registry can take no further subscriber.
    pub fn mouse_move_is_full(&self) -> (full: bool)
        ensures
            full == (self.mouse_move().next_id >= u64::MAX),
    {
        self.mouse_move.is_full()
    }

    /// Whether the mouse-down registry can take no further subscriber.
    pub fn mouse_down_is_full(&self) -> (full: bool)
        ensures
            full == (self.mouse_down().next_id >= u64::MAX),
    {
        self.mouse_down.is_full()
    }

    /// Whether the mouse-up registry can take no further subscriber.
    pub fn mouse_up_is_full(&self) -> (full: bool)
        ensures
            full == (self.mouse_up().next_id >= u64::MAX),
    {
        self.mouse_up.is_full()
    }

    /// Subscribes `callback` to the moves of the pointer.
    pub fn push_mouse_move(&mut self, callback: M) -> (guard: CallbackGuard<MousePosition>)
        requires
            old(self).wf(),
            old(self).mouse_move().next_id < u64::MAX,
            accepts_every_position(callback),
        ensures
            final(self).wf(),
            final(self).mouse_move() == old(self).mouse_move().subscribed(callback),
            final(self).mouse_up() == old(self).mouse_up(),
            final(self).mouse_down() == old(self).mouse_down(),
            guard.channel() == Channel::MouseMove,
            guard.id() == old(self).mouse_move().next_id,
    {
        let id = self.mouse_move.subscribe(callback);
        CallbackGuard::new(Channel::MouseMove, id)
    }

    /// Subscribes `callback` to the buttons that go down.
    pub fn push_mouse_down(&mut self, callback: B) -> (guard: CallbackGuard<MouseButton>)
        requires
            old(self).wf(),
            old(self).mouse_down().next_id < u64::MAX,
            accepts_every_button(callback),
        ensures
            final(self).wf(),
            final(self).mouse_down() == old(self).mouse_down().subscribed(callback),
            final(self).mouse_up() == old(self).mouse_up(),
            final(self).mouse_move() == old(self).mouse_move(),
            guard.channel() == Channel::MouseDown,
            guard.id() == old(self).mouse_down().next_id,
    {
        let id = self.mouse_down.subscribe(callback);
        CallbackGuard::new(Channel::MouseDown, id)
    }

    /// Subscribes `callback` to the buttons that come up.
    pub fn push_mouse_up(&mut self, callback: B) -> (guard: CallbackGuard<MouseButton>)
        requires
            old(self).wf(),
            old(self).mouse_up().next_id < u64::MAX,
            accepts_every_button(callback),
        ensures
            final(self).wf(),
            final(self).mouse_up() == old(self).mouse_up().subscribed(callback),
            final(self).mouse_down() == old(self).mouse_down(),
            final(self).mouse_move() == old(self).mouse_move(),
            guard.channel() == Channel::MouseUp,
            guard.id() == old(self).mouse_up().next_id,
    {
        let id = self.mouse_up.subscribe(callback);
        CallbackGuard::new(Channel::MouseUp, id)
    }

    /// Gives up `guard`: the callback it stands for is released in the
    /// registry of the guard's channel. A guard of a keyboard channel changes
    /// nothing.
    pub fn release<Arg>(&mut self, guard: CallbackGuard<Arg>)
        requires
            old(self).wf(),
        ensures
            final(self).wf(),
            final(self).mouse_move() == if guard.channel() == Channel::MouseMove {
                old(self).mouse_move().released(guard.id())
            } else {
                old(self).mouse_move()
            },
            final(self).mouse_down() == if guard.channel() == Channel::MouseDown {
                old(self).mouse_down().released(guard.id())
            } else {
                old(self).mouse_down()
            },
            final(self).mouse_up() == if guard.channel() == Channel::MouseUp {
                old(self).mouse_up().released(guard.id())
            } else {
                old(self).mouse_up()
            },
    {
        match guard.get_channel() {
            Channel::MouseMove => {
                self.mouse_move.release(guard.get_id());
            },
            Channel::MouseDown => {
                self.mouse_down.release(guard.get_id());
            },
            Channel::MouseUp => {
                self.mouse_up.release(guard.get_id());
            },
            _ => {},
        }
    }

    /// Delivers "the pointer moved to `position`": drops the released
    /// callbacks of the mouse-move registry, then calls the others with
    /// `position`, in the order of their subscription. Returns the numbers of
    /// the callbacks it called, in that order.
    pub fn run_mouse_move(&mut self, position: MousePosition) -> (notified: Vec<u64>)
        requires
            old(self).wf(),
        ensures
            final(self).wf(),
            final(self).mouse_move() == old(self).mouse_move().pruned(),
            final(self).mouse_up() == old(self).mouse_up(),
            final(self).mouse_down() == old(self).mouse_down(),
            notified@ == old(self).mouse_move().live_ids(),
            all_called_with_position(final(self).mouse_move().entries, position),
    {
        self.mouse_move.prune();
        proof {
            lemma_pruned_accepts_positions(old(self).mouse_move());
        }
        let mut notified: Vec<u64> = Vec::new();
        let mut i: usize = 0;
        while i < self.mouse_move.len()
            invariant
                i <= self.mouse_move@.entries.len(),
                all_accept_positions(self.mouse_move@.entries),
                notified@ == self.mouse_move@.ids().take(i as int),
                forall|j: int|
                    0 <= j < i ==> call_ensures(
                        (#[trigger] self.mouse_move@.entries[j]).callback,
                        (position,),
                        (),
                    ),
            decreases self.mouse_move@.entries.len() - i,
        {
            let callback = self.mouse_move.callback_at(i);
            assert(accepts_every_position(self.mouse_move@.entries[i as int].callback));
            callback(position);
            notified.push(self.mouse_move.id_at(i));
            assert(self.mouse_move@.ids().take(i + 1) =~= self.mouse_move@.ids().take(
                i as int,
            ).push(self.mouse_move@.ids()[i as int]));
            i += 1;
        }
        assert(self.mouse_move@.ids().take(i as int) =~= self.mouse_move@.ids());
        notified
    }

    /// Delivers "`button` went down": drops the released callbacks of the
    /// mouse-down registry, then calls the others with `button`, in the order
    /// of their subscription. Returns the numbers of the callbacks it called,
    /// in that order.
    pub fn run_mouse_down(&mut self, button: MouseButton) -> (notified: Vec<u64>)
        requires
            old(self).wf(),
        ensures
            final(self).wf(),
            final(self).mouse_down() == old(self).mouse_down().pruned(),
            final(self).mouse_up() == old(self).mouse_up(),
            final(self).mouse_move() == old(self).mouse_move(),
            notified@ == old(self).mouse_down().live_ids(),
            all_called_with_button(final(self).mouse_down().entries, button),
    {
        self.mouse_down.prune();
        proof {
            lemma_pruned_accepts_buttons(old(self).mouse_down());
        }
        notify_buttons(&self.mouse_down, button)
    }

    /// Delivers "`button` came up": drops the released callbacks of the
    /// mouse-up registry, then calls the others with `button`, in the order of
    /// their subscription. Returns the numbers of the callbacks it called, in
    /// that order.
    pub fn run_mouse_up(&mut self, button: MouseButton) -> (notified: Vec<u64>)
        requires
            old(self).wf(),
        ensures
            final(self).wf(),
            final(self).mouse_up() == old(self).mouse_up().pruned(),
            final(self).mouse_down() == old(self).mouse_down(),
            final(self).mouse_move() == old(self).mouse_move(),
            notified@ == old(self).mouse_up().live_ids(),
            all_called_with_button(final(self).mouse_up().entries, button),
    {
        self.mouse_up.prune();
        proof {
            lemma_pruned_accepts_buttons(old(self).mouse_up());
        }
        notify_buttons(&self.mouse_up, button)
    }
}

/// Calls every callback of `registry` with `button`, first to last, and
/// returns their numbers.
fn notify_buttons<B: MouseButtonCallback>(registry: &CallbackRegistry<B>, button: MouseButton) -> (
    notified: Vec<u64>)
    requires
        all_accept_buttons(registry@.entries),
    ensures
        notified@ == registry@.ids(),
        all_called_with_button(registry@.entries, button),
{
    let mut notified: Vec<u64> = Vec::new();
    let mut i: usize = 0;
    while i < registry.len()
        invariant
            i <= registry@.entries.len(),
            all_accept_buttons(registry@.entries),
            notified@ == registry@.ids().take(i as int),
            forall|j: int|
                0 <= j < i ==> call_ensures(
                    (#[trigger] registry@.entries[j]).callback,
                    (button,),
                    (),
                ),
        decreases registry@.entries.len() - i,
    {
        let callback = registry.callback_at(i);
        assert(accepts_every_button(registry@.entries[i as int].callback));
        callback(button);
        notified.push(registry.id_at(i));
        assert(registry@.ids().take(i + 1) =~= registry@.ids().take(i as int).push(
            registry@.ids()[i as int],
        ));
        i += 1;
    }
    assert(registry@.ids().take(i as int) =~= registry@.ids());
    notified
}

/// Pruning leaves only mouse-move callbacks that were held before.
pub proof fn lemma_pruned_accepts_positions<M: MouseMoveCallback>(s: RegistryState<M>)
    requires
        all_accept_positions(s.entries),
    ensures
        all_accept_positions(s.pruned().entries),
{
    assert forall|i: int| 0 <= i < s.pruned().entries.len() implies accepts_every_position(
        (#[trigger] s.pruned().entries[i]).callback,
    ) by {
        lemma_pruned_from(s, i);
    }
}

/// Pruning leaves only mouse-button callbacks that were held before.
pub proof fn lemma_pruned_accepts_buttons<B: MouseButtonCallback>(s: RegistryState<B>)
    requires
        all_accept_buttons(s.entries),
    ensures
        all_accept_buttons(s.pruned().entries),
{
    assert forall|i: int| 0 <= i < s.pruned().entries.len() implies accepts_every_button(
        (#[trigger] s.pruned().entries[i]).callback,
    ) by {
        lemma_pruned_from(s, i);
    }
}

} // verus!
