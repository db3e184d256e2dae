//! Keyboard callbacks.

use crate::device_events::callback::callback_guard::{CallbackGuard, Channel};
use crate::device_events::callback::registry::{CallbackRegistry, RegistryState, Subscription};
use crate::device_events::callback::registry::lemma_pruned_from;
use crate::keymap::Keycode;
use vstd::prelude::*;

verus! {

/// Keyboard callback.
pub trait KeyboardCallback: Fn(&Keycode) + Sync + Send + 'static {

}

impl<F: Fn(&Keycode) + Sync + Send + 'static> KeyboardCallback for F {

}

/// Whether `callback` may be called with every key.
pub open spec fn accepts_every_key<F: KeyboardCallback>(callback: F) -> bool {
    forall|key: Keycode| call_requires(callback, (&key,))
}

/// Whether every callback among `entries` may be called with every key.
pub open spec fn all_accept_keys<F: KeyboardCallback>(entries: Seq<Subscription<F>>) -> bool {
    forall|i: int| 0 <= i < entries.len() ==> accepts_every_key((#[trigger] entries[i]).callback)
}

/// Whether every callback among `entries` has been called with `key` and has
/// returned: what each of them ensures of such a call holds.
pub open spec fn all_called_with_key<F: KeyboardCallback>(
    entries: Seq<Subscription<F>>,
    key: Keycode,
) -> bool {
    forall|i: int|
        0 <= i < entries.len() ==> call_ensures((#[trigger] entries[i]).callback, (&key,), ())
}

/// Keyboard callbacks: one registry for the keys that go down, one for the
/// keys that come up.
pub struct KeyboardCallbacks<F> {
    key_down: CallbackRegistry<F>,
    key_up: CallbackRegistry<F>,
}

impl<F: KeyboardCallback> Default for KeyboardCallbacks<F> {
    fn default() -> (r: Self)
        ensures
            r.wf(),
            r.key_down() == RegistryState::<F>::empty(),
            r.key_up() == RegistryState::<F>::empty(),
    {
        KeyboardCallbacks::new()
    }
}

impl<F: KeyboardCallback> KeyboardCallbacks<F> {
    /// The state of the key-down registry.
    pub closed spec fn key_down(&self) -> RegistryState<F> {
        self.key_down@
    }

    /// The state of the key-up registry.
    pub closed spec fn key_up(&self) -> RegistryState<F> {
        self.key_up@
    }

    /// Both registries are well formed and hold only callbacks that may be
    /// called with every key.
    pub open spec fn wf(&self) -> bool {
        &&& self.key_down().wf()
        &&& self.key_up().wf()
        &&& all_accept_keys(self.key_down().entries)
        &&& all_accept_keys(self.key_up().entries)
    }

    /// Two registries without subscribers.
    pub fn new() -> (r: Self)
        ensures
            r.wf(),
            r.key_down() == RegistryState::<F>::empty(),
            r.key_up() == RegistryState::<F>::empty(),
    {
        KeyboardCallbacks { key_down: CallbackRegistry::new(), key_up: CallbackRegistry::new() }
    }

    /// Whether the key-up registry can take no further subscriber.
    pub fn key_up_is_full(&self) -> (full: bool)
        ensures
            full == (self.key_up().next_id >= u64::MAX),
    {
        self.key_up.is_full()
    }

    /// Whether the key-down registry can take no further subscriber.
    pub fn key_down_is_full(&self) -> (full: bool)
        ensures
            full == (self.key_down().next_id >= u64::MAX),
    {
        self.key_down.is_full()
    }

    /// Subscribes `callback` to the keys that come up.
    pub fn push_key_up(&mut self, callback: F) -> (guard: CallbackGuard<Keycode>)
        requires
            old(self).wf(),
            old(self).key_up().next_id < u64::MAX,
            accepts_every_key(callback),
        ensures
            final(self).wf(),
            final(self).key_up() == old(self).key_up().subscribed(callback),
            final(self).key_down() == old(self).key_down(),
            guard.channel() == Channel::KeyUp,
            guard.id() == old(self).key_up().next_id,
    {
        let id = self.key_up.subscribe(callback);
        CallbackGuard::new(Channel::KeyUp, id)
    }

    /// Subscribes `callback` to the keys that go down.
    pub fn push_key_down(&mut self, callback: F) -> (guard: CallbackGuard<Keycode>)
        requires
            old(self).wf(),
            old(self).key_down().next_id < u64::MAX,
            accepts_every_key(callback),
        ensures
            final(self).wf(),
            final(self).key_down() == old(self).key_down().subscribed(callback),
            final(self).key_up() == old(self).key_up(),
            guard.channel() == Channel::KeyDown,
            guard.id() == old(self).key_down().next_id,
    {
        let id = self.key_down.subscribe(callback);
        CallbackGuard::new(Channel::KeyDown, id)
    }

    /// Gives up `guard`: the callback it stands for is released in the
    /// registry of the guard's channel. A guard of a mouse channel changes
    /// nothing.
    pub fn release<Arg>(&mut self, guard: CallbackGuard<Arg>)
        requires
            old(self).wf(),
        ensures
            final(self).wf(),
            final(self).key_down() == if guard.channel() == Channel::KeyDown {
                old(self).key_down().released(guard.id())
            } else {
                old(self).key_down()
            },
            final(self).key_up() == if guard.channel() == Channel::KeyUp {
                old(self).key_up().released(guard.id())
            } else {
                old(self).key_up()
            },
    {
        match guard.get_channel() {
            Channel::KeyDown => {
                self.key_down.release(guard.get_id());
            },
            Channel::KeyUp => {
                self.key_up.release(guard.get_id());
            },
            _ => {},
        }
    }

    /// Delivers "`key` came up": drops the released callbacks of the key-up
    /// registry, then calls the others with `key`, in the order of their
    /// subscription. Returns the numbers of the callbacks it called, in that
    /// order.
    pub fn run_key_up(&mut self, key: &Keycode) -> (notified: Vec<u64>)
        requires
            old(self).wf(),
        ensures
            final(self).wf(),
            final(self).key_up() == old(self).key_up().pruned(),
            final(self).key_down() == old(self).key_down(),
            notified@ == old(self).key_up().live_ids(),
            all_called_with_key(final(self).key_up().entries, *key),
    {
        self.key_up.prune();
        proof {
            lemma_pruned_accepts(old(self).key_up());
        }
        notify_keys(&self.key_up, key)
    }

    /// Delivers "`key` went down": drops the released callbacks of the
    /// key-down registry, then calls the others with `key`, in the order of
    /// their subscription. Returns the numbers of the callbacks it called, in
    /// that order.
    pub fn run_key_down(&mut self, key: &Keycode) -> (notified: Vec<u64>)
        requires
            old(self).wf(),
        ensures
            final(self).wf(),
            final(self).key_down() == old(self).key_down().pruned(),
            final(self).key_up() == old(self).key_up(),
            notified@ == old(self).key_down().live_ids(),
            all_called_with_key(final(self).key_down().entries, *key),
    {
        self.key_down.prune();
        proof {
            lemma_pruned_accepts(old(self).key_down());
        }
        notify_keys(&self.key_down, key)
    }
}

/// Calls every callback of `registry` with `key`, first to last, and returns
/// their numbers.
fn notify_keys<F: KeyboardCallback>(registry: &CallbackRegistry<F>, key: &Keycode) -> (notified:
    Vec<u64>)
    requires
        all_accept_keys(registry@.entries),
    ensures
        notified@ == registry@.ids(),
        all_called_with_key(registry@.entries, *key),
{
    let mut notified: Vec<u64> = Vec::new();
    let mut i: usize = 0;
    while i < registry.len()
        invariant
            i <= registry@.entries.len(),
            all_accept_keys(registry@.entries),
            notified@ == registry@.ids().take(i as int),
            forall|j: int|
                0 <= j < i ==> call_ensures(
                    (#[trigger] registry@.entries[j]).callback,
                    (key,),
                    (),
                ),
        decreases registry@.entries.len() - i,
    {
        let callback = registry.callback_at(i);
        assert(accepts_every_key(registry@.entries[i as int].callback));
        callback(key);
        notified.push(registry.id_at(i));
        assert(registry@.ids().take(i + 1) =~= registry@.ids().take(i as int).push(
            registry@.ids()[i as int],
        ));
        i += 1;
    }
    assert(registry@.ids().take(i as int) =~= registry@.ids());
    notified
}

/// Pruning leaves only callbacks that were held before.
pub proof fn lemma_pruned_accepts<F: KeyboardCallback>(s: RegistryState<F>)
    requires
        all_accept_keys(s.entries),
    ensures
        all_accept_keys(s.pruned().entries),
{
    assert forall|i: int| 0 <= i < s.pruned().entries.len() implies accepts_every_key(
        (#[trigger] s.pruned().entries[i]).callback,
    ) by {
        lemma_pruned_from(s, i);
    }
}

} // verus!
