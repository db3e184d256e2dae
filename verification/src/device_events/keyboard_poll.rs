//! One polling cycle of the keyboard: from two snapshots of the keys that
//! are down to the keys that went down and came up, delivered to their
//! callbacks.

use crate::device_events::callback::keyboard_callback::{
    all_called_with_key,
    KeyboardCallback,
    KeyboardCallbacks,
};
use crate::device_events::callback::registry::lemma_pruned_twice;
use crate::device_events::notice::Notice;
use crate::keymap::{contains_key, Keycode};
use vstd::prelude::*;

verus! {

/// A change of the keyboard between two polls.
#[derive(Debug, Clone, Copy, PartialEq, Eq, Structural)]
pub enum KeyboardEvent {
    /// The key was up at the earlier poll and is down now.
    KeyDown(Keycode),
    /// The key was down at the earlier poll and is up now.
    KeyUp(Keycode),
}

/// The predicate "does not occur in `others`".
pub open spec fn absent_from(others: Seq<Keycode>) -> spec_fn(Keycode) -> bool {
    |key: Keycode| !others.contains(key)
}

/// The keys that are down in `cur` and were not in `prev`, in the order of
/// `cur`.
pub open spec fn keys_pressed(prev: Seq<Keycode>, cur: Seq<Keycode>) -> Seq<Keycode> {
    cur.filter(absent_from(prev))
}

/// The keys that were down in `prev` and are not in `cur`, in the order of
/// `prev`.
pub open spec fn keys_released(prev: Seq<Keycode>, cur: Seq<Keycode>) -> Seq<Keycode> {
    prev.filter(absent_from(cur))
}

/// The events of one keyboard cycle: every key that went down, then every
/// key that came up.
pub open spec fn keyboard_events(prev: Seq<Keycode>, cur: Seq<Keycode>) -> Seq<KeyboardEvent> {
    keys_pressed(prev, cur).map_values(|key: Keycode| KeyboardEvent::KeyDown(key))
        + keys_released(prev, cur).map_values(|key: Keycode| KeyboardEvent::KeyUp(key))
}

/// The keys of `keys` that do not occur in `others`, in the order of `keys`.
pub fn keys_absent(keys: &Vec<Keycode>, others: &Vec<Keycode>) -> (absent: Vec<Keycode>)
    ensures
        absent@ == keys@.filter(absent_from(others@)),
{
    let mut absent: Vec<Keycode> = Vec::new();
    let mut i: usize = 0;
    proof {
        reveal(Seq::filter);
        assert(keys@.take(0) =~= Seq::<Keycode>::empty());
    }
    while i < keys.len()
        invariant
            i <= keys.len(),
            absent@ == keys@.take(i as int).filter(absent_from(others@)),
        decreases keys.len() - i,
    {
        let key = keys[i];
        proof {
            keys@.take(i as int).lemma_filter_push(key, absent_from(others@));
            assert(keys@.take(i + 1) =~= keys@.take(i as int).push(key));
        }
        if !contains_key(others, key) {
            absent.push(key);
        }
        i += 1;
    }
    assert(keys@.take(i as int) =~= keys@);
    absent
}

/// The numbers of the callbacks that a keyboard event is delivered to.
pub open spec fn key_event_listeners<K: KeyboardCallback>(
    callbacks: KeyboardCallbacks<K>,
    event: KeyboardEvent,
) -> Seq<u64> {
    match event {
        KeyboardEvent::KeyDown(_) => callbacks.key_down().live_ids(),
        KeyboardEvent::KeyUp(_) => callbacks.key_up().live_ids(),
    }
}

/// Whether `event` has been delivered: every callback that was subscribed to
/// its channel in `callbacks` and not released has been called with the key
/// of the event.
pub open spec fn key_event_delivered<K: KeyboardCallback>(
    callbacks: KeyboardCallbacks<K>,
    event: KeyboardEvent,
) -> bool {
    match event {
        KeyboardEvent::KeyDown(key) => all_called_with_key(
            callbacks.key_down().pruned().entries,
            key,
        ),
        KeyboardEvent::KeyUp(key) => all_called_with_key(callbacks.key_up().pruned().entries, key),
    }
}

/// What one keyboard cycle does, from the snapshot `prev` to the snapshot
/// `cur`: `notices` holds the events of the cycle in order, each with the
/// callbacks that were subscribed to its channel when the cycle began and not
/// released; and a registry that had an event delivered has dropped its
/// released entries, while one that had none is unchanged.
pub open spec fn keyboard_cycle_post<K: KeyboardCallback>(
    before: KeyboardCallbacks<K>,
    after: KeyboardCallbacks<K>,
    prev: Seq<Keycode>,
    cur: Seq<Keycode>,
    notices: Seq<Notice<KeyboardEvent>>,
) -> bool {
    &&& notices.len() == keyboard_events(prev, cur).len()
    &&& forall|i: int|
        0 <= i < notices.len() ==> {
            &&& (#[trigger] notices[i]).event == keyboard_events(prev, cur)[i]
            &&& notices[i].notified@ == key_event_listeners(before, notices[i].event)
            &&& key_event_delivered(before, notices[i].event)
        }
    &&& after.key_down() == if keys_pressed(prev, cur).len() > 0 {
        before.key_down().pruned()
    } else {
        before.key_down()
    }
    &&& after.key_up() == if keys_released(prev, cur).len() > 0 {
        before.key_up().pruned()
    } else {
        before.key_up()
    }
}

/// One cycle of the keyboard poll. `keys` are the keys that are down now,
/// `prev_keys` those that were down at the cycle before. Every key that went
/// down is delivered to the key-down callbacks, then every key that came up
/// to the key-up callbacks; `keys` becomes the snapshot for the next cycle.
/// Returns one notice for each event, in the order of delivery.
pub fn keyboard_cycle<K: KeyboardCallback>(
    callbacks: &mut KeyboardCallbacks<K>,
    prev_keys: &mut Vec<Keycode>,
    keys: Vec<Keycode>,
) -> (notices: Vec<Notice<KeyboardEvent>>)
    requires
        old(callbacks).wf(),
    ensures
        final(callbacks).wf(),
        final(prev_keys)@ == keys@,
        keyboard_cycle_post(*old(callbacks), *final(callbacks), old(prev_keys)@, keys@, notices@),
{
    let ghost before = *callbacks;
    let ghost events = keyboard_events(prev_keys@, keys@);
    let pressed = keys_absent(&keys, prev_keys);
    let released = keys_absent(prev_keys, &keys);
    let mut notices: Vec<Notice<KeyboardEvent>> = Vec::new();
    let mut i: usize = 0;
    while i < pressed.len()
        invariant
            i <= pressed.len(),
            callbacks.wf(),
            before.wf(),
            callbacks.key_up() == before.key_up(),
            callbacks.key_down() == if i > 0 {
                before.key_down().pruned()
            } else {
                before.key_down()
            },
            notices@.len() == i,
            forall|j: int|
                0 <= j < i ==> {
                    &&& (#[trigger] notices@[j]).event == KeyboardEvent::KeyDown(pressed@[j])
                    &&& notices@[j].notified@ == before.key_down().live_ids()
                    &&& key_event_delivered(before, notices@[j].event)
                },
        decreases pressed.len() - i,
    {
        let key = pressed[i];
        proof {
            lemma_pruned_twice(before.key_down());
        }
        let notified = callbacks.run_key_down(&key);
        notices.push(Notice { event: KeyboardEvent::KeyDown(key), notified });
        i += 1;
    }
    let mut j: usize = 0;
    while j < released.len()
        invariant
            j <= released.len(),
            callbacks.wf(),
            before.wf(),
            callbacks.key_down() == if pressed@.len() > 0 {
                before.key_down().pruned()
            } else {
                before.key_down()
            },
            callbacks.key_up() == if j > 0 {
                before.key_up().pruned()
            } else {
                before.key_up()
            },
            notices@.len() == pressed@.len() + j,
            forall|k: int|
                0 <= k < pressed@.len() ==> {
                    &&& (#[trigger] notices@[k]).event == KeyboardEvent::KeyDown(pressed@[k])
                    &&& notices@[k].notified@ == before.key_down().live_ids()
                    &&& key_event_delivered(before, notices@[k].event)
                },
            forall|k: int|
                0 <= k < j ==> {
                    &&& (#[trigger] notices@[pressed@.len() + k]).event == KeyboardEvent::KeyUp(
                        released@[k],
                    )
                    &&& notices@[pressed@.len() + k].notified@ == before.key_up().live_ids()
                    &&& key_event_delivered(before, notices@[pressed@.len() + k].event)
                },
        decreases released.len() - j,
    {
        let key = released[j];
        proof {
            lemma_pruned_twice(before.key_up());
        }
        let notified = callbacks.run_key_up(&key);
        notices.push(Notice { event: KeyboardEvent::KeyUp(key), notified });
        j += 1;
    }
    *prev_keys = keys;
    proof {
        assert forall|k: int| 0 <= k < notices@.len() implies {
            &&& (#[trigger] notices@[k]).event == events[k]
            &&& notices@[k].notified@ == key_event_listeners(before, notices@[k].event)
            &&& key_event_delivered(before, notices@[k].event)
        } by {
            if k >= pressed@.len() {
                let d = k - pressed@.len();
                assert(notices@[pressed@.len() + d].event == KeyboardEvent::KeyUp(released@[d]));
            }
        }
    }
    notices
}

/// A key is among `keys` without those of `others` exactly if it is among
/// `keys` and not among `others`.
pub proof fn lemma_absent_member(keys: Seq<Keycode>, others: Seq<Keycode>, key: Keycode)
    ensures
        keys.filter(absent_from(others)).contains(key) <==> keys.contains(key) && !others.contains(
            key,
        ),
{
    let p = absent_from(others);
    let kept = keys.filter(p);
    if kept.contains(key) {
        keys.lemma_filter_contains_rev(p, key);
        let i = choose|i: int| 0 <= i < kept.len() && kept[i] == key;
        keys.lemma_filter_pred(p, i);
    }
    if keys.contains(key) && !others.contains(key) {
        let i = choose|i: int| 0 <= i < keys.len() && keys[i] == key;
        keys.lemma_filter_contains(p, i);
    }
}

/// Edge triggering. Between two consecutive snapshots of the keyboard, the
/// keys that give a key-down event are those of the later snapshot without
/// those of the earlier, the keys that give a key-up event are those of the
/// earlier without those of the later, and two snapshots that hold the same
/// keys give no event at all.
pub proof fn lemma_edge_triggering(prev: Seq<Keycode>, cur: Seq<Keycode>)
    ensures
        keys_pressed(prev, cur).to_set() == cur.to_set().difference(prev.to_set()),
        keys_released(prev, cur).to_set() == prev.to_set().difference(cur.to_set()),
        forall|key: Keycode|
            keyboard_events(prev, cur).contains(KeyboardEvent::KeyDown(key)) <==> cur.contains(key)
                && !prev.contains(key),
        forall|key: Keycode|
            keyboard_events(prev, cur).contains(KeyboardEvent::KeyUp(key)) <==> prev.contains(key)
                && !cur.contains(key),
        prev.to_set() == cur.to_set() ==> keyboard_events(prev, cur).len() == 0,
{
    let pressed = keys_pressed(prev, cur);
    let released = keys_released(prev, cur);
    let events = keyboard_events(prev, cur);
    assert forall|key: Keycode| #[trigger]
        pressed.to_set().contains(key) <==> cur.to_set().difference(prev.to_set()).contains(
            key,
        ) by {
        lemma_absent_member(cur, prev, key);
    }
    assert(pressed.to_set() =~= cur.to_set().difference(prev.to_set()));
    assert forall|key: Keycode| #[trigger]
        released.to_set().contains(key) <==> prev.to_set().difference(cur.to_set()).contains(
            key,
        ) by {
        lemma_absent_member(prev, cur, key);
    }
    assert(released.to_set() =~= prev.to_set().difference(cur.to_set()));
    assert forall|key: Keycode|
        events.contains(KeyboardEvent::KeyDown(key)) <==> cur.contains(key) && !prev.contains(
            key,
        ) by {
        lemma_absent_member(cur, prev, key);
        if events.contains(KeyboardEvent::KeyDown(key)) {
            let i = choose|i: int| 0 <= i < events.len() && events[i] == KeyboardEvent::KeyDown(key);
            assert(i < pressed.len());
            assert(pressed[i] == key);
        }
        if pressed.contains(key) {
            let i = choose|i: int| 0 <= i < pressed.len() && pressed[i] == key;
            assert(events[i] == KeyboardEvent::KeyDown(key));
        }
    }
    assert forall|key: Keycode|
        events.contains(KeyboardEvent::KeyUp(key)) <==> prev.contains(key) && !cur.contains(
            key,
        ) by {
        lemma_absent_member(prev, cur, key);
        if events.contains(KeyboardEvent::KeyUp(key)) {
            let i = choose|i: int| 0 <= i < events.len() && events[i] == KeyboardEvent::KeyUp(key);
            assert(i >= pressed.len());
            assert(released[i - pressed.len()] == key);
        }
        if released.contains(key) {
            let i = choose|i: int| 0 <= i < released.len() && released[i] == key;
            assert(events[pressed.len() + i] == KeyboardEvent::KeyUp(key));
        }
    }
    if prev.to_set() == cur.to_set() {
        if pressed.len() > 0 {
            assert(pressed.to_set().contains(pressed[0]));
        }
        if released.len() > 0 {
            assert(released.to_set().contains(released[0]));
        }
    }
}

/// The keys of a list that names no key twice, without those of another
/// list, still name no key twice.
pub proof fn lemma_absent_no_duplicates(keys: Seq<Keycode>, others: Seq<Keycode>)
    requires
        keys.no_duplicates(),
    ensures
        keys.filter(absent_from(others)).no_duplicates(),
    decreases keys.len(),
{
    reveal(Seq::filter);
    if keys.len() > 0 {
        let rest = keys.drop_last();
        lemma_absent_no_duplicates(rest, others);
        let kept = rest.filter(absent_from(others));
        if kept.contains(keys.last()) {
            rest.lemma_filter_contains_rev(absent_from(others), keys.last());
            let i = choose|i: int| 0 <= i < rest.len() && rest[i] == keys.last();
            assert(keys[i] == keys[keys.len() - 1]);
        }
    }
}

/// Where neither snapshot names a key twice, a cycle gives no event twice:
/// each key that went down has exactly one key-down event, each key that
/// came up exactly one key-up event.
pub proof fn lemma_one_event_for_each_key(prev: Seq<Keycode>, cur: Seq<Keycode>)
    requires
        prev.no_duplicates(),
        cur.no_duplicates(),
    ensures
        keys_pressed(prev, cur).no_duplicates(),
        keys_released(prev, cur).no_duplicates(),
        keyboard_events(prev, cur).no_duplicates(),
{
    lemma_absent_no_duplicates(cur, prev);
    lemma_absent_no_duplicates(prev, cur);
}

} // verus!
