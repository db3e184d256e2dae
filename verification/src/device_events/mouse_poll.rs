//! One polling cycle of the mouse: from two snapshots of its state to the
//! buttons that went down and came up and the move of the pointer,
//! delivered to their callbacks.

use crate::device_events::callback::mouse_callback::{
    all_called_with_button,
    all_called_with_position,
    MouseButtonCallback,
    MouseCallbacks,
    MouseMoveCallback,
};
use crate::device_events::callback::registry::lemma_pruned_twice;
use crate::device_events::notice::Notice;
use crate::mouse_state::{MouseButton, MousePosition, MouseState};
use vstd::prelude::*;

verus! {

/// A change of the mouse between two polls.
#[derive(Debug, Clone, Copy, PartialEq, Eq)]
pub enum MouseEvent {
    /// The button was up at the earlier poll and is down now.
    ButtonDown(MouseButton),
    /// The button was down at the earlier poll and is up now.
    ButtonUp(MouseButton),
    /// The pointer is at this position now, and was elsewhere at the earlier
    /// poll.
    Move(MousePosition),
}

/// The button events among the first `n` buttons, by rising index: a button
/// that is down now and was up before went down, one that is up now and was
/// down before came up, and any other gives no event.
pub open spec fn button_events(prev: Seq<bool>, cur: Seq<bool>, n: nat) -> Seq<MouseEvent>
    decreases n,
{
    if n == 0 {
        Seq::empty()
    } else {
        let b = (n - 1) as nat;
        let before = button_events(prev, cur, b);
        if !prev[b as int] && cur[b as int] {
            before.push(MouseEvent::ButtonDown(b as usize))
        } else if prev[b as int] && !cur[b as int] {
            before.push(MouseEvent::ButtonUp(b as usize))
        } else {
            before
        }
    }
}

/// The events of one mouse cycle: the button events of the five buttons,
/// then one move if the pointer is not where it was.
pub open spec fn mouse_events(prev: MouseState, cur: MouseState) -> Seq<MouseEvent> {
    let buttons = button_events(prev.button_pressed@, cur.button_pressed@, 5);
    if cur.coords != prev.coords {
        buttons.push(MouseEvent::Move(cur.coords))
    } else {
        buttons
    }
}

/// Whether one of the first `n` buttons went down between `prev` and `cur`.
pub open spec fn pressed_below(prev: Seq<bool>, cur: Seq<bool>, n: nat) -> bool {
    exists|b: int| 0 <= b < n && !#[trigger] prev[b] && cur[b]
}

/// Whether one of the first `n` buttons came up between `prev` and `cur`.
pub open spec fn released_below(prev: Seq<bool>, cur: Seq<bool>, n: nat) -> bool {
    exists|b: int| 0 <= b < n && #[trigger] prev[b] && !cur[b]
}

/// The numbers of the callbacks that a mouse event is delivered to.
pub open spec fn mouse_event_listeners<M: MouseMoveCallback, B: MouseButtonCallback>(
    callbacks: MouseCallbacks<M, B>,
    event: MouseEvent,
) -> Seq<u64> {
    match event {
        MouseEvent::ButtonDown(_) => callbacks.mouse_down().live_ids(),
        MouseEvent::ButtonUp(_) => callbacks.mouse_up().live_ids(),
        MouseEvent::Move(_) => callbacks.mouse_move().live_ids(),
    }
}

/// Whether `event` has been delivered: every callback that was subscribed to
/// its channel in `callbacks` and not released has been called with the
/// button or the position of the event.
pub open spec fn mouse_event_delivered<M: MouseMoveCallback, B: MouseButtonCallback>(
    callbacks: MouseCallbacks<M, B>,
    event: MouseEvent,
) -> bool {
    match event {
        MouseEvent::ButtonDown(button) => all_called_with_button(
            callbacks.mouse_down().pruned().entries,
            button,
        ),
        MouseEvent::ButtonUp(button) => all_called_with_button(
            callbacks.mouse_up().pruned().entries,
            button,
        ),
        MouseEvent::Move(position) => all_called_with_position(
            callbacks.mouse_move().pruned().entries,
            position,
        ),
    }
}

/// What one mouse cycle does, from the snapshot `prev` to the snapshot `cur`:
/// `notices` holds the events of the cycle in order, each with the callbacks
/// that were subscribed to its channel when the cycle began and not released;
/// and a registry that had an event delivered has dropped its released
/// entries, while one that had none is unchanged.
pub open spec fn mouse_cycle_post<M: MouseMoveCallback, B: MouseButtonCallback>(
    before: MouseCallbacks<M, B>,
    after: MouseCallbacks<M, B>,
    prev: MouseState,
    cur: MouseState,
    notices: Seq<Notice<MouseEvent>>,
) -> bool {
    &&& notices.len() == mouse_events(prev, cur).len()
    &&& forall|i: int|
        0 <= i < notices.len() ==> {
            &&& (#[trigger] notices[i]).event == mouse_events(prev, cur)[i]
            &&& notices[i].notified@ == mouse_event_listeners(before, notices[i].event)
            &&& mouse_event_delivered(before, notices[i].event)
        }
    &&& after.mouse_down() == if pressed_below(prev.button_pressed@, cur.button_pressed@, 5) {
        before.mouse_down().pruned()
    } else {
        before.mouse_down()
    }
    &&& after.mouse_up() == if released_below(prev.button_pressed@, cur.button_pressed@, 5) {
        before.mouse_up().pruned()
    } else {
        before.mouse_up()
    }
    &&& after.mouse_move() == if cur.coords != prev.coords {
        before.mouse_move().pruned()
    } else {
        before.mouse_move()
    }
}

/// One cycle of the mouse poll. `current` is the state of the mouse now,
/// `previous` its state at the cycle before. For each of the five buttons,
/// by rising index, a button that went down is delivered to the mouse-down
/// callbacks and one that came up to the mouse-up callbacks; then, if the
/// pointer is not where it was, its position is delivered to the mouse-move
/// callbacks. `current` becomes the snapshot for the next cycle. Returns one
/// notice for each event, in the order of delivery.
pub fn mouse_cycle<M: MouseMoveCallback, B: MouseButtonCallback>(
    callbacks: &mut MouseCallbacks<M, B>,
    previous: &mut MouseState,
    current: MouseState,
) -> (notices: Vec<Notice<MouseEvent>>)
    requires
        old(callbacks).wf(),
    ensures
        final(callbacks).wf(),
        *final(previous) == current,
        mouse_cycle_post(*old(callbacks), *final(callbacks), *old(previous), current, notices@),
{
    let ghost before = *callbacks;
    let ghost prev = previous.button_pressed@;
    let ghost cur = current.button_pressed@;
    let mut notices: Vec<Notice<MouseEvent>> = Vec::new();
    let mut index: usize = 0;
    while index < 5
        invariant
            index <= 5,
            prev == previous.button_pressed@,
            cur == current.button_pressed@,
            *previous == *old(previous),
            callbacks.wf(),
            callbacks.mouse_move() == before.mouse_move(),
            callbacks.mouse_down() == if pressed_below(prev, cur, index as nat) {
                before.mouse_down().pruned()
            } else {
                before.mouse_down()
            },
            callbacks.mouse_up() == if released_below(prev, cur, index as nat) {
                before.mouse_up().pruned()
            } else {
                before.mouse_up()
            },
            notices@.len() == button_events(prev, cur, index as nat).len(),
            forall|i: int|
                0 <= i < notices@.len() ==> {
                    &&& (#[trigger] notices@[i]).event == button_events(prev, cur, index as nat)[i]
                    &&& notices@[i].notified@ == mouse_event_listeners(before, notices@[i].event)
                    &&& mouse_event_delivered(before, notices@[i].event)
                },
        decreases 5 - index,
    {
        let previous_state = previous.button_pressed[index];
        let current_state = current.button_pressed[index];
        proof {
            lemma_pruned_twice(before.mouse_down());
            lemma_pruned_twice(before.mouse_up());
        }
        if !previous_state && current_state {
            let notified = callbacks.run_mouse_down(index);
            notices.push(Notice { event: MouseEvent::ButtonDown(index), notified });
            assert(!prev[index as int] && cur[index as int]);
        } else if previous_state && !current_state {
            let notified = callbacks.run_mouse_up(index);
            notices.push(Notice { event: MouseEvent::ButtonUp(index), notified });
            assert(prev[index as int] && !cur[index as int]);
        }
        index += 1;
    }
    if current.coords.0 != previous.coords.0 || current.coords.1 != previous.coords.1 {
        let notified = callbacks.run_mouse_move(current.coords);
        notices.push(Notice { event: MouseEvent::Move(current.coords), notified });
    }
    *previous = current;
    notices
}

/// Among the first `n` buttons, button `b` gives a button-down event exactly
/// if it is one of them, was up and is down; a button-up event exactly if it
/// is one of them, was down and is up; and never both.
pub proof fn lemma_button_event_of(prev: Seq<bool>, cur: Seq<bool>, n: nat, b: MouseButton)
    requires
        n <= 5,
    ensures
        button_events(prev, cur, n).contains(MouseEvent::ButtonDown(b)) <==> b < n
            && !prev[b as int] && cur[b as int],
        button_events(prev, cur, n).contains(MouseEvent::ButtonUp(b)) <==> b < n && prev[b as int]
            && !cur[b as int],
    decreases n,
{
    if n > 0 {
        let m = (n - 1) as nat;
        lemma_button_event_of(prev, cur, m, b);
        let before = button_events(prev, cur, m);
        let all = button_events(prev, cur, n);
        let down = MouseEvent::ButtonDown(b);
        let up = MouseEvent::ButtonUp(b);
        if all.contains(down) {
            let i = choose|i: int| 0 <= i < all.len() && all[i] == down;
            if i < before.len() {
                assert(before[i] == down);
                assert(before.contains(down));
            }
        }
        if all.contains(up) {
            let i = choose|i: int| 0 <= i < all.len() && all[i] == up;
            if i < before.len() {
                assert(before[i] == up);
                assert(before.contains(up));
            }
        }
        if before.contains(down) {
            let i = choose|i: int| 0 <= i < before.len() && before[i] == down;
            assert(all[i] == down);
        }
        if before.contains(up) {
            let i = choose|i: int| 0 <= i < before.len() && before[i] == up;
            assert(all[i] == up);
        }
        if b == m && !prev[b as int] && cur[b as int] {
            assert(all[all.len() - 1] == down);
        }
        if b == m && prev[b as int] && !cur[b as int] {
            assert(all[all.len() - 1] == up);
        }
    }
}

/// The button events among the first `n` buttons hold no move, no event
/// twice, and nothing at all where no button changed.
pub proof fn lemma_button_events(prev: Seq<bool>, cur: Seq<bool>, n: nat)
    requires
        n <= 5,
    ensures
        button_events(prev, cur, n).len() <= n,
        forall|i: int|
            0 <= i < button_events(prev, cur, n).len() ==> !(#[trigger] button_events(
                prev,
                cur,
                n,
            )[i] is Move),
        (forall|b: int| 0 <= b < n ==> prev[b] == cur[b]) ==> button_events(prev, cur, n).len()
            == 0,
        button_events(prev, cur, n).no_duplicates(),
    decreases n,
{
    if n > 0 {
        let m = (n - 1) as nat;
        lemma_button_events(prev, cur, m);
        lemma_button_event_of(prev, cur, m, m as usize);
        let before = button_events(prev, cur, m);
        assert forall|i: int| 0 <= i < before.len() implies before[i] != MouseEvent::ButtonDown(
            m as usize,
        ) && before[i] != MouseEvent::ButtonUp(m as usize) by {
            if before[i] == MouseEvent::ButtonDown(m as usize) {
                assert(before.contains(MouseEvent::ButtonDown(m as usize)));
            }
            if before[i] == MouseEvent::ButtonUp(m as usize) {
                assert(before.contains(MouseEvent::ButtonUp(m as usize)));
            }
        }
    }
}

/// Idempotent position dispatch. A cycle in which the pointer has not moved
/// gives no move event, whatever the buttons did; and a cycle in which it
/// has moved gives exactly one, after every button event of the cycle.
pub proof fn lemma_move_only_on_motion(prev: MouseState, cur: MouseState)
    ensures
        cur.coords == prev.coords ==> forall|i: int|
            0 <= i < mouse_events(prev, cur).len() ==> !(#[trigger] mouse_events(prev, cur)[i] is Move),
        cur.coords != prev.coords ==> {
            &&& mouse_events(prev, cur).len() > 0
            &&& mouse_events(prev, cur).last() == MouseEvent::Move(cur.coords)
            &&& forall|i: int|
                0 <= i < mouse_events(prev, cur).len() - 1 ==> !(#[trigger] mouse_events(
                    prev,
                    cur,
                )[i] is Move)
        },
{
    let buttons = button_events(prev.button_pressed@, cur.button_pressed@, 5);
    let all = mouse_events(prev, cur);
    lemma_button_events(prev.button_pressed@, cur.button_pressed@, 5);
    assert forall|i: int| 0 <= i < buttons.len() implies all[i] == buttons[i] by {}
}

/// Which button events a mouse cycle gives: button `b` went down exactly if
/// it is one of the five, was up and is down; it came up exactly if it is
/// one of the five, was down and is up; and where no button changed, the
/// cycle gives no button event.
pub proof fn lemma_mouse_button_events(prev: MouseState, cur: MouseState, b: MouseButton)
    ensures
        mouse_events(prev, cur).contains(MouseEvent::ButtonDown(b)) <==> b < 5
            && !prev.button_pressed@[b as int] && cur.button_pressed@[b as int],
        mouse_events(prev, cur).contains(MouseEvent::ButtonUp(b)) <==> b < 5
            && prev.button_pressed@[b as int] && !cur.button_pressed@[b as int],
        (forall|k: int| 0 <= k < 5 ==> prev.button_pressed@[k] == cur.button_pressed@[k])
            ==> forall|i: int|
            0 <= i < mouse_events(prev, cur).len() ==> (#[trigger] mouse_events(prev, cur)[i] is Move),
{
    let buttons = button_events(prev.button_pressed@, cur.button_pressed@, 5);
    let all = mouse_events(prev, cur);
    lemma_button_events(prev.button_pressed@, cur.button_pressed@, 5);
    lemma_button_event_of(prev.button_pressed@, cur.button_pressed@, 5, b);
    let down = MouseEvent::ButtonDown(b);
    let up = MouseEvent::ButtonUp(b);
    if all.contains(down) {
        let i = choose|i: int| 0 <= i < all.len() && all[i] == down;
        assert(buttons[i] == down);
        assert(buttons.contains(down));
    }
    if all.contains(up) {
        let i = choose|i: int| 0 <= i < all.len() && all[i] == up;
        assert(buttons[i] == up);
        assert(buttons.contains(up));
    }
    if buttons.contains(down) {
        let i = choose|i: int| 0 <= i < buttons.len() && buttons[i] == down;
        assert(all[i] == down);
    }
    if buttons.contains(up) {
        let i = choose|i: int| 0 <= i < buttons.len() && buttons[i] == up;
        assert(all[i] == up);
    }
}

} // verus!
