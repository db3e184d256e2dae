use device_query::device_events::callback::keyboard_callback::KeyboardCallbacks;
use device_query::device_events::callback::mouse_callback::MouseCallbacks;
use device_query::device_events::keyboard_poll::{keyboard_cycle, keys_absent, KeyboardEvent};
use device_query::device_events::mouse_poll::{mouse_cycle, MouseEvent};
use device_query::device_events::notice::Notice;
use device_query::keymap::{contains_key, Keycode};
use device_query::mouse_state::MouseState;
use std::sync::{Arc, Mutex};

type KeyCallback = Box<dyn Fn(&Keycode) + Send + Sync>;
type MoveCallback = Box<dyn Fn((i32, i32)) + Send + Sync>;
type ButtonCallback = Box<dyn Fn(usize) + Send + Sync>;

fn key_recorder(log: &Arc<Mutex<Vec<(u32, Keycode)>>>, tag: u32) -> KeyCallback {
    let log = Arc::clone(log);
    Box::new(move |key: &Keycode| log.lock().unwrap().push((tag, *key)))
}

fn key_events(notices: &[Notice<KeyboardEvent>]) -> Vec<KeyboardEvent> {
    notices.iter().map(|n| n.event).collect()
}

fn mouse_events(notices: &[Notice<MouseEvent>]) -> Vec<MouseEvent> {
    notices.iter().map(|n| n.event).collect()
}

fn mouse(coords: (i32, i32), button_pressed: [bool; 5]) -> MouseState {
    MouseState { coords, button_pressed }
}

#[test]
fn a_key_that_goes_down_gives_one_key_down() {
    let mut callbacks: KeyboardCallbacks<KeyCallback> = KeyboardCallbacks::new();
    let mut prev = vec![];
    let notices = keyboard_cycle(&mut callbacks, &mut prev, vec![Keycode::KeyA]);
    assert_eq!(key_events(&notices), vec![KeyboardEvent::KeyDown(Keycode::KeyA)]);
    assert_eq!(prev, vec![Keycode::KeyA]);
}

#[test]
fn a_key_that_comes_up_gives_one_key_up() {
    let mut callbacks: KeyboardCallbacks<KeyCallback> = KeyboardCallbacks::new();
    let mut prev = vec![Keycode::KeyA, Keycode::KeyB];
    let notices = keyboard_cycle(&mut callbacks, &mut prev, vec![Keycode::KeyB]);
    assert_eq!(key_events(&notices), vec![KeyboardEvent::KeyUp(Keycode::KeyA)]);
    assert_eq!(prev, vec![Keycode::KeyB]);
}

#[test]
fn a_button_that_goes_down_gives_one_button_down_and_no_move() {
    let mut callbacks: MouseCallbacks<MoveCallback, ButtonCallback> = MouseCallbacks::new();
    let mut prev = mouse((3, 4), [false; 5]);
    let cur = mouse((3, 4), [true, false, false, false, false]);
    let notices = mouse_cycle(&mut callbacks, &mut prev, cur);
    assert_eq!(mouse_events(&notices), vec![MouseEvent::ButtonDown(0)]);
    assert_eq!(prev, cur);
}

#[test]
fn a_pointer_that_moves_gives_one_move_and_no_button_event() {
    let mut callbacks: MouseCallbacks<MoveCallback, ButtonCallback> = MouseCallbacks::new();
    let mut prev = mouse((10, 10), [false; 5]);
    let cur = mouse((10, 11), [false; 5]);
    let notices = mouse_cycle(&mut callbacks, &mut prev, cur);
    assert_eq!(mouse_events(&notices), vec![MouseEvent::Move((10, 11))]);
}

#[test]
fn the_second_of_three_key_subscribers_is_released() {
    let log = Arc::new(Mutex::new(Vec::new()));
    let mut callbacks: KeyboardCallbacks<KeyCallback> = KeyboardCallbacks::new();
    let _first = callbacks.push_key_down(key_recorder(&log, 1));
    let second = callbacks.push_key_down(key_recorder(&log, 2));
    let _third = callbacks.push_key_down(key_recorder(&log, 3));
    callbacks.release(second);
    let notified = callbacks.run_key_down(&Keycode::KeyA);
    assert_eq!(notified, vec![0, 2]);
    assert_eq!(*log.lock().unwrap(), vec![(1, Keycode::KeyA), (3, Keycode::KeyA)]);
}

#[test]
fn key_events_are_the_two_differences() {
    let mut callbacks: KeyboardCallbacks<KeyCallback> = KeyboardCallbacks::new();
    let mut prev = vec![Keycode::KeyA, Keycode::KeyB, Keycode::KeyC];
    let notices = keyboard_cycle(&mut callbacks, &mut prev, vec![Keycode::KeyB, Keycode::KeyD]);
    assert_eq!(
        key_events(&notices),
        vec![
            KeyboardEvent::KeyDown(Keycode::KeyD),
            KeyboardEvent::KeyUp(Keycode::KeyA),
            KeyboardEvent::KeyUp(Keycode::KeyC),
        ]
    );
    assert_eq!(prev, vec![Keycode::KeyB, Keycode::KeyD]);
}

#[test]
fn every_key_down_comes_before_any_key_up() {
    let mut callbacks: KeyboardCallbacks<KeyCallback> = KeyboardCallbacks::new();
    let mut prev = vec![Keycode::F1, Keycode::F2];
    let notices = keyboard_cycle(&mut callbacks, &mut prev, vec![Keycode::Space, Keycode::Enter]);
    assert_eq!(
        key_events(&notices),
        vec![
            KeyboardEvent::KeyDown(Keycode::Space),
            KeyboardEvent::KeyDown(Keycode::Enter),
            KeyboardEvent::KeyUp(Keycode::F1),
            KeyboardEvent::KeyUp(Keycode::F2),
        ]
    );
}

#[test]
fn same_keys_give_no_event() {
    let mut callbacks: KeyboardCallbacks<KeyCallback> = KeyboardCallbacks::new();
    let mut prev = vec![Keycode::KeyA, Keycode::LShift];
    let notices = keyboard_cycle(&mut callbacks, &mut prev, vec![Keycode::KeyA, Keycode::LShift]);
    assert!(notices.is_empty());
}

#[test]
fn same_keys_in_another_order_give_no_event() {
    let mut callbacks: KeyboardCallbacks<KeyCallback> = KeyboardCallbacks::new();
    let mut prev = vec![Keycode::KeyA, Keycode::LShift];
    let notices = keyboard_cycle(&mut callbacks, &mut prev, vec![Keycode::LShift, Keycode::KeyA]);
    assert!(notices.is_empty());
    assert_eq!(prev, vec![Keycode::LShift, Keycode::KeyA]);
}

#[test]
fn no_key_before_and_none_now_give_no_event() {
    let mut callbacks: KeyboardCallbacks<KeyCallback> = KeyboardCallbacks::new();
    let mut prev = vec![];
    let notices = keyboard_cycle(&mut callbacks, &mut prev, vec![]);
    assert!(notices.is_empty());
    assert!(prev.is_empty());
}

#[test]
fn a_key_held_over_three_cycles_fires_once() {
    let log = Arc::new(Mutex::new(Vec::new()));
    let mut callbacks: KeyboardCallbacks<KeyCallback> = KeyboardCallbacks::new();
    let _down = callbacks.push_key_down(key_recorder(&log, 1));
    let _up = callbacks.push_key_up(key_recorder(&log, 2));
    let mut prev = vec![];
    keyboard_cycle(&mut callbacks, &mut prev, vec![Keycode::KeyQ]);
    keyboard_cycle(&mut callbacks, &mut prev, vec![Keycode::KeyQ]);
    keyboard_cycle(&mut callbacks, &mut prev, vec![Keycode::KeyQ]);
    keyboard_cycle(&mut callbacks, &mut prev, vec![]);
    keyboard_cycle(&mut callbacks, &mut prev, vec![]);
    assert_eq!(*log.lock().unwrap(), vec![(1, Keycode::KeyQ), (2, Keycode::KeyQ)]);
}

#[test]
fn key_notices_name_the_callbacks_that_were_called() {
    let log = Arc::new(Mutex::new(Vec::new()));
    let mut callbacks: KeyboardCallbacks<KeyCallback> = KeyboardCallbacks::new();
    let _a = callbacks.push_key_down(key_recorder(&log, 10));
    let _b = callbacks.push_key_down(key_recorder(&log, 11));
    let _c = callbacks.push_key_up(key_recorder(&log, 20));
    let mut prev = vec![Keycode::KeyZ];
    let notices = keyboard_cycle(&mut callbacks, &mut prev, vec![Keycode::KeyX]);
    assert_eq!(
        notices,
        vec![
            Notice { event: KeyboardEvent::KeyDown(Keycode::KeyX), notified: vec![0, 1] },
            Notice { event: KeyboardEvent::KeyUp(Keycode::KeyZ), notified: vec![0] },
        ]
    );
    assert_eq!(
        *log.lock().unwrap(),
        vec![(10, Keycode::KeyX), (11, Keycode::KeyX), (20, Keycode::KeyZ)]
    );
}

#[test]
fn keys_absent_keeps_the_order_of_the_first_list() {
    let keys = vec![Keycode::KeyC, Keycode::KeyA, Keycode::KeyB, Keycode::KeyA];
    let others = vec![Keycode::KeyB];
    assert_eq!(keys_absent(&keys, &others), vec![Keycode::KeyC, Keycode::KeyA, Keycode::KeyA]);
    assert_eq!(keys_absent(&keys, &keys), vec![]);
    assert_eq!(keys_absent(&keys, &vec![]), keys);
    assert_eq!(keys_absent(&vec![], &keys), vec![]);
}

#[test]
fn contains_key_finds_what_is_there() {
    let keys = vec![Keycode::KeyC, Keycode::KeyA];
    assert!(contains_key(&keys, Keycode::KeyA));
    assert!(contains_key(&keys, Keycode::KeyC));
    assert!(!contains_key(&keys, Keycode::KeyB));
    assert!(!contains_key(&vec![], Keycode::KeyB));
}

#[test]
fn buttons_change_without_a_move_when_the_pointer_rests() {
    let mut callbacks: MouseCallbacks<MoveCallback, ButtonCallback> = MouseCallbacks::new();
    let mut prev = mouse((7, -3), [true, false, true, false, false]);
    let cur = mouse((7, -3), [false, true, true, false, true]);
    let notices = mouse_cycle(&mut callbacks, &mut prev, cur);
    assert_eq!(
        mouse_events(&notices),
        vec![MouseEvent::ButtonUp(0), MouseEvent::ButtonDown(1), MouseEvent::ButtonDown(4)]
    );
}

#[test]
fn the_move_comes_after_the_buttons() {
    let mut callbacks: MouseCallbacks<MoveCallback, ButtonCallback> = MouseCallbacks::new();
    let mut prev = mouse((0, 0), [false, false, false, true, false]);
    let cur = mouse((-5, 0), [false, false, true, false, false]);
    let notices = mouse_cycle(&mut callbacks, &mut prev, cur);
    assert_eq!(
        mouse_events(&notices),
        vec![MouseEvent::ButtonDown(2), MouseEvent::ButtonUp(3), MouseEvent::Move((-5, 0))]
    );
    assert_eq!(prev, cur);
}

#[test]
fn a_move_along_one_axis_is_a_move() {
    let mut callbacks: MouseCallbacks<MoveCallback, ButtonCallback> = MouseCallbacks::new();
    let mut prev = mouse((1, 2), [false; 5]);
    let notices = mouse_cycle(&mut callbacks, &mut prev, mouse((2, 2), [false; 5]));
    assert_eq!(mouse_events(&notices), vec![MouseEvent::Move((2, 2))]);
    let notices = mouse_cycle(&mut callbacks, &mut prev, mouse((2, 3), [false; 5]));
    assert_eq!(mouse_events(&notices), vec![MouseEvent::Move((2, 3))]);
}

#[test]
fn an_unchanged_mouse_gives_no_event() {
    let mut callbacks: MouseCallbacks<MoveCallback, ButtonCallback> = MouseCallbacks::new();
    let mut prev = mouse((1, 2), [true, true, false, false, true]);
    let notices = mouse_cycle(&mut callbacks, &mut prev, mouse((1, 2), [true, true, false, false, true]));
    assert!(notices.is_empty());
}

#[test]
fn all_five_buttons_go_down_by_rising_index() {
    let mut callbacks: MouseCallbacks<MoveCallback, ButtonCallback> = MouseCallbacks::new();
    let mut prev = mouse((0, 0), [false; 5]);
    let notices = mouse_cycle(&mut callbacks, &mut prev, mouse((0, 0), [true; 5]));
    assert_eq!(
        mouse_events(&notices),
        vec![
            MouseEvent::ButtonDown(0),
            MouseEvent::ButtonDown(1),
            MouseEvent::ButtonDown(2),
            MouseEvent::ButtonDown(3),
            MouseEvent::ButtonDown(4),
        ]
    );
}

#[test]
fn mouse_callbacks_get_the_button_and_the_position() {
    let buttons = Arc::new(Mutex::new(Vec::new()));
    let moves = Arc::new(Mutex::new(Vec::new()));
    let mut callbacks: MouseCallbacks<MoveCallback, ButtonCallback> = MouseCallbacks::new();
    let down_log = Arc::clone(&buttons);
    let _down = callbacks.push_mouse_down(Box::new(move |b: usize| down_log.lock().unwrap().push(("down", b))));
    let up_log = Arc::clone(&buttons);
    let _up = callbacks.push_mouse_up(Box::new(move |b: usize| up_log.lock().unwrap().push(("up", b))));
    let move_log = Arc::clone(&moves);
    let _move = callbacks.push_mouse_move(Box::new(move |p: (i32, i32)| move_log.lock().unwrap().push(p)));
    let mut prev = mouse((0, 0), [false, true, false, false, false]);
    let notices = mouse_cycle(&mut callbacks, &mut prev, mouse((640, 480), [false, false, false, true, false]));
    assert_eq!(
        notices,
        vec![
            Notice { event: MouseEvent::ButtonUp(1), notified: vec![0] },
            Notice { event: MouseEvent::ButtonDown(3), notified: vec![0] },
            Notice { event: MouseEvent::Move((640, 480)), notified: vec![0] },
        ]
    );
    assert_eq!(*buttons.lock().unwrap(), vec![("up", 1), ("down", 3)]);
    assert_eq!(*moves.lock().unwrap(), vec![(640, 480)]);
}
