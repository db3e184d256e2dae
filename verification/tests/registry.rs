use device_query::device_events::callback::keyboard_callback::KeyboardCallbacks;
use device_query::device_events::callback::mouse_callback::MouseCallbacks;
use device_query::device_events::callback::registry::CallbackRegistry;
use device_query::keymap::Keycode;
use std::sync::{Arc, Mutex};

type KeyCallback = Box<dyn Fn(&Keycode) + Send + Sync>;
type MoveCallback = Box<dyn Fn((i32, i32)) + Send + Sync>;
type ButtonCallback = Box<dyn Fn(usize) + Send + Sync>;

fn tagged(log: &Arc<Mutex<Vec<u32>>>, tag: u32) -> KeyCallback {
    let log = Arc::clone(log);
    Box::new(move |_key: &Keycode| log.lock().unwrap().push(tag))
}

fn button_tagged(log: &Arc<Mutex<Vec<(u32, usize)>>>, tag: u32) -> ButtonCallback {
    let log = Arc::clone(log);
    Box::new(move |button: usize| log.lock().unwrap().push((tag, button)))
}

#[test]
fn a_new_registry_is_empty() {
    let registry: CallbackRegistry<KeyCallback> = CallbackRegistry::new();
    assert_eq!(registry.len(), 0);
    assert!(!registry.is_full());
}

#[test]
fn subscribers_are_numbered_from_zero() {
    let log = Arc::new(Mutex::new(Vec::new()));
    let mut registry: CallbackRegistry<KeyCallback> = CallbackRegistry::new();
    assert_eq!(registry.subscribe(tagged(&log, 1)), 0);
    assert_eq!(registry.subscribe(tagged(&log, 2)), 1);
    assert_eq!(registry.subscribe(tagged(&log, 3)), 2);
    assert_eq!(registry.len(), 3);
    assert_eq!(registry.id_at(0), 0);
    assert_eq!(registry.id_at(2), 2);
    registry.callback_at(1)(&Keycode::KeyA);
    assert_eq!(*log.lock().unwrap(), vec![2]);
}

#[test]
fn a_released_entry_stays_until_the_list_is_pruned() {
    let log = Arc::new(Mutex::new(Vec::new()));
    let mut registry: CallbackRegistry<KeyCallback> = CallbackRegistry::new();
    registry.subscribe(tagged(&log, 1));
    let second = registry.subscribe(tagged(&log, 2));
    registry.subscribe(tagged(&log, 3));
    registry.release(second);
    assert_eq!(registry.len(), 3);
    registry.prune();
    assert_eq!(registry.len(), 2);
    assert_eq!(registry.id_at(0), 0);
    assert_eq!(registry.id_at(1), 2);
}

#[test]
fn pruning_keeps_the_order_of_the_others() {
    let log = Arc::new(Mutex::new(Vec::new()));
    let mut registry: CallbackRegistry<KeyCallback> = CallbackRegistry::new();
    for tag in 0..6 {
        registry.subscribe(tagged(&log, tag));
    }
    registry.release(0);
    registry.release(3);
    registry.release(5);
    registry.prune();
    assert_eq!(registry.len(), 3);
    assert_eq!(registry.id_at(0), 1);
    assert_eq!(registry.id_at(1), 2);
    assert_eq!(registry.id_at(2), 4);
    registry.prune();
    assert_eq!(registry.len(), 3);
}

#[test]
fn a_number_is_not_given_out_again() {
    let log = Arc::new(Mutex::new(Vec::new()));
    let mut registry: CallbackRegistry<KeyCallback> = CallbackRegistry::new();
    let first = registry.subscribe(tagged(&log, 1));
    registry.release(first);
    registry.prune();
    assert_eq!(registry.len(), 0);
    assert_eq!(registry.subscribe(tagged(&log, 2)), 1);
    registry.release(first);
    registry.prune();
    assert_eq!(registry.len(), 1);
    assert_eq!(registry.id_at(0), 1);
}

#[test]
fn releasing_an_unknown_number_changes_nothing() {
    let log = Arc::new(Mutex::new(Vec::new()));
    let mut registry: CallbackRegistry<KeyCallback> = CallbackRegistry::new();
    registry.subscribe(tagged(&log, 1));
    registry.release(17);
    registry.prune();
    assert_eq!(registry.len(), 1);
}

#[test]
fn pruning_an_empty_registry_leaves_it_empty() {
    let mut registry: CallbackRegistry<KeyCallback> = CallbackRegistry::new();
    registry.prune();
    assert_eq!(registry.len(), 0);
}

#[test]
fn each_keyboard_registry_numbers_its_own_subscribers() {
    let log = Arc::new(Mutex::new(Vec::new()));
    let mut callbacks: KeyboardCallbacks<KeyCallback> = KeyboardCallbacks::new();
    let _down = callbacks.push_key_down(tagged(&log, 1));
    let _up = callbacks.push_key_up(tagged(&log, 2));
    let _up_again = callbacks.push_key_up(tagged(&log, 3));
    assert!(!callbacks.key_down_is_full());
    assert!(!callbacks.key_up_is_full());
    assert_eq!(callbacks.run_key_down(&Keycode::KeyA), vec![0]);
    assert_eq!(callbacks.run_key_up(&Keycode::KeyA), vec![0, 1]);
    assert_eq!(*log.lock().unwrap(), vec![1, 2, 3]);
}

#[test]
fn a_released_callback_is_not_called_in_the_next_pass_nor_later() {
    let log = Arc::new(Mutex::new(Vec::new()));
    let mut callbacks: KeyboardCallbacks<KeyCallback> = KeyboardCallbacks::new();
    let first = callbacks.push_key_down(tagged(&log, 1));
    let _second = callbacks.push_key_down(tagged(&log, 2));
    assert_eq!(callbacks.run_key_down(&Keycode::KeyA), vec![0, 1]);
    callbacks.release(first);
    assert_eq!(callbacks.run_key_down(&Keycode::KeyA), vec![1]);
    assert_eq!(callbacks.run_key_down(&Keycode::KeyA), vec![1]);
    let _third = callbacks.push_key_down(tagged(&log, 3));
    assert_eq!(callbacks.run_key_down(&Keycode::KeyA), vec![1, 2]);
    assert_eq!(*log.lock().unwrap(), vec![1, 2, 2, 2, 2, 3]);
}

#[test]
fn a_held_guard_keeps_its_callback_subscribed() {
    let log = Arc::new(Mutex::new(Vec::new()));
    let mut callbacks: KeyboardCallbacks<KeyCallback> = KeyboardCallbacks::new();
    let _guard = callbacks.push_key_up(tagged(&log, 9));
    for _ in 0..4 {
        assert_eq!(callbacks.run_key_up(&Keycode::Tab), vec![0]);
    }
    assert_eq!(*log.lock().unwrap(), vec![9, 9, 9, 9]);
}

#[test]
fn a_guard_releases_in_its_own_channel_only() {
    let log = Arc::new(Mutex::new(Vec::new()));
    let mut callbacks: KeyboardCallbacks<KeyCallback> = KeyboardCallbacks::new();
    let down = callbacks.push_key_down(tagged(&log, 1));
    let _up = callbacks.push_key_up(tagged(&log, 2));
    callbacks.release(down);
    assert_eq!(callbacks.run_key_up(&Keycode::KeyA), vec![0]);
    assert_eq!(callbacks.run_key_down(&Keycode::KeyA), Vec::<u64>::new());
    assert_eq!(*log.lock().unwrap(), vec![2]);
}

#[test]
fn a_key_up_pass_leaves_the_key_down_registry_alone() {
    let log = Arc::new(Mutex::new(Vec::new()));
    let mut callbacks: KeyboardCallbacks<KeyCallback> = KeyboardCallbacks::new();
    let _down = callbacks.push_key_down(tagged(&log, 1));
    assert_eq!(callbacks.run_key_up(&Keycode::KeyA), Vec::<u64>::new());
    assert!(log.lock().unwrap().is_empty());
    assert_eq!(callbacks.run_key_down(&Keycode::KeyA), vec![0]);
}

#[test]
fn a_mouse_guard_changes_nothing_in_the_keyboard_registries() {
    let log = Arc::new(Mutex::new(Vec::new()));
    let buttons = Arc::new(Mutex::new(Vec::new()));
    let mut keyboard: KeyboardCallbacks<KeyCallback> = KeyboardCallbacks::new();
    let mut mouse: MouseCallbacks<MoveCallback, ButtonCallback> = MouseCallbacks::new();
    let _key = keyboard.push_key_down(tagged(&log, 1));
    let button = mouse.push_mouse_down(button_tagged(&buttons, 1));
    keyboard.release(button);
    assert_eq!(keyboard.run_key_down(&Keycode::KeyA), vec![0]);
}

#[test]
fn mouse_registries_are_separate() {
    let buttons = Arc::new(Mutex::new(Vec::new()));
    let moves = Arc::new(Mutex::new(Vec::new()));
    let mut mouse: MouseCallbacks<MoveCallback, ButtonCallback> = MouseCallbacks::new();
    let down = mouse.push_mouse_down(button_tagged(&buttons, 1));
    let up = mouse.push_mouse_up(button_tagged(&buttons, 2));
    let move_log = Arc::clone(&moves);
    let moved = mouse.push_mouse_move(Box::new(move |p: (i32, i32)| move_log.lock().unwrap().push(p)));
    assert!(!mouse.mouse_down_is_full() && !mouse.mouse_up_is_full() && !mouse.mouse_move_is_full());
    assert_eq!(mouse.run_mouse_down(2), vec![0]);
    assert_eq!(mouse.run_mouse_up(4), vec![0]);
    assert_eq!(mouse.run_mouse_move((5, 6)), vec![0]);
    mouse.release(up);
    assert_eq!(mouse.run_mouse_down(0), vec![0]);
    assert_eq!(mouse.run_mouse_up(0), Vec::<u64>::new());
    mouse.release(moved);
    assert_eq!(mouse.run_mouse_move((7, 8)), Vec::<u64>::new());
    mouse.release(down);
    assert_eq!(mouse.run_mouse_down(1), Vec::<u64>::new());
    assert_eq!(*buttons.lock().unwrap(), vec![(1, 2), (2, 4), (1, 0)]);
    assert_eq!(*moves.lock().unwrap(), vec![(5, 6)]);
}

#[test]
fn the_second_of_three_mouse_subscribers_is_released() {
    let buttons = Arc::new(Mutex::new(Vec::new()));
    let mut mouse: MouseCallbacks<MoveCallback, ButtonCallback> = MouseCallbacks::new();
    let _first = mouse.push_mouse_down(button_tagged(&buttons, 1));
    let second = mouse.push_mouse_down(button_tagged(&buttons, 2));
    let _third = mouse.push_mouse_down(button_tagged(&buttons, 3));
    mouse.release(second);
    assert_eq!(mouse.run_mouse_down(4), vec![0, 2]);
    assert_eq!(*buttons.lock().unwrap(), vec![(1, 4), (3, 4)]);
}

#[test]
fn the_default_registries_are_empty() {
    let registry: CallbackRegistry<KeyCallback> = CallbackRegistry::default();
    assert_eq!(registry.len(), 0);
    let mut keyboard: KeyboardCallbacks<KeyCallback> = KeyboardCallbacks::default();
    assert_eq!(keyboard.run_key_down(&Keycode::KeyA), Vec::<u64>::new());
    assert_eq!(keyboard.run_key_up(&Keycode::KeyA), Vec::<u64>::new());
    let mut mouse: MouseCallbacks<MoveCallback, ButtonCallback> = MouseCallbacks::default();
    assert_eq!(mouse.run_mouse_down(0), Vec::<u64>::new());
    assert_eq!(mouse.run_mouse_up(0), Vec::<u64>::new());
    assert_eq!(mouse.run_mouse_move((0, 0)), Vec::<u64>::new());
}
