use device_query::device_events::callback::callback_guard::Channel;
use device_query::device_events::event_loop::{init_event_loop, EventLoop, DEFAULT_POLL_MICROS};
use device_query::device_events::keyboard_poll::KeyboardEvent;
use device_query::device_events::mouse_poll::MouseEvent;
use device_query::device_events::notice::Notice;
use device_query::keymap::Keycode;
use device_query::mouse_state::MouseState;
use std::sync::{Arc, Mutex};
use std::time::Duration;

type KeyCallback = Box<dyn Fn(&Keycode) + Send + Sync>;
type MoveCallback = Box<dyn Fn((i32, i32)) + Send + Sync>;
type ButtonCallback = Box<dyn Fn(usize) + Send + Sync>;
type Loop = EventLoop<KeyCallback, MoveCallback, ButtonCallback>;

fn note(log: &Arc<Mutex<Vec<String>>>, what: &'static str) -> KeyCallback {
    let log = Arc::clone(log);
    Box::new(move |key: &Keycode| log.lock().unwrap().push(format!("{} {:?}", what, key)))
}

#[test]
fn the_first_initialisation_starts_the_loop() {
    let mut place: Option<Loop> = None;
    assert!(init_event_loop(&mut place, Duration::from_millis(10)));
    let event_loop = place.expect("a loop was started");
    assert_eq!(event_loop.interval(), Duration::from_millis(10));
}

#[test]
fn the_second_initialisation_changes_nothing() {
    let mut place: Option<Loop> = None;
    assert!(init_event_loop(&mut place, Duration::from_millis(10)));
    assert!(!init_event_loop(&mut place, Duration::from_millis(250)));
    assert!(!init_event_loop(&mut place, Duration::from_millis(10)));
    assert_eq!(place.as_ref().map(|l| l.interval()), Some(Duration::from_millis(10)));
}

#[test]
fn an_initialisation_keeps_the_subscribers_of_the_loop_that_is_there() {
    let log = Arc::new(Mutex::new(Vec::new()));
    let mut place: Option<Loop> = None;
    init_event_loop(&mut place, Duration::from_micros(DEFAULT_POLL_MICROS));
    let _guard = place.as_mut().unwrap().on_key_down(note(&log, "down"));
    assert!(!init_event_loop(&mut place, Duration::from_secs(1)));
    let event_loop = place.as_mut().unwrap();
    assert_eq!(event_loop.interval(), Duration::from_micros(100));
    let notices = event_loop.poll_keyboard(vec![Keycode::KeyA]);
    assert_eq!(
        notices,
        vec![Notice { event: KeyboardEvent::KeyDown(Keycode::KeyA), notified: vec![0] }]
    );
    assert_eq!(*log.lock().unwrap(), vec!["down KeyA".to_string()]);
}

#[test]
fn the_default_pause_is_a_hundred_microseconds() {
    assert_eq!(DEFAULT_POLL_MICROS, 100);
}

#[test]
fn a_new_loop_has_seen_no_key_and_a_resting_mouse() {
    let mut event_loop: Loop = EventLoop::new(Duration::from_millis(1));
    assert!(event_loop.poll_keyboard(vec![]).is_empty());
    let rest = MouseState { coords: (0, 0), button_pressed: [false; 5] };
    assert!(event_loop.poll_mouse(rest).is_empty());
    assert_eq!(MouseState::default(), rest);
    for channel in [
        Channel::KeyDown,
        Channel::KeyUp,
        Channel::MouseMove,
        Channel::MouseDown,
        Channel::MouseUp,
    ] {
        assert!(!event_loop.is_full(channel));
    }
}

#[test]
fn the_loop_remembers_the_last_snapshot_of_each_device() {
    let mut event_loop: Loop = EventLoop::new(Duration::from_millis(1));
    let first = event_loop.poll_keyboard(vec![Keycode::KeyA, Keycode::KeyB]);
    assert_eq!(first.len(), 2);
    let pressed = MouseState { coords: (4, 4), button_pressed: [false, true, false, false, false] };
    let mouse = event_loop.poll_mouse(pressed);
    assert_eq!(
        mouse,
        vec![
            Notice { event: MouseEvent::ButtonDown(1), notified: vec![] },
            Notice { event: MouseEvent::Move((4, 4)), notified: vec![] },
        ]
    );
    let second = event_loop.poll_keyboard(vec![Keycode::KeyB, Keycode::KeyC]);
    assert_eq!(
        second,
        vec![
            Notice { event: KeyboardEvent::KeyDown(Keycode::KeyC), notified: vec![] },
            Notice { event: KeyboardEvent::KeyUp(Keycode::KeyA), notified: vec![] },
        ]
    );
    assert!(event_loop.poll_mouse(pressed).is_empty());
}

#[test]
fn the_loop_delivers_to_each_channel_its_own_events() {
    let keys = Arc::new(Mutex::new(Vec::new()));
    let mouse = Arc::new(Mutex::new(Vec::new()));
    let mut event_loop: Loop = EventLoop::new(Duration::from_millis(1));
    let _down = event_loop.on_key_down(note(&keys, "down"));
    let _up = event_loop.on_key_up(note(&keys, "up"));
    let log = Arc::clone(&mouse);
    let _moved = event_loop.on_mouse_move(Box::new(move |p: (i32, i32)| {
        log.lock().unwrap().push(format!("move {:?}", p))
    }));
    let log = Arc::clone(&mouse);
    let _pressed = event_loop.on_mouse_down(Box::new(move |b: usize| {
        log.lock().unwrap().push(format!("down {}", b))
    }));
    let log = Arc::clone(&mouse);
    let _released = event_loop.on_mouse_up(Box::new(move |b: usize| {
        log.lock().unwrap().push(format!("up {}", b))
    }));
    event_loop.poll_keyboard(vec![Keycode::Escape]);
    event_loop.poll_mouse(MouseState { coords: (1, 1), button_pressed: [true, false, false, false, false] });
    event_loop.poll_keyboard(vec![]);
    event_loop.poll_mouse(MouseState { coords: (1, 1), button_pressed: [false; 5] });
    assert_eq!(*keys.lock().unwrap(), vec!["down Escape".to_string(), "up Escape".to_string()]);
    assert_eq!(
        *mouse.lock().unwrap(),
        vec!["down 0".to_string(), "move (1, 1)".to_string(), "up 0".to_string()]
    );
}

#[test]
fn a_guard_given_up_through_the_loop_silences_its_callback() {
    let keys = Arc::new(Mutex::new(Vec::new()));
    let mut event_loop: Loop = EventLoop::new(Duration::from_millis(1));
    let first = event_loop.on_key_down(note(&keys, "first"));
    let _second = event_loop.on_key_down(note(&keys, "second"));
    event_loop.release(first);
    let notices = event_loop.poll_keyboard(vec![Keycode::KeyA]);
    assert_eq!(
        notices,
        vec![Notice { event: KeyboardEvent::KeyDown(Keycode::KeyA), notified: vec![1] }]
    );
    assert_eq!(*keys.lock().unwrap(), vec!["second KeyA".to_string()]);
}

#[test]
fn a_mouse_guard_given_up_through_the_loop_silences_its_callback() {
    let mouse = Arc::new(Mutex::new(Vec::new()));
    let mut event_loop: Loop = EventLoop::new(Duration::from_millis(1));
    let log = Arc::clone(&mouse);
    let moved = event_loop.on_mouse_move(Box::new(move |p: (i32, i32)| log.lock().unwrap().push(p)));
    event_loop.poll_mouse(MouseState { coords: (1, 0), button_pressed: [false; 5] });
    event_loop.release(moved);
    event_loop.poll_mouse(MouseState { coords: (2, 0), button_pressed: [false; 5] });
    assert_eq!(*mouse.lock().unwrap(), vec![(1, 0)]);
}
