//! What macOS answers, turned into keys and mouse state.

use crate::keymap::Keycode;
use crate::mouse_state::MouseState;
use vstd::prelude::*;

verus! {

/// A key whose state the system can be asked for.
#[derive(Debug, Clone, Copy, PartialEq, Eq, Hash, Structural)]
pub enum MacKey {
    Digit0,
    Digit1,
    Digit2,
    Digit3,
    Digit4,
    Digit5,
    Digit6,
    Digit7,
    Digit8,
    Digit9,
    A,
    B,
    C,
    D,
    E,
    F,
    G,
    H,
    I,
    J,
    K,
    L,
    M,
    N,
    O,
    P,
    Q,
    R,
    S,
    T,
    U,
    V,
    W,
    X,
    Y,
    Z,
    F1,
    F2,
    F3,
    F4,
    F5,
    F6,
    F7,
    F8,
    F9,
    F10,
    F11,
    F12,
    F13,
    F14,
    F15,
    F16,
    F17,
    F18,
    F19,
    F20,
    Keypad0,
    Keypad1,
    Keypad2,
    Keypad3,
    Keypad4,
    Keypad5,
    Keypad6,
    Keypad7,
    Keypad8,
    Keypad9,
    KeypadPlus,
    KeypadMinus,
    KeypadDivide,
    KeypadMultiply,
    KeypadEquals,
    KeypadEnter,
    KeypadDecimal,
    Escape,
    Space,
    Control,
    RightControl,
    Shift,
    RightShift,
    Option,
    RightOption,
    Command,
    Return,
    Up,
    Down,
    Left,
    Right,
    Delete,
    CapsLock,
    Tab,
    Home,
    End,
    PageUp,
    PageDown,
    Help,
    ForwardDelete,
    Grave,
    Minus,
    Equal,
    LeftBracket,
    RightBracket,
    Backslash,
    Semicolon,
    Quote,
    Comma,
    Period,
    Slash,
}

/// How many keys the library asks the system about.
pub const MAPPED_KEYS: usize = 107;

/// The key of the library that a key of the system stands for.
pub open spec fn mac_keycode(key: MacKey) -> Keycode {
    match key {
        MacKey::Digit0 => Keycode::Digit0,
        MacKey::Digit1 => Keycode::Digit1,
        MacKey::Digit2 => Keycode::Digit2,
        MacKey::Digit3 => Keycode::Digit3,
        MacKey::Digit4 => Keycode::Digit4,
        MacKey::Digit5 => Keycode::Digit5,
        MacKey::Digit6 => Keycode::Digit6,
        MacKey::Digit7 => Keycode::Digit7,
        MacKey::Digit8 => Keycode::Digit8,
        MacKey::Digit9 => Keycode::Digit9,
        MacKey::A => Keycode::KeyA,
        MacKey::B => Keycode::KeyB,
        MacKey::C => Keycode::KeyC,
        MacKey::D => Keycode::KeyD,
        MacKey::E => Keycode::KeyE,
        MacKey::F => Keycode::KeyF,
        MacKey::G => Keycode::KeyG,
        MacKey::H => Keycode::KeyH,
        MacKey::I => Keycode::KeyI,
        MacKey::J => Keycode::KeyJ,
        MacKey::K => Keycode::KeyK,
        MacKey::L => Keycode::KeyL,
        MacKey::M => Keycode::KeyM,
        MacKey::N => Keycode::KeyN,
        MacKey::O => Keycode::KeyO,
        MacKey::P => Keycode::KeyP,
        MacKey::Q => Keycode::KeyQ,
        MacKey::R => Keycode::KeyR,
        MacKey::S => Keycode::KeyS,
        MacKey::T => Keycode::KeyT,
        MacKey::U => Keycode::KeyU,
        MacKey::V => Keycode::KeyV,
        MacKey::W => Keycode::KeyW,
        MacKey::X => Keycode::KeyX,
        MacKey::Y => Keycode::KeyY,
        MacKey::Z => Keycode::KeyZ,
        MacKey::F1 => Keycode::F1,
        MacKey::F2 => Keycode::F2,
        MacKey::F3 => Keycode::F3,
        MacKey::F4 => Keycode::F4,
        MacKey::F5 => Keycode::F5,
        MacKey::F6 => Keycode::F6,
        MacKey::F7 => Keycode::F7,
        MacKey::F8 => Keycode::F8,
        MacKey::F9 => Keycode::F9,
        MacKey::F10 => Keycode::F10,
        MacKey::F11 => Keycode::F11,
        MacKey::F12 => Keycode::F12,
        MacKey::F13 => Keycode::F13,
        MacKey::F14 => Keycode::F14,
        MacKey::F15 => Keycode::F15,
        MacKey::F16 => Keycode::F16,
        MacKey::F17 => Keycode::F17,
        MacKey::F18 => Keycode::F18,
        MacKey::F19 => Keycode::F19,
        MacKey::F20 => Keycode::F20,
        MacKey::Keypad0 => Keycode::Numpad0,
        MacKey::Keypad1 => Keycode::Numpad1,
        MacKey::Keypad2 => Keycode::Numpad2,
        MacKey::Keypad3 => Keycode::Numpad3,
        MacKey::Keypad4 => Keycode::Numpad4,
        MacKey::Keypad5 => Keycode::Numpad5,
        MacKey::Keypad6 => Keycode::Numpad6,
        MacKey::Keypad7 => Keycode::Numpad7,
        MacKey::Keypad8 => Keycode::Numpad8,
        MacKey::Keypad9 => Keycode::Numpad9,
        MacKey::KeypadPlus => Keycode::NumpadAdd,
        MacKey::KeypadMinus => Keycode::NumpadSubtract,
        MacKey::KeypadDivide => Keycode::NumpadDivide,
        MacKey::KeypadMultiply => Keycode::NumpadMultiply,
        MacKey::KeypadEquals => Keycode::NumpadEquals,
        MacKey::KeypadEnter => Keycode::NumpadEnter,
        MacKey::KeypadDecimal => Keycode::NumpadDecimal,
        MacKey::Escape => Keycode::Escape,
        MacKey::Space => Keycode::Space,
        MacKey::Control => Keycode::LControl,
        MacKey::RightControl => Keycode::RControl,
        MacKey::Shift => Keycode::LShift,
        MacKey::RightShift => Keycode::ShiftRight,
        MacKey::Option => Keycode::LOption,
        MacKey::RightOption => Keycode::ROption,
        MacKey::Command => Keycode::Command,
        MacKey::Return => Keycode::Enter,
        MacKey::Up => Keycode::ArrowUp,
        MacKey::Down => Keycode::ArrowDown,
        MacKey::Left => Keycode::ArrowLeft,
        MacKey::Right => Keycode::ArrowRight,
        MacKey::Delete => Keycode::Backspace,
        MacKey::CapsLock => Keycode::CapsLock,
        MacKey::Tab => Keycode::Tab,
        MacKey::Home => Keycode::Home,
        MacKey::End => Keycode::End,
        MacKey::PageUp => Keycode::PageUp,
        MacKey::PageDown => Keycode::PageDown,
        MacKey::Help => Keycode::Insert,
        MacKey::ForwardDelete => Keycode::Delete,
        MacKey::Grave => Keycode::Backquote,
        MacKey::Minus => Keycode::Minus,
        MacKey::Equal => Keycode::Equal,
        MacKey::LeftBracket => Keycode::BracketLeft,
        MacKey::RightBracket => Keycode::BracketRight,
        MacKey::Backslash => Keycode::Backslash,
        MacKey::Semicolon => Keycode::Semicolon,
        MacKey::Quote => Keycode::Quote,
        MacKey::Comma => Keycode::Comma,
        MacKey::Period => Keycode::Period,
        MacKey::Slash => Keycode::Slash,
    }
}

/// The keys that the library asks the system about, in the order in which
/// it reports them.
pub open spec fn mapped_key_seq() -> Seq<MacKey> {
    seq![MacKey::Digit0, MacKey::Digit1, MacKey::Digit2, MacKey::Digit3, MacKey::Digit4, MacKey::Digit5, MacKey::Digit6, MacKey::Digit7, MacKey::Digit8, MacKey::Digit9, MacKey::A, MacKey::B, MacKey::C, MacKey::D, MacKey::E, MacKey::F, MacKey::G, MacKey::H, MacKey::I, MacKey::J, MacKey::K, MacKey::L, MacKey::M, MacKey::N, MacKey::O, MacKey::P, MacKey::Q, MacKey::R, MacKey::S, MacKey::T, MacKey::U, MacKey::V, MacKey::W, MacKey::X, MacKey::Y, MacKey::Z, MacKey::F1, MacKey::F2, MacKey::F3, MacKey::F4, MacKey::F5, MacKey::F6, MacKey::F7, MacKey::F8, MacKey::F9, MacKey::F10, MacKey::F11, MacKey::F12, MacKey::F13, MacKey::F14, MacKey::F15, MacKey::F16, MacKey::F17, MacKey::F18, MacKey::F19, MacKey::F20, MacKey::Keypad0, MacKey::Keypad1, MacKey::Keypad2, MacKey::Keypad3, MacKey::Keypad4, MacKey::Keypad5, MacKey::Keypad6, MacKey::Keypad7, MacKey::Keypad8, MacKey::Keypad9, MacKey::KeypadPlus, MacKey::KeypadMinus, MacKey::KeypadDivide, MacKey::KeypadMultiply, MacKey::KeypadEquals, MacKey::KeypadEnter, MacKey::KeypadDecimal, MacKey::Escape, MacKey::Space, MacKey::Control, MacKey::RightControl, MacKey::Shift, MacKey::RightShift, MacKey::Option, MacKey::RightOption, MacKey::Command, MacKey::Return, MacKey::Up, MacKey::Down, MacKey::Left, MacKey::Right, MacKey::Delete, MacKey::CapsLock, MacKey::Tab, MacKey::Home, MacKey::End, MacKey::PageUp, MacKey::PageDown, MacKey::Help, MacKey::ForwardDelete, MacKey::Grave, MacKey::Minus, MacKey::Equal, MacKey::LeftBracket, MacKey::RightBracket, MacKey::Backslash, MacKey::Semicolon, MacKey::Quote, MacKey::Comma, MacKey::Period, MacKey::Slash]
}

/// The keys that are down according to the first `n` answers of `pressed`,
/// where `pressed[i]` is the answer for the key `keys[i]`.
pub open spec fn keys_in_answers(keys: Seq<MacKey>, pressed: Seq<bool>, n: nat) -> Seq<Keycode>
    decreases n,
{
    if n == 0 {
        Seq::empty()
    } else {
        let i = (n - 1) as int;
        let before = keys_in_answers(keys, pressed, (n - 1) as nat);
        if pressed[i] {
            before.push(mac_keycode(keys[i]))
        } else {
            before
        }
    }
}

/// The key of the library that a key of the system stands for.
pub fn keycode_of(key: MacKey) -> (code: Keycode)
    ensures
        code == mac_keycode(key),
{
    match key {
        MacKey::Digit0 => Keycode::Digit0,
        MacKey::Digit1 => Keycode::Digit1,
        MacKey::Digit2 => Keycode::Digit2,
        MacKey::Digit3 => Keycode::Digit3,
        MacKey::Digit4 => Keycode::Digit4,
        MacKey::Digit5 => Keycode::Digit5,
        MacKey::Digit6 => Keycode::Digit6,
        MacKey::Digit7 => Keycode::Digit7,
        MacKey::Digit8 => Keycode::Digit8,
        MacKey::Digit9 => Keycode::Digit9,
        MacKey::A => Keycode::KeyA,
        MacKey::B => Keycode::KeyB,
        MacKey::C => Keycode::KeyC,
        MacKey::D => Keycode::KeyD,
        MacKey::E => Keycode::KeyE,
        MacKey::F => Keycode::KeyF,
        MacKey::G => Keycode::KeyG,
        MacKey::H => Keycode::KeyH,
        MacKey::I => Keycode::KeyI,
        MacKey::J => Keycode::KeyJ,
        MacKey::K => Keycode::KeyK,
        MacKey::L => Keycode::KeyL,
        MacKey::M => Keycode::KeyM,
        MacKey::N => Keycode::KeyN,
        MacKey::O => Keycode::KeyO,
        MacKey::P => Keycode::KeyP,
        MacKey::Q => Keycode::KeyQ,
        MacKey::R => Keycode::KeyR,
        MacKey::S => Keycode::KeyS,
        MacKey::T => Keycode::KeyT,
        MacKey::U => Keycode::KeyU,
        MacKey::V => Keycode::KeyV,
        MacKey::W => Keycode::KeyW,
        MacKey::X => Keycode::KeyX,
        MacKey::Y => Keycode::KeyY,
        MacKey::Z => Keycode::KeyZ,
        MacKey::F1 => Keycode::F1,
        MacKey::F2 => Keycode::F2,
        MacKey::F3 => Keycode::F3,
        MacKey::F4 => Keycode::F4,
        MacKey::F5 => Keycode::F5,
        MacKey::F6 => Keycode::F6,
        MacKey::F7 => Keycode::F7,
        MacKey::F8 => Keycode::F8,
        MacKey::F9 => Keycode::F9,
        MacKey::F10 => Keycode::F10,
        MacKey::F11 => Keycode::F11,
        MacKey::F12 => Keycode::F12,
        MacKey::F13 => Keycode::F13,
        MacKey::F14 => Keycode::F14,
        MacKey::F15 => Keycode::F15,
        MacKey::F16 => Keycode::F16,
        MacKey::F17 => Keycode::F17,
        MacKey::F18 => Keycode::F18,
        MacKey::F19 => Keycode::F19,
        MacKey::F20 => Keycode::F20,
        MacKey::Keypad0 => Keycode::Numpad0,
        MacKey::Keypad1 => Keycode::Numpad1,
        MacKey::Keypad2 => Keycode::Numpad2,
        MacKey::Keypad3 => Keycode::Numpad3,
        MacKey::Keypad4 => Keycode::Numpad4,
        MacKey::Keypad5 => Keycode::Numpad5,
        MacKey::Keypad6 => Keycode::Numpad6,
        MacKey::Keypad7 => Keycode::Numpad7,
        MacKey::Keypad8 => Keycode::Numpad8,
        MacKey::Keypad9 => Keycode::Numpad9,
        MacKey::KeypadPlus => Keycode::NumpadAdd,
        MacKey::KeypadMinus => Keycode::NumpadSubtract,
        MacKey::KeypadDivide => Keycode::NumpadDivide,
        MacKey::KeypadMultiply => Keycode::NumpadMultiply,
        MacKey::KeypadEquals => Keycode::NumpadEquals,
        MacKey::KeypadEnter => Keycode::NumpadEnter,
        MacKey::KeypadDecimal => Keycode::NumpadDecimal,
        MacKey::Escape => Keycode::Escape,
        MacKey::Space => Keycode::Space,
        MacKey::Control => Keycode::LControl,
        MacKey::RightControl => Keycode::RControl,
        MacKey::Shift => Keycode::LShift,
        MacKey::RightShift => Keycode::ShiftRight,
        MacKey::Option => Keycode::LOption,
        MacKey::RightOption => Keycode::ROption,
        MacKey::Command => Keycode::Command,
        MacKey::Return => Keycode::Enter,
        MacKey::Up => Keycode::ArrowUp,
        MacKey::Down => Keycode::ArrowDown,
        MacKey::Left => Keycode::ArrowLeft,
        MacKey::Right => Keycode::ArrowRight,
        MacKey::Delete => Keycode::Backspace,
        MacKey::CapsLock => Keycode::CapsLock,
        MacKey::Tab => Keycode::Tab,
        MacKey::Home => Keycode::Home,
        MacKey::End => Keycode::End,
        MacKey::PageUp => Keycode::PageUp,
        MacKey::PageDown => Keycode::PageDown,
        MacKey::Help => Keycode::Insert,
        MacKey::ForwardDelete => Keycode::Delete,
        MacKey::Grave => Keycode::Backquote,
        MacKey::Minus => Keycode::Minus,
        MacKey::Equal => Keycode::Equal,
        MacKey::LeftBracket => Keycode::BracketLeft,
        MacKey::RightBracket => Keycode::BracketRight,
        MacKey::Backslash => Keycode::Backslash,
        MacKey::Semicolon => Keycode::Semicolon,
        MacKey::Quote => Keycode::Quote,
        MacKey::Comma => Keycode::Comma,
        MacKey::Period => Keycode::Period,
        MacKey::Slash => Keycode::Slash,
    }
}

/// The keys that the library asks the system about, in the order in which
/// it reports them.
pub fn mapped_keys() -> (keys: [MacKey; 107])
    ensures
        keys@ == mapped_key_seq(),
{
    let keys = [
        MacKey::Digit0,
        MacKey::Digit1,
        MacKey::Digit2,
        MacKey::Digit3,
        MacKey::Digit4,
        MacKey::Digit5,
        MacKey::Digit6,
        MacKey::Digit7,
        MacKey::Digit8,
        MacKey::Digit9,
        MacKey::A,
        MacKey::B,
        MacKey::C,
        MacKey::D,
        MacKey::E,
        MacKey::F,
        MacKey::G,
        MacKey::H,
        MacKey::I,
        MacKey::J,
        MacKey::K,
        MacKey::L,
        MacKey::M,
        MacKey::N,
        MacKey::O,
        MacKey::P,
        MacKey::Q,
        MacKey::R,
        MacKey::S,
        MacKey::T,
        MacKey::U,
        MacKey::V,
        MacKey::W,
        MacKey::X,
        MacKey::Y,
        MacKey::Z,
        MacKey::F1,
        MacKey::F2,
        MacKey::F3,
        MacKey::F4,
        MacKey::F5,
        MacKey::F6,
        MacKey::F7,
        MacKey::F8,
        MacKey::F9,
        MacKey::F10,
        MacKey::F11,
        MacKey::F12,
        MacKey::F13,
        MacKey::F14,
        MacKey::F15,
        MacKey::F16,
        MacKey::F17,
        MacKey::F18,
        MacKey::F19,
        MacKey::F20,
        MacKey::Keypad0,
        MacKey::Keypad1,
        MacKey::Keypad2,
        MacKey::Keypad3,
        MacKey::Keypad4,
        MacKey::Keypad5,
        MacKey::Keypad6,
        MacKey::Keypad7,
        MacKey::Keypad8,
        MacKey::Keypad9,
        MacKey::KeypadPlus,
        MacKey::KeypadMinus,
        MacKey::KeypadDivide,
        MacKey::KeypadMultiply,
        MacKey::KeypadEquals,
        MacKey::KeypadEnter,
        MacKey::KeypadDecimal,
        MacKey::Escape,
        MacKey::Space,
        MacKey::Control,
        MacKey::RightControl,
        MacKey::Shift,
        MacKey::RightShift,
        MacKey::Option,
        MacKey::RightOption,
        MacKey::Command,
        MacKey::Return,
        MacKey::Up,
        MacKey::Down,
        MacKey::Left,
        MacKey::Right,
        MacKey::Delete,
        MacKey::CapsLock,
        MacKey::Tab,
        MacKey::Home,
        MacKey::End,
        MacKey::PageUp,
        MacKey::PageDown,
        MacKey::Help,
        MacKey::ForwardDelete,
        MacKey::Grave,
        MacKey::Minus,
        MacKey::Equal,
        MacKey::LeftBracket,
        MacKey::RightBracket,
        MacKey::Backslash,
        MacKey::Semicolon,
        MacKey::Quote,
        MacKey::Comma,
        MacKey::Period,
        MacKey::Slash,
    ];
    assert(keys@ =~= mapped_key_seq());
    keys
}

/// The devices of a macOS session that may read them.
#[derive(Debug, Clone, Copy)]
pub struct DeviceState {
    _trusted: (),
}

impl DeviceState {
    /// The device state of a process that the system trusts to read its
    /// devices.
    pub fn new(trusted: bool) -> (state: DeviceState)
        requires
            trusted,
    {
        DeviceState { _trusted: () }
    }

    /// The device state of this process, unless the system does not trust it
    /// to read its devices.
    pub fn checked_new(trusted: bool) -> (state: Option<DeviceState>)
        ensures
            state is Some <==> trusted,
    {
        if trusted {
            Some(DeviceState { _trusted: () })
        } else {
            None
        }
    }

    /// The mouse state that the answers of the system describe: the pointer
    /// is at (`x`, `y`), and the second, third and fourth button are the
    /// left, the right and the centre button. The first and the fifth are
    /// never down.
    pub fn query_pointer(&self, x: i32, y: i32, left: bool, right: bool, center: bool) -> (state:
        MouseState)
        ensures
            state.coords == (x, y),
            state.button_pressed@ == seq![false, left, right, center, false],
    {
        let button_pressed = [false, left, right, center, false];
        assert(button_pressed@ =~= seq![false, left, right, center, false]);
        MouseState { coords: (x, y), button_pressed }
    }

    /// The keys that are down, in the order of [`mapped_keys`], where
    /// `pressed[i]` is the answer of the system for the `i`-th of them.
    pub fn query_keymap(&self, pressed: &[bool; 107]) -> (keycodes: Vec<Keycode>)
        ensures
            keycodes@ == keys_in_answers(mapped_key_seq(), pressed@, 107),
    {
        let keys = mapped_keys();
        let mut keycodes: Vec<Keycode> = Vec::new();
        let mut i: usize = 0;
        while i < 107
            invariant
                i <= 107,
                keys@ == mapped_key_seq(),
                keycodes@ == keys_in_answers(mapped_key_seq(), pressed@, i as nat),
            decreases 107 - i,
        {
            if pressed[i] {
                keycodes.push(keycode_of(keys[i]));
            }
            i += 1;
        }
        keycodes
    }
}

/// No two keys of the system stand for the same key of the library.
pub proof fn lemma_mac_keycode_injective(a: MacKey, b: MacKey)
    requires
        mac_keycode(a) == mac_keycode(b),
    ensures
        a == b,
{
}

} // verus!
