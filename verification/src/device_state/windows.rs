//! What Windows answers, turned into keys and mouse state.

use crate::keymap::Keycode;
use crate::mouse_state::MouseState;
use vstd::prelude::*;

pub mod virtual_key;

verus! {

/// The key that a virtual-key code names outright, if it names one.
pub open spec fn named_keycode(win_key: u16) -> Option<Keycode> {
    match win_key {
        112 => Some(Keycode::F1),
        113 => Some(Keycode::F2),
        114 => Some(Keycode::F3),
        115 => Some(Keycode::F4),
        116 => Some(Keycode::F5),
        117 => Some(Keycode::F6),
        118 => Some(Keycode::F7),
        119 => Some(Keycode::F8),
        120 => Some(Keycode::F9),
        121 => Some(Keycode::F10),
        122 => Some(Keycode::F11),
        123 => Some(Keycode::F12),
        124 => Some(Keycode::F13),
        125 => Some(Keycode::F14),
        126 => Some(Keycode::F15),
        127 => Some(Keycode::F16),
        128 => Some(Keycode::F17),
        129 => Some(Keycode::F18),
        130 => Some(Keycode::F19),
        131 => Some(Keycode::F20),
        96 => Some(Keycode::Numpad0),
        97 => Some(Keycode::Numpad1),
        98 => Some(Keycode::Numpad2),
        99 => Some(Keycode::Numpad3),
        100 => Some(Keycode::Numpad4),
        101 => Some(Keycode::Numpad5),
        102 => Some(Keycode::Numpad6),
        103 => Some(Keycode::Numpad7),
        104 => Some(Keycode::Numpad8),
        105 => Some(Keycode::Numpad9),
        107 => Some(Keycode::NumpadAdd),
        109 => Some(Keycode::NumpadSubtract),
        111 => Some(Keycode::NumpadDivide),
        106 => Some(Keycode::NumpadMultiply),
        146 => Some(Keycode::NumpadEquals),
        110 => Some(Keycode::NumpadDecimal),
        32 => Some(Keycode::Space),
        162 => Some(Keycode::LControl),
        163 => Some(Keycode::RControl),
        160 => Some(Keycode::LShift),
        161 => Some(Keycode::ShiftRight),
        164 => Some(Keycode::AltLeft),
        165 => Some(Keycode::AltRight),
        91 => Some(Keycode::MetaLeft),
        92 => Some(Keycode::MetaRight),
        13 => Some(Keycode::Enter),
        27 => Some(Keycode::Escape),
        38 => Some(Keycode::ArrowUp),
        40 => Some(Keycode::ArrowDown),
        37 => Some(Keycode::ArrowLeft),
        39 => Some(Keycode::ArrowRight),
        8 => Some(Keycode::Backspace),
        20 => Some(Keycode::CapsLock),
        9 => Some(Keycode::Tab),
        36 => Some(Keycode::Home),
        35 => Some(Keycode::End),
        33 => Some(Keycode::PageUp),
        34 => Some(Keycode::PageDown),
        45 => Some(Keycode::Insert),
        46 => Some(Keycode::Delete),
        192 => Some(Keycode::Backquote),
        189 => Some(Keycode::Minus),
        187 => Some(Keycode::Equal),
        219 => Some(Keycode::BracketLeft),
        221 => Some(Keycode::BracketRight),
        220 => Some(Keycode::Backslash),
        186 => Some(Keycode::Semicolon),
        222 => Some(Keycode::Quote),
        188 => Some(Keycode::Comma),
        190 => Some(Keycode::Period),
        191 => Some(Keycode::Slash),
        _ => None,
    }
}

/// The key of a digit or of a capital letter of ASCII.
pub open spec fn ascii_keycode(c: u8) -> Option<Keycode> {
    match c {
        48 => Some(Keycode::Digit0),
        49 => Some(Keycode::Digit1),
        50 => Some(Keycode::Digit2),
        51 => Some(Keycode::Digit3),
        52 => Some(Keycode::Digit4),
        53 => Some(Keycode::Digit5),
        54 => Some(Keycode::Digit6),
        55 => Some(Keycode::Digit7),
        56 => Some(Keycode::Digit8),
        57 => Some(Keycode::Digit9),
        65 => Some(Keycode::KeyA),
        66 => Some(Keycode::KeyB),
        67 => Some(Keycode::KeyC),
        68 => Some(Keycode::KeyD),
        69 => Some(Keycode::KeyE),
        70 => Some(Keycode::KeyF),
        71 => Some(Keycode::KeyG),
        72 => Some(Keycode::KeyH),
        73 => Some(Keycode::KeyI),
        74 => Some(Keycode::KeyJ),
        75 => Some(Keycode::KeyK),
        76 => Some(Keycode::KeyL),
        77 => Some(Keycode::KeyM),
        78 => Some(Keycode::KeyN),
        79 => Some(Keycode::KeyO),
        80 => Some(Keycode::KeyP),
        81 => Some(Keycode::KeyQ),
        82 => Some(Keycode::KeyR),
        83 => Some(Keycode::KeyS),
        84 => Some(Keycode::KeyT),
        85 => Some(Keycode::KeyU),
        86 => Some(Keycode::KeyV),
        87 => Some(Keycode::KeyW),
        88 => Some(Keycode::KeyX),
        89 => Some(Keycode::KeyY),
        90 => Some(Keycode::KeyZ),
        _ => None,
    }
}

/// The key that a virtual-key code stands for, if the library knows the key:
/// the key that the code names outright, or else the key of the digit or
/// capital letter that the low byte of the code is.
pub open spec fn virtual_keycode(win_key: u16) -> Option<Keycode> {
    if named_keycode(win_key) is Some {
        named_keycode(win_key)
    } else {
        ascii_keycode((win_key % 256) as u8)
    }
}

/// Whether the answer `state` of the system for one key says that the key
/// is down: its most significant bit is set.
pub open spec fn key_is_down(state: i16) -> bool {
    state < 0
}

/// The keys that are down according to the first `n` answers of `states`,
/// by rising virtual-key code.
pub open spec fn keys_in_states(states: Seq<i16>, n: nat) -> Seq<Keycode>
    decreases n,
{
    if n == 0 {
        Seq::empty()
    } else {
        let key = (n - 1) as int;
        let before = keys_in_states(states, (n - 1) as nat);
        if key_is_down(states[key]) && virtual_keycode(key as u16) is Some {
            before.push(virtual_keycode(key as u16)->0)
        } else {
            before
        }
    }
}

/// The virtual-key codes of the five mouse buttons, in the order in which
/// [`DeviceState::query_pointer`] takes their states.
pub fn mouse_button_keys() -> (keys: [u16; 5])
    ensures
        keys@ == seq![1u16, 2u16, 4u16, 5u16, 6u16],
{
    let keys = [
        virtual_key::VK_LBUTTON,
        virtual_key::VK_RBUTTON,
        virtual_key::VK_MBUTTON,
        virtual_key::VK_XBUTTON1,
        virtual_key::VK_XBUTTON2,
    ];
    assert(keys@ =~= seq![1u16, 2u16, 4u16, 5u16, 6u16]);
    keys
}

/// The key that a virtual-key code stands for, if the library knows the key.
pub fn win_key_to_keycode(win_key: u16) -> (key: Option<Keycode>)
    ensures
        key == virtual_keycode(win_key),
{
    let mut keycode = match win_key {
        virtual_key::VK_F1 => Some(Keycode::F1),
        virtual_key::VK_F2 => Some(Keycode::F2),
        virtual_key::VK_F3 => Some(Keycode::F3),
        virtual_key::VK_F4 => Some(Keycode::F4),
        virtual_key::VK_F5 => Some(Keycode::F5),
        virtual_key::VK_F6 => Some(Keycode::F6),
        virtual_key::VK_F7 => Some(Keycode::F7),
        virtual_key::VK_F8 => Some(Keycode::F8),
        virtual_key::VK_F9 => Some(Keycode::F9),
        virtual_key::VK_F10 => Some(Keycode::F10),
        virtual_key::VK_F11 => Some(Keycode::F11),
        virtual_key::VK_F12 => Some(Keycode::F12),
        virtual_key::VK_F13 => Some(Keycode::F13),
        virtual_key::VK_F14 => Some(Keycode::F14),
        virtual_key::VK_F15 => Some(Keycode::F15),
        virtual_key::VK_F16 => Some(Keycode::F16),
        virtual_key::VK_F17 => Some(Keycode::F17),
        virtual_key::VK_F18 => Some(Keycode::F18),
        virtual_key::VK_F19 => Some(Keycode::F19),
        virtual_key::VK_F20 => Some(Keycode::F20),
        virtual_key::VK_NUMPAD0 => Some(Keycode::Numpad0),
        virtual_key::VK_NUMPAD1 => Some(Keycode::Numpad1),
        virtual_key::VK_NUMPAD2 => Some(Keycode::Numpad2),
        virtual_key::VK_NUMPAD3 => Some(Keycode::Numpad3),
        virtual_key::VK_NUMPAD4 => Some(Keycode::Numpad4),
        virtual_key::VK_NUMPAD5 => Some(Keycode::Numpad5),
        virtual_key::VK_NUMPAD6 => Some(Keycode::Numpad6),
        virtual_key::VK_NUMPAD7 => Some(Keycode::Numpad7),
        virtual_key::VK_NUMPAD8 => Some(Keycode::Numpad8),
        virtual_key::VK_NUMPAD9 => Some(Keycode::Numpad9),
        virtual_key::VK_ADD => Some(Keycode::NumpadAdd),
        virtual_key::VK_SUBTRACT => Some(Keycode::NumpadSubtract),
        virtual_key::VK_DIVIDE => Some(Keycode::NumpadDivide),
        virtual_key::VK_MULTIPLY => Some(Keycode::NumpadMultiply),
        virtual_key::VK_OEM_NEC_EQUAL => Some(Keycode::NumpadEquals),
        virtual_key::VK_DECIMAL => Some(Keycode::NumpadDecimal),
        virtual_key::VK_SPACE => Some(Keycode::Space),
        virtual_key::VK_LCONTROL => Some(Keycode::LControl),
        virtual_key::VK_RCONTROL => Some(Keycode::RControl),
        virtual_key::VK_LSHIFT => Some(Keycode::LShift),
        virtual_key::VK_RSHIFT => Some(Keycode::ShiftRight),
        virtual_key::VK_LMENU => Some(Keycode::AltLeft),
        virtual_key::VK_RMENU => Some(Keycode::AltRight),
        virtual_key::VK_LWIN => Some(Keycode::MetaLeft),
        virtual_key::VK_RWIN => Some(Keycode::MetaRight),
        virtual_key::VK_RETURN => Some(Keycode::Enter),
        virtual_key::VK_ESCAPE => Some(Keycode::Escape),
        virtual_key::VK_UP => Some(Keycode::ArrowUp),
        virtual_key::VK_DOWN => Some(Keycode::ArrowDown),
        virtual_key::VK_LEFT => Some(Keycode::ArrowLeft),
        virtual_key::VK_RIGHT => Some(Keycode::ArrowRight),
        virtual_key::VK_BACK => Some(Keycode::Backspace),
        virtual_key::VK_CAPITAL => Some(Keycode::CapsLock),
        virtual_key::VK_TAB => Some(Keycode::Tab),
        virtual_key::VK_HOME => Some(Keycode::Home),
        virtual_key::VK_END => Some(Keycode::End),
        virtual_key::VK_PRIOR => Some(Keycode::PageUp),
        virtual_key::VK_NEXT => Some(Keycode::PageDown),
        virtual_key::VK_INSERT => Some(Keycode::Insert),
        virtual_key::VK_DELETE => Some(Keycode::Delete),
        virtual_key::VK_OEM_3 => Some(Keycode::Backquote),
        virtual_key::VK_OEM_MINUS => Some(Keycode::Minus),
        virtual_key::VK_OEM_PLUS => Some(Keycode::Equal),
        virtual_key::VK_OEM_4 => Some(Keycode::BracketLeft),
        virtual_key::VK_OEM_6 => Some(Keycode::BracketRight),
        virtual_key::VK_OEM_5 => Some(Keycode::Backslash),
        virtual_key::VK_OEM_1 => Some(Keycode::Semicolon),
        virtual_key::VK_OEM_7 => Some(Keycode::Quote),
        virtual_key::VK_OEM_COMMA => Some(Keycode::Comma),
        virtual_key::VK_OEM_PERIOD => Some(Keycode::Period),
        virtual_key::VK_OEM_2 => Some(Keycode::Slash),
        _ => None,
    };
    if keycode.is_none() {
        let low: u8 = (win_key % 256) as u8;
        keycode = match low as char {
        '0' => Some(Keycode::Digit0),
        '1' => Some(Keycode::Digit1),
        '2' => Some(Keycode::Digit2),
        '3' => Some(Keycode::Digit3),
        '4' => Some(Keycode::Digit4),
        '5' => Some(Keycode::Digit5),
        '6' => Some(Keycode::Digit6),
        '7' => Some(Keycode::Digit7),
        '8' => Some(Keycode::Digit8),
        '9' => Some(Keycode::Digit9),
        'A' => Some(Keycode::KeyA),
        'B' => Some(Keycode::KeyB),
        'C' => Some(Keycode::KeyC),
        'D' => Some(Keycode::KeyD),
        'E' => Some(Keycode::KeyE),
        'F' => Some(Keycode::KeyF),
        'G' => Some(Keycode::KeyG),
        'H' => Some(Keycode::KeyH),
        'I' => Some(Keycode::KeyI),
        'J' => Some(Keycode::KeyJ),
        'K' => Some(Keycode::KeyK),
        'L' => Some(Keycode::KeyL),
        'M' => Some(Keycode::KeyM),
        'N' => Some(Keycode::KeyN),
        'O' => Some(Keycode::KeyO),
        'P' => Some(Keycode::KeyP),
        'Q' => Some(Keycode::KeyQ),
        'R' => Some(Keycode::KeyR),
        'S' => Some(Keycode::KeyS),
        'T' => Some(Keycode::KeyT),
        'U' => Some(Keycode::KeyU),
        'V' => Some(Keycode::KeyV),
        'W' => Some(Keycode::KeyW),
        'X' => Some(Keycode::KeyX),
        'Y' => Some(Keycode::KeyY),
        'Z' => Some(Keycode::KeyZ),
            _ => None,
        };
    }
    keycode
}

/// The devices of a Windows session.
#[derive(Debug, Clone, Copy)]
pub struct DeviceState {
    _session: (),
}

impl DeviceState {
    /// The device state of this session.
    pub fn new() -> (state: Self) {
        DeviceState { _session: () }
    }

    /// The device state of this session; on this platform there always is
    /// one.
    pub fn checked_new() -> (state: Option<Self>)
        ensures
            state is Some,
    {
        Some(Self::new())
    }

    /// The mouse state that the answers of the system describe: `cursor` is
    /// the position of the pointer where the system gave one, and the origin
    /// stands in for it where the system gave none; `buttons` holds the
    /// answers for the keys of [`mouse_button_keys`], in that order.
    pub fn query_pointer(&self, cursor: Option<(i32, i32)>, buttons: [i16; 5]) -> (state:
        MouseState)
        ensures
            state.coords == match cursor {
                Some(point) => point,
                None => (0i32, 0i32),
            },
            forall|b: int|
                0 <= b < 5 ==> #[trigger] state.button_pressed@[b] == key_is_down(buttons@[b]),
    {
        let coords = match cursor {
            Some(point) => point,
            None => (0, 0),
        };
        let button_pressed = [
            buttons[0] < 0,
            buttons[1] < 0,
            buttons[2] < 0,
            buttons[3] < 0,
            buttons[4] < 0,
        ];
        MouseState { coords, button_pressed }
    }

    /// The keys that are down, by rising virtual-key code, where `states`
    /// holds the answer of the system for each of the 256 codes.
    pub fn query_keymap(&self, states: &[i16; 256]) -> (keycodes: Vec<Keycode>)
        ensures
            keycodes@ == keys_in_states(states@, 256),
    {
        let mut keycodes: Vec<Keycode> = Vec::new();
        let mut ix: usize = 0;
        while ix < 256
            invariant
                ix <= 256,
                keycodes@ == keys_in_states(states@, ix as nat),
            decreases 256 - ix,
        {
            if states[ix] < 0 {
                if let Some(k) = win_key_to_keycode(ix as u16) {
                    keycodes.push(k);
                }
            }
            ix += 1;
        }
        keycodes
    }
}

/// No two of the 256 virtual-key codes stand for the same key.
pub proof fn lemma_virtual_keycode_injective(a: u16, b: u16)
    requires
        a < 256,
        b < 256,
        virtual_keycode(a) is Some,
        virtual_keycode(a) == virtual_keycode(b),
    ensures
        a == b,
{
}

/// A key is reported as down exactly if the system says so of a virtual-key
/// code that stands for it; and no key is reported twice.
pub proof fn lemma_keys_in_states(states: Seq<i16>, n: nat, key: Keycode)
    requires
        n <= 256,
    ensures
        keys_in_states(states, n).contains(key) <==> exists|code: int|
            0 <= code < n && key_is_down(#[trigger] states[code]) && virtual_keycode(code as u16)
                == Some(key),
        keys_in_states(states, n).no_duplicates(),
    decreases n,
{
    if n > 0 {
        let m = (n - 1) as nat;
        let last = m as int;
        lemma_keys_in_states(states, m, key);
        let before = keys_in_states(states, m);
        let all = keys_in_states(states, n);
        if all.contains(key) {
            let i = choose|i: int| 0 <= i < all.len() && all[i] == key;
            if i < before.len() {
                assert(before[i] == key);
                assert(before.contains(key));
            } else {
                assert(key_is_down(states[last]) && virtual_keycode(last as u16) == Some(key));
            }
        }
        if exists|code: int|
            0 <= code < n && key_is_down(#[trigger] states[code]) && virtual_keycode(code as u16)
                == Some(key) {
            let code = choose|code: int|
                0 <= code < n && key_is_down(#[trigger] states[code]) && virtual_keycode(
                    code as u16,
                ) == Some(key);
            if code < m {
                assert(before.contains(key));
                let i = choose|i: int| 0 <= i < before.len() && before[i] == key;
                assert(all[i] == key);
            } else {
                assert(all[all.len() - 1] == key);
            }
        }
        if key_is_down(states[last]) && virtual_keycode(last as u16) is Some {
            let new_key = virtual_keycode(last as u16)->0;
            lemma_keys_in_states(states, m, new_key);
            if before.contains(new_key) {
                let code = choose|code: int|
                    0 <= code < m && key_is_down(#[trigger] states[code]) && virtual_keycode(
                        code as u16,
                    ) == Some(new_key);
                lemma_virtual_keycode_injective(code as u16, last as u16);
            }
        }
    }
}

} // verus!
