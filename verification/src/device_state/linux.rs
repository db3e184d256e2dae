//! What the X server answers, turned into keys and mouse state.

use crate::keymap::Keycode;
use crate::mouse_state::MouseState;
use vstd::prelude::*;

pub mod kernel_key;

verus! {

/// The key that a kernel key code stands for, if the library knows the key.
pub open spec fn kernel_keycode(kernel_code: u8) -> Option<Keycode> {
    match kernel_code {
        11 => Some(Keycode::Digit0),
        2 => Some(Keycode::Digit1),
        3 => Some(Keycode::Digit2),
        4 => Some(Keycode::Digit3),
        5 => Some(Keycode::Digit4),
        6 => Some(Keycode::Digit5),
        7 => Some(Keycode::Digit6),
        8 => Some(Keycode::Digit7),
        9 => Some(Keycode::Digit8),
        10 => Some(Keycode::Digit9),
        30 => Some(Keycode::KeyA),
        48 => Some(Keycode::KeyB),
        46 => Some(Keycode::KeyC),
        32 => Some(Keycode::KeyD),
        18 => Some(Keycode::KeyE),
        33 => Some(Keycode::KeyF),
        34 => Some(Keycode::KeyG),
        35 => Some(Keycode::KeyH),
        23 => Some(Keycode::KeyI),
        36 => Some(Keycode::KeyJ),
        37 => Some(Keycode::KeyK),
        38 => Some(Keycode::KeyL),
        50 => Some(Keycode::KeyM),
        49 => Some(Keycode::KeyN),
        24 => Some(Keycode::KeyO),
        25 => Some(Keycode::KeyP),
        16 => Some(Keycode::KeyQ),
        19 => Some(Keycode::KeyR),
        31 => Some(Keycode::KeyS),
        20 => Some(Keycode::KeyT),
        22 => Some(Keycode::KeyU),
        47 => Some(Keycode::KeyV),
        17 => Some(Keycode::KeyW),
        45 => Some(Keycode::KeyX),
        21 => Some(Keycode::KeyY),
        44 => Some(Keycode::KeyZ),
        59 => Some(Keycode::F1),
        60 => Some(Keycode::F2),
        61 => Some(Keycode::F3),
        62 => Some(Keycode::F4),
        63 => Some(Keycode::F5),
        64 => Some(Keycode::F6),
        65 => Some(Keycode::F7),
        66 => Some(Keycode::F8),
        67 => Some(Keycode::F9),
        68 => Some(Keycode::F10),
        87 => Some(Keycode::F11),
        88 => Some(Keycode::F12),
        183 => Some(Keycode::F13),
        184 => Some(Keycode::F14),
        185 => Some(Keycode::F15),
        186 => Some(Keycode::F16),
        187 => Some(Keycode::F17),
        188 => Some(Keycode::F18),
        189 => Some(Keycode::F19),
        190 => Some(Keycode::F20),
        82 => Some(Keycode::Numpad0),
        79 => Some(Keycode::Numpad1),
        80 => Some(Keycode::Numpad2),
        81 => Some(Keycode::Numpad3),
        75 => Some(Keycode::Numpad4),
        76 => Some(Keycode::Numpad5),
        77 => Some(Keycode::Numpad6),
        71 => Some(Keycode::Numpad7),
        72 => Some(Keycode::Numpad8),
        73 => Some(Keycode::Numpad9),
        96 => Some(Keycode::NumpadEnter),
        74 => Some(Keycode::NumpadSubtract),
        78 => Some(Keycode::NumpadAdd),
        98 => Some(Keycode::NumpadDivide),
        55 => Some(Keycode::NumpadMultiply),
        117 => Some(Keycode::NumpadEquals),
        83 => Some(Keycode::NumpadDecimal),
        1 => Some(Keycode::Escape),
        57 => Some(Keycode::Space),
        29 => Some(Keycode::LControl),
        97 => Some(Keycode::RControl),
        42 => Some(Keycode::LShift),
        54 => Some(Keycode::ShiftRight),
        56 => Some(Keycode::AltLeft),
        100 => Some(Keycode::AltRight),
        125 => Some(Keycode::MetaLeft),
        126 => Some(Keycode::MetaRight),
        28 => Some(Keycode::Enter),
        103 => Some(Keycode::ArrowUp),
        108 => Some(Keycode::ArrowDown),
        105 => Some(Keycode::ArrowLeft),
        106 => Some(Keycode::ArrowRight),
        14 => Some(Keycode::Backspace),
        58 => Some(Keycode::CapsLock),
        15 => Some(Keycode::Tab),
        102 => Some(Keycode::Home),
        107 => Some(Keycode::End),
        104 => Some(Keycode::PageUp),
        109 => Some(Keycode::PageDown),
        110 => Some(Keycode::Insert),
        111 => Some(Keycode::Delete),
        41 => Some(Keycode::Backquote),
        12 => Some(Keycode::Minus),
        13 => Some(Keycode::Equal),
        26 => Some(Keycode::BracketLeft),
        27 => Some(Keycode::BracketRight),
        43 => Some(Keycode::Backslash),
        39 => Some(Keycode::Semicolon),
        40 => Some(Keycode::Quote),
        51 => Some(Keycode::Comma),
        52 => Some(Keycode::Period),
        53 => Some(Keycode::Slash),
        _ => None,
    }
}

/// The key that a kernel key code stands for, if the library knows the key.
pub fn kernel_key_to_keycode(kernel_code: u8) -> (key: Option<Keycode>)
    ensures
        key == kernel_keycode(kernel_code),
{
    match kernel_code as u16 {
        kernel_key::KEY_0 => Some(Keycode::Digit0),
        kernel_key::KEY_1 => Some(Keycode::Digit1),
        kernel_key::KEY_2 => Some(Keycode::Digit2),
        kernel_key::KEY_3 => Some(Keycode::Digit3),
        kernel_key::KEY_4 => Some(Keycode::Digit4),
        kernel_key::KEY_5 => Some(Keycode::Digit5),
        kernel_key::KEY_6 => Some(Keycode::Digit6),
        kernel_key::KEY_7 => Some(Keycode::Digit7),
        kernel_key::KEY_8 => Some(Keycode::Digit8),
        kernel_key::KEY_9 => Some(Keycode::Digit9),
        kernel_key::KEY_A => Some(Keycode::KeyA),
        kernel_key::KEY_B => Some(Keycode::KeyB),
        kernel_key::KEY_C => Some(Keycode::KeyC),
        kernel_key::KEY_D => Some(Keycode::KeyD),
        kernel_key::KEY_E => Some(Keycode::KeyE),
        kernel_key::KEY_F => Some(Keycode::KeyF),
        kernel_key::KEY_G => Some(Keycode::KeyG),
        kernel_key::KEY_H => Some(Keycode::KeyH),
        kernel_key::KEY_I => Some(Keycode::KeyI),
        kernel_key::KEY_J => Some(Keycode::KeyJ),
        kernel_key::KEY_K => Some(Keycode::KeyK),
        kernel_key::KEY_L => Some(Keycode::KeyL),
        kernel_key::KEY_M => Some(Keycode::KeyM),
        kernel_key::KEY_N => Some(Keycode::KeyN),
        kernel_key::KEY_O => Some(Keycode::KeyO),
        kernel_key::KEY_P => Some(Keycode::KeyP),
        kernel_key::KEY_Q => Some(Keycode::KeyQ),
        kernel_key::KEY_R => Some(Keycode::KeyR),
        kernel_key::KEY_S => Some(Keycode::KeyS),
        kernel_key::KEY_T => Some(Keycode::KeyT),
        kernel_key::KEY_U => Some(Keycode::KeyU),
        kernel_key::KEY_V => Some(Keycode::KeyV),
        kernel_key::KEY_W => Some(Keycode::KeyW),
        kernel_key::KEY_X => Some(Keycode::KeyX),
        kernel_key::KEY_Y => Some(Keycode::KeyY),
        kernel_key::KEY_Z => Some(Keycode::KeyZ),
        kernel_key::KEY_F1 => Some(Keycode::F1),
        kernel_key::KEY_F2 => Some(Keycode::F2),
        kernel_key::KEY_F3 => Some(Keycode::F3),
        kernel_key::KEY_F4 => Some(Keycode::F4),
        kernel_key::KEY_F5 => Some(Keycode::F5),
        kernel_key::KEY_F6 => Some(Keycode::F6),
        kernel_key::KEY_F7 => Some(Keycode::F7),
        kernel_key::KEY_F8 => Some(Keycode::F8),
        kernel_key::KEY_F9 => Some(Keycode::F9),
        kernel_key::KEY_F10 => Some(Keycode::F10),
        kernel_key::KEY_F11 => Some(Keycode::F11),
        kernel_key::KEY_F12 => Some(Keycode::F12),
        kernel_key::KEY_F13 => Some(Keycode::F13),
        kernel_key::KEY_F14 => Some(Keycode::F14),
        kernel_key::KEY_F15 => Some(Keycode::F15),
        kernel_key::KEY_F16 => Some(Keycode::F16),
        kernel_key::KEY_F17 => Some(Keycode::F17),
        kernel_key::KEY_F18 => Some(Keycode::F18),
        kernel_key::KEY_F19 => Some(Keycode::F19),
        kernel_key::KEY_F20 => Some(Keycode::F20),
        kernel_key::KEY_KP0 => Some(Keycode::Numpad0),
        kernel_key::KEY_KP1 => Some(Keycode::Numpad1),
        kernel_key::KEY_KP2 => Some(Keycode::Numpad2),
        kernel_key::KEY_KP3 => Some(Keycode::Numpad3),
        kernel_key::KEY_KP4 => Some(Keycode::Numpad4),
        kernel_key::KEY_KP5 => Some(Keycode::Numpad5),
        kernel_key::KEY_KP6 => Some(Keycode::Numpad6),
        kernel_key::KEY_KP7 => Some(Keycode::Numpad7),
        kernel_key::KEY_KP8 => Some(Keycode::Numpad8),
        kernel_key::KEY_KP9 => Some(Keycode::Numpad9),
        kernel_key::KEY_KPENTER => Some(Keycode::NumpadEnter),
        kernel_key::KEY_KPMINUS => Some(Keycode::NumpadSubtract),
        kernel_key::KEY_KPPLUS => Some(Keycode::NumpadAdd),
        kernel_key::KEY_KPSLASH => Some(Keycode::NumpadDivide),
        kernel_key::KEY_KPASTERISK => Some(Keycode::NumpadMultiply),
        kernel_key::KEY_KPEQUAL => Some(Keycode::NumpadEquals),
        kernel_key::KEY_KPDOT => Some(Keycode::NumpadDecimal),
        kernel_key::KEY_ESC => Some(Keycode::Escape),
        kernel_key::KEY_SPACE => Some(Keycode::Space),
        kernel_key::KEY_LEFTCTRL => Some(Keycode::LControl),
        kernel_key::KEY_RIGHTCTRL => Some(Keycode::RControl),
        kernel_key::KEY_LEFTSHIFT => Some(Keycode::LShift),
        kernel_key::KEY_RIGHTSHIFT => Some(Keycode::ShiftRight),
        kernel_key::KEY_LEFTALT => Some(Keycode::AltLeft),
        kernel_key::KEY_RIGHTALT => Some(Keycode::AltRight),
        kernel_key::KEY_LEFTMETA => Some(Keycode::MetaLeft),
        kernel_key::KEY_RIGHTMETA => Some(Keycode::MetaRight),
        kernel_key::KEY_ENTER => Some(Keycode::Enter),
        kernel_key::KEY_UP => Some(Keycode::ArrowUp),
        kernel_key::KEY_DOWN => Some(Keycode::ArrowDown),
        kernel_key::KEY_LEFT => Some(Keycode::ArrowLeft),
        kernel_key::KEY_RIGHT => Some(Keycode::ArrowRight),
        kernel_key::KEY_BACKSPACE => Some(Keycode::Backspace),
        kernel_key::KEY_CAPSLOCK => Some(Keycode::CapsLock),
        kernel_key::KEY_TAB => Some(Keycode::Tab),
        kernel_key::KEY_HOME => Some(Keycode::Home),
        kernel_key::KEY_END => Some(Keycode::End),
        kernel_key::KEY_PAGEUP => Some(Keycode::PageUp),
        kernel_key::KEY_PAGEDOWN => Some(Keycode::PageDown),
        kernel_key::KEY_INSERT => Some(Keycode::Insert),
        kernel_key::KEY_DELETE => Some(Keycode::Delete),
        kernel_key::KEY_GRAVE => Some(Keycode::Backquote),
        kernel_key::KEY_MINUS => Some(Keycode::Minus),
        kernel_key::KEY_EQUAL => Some(Keycode::Equal),
        kernel_key::KEY_LEFTBRACE => Some(Keycode::BracketLeft),
        kernel_key::KEY_RIGHTBRACE => Some(Keycode::BracketRight),
        kernel_key::KEY_BACKSLASH => Some(Keycode::Backslash),
        kernel_key::KEY_SEMICOLON => Some(Keycode::Semicolon),
        kernel_key::KEY_APOSTROPHE => Some(Keycode::Quote),
        kernel_key::KEY_COMMA => Some(Keycode::Comma),
        kernel_key::KEY_DOT => Some(Keycode::Period),
        kernel_key::KEY_SLASH => Some(Keycode::Slash),
        _ => None,
    }
}

/// The bit of the first mouse button in the mask of an X pointer reply.
pub const BUTTON1_MASK: u32 = 0x100;

/// The bit of the second mouse button.
pub const BUTTON2_MASK: u32 = 0x200;

/// The bit of the third mouse button.
pub const BUTTON3_MASK: u32 = 0x400;

/// The bit of the fourth mouse button.
pub const BUTTON4_MASK: u32 = 0x800;

/// The bit of the fifth mouse button.
pub const BUTTON5_MASK: u32 = 0x1000;

/// The bit of button `b` in the mask of an X pointer reply.
pub open spec fn button_mask(b: int) -> u32 {
    if b == 0 {
        BUTTON1_MASK
    } else if b == 1 {
        BUTTON2_MASK
    } else if b == 2 {
        BUTTON3_MASK
    } else if b == 3 {
        BUTTON4_MASK
    } else {
        BUTTON5_MASK
    }
}

/// Whether the bit of X key code `x11_key` is set in `keymap`, the 256 bits
/// of an X keymap reply.
pub open spec fn keymap_bit(keymap: Seq<u8>, x11_key: int) -> bool {
    keymap[x11_key / 8] & (1u8 << ((x11_key % 8) as u8)) != 0
}

/// The key that an X key code stands for, if the library knows the key: an X
/// key code is a kernel key code plus 8.
pub open spec fn x11_keycode(x11_key: int) -> Option<Keycode> {
    if 8 <= x11_key < 256 {
        kernel_keycode((x11_key - 8) as u8)
    } else {
        None
    }
}

/// The keys that are down according to the first `n` bits of `keymap`, by
/// rising X key code.
pub open spec fn keys_in_keymap(keymap: Seq<u8>, n: nat) -> Seq<Keycode>
    decreases n,
{
    if n == 0 {
        Seq::empty()
    } else {
        let x = (n - 1) as int;
        let before = keys_in_keymap(keymap, (n - 1) as nat);
        if keymap_bit(keymap, x) && x11_keycode(x) is Some {
            before.push(x11_keycode(x)->0)
        } else {
            before
        }
    }
}

/// The devices of an X display, once the display is open.
#[derive(Debug, Clone, Copy)]
pub struct DeviceState {
    _connected: (),
}

impl DeviceState {
    /// The device state of a display that could be opened.
    pub fn new(connected: bool) -> (state: DeviceState)
        requires
            connected,
    {
        DeviceState { _connected: () }
    }

    /// The device state of the display, unless it could not be opened.
    pub fn checked_new(connected: bool) -> (state: Option<DeviceState>)
        ensures
            state is Some <==> connected,
    {
        if connected {
            Some(DeviceState { _connected: () })
        } else {
            None
        }
    }

    /// The mouse state that an X pointer reply describes: the pointer is at
    /// (`win_x`, `win_y`), and a button is down where `mask` has its bit.
    pub fn query_pointer(&self, win_x: i32, win_y: i32, mask: u32) -> (state: MouseState)
        ensures
            state.coords == (win_x, win_y),
            forall|b: int|
                0 <= b < 5 ==> #[trigger] state.button_pressed@[b] == (mask & button_mask(b) != 0),
    {
        let button1pressed = mask & BUTTON1_MASK > 0;
        let button2pressed = mask & BUTTON2_MASK > 0;
        let button3pressed = mask & BUTTON3_MASK > 0;
        let button4pressed = mask & BUTTON4_MASK > 0;
        let button5pressed = mask & BUTTON5_MASK > 0;
        let button_pressed = [
            button1pressed,
            button2pressed,
            button3pressed,
            button4pressed,
            button5pressed,
        ];
        MouseState { coords: (win_x, win_y), button_pressed }
    }

    /// The keys that an X keymap reply reports as down, by rising X key code.
    /// A key code below 8, which the X protocol does not use, and one that
    /// the library has no key for give nothing.
    pub fn query_keymap(&self, keymap: &[u8; 32]) -> (keycodes: Vec<Keycode>)
        ensures
            keycodes@ == keys_in_keymap(keymap@, 256),
    {
        let mut keycodes: Vec<Keycode> = Vec::new();
        let mut ix: usize = 0;
        while ix < 32
            invariant
                ix <= 32,
                keycodes@ == keys_in_keymap(keymap@, (ix * 8) as nat),
            decreases 32 - ix,
        {
            let byte = keymap[ix];
            let mut bit: u8 = 0;
            while bit < 8
                invariant
                    bit <= 8,
                    ix < 32,
                    byte == keymap@[ix as int],
                    keycodes@ == keys_in_keymap(keymap@, (ix * 8 + bit) as nat),
                decreases 8 - bit,
            {
                let bitmask: u8 = 1u8 << bit;
                let ghost x = (ix * 8 + bit) as int;
                assert(x / 8 == ix && x % 8 == bit);
                if byte & bitmask != 0 {
                    // An X key code is a kernel key code plus 8.
                    let x11_key: u8 = (ix as u8) * 8 + bit;
                    if x11_key >= 8 {
                        let kernel_key: u8 = x11_key - 8;
                        if let Some(k) = kernel_key_to_keycode(kernel_key) {
                            keycodes.push(k);
                        }
                    }
                }
                bit += 1;
            }
            ix += 1;
        }
        keycodes
    }
}

/// No two kernel key codes stand for the same key.
pub proof fn lemma_kernel_keycode_injective(a: u8, b: u8)
    requires
        kernel_keycode(a) is Some,
        kernel_keycode(a) == kernel_keycode(b),
    ensures
        a == b,
{
}

/// A key is reported as down exactly if the bit of an X key code that stands
/// for it is set; and no key is reported twice.
pub proof fn lemma_keys_in_keymap(keymap: Seq<u8>, n: nat, key: Keycode)
    requires
        n <= 256,
    ensures
        keys_in_keymap(keymap, n).contains(key) <==> exists|x: int|
            0 <= x < n && keymap_bit(keymap, x) && #[trigger] x11_keycode(x) == Some(key),
        keys_in_keymap(keymap, n).no_duplicates(),
    decreases n,
{
    if n > 0 {
        let m = (n - 1) as nat;
        let x = m as int;
        lemma_keys_in_keymap(keymap, m, key);
        let before = keys_in_keymap(keymap, m);
        let all = keys_in_keymap(keymap, n);
        if all.contains(key) {
            let i = choose|i: int| 0 <= i < all.len() && all[i] == key;
            if i < before.len() {
                assert(before[i] == key);
                assert(before.contains(key));
            } else {
                assert(keymap_bit(keymap, x) && x11_keycode(x) == Some(key));
            }
        }
        if exists|y: int| 0 <= y < n && keymap_bit(keymap, y) && #[trigger] x11_keycode(y) == Some(key) {
            let y = choose|y: int|
                0 <= y < n && keymap_bit(keymap, y) && #[trigger] x11_keycode(y) == Some(key);
            if y < m {
                assert(before.contains(key));
                let i = choose|i: int| 0 <= i < before.len() && before[i] == key;
                assert(all[i] == key);
            } else {
                assert(all[all.len() - 1] == key);
            }
        }
        if keymap_bit(keymap, x) && x11_keycode(x) is Some {
            let new_key = x11_keycode(x)->0;
            lemma_keys_in_keymap(keymap, m, new_key);
            if before.contains(new_key) {
                let y = choose|y: int|
                    0 <= y < m && keymap_bit(keymap, y) && #[trigger] x11_keycode(y) == Some(
                        new_key,
                    );
                lemma_kernel_keycode_injective((y - 8) as u8, (x - 8) as u8);
            }
        }
    }
}

} // verus!
