//! The virtual-key codes of Windows that the library knows.

use vstd::prelude::*;

verus! {

pub const VK_LBUTTON: u16 = 1;
pub const VK_RBUTTON: u16 = 2;
pub const VK_MBUTTON: u16 = 4;
pub const VK_XBUTTON1: u16 = 5;
pub const VK_XBUTTON2: u16 = 6;
pub const VK_BACK: u16 = 8;
pub const VK_TAB: u16 = 9;
pub const VK_RETURN: u16 = 13;
pub const VK_CAPITAL: u16 = 20;
pub const VK_ESCAPE: u16 = 27;
pub const VK_SPACE: u16 = 32;
pub const VK_PRIOR: u16 = 33;
pub const VK_NEXT: u16 = 34;
pub const VK_END: u16 = 35;
pub const VK_HOME: u16 = 36;
pub const VK_LEFT: u16 = 37;
pub const VK_UP: u16 = 38;
pub const VK_RIGHT: u16 = 39;
pub const VK_DOWN: u16 = 40;
pub const VK_INSERT: u16 = 45;
pub const VK_DELETE: u16 = 46;
pub const VK_LWIN: u16 = 91;
pub const VK_RWIN: u16 = 92;
pub const VK_NUMPAD0: u16 = 96;
pub const VK_NUMPAD1: u16 = 97;
pub const VK_NUMPAD2: u16 = 98;
pub const VK_NUMPAD3: u16 = 99;
pub const VK_NUMPAD4: u16 = 100;
pub const VK_NUMPAD5: u16 = 101;
pub const VK_NUMPAD6: u16 = 102;
pub const VK_NUMPAD7: u16 = 103;
pub const VK_NUMPAD8: u16 = 104;
pub const VK_NUMPAD9: u16 = 105;
pub const VK_MULTIPLY: u16 = 106;
pub const VK_ADD: u16 = 107;
pub const VK_SUBTRACT: u16 = 109;
pub const VK_DECIMAL: u16 = 110;
pub const VK_DIVIDE: u16 = 111;
pub const VK_F1: u16 = 112;
pub const VK_F2: u16 = 113;
pub const VK_F3: u16 = 114;
pub const VK_F4: u16 = 115;
pub const VK_F5: u16 = 116;
pub const VK_F6: u16 = 117;
pub const VK_F7: u16 = 118;
pub const VK_F8: u16 = 119;
pub const VK_F9: u16 = 120;
pub const VK_F10: u16 = 121;
pub const VK_F11: u16 = 122;
pub const VK_F12: u16 = 123;
pub const VK_F13: u16 = 124;
pub const VK_F14: u16 = 125;
pub const VK_F15: u16 = 126;
pub const VK_F16: u16 = 127;
pub const VK_F17: u16 = 128;
pub const VK_F18: u16 = 129;
pub const VK_F19: u16 = 130;
pub const VK_F20: u16 = 131;
pub const VK_OEM_NEC_EQUAL: u16 = 146;
pub const VK_LSHIFT: u16 = 160;
pub const VK_RSHIFT: u16 = 161;
pub const VK_LCONTROL: u16 = 162;
pub const VK_RCONTROL: u16 = 163;
pub const VK_LMENU: u16 = 164;
pub const VK_RMENU: u16 = 165;
pub const VK_OEM_1: u16 = 186;
pub const VK_OEM_PLUS: u16 = 187;
pub const VK_OEM_COMMA: u16 = 188;
pub const VK_OEM_MINUS: u16 = 189;
pub const VK_OEM_PERIOD: u16 = 190;
pub const VK_OEM_2: u16 = 191;
pub const VK_OEM_3: u16 = 192;
pub const VK_OEM_4: u16 = 219;
pub const VK_OEM_5: u16 = 220;
pub const VK_OEM_6: u16 = 221;
pub const VK_OEM_7: u16 = 222;

} // verus!
