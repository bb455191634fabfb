//! Android key codes and the physical keys of the toolkit that they stand for.

use egui::Key;
use vstd::prelude::*;

verus! {

// Key codes of Android's `KeyEvent`, as the platform numbers them.
pub const KEYCODE_DPAD_UP: u32 = 19;
pub const KEYCODE_DPAD_DOWN: u32 = 20;
pub const KEYCODE_DPAD_LEFT: u32 = 21;
pub const KEYCODE_DPAD_RIGHT: u32 = 22;
pub const KEYCODE_A: u32 = 29;
pub const KEYCODE_B: u32 = 30;
pub const KEYCODE_C: u32 = 31;
pub const KEYCODE_D: u32 = 32;
pub const KEYCODE_E: u32 = 33;
pub const KEYCODE_F: u32 = 34;
pub const KEYCODE_G: u32 = 35;
pub const KEYCODE_H: u32 = 36;
pub const KEYCODE_I: u32 = 37;
pub const KEYCODE_J: u32 = 38;
pub const KEYCODE_K: u32 = 39;
pub const KEYCODE_L: u32 = 40;
pub const KEYCODE_M: u32 = 41;
pub const KEYCODE_N: u32 = 42;
pub const KEYCODE_O: u32 = 43;
pub const KEYCODE_P: u32 = 44;
pub const KEYCODE_Q: u32 = 45;
pub const KEYCODE_R: u32 = 46;
pub const KEYCODE_S: u32 = 47;
pub const KEYCODE_T: u32 = 48;
pub const KEYCODE_U: u32 = 49;
pub const KEYCODE_V: u32 = 50;
pub const KEYCODE_W: u32 = 51;
pub const KEYCODE_X: u32 = 52;
pub const KEYCODE_Y: u32 = 53;
pub const KEYCODE_Z: u32 = 54;
pub const KEYCODE_TAB: u32 = 61;
pub const KEYCODE_DEL: u32 = 67;
pub const KEYCODE_FORWARD_DEL: u32 = 112;
pub const KEYCODE_F1: u32 = 131;
pub const KEYCODE_F2: u32 = 132;
pub const KEYCODE_F3: u32 = 133;
pub const KEYCODE_F4: u32 = 134;
pub const KEYCODE_F5: u32 = 135;
pub const KEYCODE_F6: u32 = 136;
pub const KEYCODE_F7: u32 = 137;
pub const KEYCODE_F8: u32 = 138;
pub const KEYCODE_F9: u32 = 139;
pub const KEYCODE_F10: u32 = 140;
pub const KEYCODE_F11: u32 = 141;
pub const KEYCODE_F12: u32 = 142;
pub const KEYCODE_NUMPAD_0: u32 = 144;
pub const KEYCODE_NUMPAD_1: u32 = 145;
pub const KEYCODE_NUMPAD_2: u32 = 146;
pub const KEYCODE_NUMPAD_3: u32 = 147;
pub const KEYCODE_NUMPAD_4: u32 = 148;
pub const KEYCODE_NUMPAD_5: u32 = 149;
pub const KEYCODE_NUMPAD_6: u32 = 150;
pub const KEYCODE_NUMPAD_7: u32 = 151;
pub const KEYCODE_NUMPAD_8: u32 = 152;
pub const KEYCODE_NUMPAD_9: u32 = 153;
pub const KEYCODE_NUMPAD_SUBTRACT: u32 = 156;
pub const KEYCODE_NUMPAD_EQUALS: u32 = 161;
pub const KEYCODE_CUT: u32 = 277;
pub const KEYCODE_COPY: u32 = 278;
pub const KEYCODE_PASTE: u32 = 279;

/// The toolkit key that a host key code names, where it names one.
pub open spec fn physical_key(code: u32) -> Option<Key> {
    match code {
        19 => Some(Key::ArrowUp),
        20 => Some(Key::ArrowDown),
        21 => Some(Key::ArrowLeft),
        22 => Some(Key::ArrowRight),
        29 => Some(Key::A),
        30 => Some(Key::B),
        31 => Some(Key::C),
        32 => Some(Key::D),
        33 => Some(Key::E),
        34 => Some(Key::F),
        35 => Some(Key::G),
        36 => Some(Key::H),
        37 => Some(Key::I),
        38 => Some(Key::J),
        39 => Some(Key::K),
        40 => Some(Key::L),
        41 => Some(Key::M),
        42 => Some(Key::N),
        43 => Some(Key::O),
        44 => Some(Key::P),
        45 => Some(Key::Q),
        46 => Some(Key::R),
        47 => Some(Key::S),
        48 => Some(Key::T),
        49 => Some(Key::U),
        50 => Some(Key::V),
        51 => Some(Key::W),
        52 => Some(Key::X),
        53 => Some(Key::Y),
        54 => Some(Key::Z),
        61 => Some(Key::Tab),
        67 => Some(Key::Backspace),
        112 => Some(Key::Delete),
        131 => Some(Key::F1),
        132 => Some(Key::F2),
        133 => Some(Key::F3),
        134 => Some(Key::F4),
        135 => Some(Key::F5),
        136 => Some(Key::F6),
        137 => Some(Key::F7),
        138 => Some(Key::F8),
        139 => Some(Key::F9),
        140 => Some(Key::F10),
        141 => Some(Key::F11),
        142 => Some(Key::F12),
        144 => Some(Key::Num0),
        145 => Some(Key::Num1),
        146 => Some(Key::Num2),
        147 => Some(Key::Num3),
        148 => Some(Key::Num4),
        149 => Some(Key::Num5),
        150 => Some(Key::Num6),
        151 => Some(Key::Num7),
        152 => Some(Key::Num8),
        153 => Some(Key::Num9),
        156 => Some(Key::Minus),
        161 => Some(Key::Equals),
        _ => None,
    }
}

/// The letter key at `i` in alphabetical order.
fn letter_key(i: u32) -> (r: Key)
    requires
        i < 26,
    ensures
        Some(r) == physical_key((KEYCODE_A + i) as u32),
{
    match i {
        0 => Key::A,
        1 => Key::B,
        2 => Key::C,
        3 => Key::D,
        4 => Key::E,
        5 => Key::F,
        6 => Key::G,
        7 => Key::H,
        8 => Key::I,
        9 => Key::J,
        10 => Key::K,
        11 => Key::L,
        12 => Key::M,
        13 => Key::N,
        14 => Key::O,
        15 => Key::P,
        16 => Key::Q,
        17 => Key::R,
        18 => Key::S,
        19 => Key::T,
        20 => Key::U,
        21 => Key::V,
        22 => Key::W,
        23 => Key::X,
        24 => Key::Y,
        25 => Key::Z,
        _ => Key::Z,
    }
}

/// The function key `F1 + i`.
fn function_key(i: u32) -> (r: Key)
    requires
        i < 12,
    ensures
        Some(r) == physical_key((KEYCODE_F1 + i) as u32),
{
    match i {
        0 => Key::F1,
        1 => Key::F2,
        2 => Key::F3,
        3 => Key::F4,
        4 => Key::F5,
        5 => Key::F6,
        6 => Key::F7,
        7 => Key::F8,
        8 => Key::F9,
        9 => Key::F10,
        10 => Key::F11,
        _ => Key::F12,
    }
}

/// The digit key for the numeric-keypad digit `i`.
fn digit_key(i: u32) -> (r: Key)
    requires
        i < 10,
    ensures
        Some(r) == physical_key((KEYCODE_NUMPAD_0 + i) as u32),
{
    match i {
        0 => Key::Num0,
        1 => Key::Num1,
        2 => Key::Num2,
        3 => Key::Num3,
        4 => Key::Num4,
        5 => Key::Num5,
        6 => Key::Num6,
        7 => Key::Num7,
        8 => Key::Num8,
        _ => Key::Num9,
    }
}

/// Looks up the toolkit key for a host key code.
///
/// Letters, function keys, the numeric keypad, the arrow keys, tab and the two
/// delete keys are known; every other code gives `None`.
pub fn to_physical_key(keycode: u32) -> (r: Option<Key>)
    ensures
        r == physical_key(keycode),
{
    if KEYCODE_A <= keycode && keycode <= KEYCODE_Z {
        Some(letter_key(keycode - KEYCODE_A))
    } else if KEYCODE_F1 <= keycode && keycode <= KEYCODE_F12 {
        Some(function_key(keycode - KEYCODE_F1))
    } else if KEYCODE_NUMPAD_0 <= keycode && keycode <= KEYCODE_NUMPAD_9 {
        Some(digit_key(keycode - KEYCODE_NUMPAD_0))
    } else if keycode == KEYCODE_DPAD_UP {
        Some(Key::ArrowUp)
    } else if keycode == KEYCODE_DPAD_DOWN {
        Some(Key::ArrowDown)
    } else if keycode == KEYCODE_DPAD_LEFT {
        Some(Key::ArrowLeft)
    } else if keycode == KEYCODE_DPAD_RIGHT {
        Some(Key::ArrowRight)
    } else if keycode == KEYCODE_TAB {
        Some(Key::Tab)
    } else if keycode == KEYCODE_DEL {
        Some(Key::Backspace)
    } else if keycode == KEYCODE_FORWARD_DEL {
        Some(Key::Delete)
    } else if keycode == KEYCODE_NUMPAD_SUBTRACT {
        Some(Key::Minus)
    } else if keycode == KEYCODE_NUMPAD_EQUALS {
        Some(Key::Equals)
    } else {
        None
    }
}

} // verus!
