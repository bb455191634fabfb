use egui::{Key, Modifiers};
use egui_android::input::{
    modifiers_from_meta_state, translate_named_key, InputHandler, InputStatus, KeyAction,
    KeyEventOutput, KeyInput, KeyMapChar, META_ALT_ON, META_CTRL_ON, META_META_ON, META_SHIFT_ON,
};
use egui_android::keycodes::{
    to_physical_key, KEYCODE_A, KEYCODE_COPY, KEYCODE_CUT, KEYCODE_DEL, KEYCODE_DPAD_DOWN,
    KEYCODE_DPAD_LEFT, KEYCODE_DPAD_RIGHT, KEYCODE_DPAD_UP, KEYCODE_F1, KEYCODE_F12,
    KEYCODE_FORWARD_DEL, KEYCODE_NUMPAD_0, KEYCODE_NUMPAD_7, KEYCODE_NUMPAD_9,
    KEYCODE_NUMPAD_EQUALS, KEYCODE_NUMPAD_SUBTRACT, KEYCODE_PASTE, KEYCODE_R, KEYCODE_TAB,
    KEYCODE_Z,
};

fn key(code: u32, action: KeyAction) -> KeyInput {
    KeyInput { key_code: code, action, repeat_count: 0, meta_state: 0 }
}

#[test]
fn keycodes_physical_key() {
    assert_eq!(to_physical_key(KEYCODE_R), Some(Key::R));
}

#[test]
fn physical_keys_of_each_group() {
    assert_eq!(KEYCODE_A, 29);
    assert_eq!(to_physical_key(KEYCODE_A), Some(Key::A));
    assert_eq!(to_physical_key(KEYCODE_Z), Some(Key::Z));
    assert_eq!(to_physical_key(KEYCODE_F1), Some(Key::F1));
    assert_eq!(to_physical_key(KEYCODE_F12), Some(Key::F12));
    assert_eq!(to_physical_key(KEYCODE_NUMPAD_0), Some(Key::Num0));
    assert_eq!(to_physical_key(KEYCODE_NUMPAD_7), Some(Key::Num7));
    assert_eq!(to_physical_key(KEYCODE_NUMPAD_9), Some(Key::Num9));
    assert_eq!(to_physical_key(KEYCODE_NUMPAD_SUBTRACT), Some(Key::Minus));
    assert_eq!(to_physical_key(KEYCODE_NUMPAD_EQUALS), Some(Key::Equals));
    assert_eq!(to_physical_key(KEYCODE_DPAD_UP), Some(Key::ArrowUp));
    assert_eq!(to_physical_key(KEYCODE_DPAD_DOWN), Some(Key::ArrowDown));
    assert_eq!(to_physical_key(KEYCODE_DPAD_LEFT), Some(Key::ArrowLeft));
    assert_eq!(to_physical_key(KEYCODE_DPAD_RIGHT), Some(Key::ArrowRight));
    assert_eq!(to_physical_key(KEYCODE_TAB), Some(Key::Tab));
    assert_eq!(to_physical_key(KEYCODE_DEL), Some(Key::Backspace));
    assert_eq!(to_physical_key(KEYCODE_FORWARD_DEL), Some(Key::Delete));
}

#[test]
fn unknown_keycodes_have_no_key() {
    assert_eq!(to_physical_key(0), None);
    assert_eq!(to_physical_key(28), None);
    assert_eq!(to_physical_key(55), None);
    assert_eq!(to_physical_key(KEYCODE_PASTE), None);
    assert_eq!(to_physical_key(u32::MAX), None);
}

#[test]
fn modifiers_from_meta_bits() {
    assert_eq!(modifiers_from_meta_state(0), Modifiers::NONE);
    let all = modifiers_from_meta_state(META_ALT_ON | META_CTRL_ON | META_SHIFT_ON | META_META_ON);
    assert_eq!(
        all,
        Modifiers { alt: true, ctrl: true, shift: true, mac_cmd: false, command: true }
    );
    let shift = modifiers_from_meta_state(META_SHIFT_ON);
    assert!(shift.shift && !shift.alt && !shift.ctrl && !shift.command);
}

#[test]
fn character_key_types_text_on_down_only() {
    let mut h = InputHandler::new();
    let down = key(KEYCODE_A, KeyAction::Down);
    let up = key(KEYCODE_A, KeyAction::Up);
    assert_eq!(
        h.process_key_event(&down, Some(KeyMapChar::Unicode('a')), None),
        (InputStatus::Handled, Some(KeyEventOutput::Text('a')))
    );
    assert_eq!(
        h.process_key_event(&up, Some(KeyMapChar::Unicode('a')), None),
        (InputStatus::Handled, None)
    );
}

#[test]
fn key_without_key_map_is_unhandled() {
    let mut h = InputHandler::new();
    let down = key(KEYCODE_A, KeyAction::Down);
    assert_eq!(h.process_key_event(&down, None, None), (InputStatus::Unhandled, None));
}

#[test]
fn named_keys_and_shortcuts() {
    let mut h = InputHandler::new();
    let tab = KeyInput { key_code: KEYCODE_TAB, action: KeyAction::Down, repeat_count: 2, meta_state: META_SHIFT_ON };
    assert_eq!(
        h.process_key_event(&tab, Some(KeyMapChar::NoChar), None),
        (
            InputStatus::Handled,
            Some(KeyEventOutput::Key {
                key: Key::Tab,
                pressed: true,
                repeat: true,
                modifiers: Modifiers { alt: false, ctrl: false, shift: true, mac_cmd: false, command: false },
            })
        )
    );
    let release = key(KEYCODE_DEL, KeyAction::Up);
    assert_eq!(
        translate_named_key(&release),
        Some(KeyEventOutput::Key { key: Key::Backspace, pressed: false, repeat: false, modifiers: Modifiers::NONE })
    );
    assert_eq!(
        h.process_key_event(&key(KEYCODE_COPY, KeyAction::Down), Some(KeyMapChar::NoChar), None),
        (InputStatus::Handled, Some(KeyEventOutput::Copy))
    );
    assert_eq!(
        h.process_key_event(&key(KEYCODE_CUT, KeyAction::Down), Some(KeyMapChar::NoChar), None),
        (InputStatus::Handled, Some(KeyEventOutput::Cut))
    );
    assert_eq!(
        h.process_key_event(&key(KEYCODE_PASTE, KeyAction::Down), Some(KeyMapChar::NoChar), None),
        (InputStatus::Unhandled, None)
    );
}

#[test]
fn named_key_translation_ignores_pending_accent() {
    let mut plain = InputHandler::new();
    let mut accented = InputHandler::new();
    let dead = key(KEYCODE_A, KeyAction::Down);
    accented.process_key_event(&dead, Some(KeyMapChar::CombiningAccent('\u{301}')), None);
    for code in [KEYCODE_A, KEYCODE_F1, KEYCODE_DPAD_UP, KEYCODE_COPY, 500] {
        let k = KeyInput { key_code: code, action: KeyAction::Down, repeat_count: 1, meta_state: META_CTRL_ON };
        let a = plain.process_key_event(&k, Some(KeyMapChar::NoChar), None);
        let b = accented.process_key_event(&k, Some(KeyMapChar::NoChar), Some('x'));
        assert_eq!(a, b);
    }
    // The accent is still pending after named keys.
    let e = key(KEYCODE_A, KeyAction::Down);
    assert_eq!(accented.dead_key_query(&e, Some(KeyMapChar::Unicode('e'))), Some(('\u{301}', 'e')));
}

#[test]
fn dead_key_composes_with_next_character() {
    let mut h = InputHandler::new();
    let dead = key(KEYCODE_A, KeyAction::Down);
    assert_eq!(
        h.process_key_event(&dead, Some(KeyMapChar::CombiningAccent('\u{301}')), None),
        (InputStatus::Handled, None)
    );
    let base = key(KEYCODE_A, KeyAction::Down);
    assert_eq!(h.dead_key_query(&base, Some(KeyMapChar::Unicode('e'))), Some(('\u{301}', 'e')));
    assert_eq!(
        h.process_key_event(&base, Some(KeyMapChar::Unicode('e')), Some('é')),
        (InputStatus::Handled, Some(KeyEventOutput::Text('é')))
    );
    // The accent was spent: the next character types itself.
    assert_eq!(h.dead_key_query(&base, Some(KeyMapChar::Unicode('e'))), None);
    assert_eq!(
        h.process_key_event(&base, Some(KeyMapChar::Unicode('e')), None),
        (InputStatus::Handled, Some(KeyEventOutput::Text('e')))
    );
}

#[test]
fn dead_key_with_incompatible_character_is_unhandled() {
    let mut h = InputHandler::new();
    let dead = key(KEYCODE_A, KeyAction::Up);
    h.process_key_event(&dead, Some(KeyMapChar::CombiningAccent('\u{308}')), None);
    let base = key(KEYCODE_Z, KeyAction::Down);
    assert_eq!(
        h.process_key_event(&base, Some(KeyMapChar::Unicode('q')), None),
        (InputStatus::Unhandled, None)
    );
    assert_eq!(h.dead_key_query(&base, Some(KeyMapChar::Unicode('q'))), None);
}

#[test]
fn key_release_keeps_pending_accent() {
    let mut h = InputHandler::new();
    h.process_key_event(&key(KEYCODE_A, KeyAction::Down), Some(KeyMapChar::CombiningAccent('^')), None);
    let up = key(KEYCODE_A, KeyAction::Up);
    assert_eq!(h.dead_key_query(&up, Some(KeyMapChar::Unicode('a'))), None);
    assert_eq!(h.process_key_event(&up, Some(KeyMapChar::Unicode('a')), None), (InputStatus::Handled, None));
    let down = key(KEYCODE_A, KeyAction::Down);
    assert_eq!(h.dead_key_query(&down, Some(KeyMapChar::Unicode('a'))), Some(('^', 'a')));
}
