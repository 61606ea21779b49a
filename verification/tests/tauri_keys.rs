use covey::host::Input;
use covey::tauri_types::{set_input_event, Event};
use covey::commands::{Hotkey as CoreHotkey, Key as CoreKey};
use covey::result_list::ListStyle as CoreListStyle;
use covey::tauri_types::{hotkey_to_comette, key_from_comette, key_to_comette, list_style_from_comette, Hotkey, Key, ListStyle};

// Every core key has a frontend key: the match below is exhaustive.
#[test]
fn one_to_one_keys() {
    let _ = match CoreKey::A {
        CoreKey::Digit0 => Key::Digit0,
        CoreKey::Digit1 => Key::Digit1,
        CoreKey::Digit2 => Key::Digit2,
        CoreKey::Digit3 => Key::Digit3,
        CoreKey::Digit4 => Key::Digit4,
        CoreKey::Digit5 => Key::Digit5,
        CoreKey::Digit6 => Key::Digit6,
        CoreKey::Digit7 => Key::Digit7,
        CoreKey::Digit8 => Key::Digit8,
        CoreKey::Digit9 => Key::Digit9,
        CoreKey::A => Key::A,
        CoreKey::B => Key::B,
        CoreKey::C => Key::C,
        CoreKey::D => Key::D,
        CoreKey::E => Key::E,
        CoreKey::F => Key::F,
        CoreKey::G => Key::G,
        CoreKey::H => Key::H,
        CoreKey::I => Key::I,
        CoreKey::J => Key::J,
        CoreKey::K => Key::K,
        CoreKey::L => Key::L,
        CoreKey::M => Key::M,
        CoreKey::N => Key::N,
        CoreKey::O => Key::O,
        CoreKey::P => Key::P,
        CoreKey::Q => Key::Q,
        CoreKey::R => Key::R,
        CoreKey::S => Key::S,
        CoreKey::T => Key::T,
        CoreKey::U => Key::U,
        CoreKey::V => Key::V,
        CoreKey::W => Key::W,
        CoreKey::X => Key::X,
        CoreKey::Y => Key::Y,
        CoreKey::Z => Key::Z,
        CoreKey::F1 => Key::F1,
        CoreKey::F2 => Key::F2,
        CoreKey::F3 => Key::F3,
        CoreKey::F4 => Key::F4,
        CoreKey::F5 => Key::F5,
        CoreKey::F6 => Key::F6,
        CoreKey::F7 => Key::F7,
        CoreKey::F8 => Key::F8,
        CoreKey::F9 => Key::F9,
        CoreKey::F10 => Key::F10,
        CoreKey::F11 => Key::F11,
        CoreKey::F12 => Key::F12,
        CoreKey::F13 => Key::F13,
        CoreKey::F14 => Key::F14,
        CoreKey::F15 => Key::F15,
        CoreKey::F16 => Key::F16,
        CoreKey::F17 => Key::F17,
        CoreKey::F18 => Key::F18,
        CoreKey::F19 => Key::F19,
        CoreKey::F20 => Key::F20,
        CoreKey::F21 => Key::F21,
        CoreKey::F22 => Key::F22,
        CoreKey::F23 => Key::F23,
        CoreKey::F24 => Key::F24,
        CoreKey::Backtick => Key::Backtick,
        CoreKey::Hyphen => Key::Hyphen,
        CoreKey::Equal => Key::Equal,
        CoreKey::Tab => Key::Tab,
        CoreKey::LeftBracket => Key::LeftBracket,
        CoreKey::RightBracket => Key::RightBracket,
        CoreKey::Backslash => Key::Backslash,
        CoreKey::Semicolon => Key::Semicolon,
        CoreKey::Apostrophe => Key::Apostrophe,
        CoreKey::Enter => Key::Enter,
        CoreKey::Comma => Key::Comma,
        CoreKey::Period => Key::Period,
        CoreKey::Slash => Key::Slash,
    };
}

fn all_core_keys() -> Vec<CoreKey> {
    vec![
        CoreKey::Digit0,
        CoreKey::Digit1,
        CoreKey::Digit2,
        CoreKey::Digit3,
        CoreKey::Digit4,
        CoreKey::Digit5,
        CoreKey::Digit6,
        CoreKey::Digit7,
        CoreKey::Digit8,
        CoreKey::Digit9,
        CoreKey::A,
        CoreKey::B,
        CoreKey::C,
        CoreKey::D,
        CoreKey::E,
        CoreKey::F,
        CoreKey::G,
        CoreKey::H,
        CoreKey::I,
        CoreKey::J,
        CoreKey::K,
        CoreKey::L,
        CoreKey::M,
        CoreKey::N,
        CoreKey::O,
        CoreKey::P,
        CoreKey::Q,
        CoreKey::R,
        CoreKey::S,
        CoreKey::T,
        CoreKey::U,
        CoreKey::V,
        CoreKey::W,
        CoreKey::X,
        CoreKey::Y,
        CoreKey::Z,
        CoreKey::F1,
        CoreKey::F2,
        CoreKey::F3,
        CoreKey::F4,
        CoreKey::F5,
        CoreKey::F6,
        CoreKey::F7,
        CoreKey::F8,
        CoreKey::F9,
        CoreKey::F10,
        CoreKey::F11,
        CoreKey::F12,
        CoreKey::F13,
        CoreKey::F14,
        CoreKey::F15,
        CoreKey::F16,
        CoreKey::F17,
        CoreKey::F18,
        CoreKey::F19,
        CoreKey::F20,
        CoreKey::F21,
        CoreKey::F22,
        CoreKey::F23,
        CoreKey::F24,
        CoreKey::Backtick,
        CoreKey::Hyphen,
        CoreKey::Equal,
        CoreKey::Tab,
        CoreKey::LeftBracket,
        CoreKey::RightBracket,
        CoreKey::Backslash,
        CoreKey::Semicolon,
        CoreKey::Apostrophe,
        CoreKey::Enter,
        CoreKey::Comma,
        CoreKey::Period,
        CoreKey::Slash,
    ]
}

#[test]
fn keys_round_trip() {
    let keys = all_core_keys();
    assert_eq!(keys.len(), 73);
    for k in keys {
        assert_eq!(key_to_comette(key_from_comette(k)), k);
    }
}

#[test]
fn key_conversions_are_named_alike() {
    assert_eq!(key_to_comette(Key::Digit7), CoreKey::Digit7);
    assert_eq!(key_to_comette(Key::Q), CoreKey::Q);
    assert_eq!(key_to_comette(Key::F11), CoreKey::F11);
    assert_eq!(key_to_comette(Key::Slash), CoreKey::Slash);
    assert_eq!(key_from_comette(CoreKey::Backtick), Key::Backtick);
    assert_eq!(key_from_comette(CoreKey::Enter), Key::Enter);
}

#[test]
fn hotkey_converts_key_and_modifiers() {
    let h = Hotkey { key: Key::R, ctrl: true, alt: false, shift: true, meta: false };
    let c = hotkey_to_comette(h);
    assert_eq!(c, CoreHotkey { key: CoreKey::R, ctrl: true, alt: false, shift: true, meta: false });
}

#[test]
fn list_styles_convert() {
    assert_eq!(list_style_from_comette(CoreListStyle::Rows), ListStyle::Rows);
    assert_eq!(list_style_from_comette(CoreListStyle::Grid), ListStyle::Grid);
}

#[test]
fn grid_columns_carry_over() {
    assert_eq!(
        list_style_from_comette(CoreListStyle::GridWithColumns(4)),
        ListStyle::GridWithColumns { columns: 4 }
    );
}

#[test]
fn input_event_keeps_contents_and_selection() {
    let e = set_input_event(Input { contents: "abc".to_string(), selection: (1, 3) });
    assert!(matches!(e, Event::SetInput { contents, selection: (1, 3) } if contents == "abc"));
}
