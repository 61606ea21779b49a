use covey::commands::{Hotkey, Key, ParseAcceleratorError};

fn hk(key: Key, ctrl: bool, alt: bool, shift: bool, meta: bool) -> Hotkey {
    Hotkey { key, ctrl, alt, shift, meta }
}

#[test]
fn key_parses_case_insensitively() {
    assert_eq!(Key::from_str("a").unwrap(), Key::A);
    assert_eq!(Key::from_str("A").unwrap(), Key::A);
    assert_eq!(Key::from_str("f12").unwrap(), Key::F12);
    assert_eq!(Key::from_str("F24").unwrap(), Key::F24);
    assert_eq!(Key::from_str("TAB").unwrap(), Key::Tab);
    assert_eq!(Key::from_str("Enter").unwrap(), Key::Enter);
    assert_eq!(Key::from_str("0").unwrap(), Key::Digit0);
    assert_eq!(Key::from_str("\\").unwrap(), Key::Backslash);
    assert_eq!(Key::from_str("'").unwrap(), Key::Apostrophe);
}

#[test]
fn key_unknown_names_fail() {
    let e = Key::from_str("F25").unwrap_err();
    assert_eq!(e.0, "F25");
    assert!(Key::from_str("").is_err());
    assert!(Key::from_str("f0").is_err());
    assert!(Key::from_str("space").is_err());
    assert_eq!(e.to_string(), "unknown key \"F25\"");
}

#[test]
fn key_display_names() {
    assert_eq!(Key::A.to_string(), "A");
    assert_eq!(Key::F10.to_string(), "F10");
    assert_eq!(Key::Tab.to_string(), "Tab");
    assert_eq!(Key::Enter.to_string(), "Enter");
    assert_eq!(Key::Backslash.to_string(), "\\");
    assert_eq!(Key::Digit7.to_string(), "7");
}

#[test]
fn hotkey_parses_modifiers() {
    assert_eq!(
        Hotkey::from_str("ctrl+shift+k").unwrap(),
        hk(Key::K, true, false, true, false)
    );
    assert_eq!(
        Hotkey::from_str("Control+Alt+Enter").unwrap(),
        hk(Key::Enter, true, true, false, false)
    );
    assert_eq!(Hotkey::from_str("meta+/").unwrap(), hk(Key::Slash, false, false, false, true));
    assert_eq!(Hotkey::from_str("enter").unwrap(), hk(Key::Enter, false, false, false, false));
    assert_eq!(Hotkey::from_str("alt+enter").unwrap(), hk(Key::Enter, false, true, false, false));
    assert_eq!(Hotkey::from_str("tab").unwrap(), hk(Key::Tab, false, false, false, false));
}

#[test]
fn hotkey_errors() {
    assert_eq!(
        Hotkey::from_str("ctrl+control+a").unwrap_err(),
        ParseAcceleratorError::IncompatibleModifier("ctrl".to_string(), "control".to_string())
    );
    assert_eq!(
        Hotkey::from_str("Alt+alt+a").unwrap_err(),
        ParseAcceleratorError::IncompatibleModifier("Alt".to_string(), "alt".to_string())
    );
    assert_eq!(
        Hotkey::from_str("super+a").unwrap_err(),
        ParseAcceleratorError::UnknownModifier("super".to_string())
    );
    assert_eq!(
        Hotkey::from_str("ctrl+").unwrap_err(),
        ParseAcceleratorError::UnknownKey(String::new())
    );
    assert_eq!(Hotkey::from_str("").unwrap_err(), ParseAcceleratorError::Empty);
    assert_eq!(Hotkey::from_str("").unwrap_err().to_string(), "no accelerator provided");
    // the key is checked before the modifiers
    assert_eq!(
        Hotkey::from_str("foo+bar").unwrap_err(),
        ParseAcceleratorError::UnknownKey("bar".to_string())
    );
    // a modifier error comes from the first bad modifier
    assert_eq!(
        Hotkey::from_str("x+ctrl+ctrl+a").unwrap_err(),
        ParseAcceleratorError::UnknownModifier("x".to_string())
    );
}

#[test]
fn hotkey_error_messages() {
    assert_eq!(
        ParseAcceleratorError::IncompatibleModifier("ctrl".to_string(), "control".to_string())
            .to_string(),
        "incompatible modifiers \"ctrl\" and \"control\": specify only one of these"
    );
    assert_eq!(
        ParseAcceleratorError::UnknownModifier("super".to_string()).to_string(),
        "unknown modifier \"super\""
    );
    assert_eq!(
        ParseAcceleratorError::UnknownKey("q q".to_string()).to_string(),
        "unknown key \"q q\""
    );
    assert_eq!(ParseAcceleratorError::Empty.to_string(), "no accelerator provided");
}

#[test]
fn hotkey_display() {
    assert_eq!(hk(Key::K, true, false, true, false).to_string(), "Ctrl+Shift+K");
    assert_eq!(hk(Key::Enter, true, true, true, true).to_string(), "Ctrl+Alt+Shift+Meta+Enter");
    assert_eq!(hk(Key::F1, false, false, false, false).to_string(), "F1");
}

const ALL_KEYS: [Key; 73] = [
    Key::Digit0, Key::Digit1, Key::Digit2, Key::Digit3, Key::Digit4, Key::Digit5, Key::Digit6,
    Key::Digit7, Key::Digit8, Key::Digit9, Key::A, Key::B, Key::C, Key::D, Key::E, Key::F,
    Key::G, Key::H, Key::I, Key::J, Key::K, Key::L, Key::M, Key::N, Key::O, Key::P, Key::Q,
    Key::R, Key::S, Key::T, Key::U, Key::V, Key::W, Key::X, Key::Y, Key::Z, Key::F1, Key::F2,
    Key::F3, Key::F4, Key::F5, Key::F6, Key::F7, Key::F8, Key::F9, Key::F10, Key::F11,
    Key::F12, Key::F13, Key::F14, Key::F15, Key::F16, Key::F17, Key::F18, Key::F19, Key::F20,
    Key::F21, Key::F22, Key::F23, Key::F24, Key::Backtick, Key::Hyphen, Key::Equal, Key::Tab,
    Key::LeftBracket, Key::RightBracket, Key::Backslash, Key::Semicolon, Key::Apostrophe,
    Key::Enter, Key::Comma, Key::Period, Key::Slash,
];

#[test]
fn display_then_parse_gives_the_same_hotkey() {
    for key in ALL_KEYS {
        assert_eq!(Key::from_str(&key.to_string()).unwrap(), key);
        for mask in 0..16u8 {
            let h = hk(key, mask & 1 != 0, mask & 2 != 0, mask & 4 != 0, mask & 8 != 0);
            assert_eq!(Hotkey::from_str(&h.to_string()).unwrap(), h);
        }
    }
}

#[test]
fn hotkey_parsing_ignores_case() {
    let a = Hotkey::from_str("CTRL+shift+A").unwrap();
    let b = Hotkey::from_str("ctrl+SHIFT+a").unwrap();
    assert_eq!(a, b);
    assert_eq!(a, hk(Key::A, true, false, true, false));
    assert!(Hotkey::from_str("CTRL+Ctrl+a").is_err());
    assert!(Hotkey::from_str("ctrl+control+A").is_err());
}
