use gptranslate::hotkey::{parse_hotkey, Hotkey, HotkeyModifiers, KeyCode};

fn mods(control: bool, alt: bool, shift: bool, meta: bool) -> HotkeyModifiers {
    HotkeyModifiers { control, alt, shift, meta }
}

#[test]
fn default_hotkey_parses() {
    assert_eq!(
        parse_hotkey("CommandOrControl+Alt+C"),
        Some(Hotkey { modifiers: mods(true, true, false, false), code: KeyCode::KeyC })
    );
}

#[test]
fn single_key_without_modifiers() {
    assert_eq!(
        parse_hotkey("F5"),
        Some(Hotkey { modifiers: mods(false, false, false, false), code: KeyCode::F5 })
    );
    assert_eq!(
        parse_hotkey("x"),
        Some(Hotkey { modifiers: mods(false, false, false, false), code: KeyCode::KeyX })
    );
}

#[test]
fn digits_and_special_keys() {
    assert_eq!(
        parse_hotkey("Ctrl+Shift+1"),
        Some(Hotkey { modifiers: mods(true, false, true, false), code: KeyCode::Digit1 })
    );
    assert_eq!(
        parse_hotkey("Super+Space"),
        Some(Hotkey { modifiers: mods(false, false, false, true), code: KeyCode::Space })
    );
    assert_eq!(
        parse_hotkey("alt+pagedown"),
        Some(Hotkey { modifiers: mods(false, true, false, false), code: KeyCode::PageDown })
    );
}

#[test]
fn parts_are_trimmed() {
    assert_eq!(
        parse_hotkey(" ctrl + alt + c "),
        Some(Hotkey { modifiers: mods(true, true, false, false), code: KeyCode::KeyC })
    );
}

#[test]
fn unknown_modifier_is_rejected() {
    assert_eq!(parse_hotkey("Hyper+C"), None);
}

#[test]
fn unknown_key_is_rejected() {
    assert_eq!(parse_hotkey("Ctrl+NoSuchKey"), None);
    assert_eq!(parse_hotkey("Ctrl+!"), None);
    assert_eq!(parse_hotkey(""), None);
}
