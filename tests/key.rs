use keyboard_types::{Key, Modifier};

fn ch(s: &str) -> Key {
    Key::Character(s.to_string())
}

#[test]
fn legacy_keycode_is_deterministic() {
    let k = ch("q");
    assert_eq!(k.legacy_keycode(), k.legacy_keycode());
    assert_eq!(ch("q").legacy_keycode(), ch("q").legacy_keycode());
    assert_eq!(Key::Enter.legacy_keycode(), Key::Enter.legacy_keycode());
}

#[test]
fn letters_ignore_case() {
    assert_eq!(ch("a").legacy_keycode(), 65);
    assert_eq!(ch("A").legacy_keycode(), 65);
    assert_eq!(ch("z").legacy_keycode(), 90);
    assert_eq!(ch("Z").legacy_keycode(), 90);
}

#[test]
fn digits_give_ascii() {
    assert_eq!(ch("5").legacy_keycode(), 53);
    assert_eq!(ch("0").legacy_keycode(), 48);
    assert_eq!(ch("9").legacy_keycode(), 57);
}

#[test]
fn space_and_unmapped_text() {
    assert_eq!(ch(" ").legacy_keycode(), 32);
    assert_eq!(ch("!").legacy_keycode(), 0);
    assert_eq!(ch("ab").legacy_keycode(), 0);
    assert_eq!(ch("").legacy_keycode(), 0);
    assert_eq!(ch("é").legacy_keycode(), 0);
}

#[test]
fn punctuation_codes() {
    let table = [
        (";", 186), (":", 186), ("=", 187), ("+", 187), (",", 188), ("<", 188),
        ("-", 189), ("_", 189), (".", 190), (">", 190), ("/", 191), ("?", 191),
        ("`", 192), ("~", 192), ("[", 219), ("{", 219), ("\\", 220), ("|", 220),
        ("]", 221), ("}", 221), ("'", 222), ("\"", 222),
    ];
    for (s, code) in table {
        assert_eq!(ch(s).legacy_keycode(), code, "{}", s);
    }
}

#[test]
fn named_key_codes() {
    let table = [
        (Key::Backspace, 8), (Key::Tab, 9), (Key::Enter, 13), (Key::Shift, 16),
        (Key::Control, 17), (Key::Alt, 18), (Key::CapsLock, 20), (Key::Escape, 27),
        (Key::PageUp, 33), (Key::PageDown, 34), (Key::End, 35), (Key::Home, 36),
        (Key::ArrowLeft, 37), (Key::ArrowUp, 38), (Key::ArrowRight, 39),
        (Key::ArrowDown, 40), (Key::Delete, 46), (Key::F1, 0), (Key::Meta, 0),
        (Key::Unidentified, 0),
    ];
    for (k, code) in table {
        assert_eq!(k.legacy_keycode(), code, "{:?}", k);
    }
}

#[test]
fn key_equality() {
    assert_eq!(ch("s"), ch("s"));
    assert_ne!(ch("s"), ch("S"));
    assert_ne!(ch("s"), Key::Shift);
    assert_eq!(Key::Shift, Key::Shift);
    assert_ne!(Key::Shift, Key::Control);
}

#[test]
fn meets_ignores_ascii_case_of_single_characters() {
    assert!(ch("S").meets(&ch("s")));
    assert!(ch("s").meets(&ch("S")));
    assert!(!ch("s").meets(&ch("d")));
    assert!(!ch("ab").meets(&ch("AB")));
    assert!(ch("ab").meets(&ch("ab")));
    assert!(Key::Enter.meets(&Key::Enter));
    assert!(!Key::Enter.meets(&ch("s")));
}

#[test]
fn held_modifier_of_keys() {
    assert_eq!(Key::Shift.held_modifier(), Some(Modifier::Shift));
    assert_eq!(Key::Control.held_modifier(), Some(Modifier::Control));
    assert_eq!(Key::CapsLock.held_modifier(), None);
    assert_eq!(ch("a").held_modifier(), None);
}
