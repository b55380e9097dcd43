use vstd::prelude::*;
use vstd::string::*;
use crate::modifiers::Modifier;

verus! {

/// The logical meaning of a keystroke, after the keyboard layout is applied.
#[derive(Clone, Debug, Eq, Hash)]
pub enum Key {
    /// A key that produces text: the characters it enters, normally one.
    Character(String),
    /// The key value could not be determined.
    Unidentified,
    // Modifier keys.
    Alt,
    AltGraph,
    CapsLock,
    Control,
    Fn,
    FnLock,
    Meta,
    NumLock,
    ScrollLock,
    Shift,
    Symbol,
    SymbolLock,
    Hyper,
    Super,
    // Whitespace, navigation and editing keys.
    Enter,
    Tab,
    ArrowDown,
    ArrowLeft,
    ArrowRight,
    ArrowUp,
    End,
    Home,
    PageDown,
    PageUp,
    Backspace,
    Clear,
    Delete,
    Insert,
    Redo,
    Undo,
    Escape,
    ContextMenu,
    Pause,
    PrintScreen,
    // Function keys.
    F1,
    F2,
    F3,
    F4,
    F5,
    F6,
    F7,
    F8,
    F9,
    F10,
    F11,
    F12,
}

/// Two keys are the same when they are the same named key, or both enter
/// the same text.
pub open spec fn same_key(a: Key, b: Key) -> bool {
    match a {
        Key::Character(s) => match b {
            Key::Character(t) => s@ == t@,
            _ => false,
        },
        _ => a == b,
    }
}

impl PartialEq for Key {
    fn eq(&self, o: &Key) -> (r: bool)
        ensures
            r == same_key(*self, *o),
    {
        match self {
            Key::Character(s) => match o {
                Key::Character(t) => *s == *t,
                _ => false,
            },
            Key::Unidentified => matches!(o, Key::Unidentified),
            Key::Alt => matches!(o, Key::Alt),
            Key::AltGraph => matches!(o, Key::AltGraph),
            Key::CapsLock => matches!(o, Key::CapsLock),
            Key::Control => matches!(o, Key::Control),
            Key::Fn => matches!(o, Key::Fn),
            Key::FnLock => matches!(o, Key::FnLock),
            Key::Meta => matches!(o, Key::Meta),
            Key::NumLock => matches!(o, Key::NumLock),
            Key::ScrollLock => matches!(o, Key::ScrollLock),
            Key::Shift => matches!(o, Key::Shift),
            Key::Symbol => matches!(o, Key::Symbol),
            Key::SymbolLock => matches!(o, Key::SymbolLock),
            Key::Hyper => matches!(o, Key::Hyper),
            Key::Super => matches!(o, Key::Super),
            Key::Enter => matches!(o, Key::Enter),
            Key::Tab => matches!(o, Key::Tab),
            Key::ArrowDown => matches!(o, Key::ArrowDown),
            Key::ArrowLeft => matches!(o, Key::ArrowLeft),
            Key::ArrowRight => matches!(o, Key::ArrowRight),
            Key::ArrowUp => matches!(o, Key::ArrowUp),
            Key::End => matches!(o, Key::End),
            Key::Home => matches!(o, Key::Home),
            Key::PageDown => matches!(o, Key::PageDown),
            Key::PageUp => matches!(o, Key::PageUp),
            Key::Backspace => matches!(o, Key::Backspace),
            Key::Clear => matches!(o, Key::Clear),
            Key::Delete => matches!(o, Key::Delete),
            Key::Insert => matches!(o, Key::Insert),
            Key::Redo => matches!(o, Key::Redo),
            Key::Undo => matches!(o, Key::Undo),
            Key::Escape => matches!(o, Key::Escape),
            Key::ContextMenu => matches!(o, Key::ContextMenu),
            Key::Pause => matches!(o, Key::Pause),
            Key::PrintScreen => matches!(o, Key::PrintScreen),
            Key::F1 => matches!(o, Key::F1),
            Key::F2 => matches!(o, Key::F2),
            Key::F3 => matches!(o, Key::F3),
            Key::F4 => matches!(o, Key::F4),
            Key::F5 => matches!(o, Key::F5),
            Key::F6 => matches!(o, Key::F6),
            Key::F7 => matches!(o, Key::F7),
            Key::F8 => matches!(o, Key::F8),
            Key::F9 => matches!(o, Key::F9),
            Key::F10 => matches!(o, Key::F10),
            Key::F11 => matches!(o, Key::F11),
            Key::F12 => matches!(o, Key::F12),
        }
    }
}

impl vstd::std_specs::cmp::PartialEqSpecImpl for Key {
    open spec fn obeys_eq_spec() -> bool {
        true
    }

    open spec fn eq_spec(&self, o: &Key) -> bool {
        same_key(*self, *o)
    }
}

/// The legacy code of a key that enters the single character `c`: digits and
/// space give their ASCII value, letters the ASCII value of the capital letter,
/// a fixed set of punctuation its historical code, anything else 0.
pub open spec fn legacy_char_code(c: char) -> u32 {
    if c == ' ' {
        32
    } else if '0' <= c && c <= '9' {
        c as u32
    } else if 'a' <= c && c <= 'z' {
        (c as u32 - 32) as u32
    } else if 'A' <= c && c <= 'Z' {
        c as u32
    } else if c == ';' || c == ':' {
        186
    } else if c == '=' || c == '+' {
        187
    } else if c == ',' || c == '<' {
        188
    } else if c == '-' || c == '_' {
        189
    } else if c == '.' || c == '>' {
        190
    } else if c == '/' || c == '?' {
        191
    } else if c == '`' || c == '~' {
        192
    } else if c == '[' || c == '{' {
        219
    } else if c == '\\' || c == '|' {
        220
    } else if c == ']' || c == '}' {
        221
    } else if c == '\'' || c == '"' {
        222
    } else {
        0
    }
}

/// The legacy numeric code of a key; 0 for a key without one.
pub open spec fn legacy_code_of(k: Key) -> u32 {
    match k {
        Key::Backspace => 8,
        Key::Tab => 9,
        Key::Enter => 13,
        Key::Shift => 16,
        Key::Control => 17,
        Key::Alt => 18,
        Key::CapsLock => 20,
        Key::Escape => 27,
        Key::PageUp => 33,
        Key::PageDown => 34,
        Key::End => 35,
        Key::Home => 36,
        Key::ArrowLeft => 37,
        Key::ArrowUp => 38,
        Key::ArrowRight => 39,
        Key::ArrowDown => 40,
        Key::Delete => 46,
        Key::Character(s) => if s@.len() == 1 {
            legacy_char_code(s@[0])
        } else {
            0
        },
        _ => 0,
    }
}

/// The modifier that a key stands for while it is held down. Lock keys toggle
/// a state rather than being held, so they have none.
pub open spec fn held_modifier_of(k: Key) -> Option<Modifier> {
    match k {
        Key::Alt => Some(Modifier::Alt),
        Key::AltGraph => Some(Modifier::AltGraph),
        Key::Control => Some(Modifier::Control),
        Key::Fn => Some(Modifier::Fn),
        Key::Meta => Some(Modifier::Meta),
        Key::Shift => Some(Modifier::Shift),
        Key::Symbol => Some(Modifier::Symbol),
        Key::Hyper => Some(Modifier::Hyper),
        Key::Super => Some(Modifier::Super),
        _ => None,
    }
}

/// The character code with ASCII capital letters taken to lower case.
pub open spec fn fold_ascii(c: char) -> u32 {
    if 'A' <= c && c <= 'Z' {
        (c as u32 + 32) as u32
    } else {
        c as u32
    }
}

/// Whether a key pressed meets a key that a shortcut asks for: the same key,
/// or single characters that differ at most in ASCII letter case.
pub open spec fn key_meets(pressed: Key, wanted: Key) -> bool {
    same_key(pressed, wanted) || match (pressed, wanted) {
        (Key::Character(s), Key::Character(t)) => s@.len() == 1 && t@.len() == 1
            && fold_ascii(s@[0]) == fold_ascii(t@[0]),
        _ => false,
    }
}

fn legacy_char_code_exec(c: char) -> (r: u32)
    ensures
        r == legacy_char_code(c),
{
    if c == ' ' {
        32
    } else if '0' <= c && c <= '9' {
        c as u32
    } else if 'a' <= c && c <= 'z' {
        c as u32 - 32
    } else if 'A' <= c && c <= 'Z' {
        c as u32
    } else if c == ';' || c == ':' {
        186
    } else if c == '=' || c == '+' {
        187
    } else if c == ',' || c == '<' {
        188
    } else if c == '-' || c == '_' {
        189
    } else if c == '.' || c == '>' {
        190
    } else if c == '/' || c == '?' {
        191
    } else if c == '`' || c == '~' {
        192
    } else if c == '[' || c == '{' {
        219
    } else if c == '\\' || c == '|' {
        220
    } else if c == ']' || c == '}' {
        221
    } else if c == '\'' || c == '"' {
        222
    } else {
        0
    }
}

fn fold_ascii_exec(c: char) -> (r: u32)
    ensures
        r == fold_ascii(c),
{
    if 'A' <= c && c <= 'Z' {
        c as u32 + 32
    } else {
        c as u32
    }
}

/// The only character of `s`, when it has exactly one.
fn single_char(s: &String) -> (r: Option<char>)
    ensures
        r == (if s@.len() == 1 { Some(s@[0]) } else { None::<char> }),
{
    let t = s.as_str();
    if t.unicode_len() == 1 {
        Some(t.get_char(0))
    } else {
        None
    }
}

impl Key {
    /// The *keyCode* of the key, a legacy property of DOM keyboard events:
    /// a fixed value for the named keys that have one, a value from a fixed
    /// table for a single character, and 0 for every other key.
    pub fn legacy_keycode(&self) -> (r: u32)
        ensures
            r == legacy_code_of(*self),
    {
        match self {
            Key::Backspace => 8,
            Key::Tab => 9,
            Key::Enter => 13,
            Key::Shift => 16,
            Key::Control => 17,
            Key::Alt => 18,
            Key::CapsLock => 20,
            Key::Escape => 27,
            Key::PageUp => 33,
            Key::PageDown => 34,
            Key::End => 35,
            Key::Home => 36,
            Key::ArrowLeft => 37,
            Key::ArrowUp => 38,
            Key::ArrowRight => 39,
            Key::ArrowDown => 40,
            Key::Delete => 46,
            Key::Character(s) => match single_char(s) {
                Some(c) => legacy_char_code_exec(c),
                None => 0,
            },
            _ => 0,
        }
    }

    /// The modifier this key stands for while held, if any.
    pub fn held_modifier(&self) -> (r: Option<Modifier>)
        ensures
            r == held_modifier_of(*self),
    {
        match self {
            Key::Alt => Some(Modifier::Alt),
            Key::AltGraph => Some(Modifier::AltGraph),
            Key::Control => Some(Modifier::Control),
            Key::Fn => Some(Modifier::Fn),
            Key::Meta => Some(Modifier::Meta),
            Key::Shift => Some(Modifier::Shift),
            Key::Symbol => Some(Modifier::Symbol),
            Key::Hyper => Some(Modifier::Hyper),
            Key::Super => Some(Modifier::Super),
            _ => None,
        }
    }

    /// Whether this key, pressed, meets the key `wanted` of a shortcut.
    /// Single characters are compared without regard to ASCII letter case.
    pub fn meets(&self, wanted: &Key) -> (r: bool)
        ensures
            r == key_meets(*self, *wanted),
    {
        if self == wanted {
            return true;
        }
        match (self, wanted) {
            (Key::Character(s), Key::Character(t)) => match (single_char(s), single_char(t)) {
                (Some(a), Some(b)) => fold_ascii_exec(a) == fold_ascii_exec(b),
                _ => false,
            },
            _ => false,
        }
    }
}

/// Keys that are equal have the same legacy code.
pub proof fn lemma_legacy_code_deterministic(a: Key, b: Key)
    requires
        same_key(a, b),
    ensures
        legacy_code_of(a) == legacy_code_of(b),
{
}

/// A letter key has the legacy code of the capital letter, whichever case
/// it was entered in.
pub proof fn lemma_legacy_code_letter_case(lower: String, upper: String)
    requires
        lower@.len() == 1,
        upper@.len() == 1,
        'a' <= lower@[0] <= 'z',
        'A' <= upper@[0] <= 'Z',
        upper@[0] as u32 + 32 == lower@[0] as u32,
    ensures
        legacy_code_of(Key::Character(lower)) == upper@[0] as u32,
        legacy_code_of(Key::Character(upper)) == upper@[0] as u32,
{
}

/// A digit key has the ASCII value of the digit as legacy code.
pub proof fn lemma_legacy_code_digit(s: String)
    requires
        s@.len() == 1,
        '0' <= s@[0] <= '9',
    ensures
        legacy_code_of(Key::Character(s)) == s@[0] as u32,
{
}

/// Space has legacy code 32; text of other than one character, and a
/// character outside the table (here `!`), have 0.
pub proof fn lemma_legacy_code_space_and_unmapped(s: String)
    ensures
        s@ == seq![' '] ==> legacy_code_of(Key::Character(s)) == 32,
        s@ == seq!['!'] ==> legacy_code_of(Key::Character(s)) == 0,
        s@.len() != 1 ==> legacy_code_of(Key::Character(s)) == 0,
{
}

} // verus!
