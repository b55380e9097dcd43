//! Types that describe keyboard input in a platform-independent way, and a
//! matcher that recognises application shortcuts in a stream of key events.
//!
//! The naming follows the UI Events conventions.
mod code;
mod key;
mod location;
mod modifiers;
mod shortcuts;

pub use code::Code;
pub use key::Key;
pub use location::Location;
pub use modifiers::{Modifier, Modifiers, ALL_BITS};
pub use shortcuts::{Shortcut, ShortcutMatcher};

use vstd::prelude::*;

verus! {

/// Whether a key is pressed or released.
#[derive(Clone, Copy, Debug, PartialEq, Eq, Hash, Structural)]
pub enum KeyState {
    /// The key is pressed ("keydown").
    Down,
    /// The key is released ("keyup").
    Up,
}

/// A press or a release of one key.
///
/// A release is never a repeat: see [`KeyboardEvent::wf`].
#[derive(Clone, Debug, PartialEq, Eq)]
pub struct KeyboardEvent {
    /// Whether the key is pressed or released.
    pub state: KeyState,
    /// Logical key value.
    pub key: Key,
    /// Physical key position.
    pub code: Code,
    /// Location for keys with several instances on common keyboards.
    pub location: Location,
    /// The modifiers held when the event happened.
    pub modifiers: Modifiers,
    /// True if the key is auto-repeated.
    pub repeat: bool,
    /// Events with this flag are part of a composition; a text editor should
    /// use the composition events instead.
    pub is_composing: bool,
}

impl KeyboardEvent {
    /// A repeat is always a press.
    pub open spec fn wf(&self) -> bool {
        self.repeat ==> self.state == KeyState::Down
    }

    /// An event with the given fields. A repeated release cannot be made.
    pub fn new(
        state: KeyState,
        key: Key,
        code: Code,
        location: Location,
        modifiers: Modifiers,
        repeat: bool,
        is_composing: bool,
    ) -> (r: KeyboardEvent)
        requires
            repeat ==> state == KeyState::Down,
        ensures
            r.state == state,
            r.key == key,
            r.code == code,
            r.location == location,
            r.modifiers == modifiers,
            r.repeat == repeat,
            r.is_composing == is_composing,
            r.wf(),
    {
        KeyboardEvent { state, key, code, location, modifiers, repeat, is_composing }
    }

    /// Whether the event is well formed, for values built field by field.
    pub fn is_well_formed(&self) -> (r: bool)
        ensures
            r == self.wf(),
    {
        !self.repeat || self.state == KeyState::Down
    }
}

/// A well-formed release does not repeat.
pub proof fn lemma_release_never_repeats(e: KeyboardEvent)
    requires
        e.wf(),
        e.state == KeyState::Up,
    ensures
        !e.repeat,
{
}

/// The stage of a composition session.
#[derive(Clone, Copy, Debug, PartialEq, Eq, Hash, Structural)]
pub enum CompositionState {
    /// The session begins ("compositionstart").
    Start,
    /// The composed text changed ("compositionupdate").
    Update,
    /// The session ends; its data is the text to enter ("compositionend").
    End,
}

/// An event of an input method: text entered through dead keys or an IME.
///
/// A session is one `Start`, then zero or more `Update`, then one `End`.
#[derive(Clone, Debug, PartialEq, Eq)]
pub struct CompositionEvent {
    /// The stage of the session.
    pub state: CompositionState,
    /// The composed text so far. May be empty.
    pub data: String,
}

/// The stages of a sequence of composition events.
pub open spec fn stages(events: Seq<CompositionEvent>) -> Seq<CompositionState> {
    events.map_values(|e: CompositionEvent| e.state)
}

/// A whole session: `Start` first, `End` last, `Update` in between.
pub open spec fn is_session(s: Seq<CompositionState>) -> bool {
    &&& s.len() >= 2
    &&& s[0] == CompositionState::Start
    &&& s[s.len() - 1] == CompositionState::End
    &&& forall|i: int| 0 < i < s.len() - 1 ==> #[trigger] s[i] == CompositionState::Update
}

/// Whether `events` form one whole composition session.
pub fn is_composition_session(events: &[CompositionEvent]) -> (r: bool)
    ensures
        r == is_session(stages(events@)),
{
    let ghost st = stages(events@);
    let n = events.len();
    assert(st.len() == n);
    if n < 2 {
        return false;
    }
    if events[0].state != CompositionState::Start || events[n - 1].state != CompositionState::End {
        return false;
    }
    let mut i: usize = 1;
    while i < n - 1
        invariant
            1 <= i <= n - 1,
            n == events@.len(),
            st == stages(events@),
            forall|j: int| 0 < j < i ==> #[trigger] st[j] == CompositionState::Update,
        decreases n - i,
    {
        if events[i].state != CompositionState::Update {
            assert(st[i as int] != CompositionState::Update);
            return false;
        }
        assert(st[i as int] == CompositionState::Update);
        i = i + 1;
    }
    true
}

/// In a session exactly one `Start` comes before every `Update`, and exactly
/// one `End` closes it.
pub proof fn lemma_session_order(s: Seq<CompositionState>)
    requires
        is_session(s),
    ensures
        s[0] == CompositionState::Start,
        forall|i: int| 0 <= i < s.len() && #[trigger] s[i] == CompositionState::Start ==> i == 0,
        forall|i: int|
            0 <= i < s.len() && #[trigger] s[i] == CompositionState::Update ==> 0 < i < s.len()
                - 1,
        s[s.len() - 1] == CompositionState::End,
        forall|i: int| 0 <= i < s.len() && #[trigger] s[i] == CompositionState::End ==> i == s.len()
            - 1,
{
}

} // verus!
