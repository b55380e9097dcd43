use vstd::prelude::*;
use crate::key::{Key, key_meets, held_modifier_of};
use crate::modifiers::{Modifiers, union_of};
use crate::{KeyState, KeyboardEvent};

verus! {

/// The held modifiers after `e`: pressing a modifier key adds its modifier,
/// releasing it takes the modifier out; other keys change nothing.
pub open spec fn held_after(held: u32, e: KeyboardEvent) -> u32 {
    match held_modifier_of(e.key) {
        Some(m) => if e.state == KeyState::Down {
            union_of(held, m.spec_bit())
        } else {
            held & !m.spec_bit()
        },
        None => held,
    }
}

/// A shortcut: a key together with the exact set of modifiers to hold.
#[derive(Clone, Debug, PartialEq, Eq)]
pub struct Shortcut {
    pub key: Key,
    pub modifiers: Modifiers,
}

/// Recognises shortcuts in a stream of key events.
///
/// It keeps the set of modifier keys held, learned from the events it is fed.
/// It must see every event, modifier keys included, in the order they came;
/// that set is then the one source of truth for the modifiers of a shortcut.
#[derive(Clone, Copy, Debug, PartialEq, Eq, Hash, Structural)]
pub struct ShortcutMatcher {
    held: Modifiers,
}

impl View for ShortcutMatcher {
    type V = u32;

    closed spec fn view(&self) -> u32 {
        self.held@
    }
}

impl ShortcutMatcher {
    /// A matcher that has seen no event: no modifier is held.
    pub fn new() -> (r: ShortcutMatcher)
        ensures
            r@ == 0,
    {
        ShortcutMatcher { held: Modifiers::empty() }
    }

    /// The modifiers held now.
    pub fn held(&self) -> (r: Modifiers)
        ensures
            r@ == self@,
    {
        self.held
    }

    /// Takes in the next event of the stream.
    pub fn update(&mut self, event: &KeyboardEvent)
        ensures
            final(self)@ == held_after(old(self)@, *event),
    {
        match event.key.held_modifier() {
            Some(m) => {
                if event.state == KeyState::Down {
                    self.held.insert(Modifiers::from_modifier(m));
                } else {
                    self.held.remove(Modifiers::from_modifier(m));
                }
            },
            None => {},
        }
    }

    /// Whether `event` fires the shortcut of `required_key` with exactly the
    /// modifiers `required_modifiers`: the event is a press, its key meets
    /// the required one, and the held modifiers are those required.
    pub fn is_shortcut_match(
        &self,
        event: &KeyboardEvent,
        required_key: &Key,
        required_modifiers: Modifiers,
    ) -> (r: bool)
        ensures
            r == (event.state == KeyState::Down && key_meets(event.key, *required_key) && self@
                == required_modifiers@),
    {
        event.state == KeyState::Down && event.key.meets(required_key) && self.held.bits()
            == required_modifiers.bits()
    }

    /// The position of the first of `shortcuts` that `event` fires, if any.
    ///
    /// Shortcuts need their modifiers exactly, so two that fire together ask
    /// for the same modifiers; the earlier one wins.
    pub fn find_shortcut(&self, event: &KeyboardEvent, shortcuts: &[Shortcut]) -> (r: Option<
        usize,
    >)
        ensures
            match r {
                Some(i) => {
                    &&& i < shortcuts@.len()
                    &&& self.fires(*event, shortcuts@[i as int])
                    &&& forall|j: int| 0 <= j < i ==> !self.fires(*event, #[trigger] shortcuts@[j])
                },
                None => forall|j: int|
                    0 <= j < shortcuts@.len() ==> !self.fires(*event, #[trigger] shortcuts@[j]),
            },
    {
        let mut i: usize = 0;
        while i < shortcuts.len()
            invariant
                i <= shortcuts@.len(),
                forall|j: int| 0 <= j < i ==> !self.fires(*event, #[trigger] shortcuts@[j]),
            decreases shortcuts@.len() - i,
        {
            let s = &shortcuts[i];
            if self.is_shortcut_match(event, &s.key, s.modifiers) {
                return Some(i);
            }
            i = i + 1;
        }
        None
    }

    /// Whether `event` fires shortcut `s` with the modifiers held now.
    pub open spec fn fires(self, event: KeyboardEvent, s: Shortcut) -> bool {
        event.state == KeyState::Down && key_meets(event.key, s.key) && self@ == s.modifiers@
    }
}

/// Pressing a modifier key and releasing it again leaves its modifier out of
/// the held set, and every other modifier as it was.
pub proof fn lemma_press_then_release(held: u32, down: KeyboardEvent, up: KeyboardEvent)
    requires
        down.state == KeyState::Down,
        up.state == KeyState::Up,
        held_modifier_of(down.key) is Some,
        held_modifier_of(up.key) == held_modifier_of(down.key),
    ensures
        held_after(held_after(held, down), up) == held & !held_modifier_of(down.key)->0.spec_bit(),
{
    let b = held_modifier_of(down.key)->0.spec_bit();
    assert((held | b) & !b == held & !b) by (bit_vector);
}

impl Default for ShortcutMatcher {
    fn default() -> (r: ShortcutMatcher)
        ensures
            r@ == 0,
    {
        ShortcutMatcher::new()
    }
}

} // verus!
