use keyboard_types::{Modifier, Modifiers};

fn m(x: Modifier) -> Modifiers {
    Modifiers::from_modifier(x)
}

#[test]
fn union_contains_both_operands() {
    let a = m(Modifier::Control);
    let b = m(Modifier::Shift).union(m(Modifier::Alt));
    let u = a.union(b);
    assert!(u.contains(a));
    assert!(u.contains(b));
    assert_eq!(u.bits(), 0x8 | 0x200 | 0x1);
}

#[test]
fn union_commutative_associative_identity() {
    let a = m(Modifier::Control);
    let b = m(Modifier::Meta);
    let c = m(Modifier::Shift);
    assert_eq!(a.union(b), b.union(a));
    assert_eq!(a.union(b).union(c), a.union(b.union(c)));
    assert_eq!(a.union(Modifiers::empty()), a);
    assert_eq!(Modifiers::empty().union(a), a);
    assert_eq!(Modifiers::default(), Modifiers::empty());
}

#[test]
fn contains_needs_every_bit() {
    let ctrl_shift = m(Modifier::Control).union(m(Modifier::Shift));
    assert!(ctrl_shift.contains(m(Modifier::Shift)));
    assert!(!m(Modifier::Control).contains(ctrl_shift));
    assert!(m(Modifier::Control).contains(Modifiers::empty()));
}

#[test]
fn modifier_bits_are_distinct() {
    assert_eq!(Modifier::Alt.bit(), 0x1);
    assert_eq!(Modifier::Control.bit(), 0x8);
    assert_eq!(Modifier::Shift.bit(), 0x200);
    assert_eq!(Modifier::Super.bit(), 0x2000);
    assert_eq!(Modifiers::all().bits(), 0x3fff);
}

#[test]
fn truncate_drops_unknown_bits() {
    assert_eq!(Modifiers::from_bits_truncate(0xffff_ffff), Modifiers::all());
    assert_eq!(Modifiers::from_bits_truncate(0x4000).bits(), 0);
    assert!(Modifiers::from_bits_truncate(0x4000).is_empty());
}

#[test]
fn insert_remove_intersection() {
    let mut s = Modifiers::empty();
    s.insert(m(Modifier::Alt));
    s.insert(m(Modifier::Shift));
    assert_eq!(s.bits(), 0x201);
    s.remove(m(Modifier::Alt));
    assert_eq!(s, m(Modifier::Shift));
    let both = m(Modifier::Alt).union(m(Modifier::Shift));
    assert_eq!(both.intersection(m(Modifier::Shift).union(m(Modifier::Meta))), m(Modifier::Shift));
}
