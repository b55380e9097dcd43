use vstd::prelude::*;

verus! {

/// The bits of every named modifier together.
pub const ALL_BITS: u32 = 0x3fff;

/// One modifier identity. Each one owns exactly one bit of a [`Modifiers`] set.
#[derive(Clone, Copy, Debug, PartialEq, Eq, Hash, Structural)]
pub enum Modifier {
    Alt,
    AltGraph,
    CapsLock,
    Control,
    Fn,
    FnLock,
    Meta,
    NumLock,
    ScrollLock,
    Shift,
    Symbol,
    SymbolLock,
    Hyper,
    Super,
}

impl Modifier {
    pub open spec fn spec_bit(self) -> u32 {
        match self {
            Modifier::Alt => 0x1,
            Modifier::AltGraph => 0x2,
            Modifier::CapsLock => 0x4,
            Modifier::Control => 0x8,
            Modifier::Fn => 0x10,
            Modifier::FnLock => 0x20,
            Modifier::Meta => 0x40,
            Modifier::NumLock => 0x80,
            Modifier::ScrollLock => 0x100,
            Modifier::Shift => 0x200,
            Modifier::Symbol => 0x400,
            Modifier::SymbolLock => 0x800,
            Modifier::Hyper => 0x1000,
            Modifier::Super => 0x2000,
        }
    }

    /// The bit that stands for this modifier.
    #[verifier::when_used_as_spec(spec_bit)]
    pub fn bit(self) -> (r: u32)
        ensures
            r == self.spec_bit(),
    {
        match self {
            Modifier::Alt => 0x1,
            Modifier::AltGraph => 0x2,
            Modifier::CapsLock => 0x4,
            Modifier::Control => 0x8,
            Modifier::Fn => 0x10,
            Modifier::FnLock => 0x20,
            Modifier::Meta => 0x40,
            Modifier::NumLock => 0x80,
            Modifier::ScrollLock => 0x100,
            Modifier::Shift => 0x200,
            Modifier::Symbol => 0x400,
            Modifier::SymbolLock => 0x800,
            Modifier::Hyper => 0x1000,
            Modifier::Super => 0x2000,
        }
    }
}

/// The bits present in `a` or in `b`.
pub open spec fn union_of(a: u32, b: u32) -> u32 {
    a | b
}

/// Every bit of `b` is also in `a`.
pub open spec fn includes(a: u32, b: u32) -> bool {
    a & b == b
}

/// A set of modifiers held at the same time, one bit per [`Modifier`].
///
/// Every bit pattern is a valid value; the empty set is the default.
#[derive(Clone, Copy, Debug, PartialEq, Eq, Hash, Structural)]
pub struct Modifiers {
    bits: u32,
}

impl View for Modifiers {
    type V = u32;

    closed spec fn view(&self) -> u32 {
        self.bits
    }
}

impl Default for Modifiers {
    fn default() -> (r: Modifiers)
        ensures
            r@ == 0,
    {
        Modifiers { bits: 0 }
    }
}

impl Modifiers {
    /// The set without any modifier.
    pub fn empty() -> (r: Modifiers)
        ensures
            r@ == 0,
    {
        Modifiers { bits: 0 }
    }

    /// The set of every named modifier.
    pub fn all() -> (r: Modifiers)
        ensures
            r@ == ALL_BITS,
    {
        Modifiers { bits: ALL_BITS }
    }

    /// The set holding `m` alone.
    pub fn from_modifier(m: Modifier) -> (r: Modifiers)
        ensures
            r@ == m.spec_bit(),
    {
        Modifiers { bits: m.bit() }
    }

    /// The named modifiers among `bits`; other bits are dropped.
    pub fn from_bits_truncate(bits: u32) -> (r: Modifiers)
        ensures
            r@ == bits & ALL_BITS,
    {
        Modifiers { bits: bits & ALL_BITS }
    }

    /// The bit pattern of the set.
    pub fn bits(&self) -> (r: u32)
        ensures
            r == self@,
    {
        self.bits
    }

    pub fn is_empty(&self) -> (r: bool)
        ensures
            r == (self@ == 0),
    {
        self.bits == 0
    }

    /// Whether every modifier of `other` is in `self`.
    pub fn contains(&self, other: Modifiers) -> (r: bool)
        ensures
            r == includes(self@, other@),
    {
        self.bits & other.bits == other.bits
    }

    /// The modifiers in either set.
    pub fn union(self, other: Modifiers) -> (r: Modifiers)
        ensures
            r@ == union_of(self@, other@),
    {
        Modifiers { bits: self.bits | other.bits }
    }

    /// The modifiers in both sets.
    pub fn intersection(self, other: Modifiers) -> (r: Modifiers)
        ensures
            r@ == self@ & other@,
    {
        Modifiers { bits: self.bits & other.bits }
    }

    /// Adds the modifiers of `other`.
    pub fn insert(&mut self, other: Modifiers)
        ensures
            final(self)@ == union_of(old(self)@, other@),
    {
        self.bits = self.bits | other.bits;
    }

    /// Takes out the modifiers of `other`.
    pub fn remove(&mut self, other: Modifiers)
        ensures
            final(self)@ == old(self)@ & !other@,
    {
        self.bits = self.bits & !other.bits;
    }
}

/// Two sets are equal exactly when their bit patterns are.
pub proof fn lemma_eq_is_bitwise(a: Modifiers, b: Modifiers)
    ensures
        (a == b) <==> (a@ == b@),
{
}

/// A union contains each of its operands.
pub proof fn lemma_union_contains_operands(a: Modifiers, b: Modifiers)
    ensures
        includes(union_of(a@, b@), a@),
        includes(union_of(a@, b@), b@),
{
    let x = a@;
    let y = b@;
    assert((x | y) & x == x) by (bit_vector);
    assert((x | y) & y == y) by (bit_vector);
}

/// Union does not depend on the order of its operands.
pub proof fn lemma_union_commutative(a: Modifiers, b: Modifiers)
    ensures
        union_of(a@, b@) == union_of(b@, a@),
{
    let x = a@;
    let y = b@;
    assert(x | y == y | x) by (bit_vector);
}

/// Union does not depend on how its operands are grouped.
pub proof fn lemma_union_associative(a: Modifiers, b: Modifiers, c: Modifiers)
    ensures
        union_of(union_of(a@, b@), c@) == union_of(a@, union_of(b@, c@)),
{
    let x = a@;
    let y = b@;
    let z = c@;
    assert((x | y) | z == x | (y | z)) by (bit_vector);
}

/// The empty set is the identity of union.
pub proof fn lemma_union_empty_identity(a: Modifiers)
    ensures
        union_of(a@, 0) == a@,
        union_of(0, a@) == a@,
{
    let x = a@;
    assert(x | 0 == x) by (bit_vector);
    assert(0 | x == x) by (bit_vector);
}

} // verus!
