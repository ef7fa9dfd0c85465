use vstd::prelude::*;

verus! {

/// Raw mask of the modifier that requests the allocated memory be zeroed
/// before the region is returned to the caller.
pub const ZERO: u32 = 0x1;

/// Raw mask of the modifier that permits the backend to block (sleep) while
/// it waits for memory pressure to subside.
pub const MAY_BLOCK: u32 = 0x2;

/// Flags to be used when allocating memory.
///
/// A value is semantically a set of named bits drawn from the registry of
/// raw masks in this module ([`ZERO`], [`MAY_BLOCK`]). Flag values are
/// combined with [`Flags::union`], [`Flags::intersection`] and
/// [`Flags::complement`]; all combinators are pure and total over every
/// 32-bit pattern, and equality is bitwise equality.
#[derive(Clone, Copy, PartialEq, Eq, Structural, Debug)]
pub struct Flags(u32);

impl View for Flags {
    type V = u32;

    closed spec fn view(&self) -> u32 {
        self.0
    }
}

impl Flags {
    /// Build a flag value from its raw 32-bit representation. Every bit
    /// pattern is constructible; the registry only names a few of them.
    pub fn from_raw(raw: u32) -> (f: Flags)
        ensures
            f@ == raw,
    {
        Flags(raw)
    }

    /// Get the raw representation of this flag.
    pub fn as_raw(self) -> (r: u32)
        ensures
            r == self@,
    {
        self.0
    }

    /// The empty flag value: no modifiers requested. It is the identity
    /// element for [`Flags::union`].
    pub fn empty() -> (f: Flags)
        ensures
            f@ == 0u32,
    {
        Flags(0)
    }

    /// The set of bits present in `self` or in `other`.
    pub fn union(self, other: Flags) -> (f: Flags)
        ensures
            f@ == (self@ | other@),
    {
        Flags(self.0 | other.0)
    }

    /// The set of bits present in both `self` and `other`.
    pub fn intersection(self, other: Flags) -> (f: Flags)
        ensures
            f@ == (self@ & other@),
    {
        Flags(self.0 & other.0)
    }

    /// The fixed-width (32-bit) complement of `self`: every bit flipped.
    pub fn complement(self) -> (f: Flags)
        ensures
            f@ == !self@,
    {
        Flags(!self.0)
    }

    /// Check whether `flags` is contained in `self`: every bit set in
    /// `flags` is also set in `self`. This is the subset test, not
    /// equality; it is well-defined even when `self` has unrelated bits.
    pub fn contains(self, flags: Flags) -> (r: bool)
        ensures
            r == (self@ & flags@ == flags@),
    {
        self.intersection(flags) == flags
    }

    /// True iff no modifier bit is set.
    pub fn is_empty(self) -> (r: bool)
        ensures
            r == (self@ == 0u32),
    {
        self.0 == 0
    }

    /// True when the request asks for zero-initialized memory.
    pub open spec fn requests_zeroing(self) -> bool {
        self@ & ZERO == ZERO
    }
}

/// Two flag values are equal exactly when their raw representations are.
pub proof fn lemma_flags_eq(a: Flags, b: Flags)
    ensures
        (a == b) <==> (a@ == b@),
{
}

/// Union of flag sets is commutative.
pub proof fn lemma_union_commutative(a: Flags, b: Flags)
    ensures
        (a@ | b@) == (b@ | a@),
{
    let x = a@;
    let y = b@;
    assert(x | y == y | x) by (bit_vector);
}

/// Intersection is idempotent: intersecting a flag value with itself
/// gives the value back.
pub proof fn lemma_intersection_idempotent(a: Flags)
    ensures
        (a@ & a@) == a@,
{
    let x = a@;
    assert(x & x == x) by (bit_vector);
}

/// Every flag value contains itself.
pub proof fn lemma_contains_self(a: Flags)
    ensures
        a@ & a@ == a@,
{
    lemma_intersection_idempotent(a);
}

/// Every flag value contains the empty value.
pub proof fn lemma_contains_empty(a: Flags)
    ensures
        a@ & 0u32 == 0u32,
{
    let x = a@;
    assert(x & 0u32 == 0u32) by (bit_vector);
}

/// A value united with its complement is the full 32-bit mask, which is
/// never the empty value.
pub proof fn lemma_union_complement_full(a: Flags)
    ensures
        (a@ | !a@) == u32::MAX,
        (a@ | !a@) != 0u32,
{
    let x = a@;
    assert(x | !x == 0xffff_ffffu32) by (bit_vector);
}

/// The zero-request constant itself asks for zeroing.
pub proof fn lemma_zero_mask_requests_zeroing(f: Flags)
    requires
        f@ == ZERO,
    ensures
        f.requests_zeroing(),
{
    let x = f@;
    assert(x == 0x1u32 ==> x & 0x1u32 == 0x1u32) by (bit_vector);
}

/// A request for zeroing survives union with further modifiers.
pub proof fn lemma_union_keeps_zeroing(a: Flags, b: Flags)
    requires
        a.requests_zeroing(),
    ensures
        (a@ | b@) & ZERO == ZERO,
{
    let x = a@;
    let y = b@;
    assert(x & 0x1u32 == 0x1u32 ==> (x | y) & 0x1u32 == 0x1u32) by (bit_vector);
}

/// The complement of the empty value is the all-ones value: complement is
/// taken over the full fixed-width 32-bit representation.
pub proof fn lemma_complement_empty()
    ensures
        !0u32 == u32::MAX,
{
    assert(!0u32 == 0xffff_ffffu32) by (bit_vector);
}

} // verus!
