use kernel_alloc::flags::{Flags, MAY_BLOCK, ZERO};

#[test]
fn union_is_commutative() {
    let a = Flags::from_raw(0b1010);
    let b = Flags::from_raw(0b0110);
    assert!(a.union(b) == b.union(a));
    assert_eq!(a.union(b).as_raw(), 0b1110);
}

#[test]
fn empty_is_identity_for_union() {
    let a = Flags::from_raw(0xDEAD_BEEF);
    assert!(a.union(Flags::empty()) == a);
    assert!(Flags::empty().union(a) == a);
}

#[test]
fn intersection_is_idempotent() {
    let a = Flags::from_raw(0b1011);
    assert!(a.intersection(a) == a);
}

#[test]
fn contains_self_and_empty() {
    let a = Flags::from_raw(0b1001);
    assert!(a.contains(a));
    assert!(a.contains(Flags::empty()));
}

#[test]
fn contains_is_subset_not_equality() {
    let zero = Flags::from_raw(ZERO);
    let both = Flags::from_raw(ZERO).union(Flags::from_raw(MAY_BLOCK));
    assert!(both.contains(zero));
    assert!(!zero.contains(both));
    assert!(!zero.contains(Flags::from_raw(MAY_BLOCK)));
}

#[test]
fn union_with_complement_is_never_empty() {
    let a = Flags::from_raw(0x1234_5678);
    let full = a.union(a.complement());
    assert!(!full.is_empty());
    assert_eq!(full.as_raw(), u32::MAX);
}

#[test]
fn complement_of_empty_is_all_ones() {
    assert_eq!(Flags::empty().complement().as_raw(), u32::MAX);
}

#[test]
fn is_empty_only_on_identity() {
    assert!(Flags::empty().is_empty());
    assert!(Flags::from_raw(0).is_empty());
    assert!(!Flags::from_raw(1).is_empty());
    assert!(!Flags::from_raw(ZERO).is_empty());
}

#[test]
fn raw_round_trip() {
    assert_eq!(Flags::from_raw(0xABCD_0123).as_raw(), 0xABCD_0123);
    assert_eq!(Flags::from_raw(ZERO).as_raw(), 0x1);
    assert_eq!(Flags::from_raw(MAY_BLOCK).as_raw(), 0x2);
}

#[test]
fn reserved_bits_are_constructible() {
    // The registry constrains which named constants exist, not which
    // raw values can be built: every 32-bit pattern is a flag value.
    let odd = Flags::from_raw(0x8000_0000);
    assert!(odd.contains(odd));
    assert_eq!(odd.intersection(Flags::from_raw(ZERO)).as_raw(), 0);
}
