use vstd::prelude::*;
use vstd::arithmetic::div_mod::lemma_mod_self_0;
use vstd::arithmetic::power2::is_pow2;

verus! {

/// A (size, alignment) pair describing a requested memory region.
///
/// A layout is well-formed for allocation when its size is non-zero and
/// its alignment is a power of two; most allocation operations reject
/// anything else. Both degenerate values are constructible, since the
/// contract of each operation states how they are rejected.
#[derive(Clone, Copy, PartialEq, Eq, Structural, Debug)]
pub struct Layout {
    pub size: usize,
    pub align: usize,
}

impl Layout {
    pub fn new(size: usize, align: usize) -> (l: Layout)
        ensures
            l.size == size,
            l.align == align,
    {
        Layout { size, align }
    }

    /// A request described by this layout is well-formed enough to
    /// attempt: non-zero size and power-of-two alignment.
    pub open spec fn is_allocatable(self) -> bool {
        self.size > 0 && is_pow2(self.align as int)
    }
}

/// Decides whether `n` is a power of two, by repeated halving.
pub fn is_power_of_two(n: usize) -> (r: bool)
    ensures
        r == is_pow2(n as int),
{
    if n == 0 {
        proof {
            reveal(is_pow2);
        }
        return false;
    }
    let mut m: usize = n;
    loop
        invariant
            1 <= m,
            is_pow2(n as int) == is_pow2(m as int),
        decreases m,
    {
        if m == 1 {
            proof {
                reveal(is_pow2);
            }
            return true;
        }
        if m % 2 == 1 {
            proof {
                reveal(is_pow2);
            }
            return false;
        }
        proof {
            reveal(is_pow2);
            assert(is_pow2(m as int) == is_pow2(m as int / 2));
        }
        m = m / 2;
    }
}

/// Returns a properly aligned, non-null dangling address for the given
/// layout, suitable as the nominal address of a region that owns no
/// backing store of its own.
pub fn dangling_from_layout(layout: Layout) -> (addr: usize)
    requires
        is_pow2(layout.align as int),
    ensures
        addr == layout.align,
        addr > 0,
        addr as int % layout.align as int == 0,
{
    proof {
        reveal(is_pow2);
        lemma_mod_self_0(layout.align as int);
    }
    layout.align
}

} // verus!
