use vstd::prelude::*;
use vstd::arithmetic::div_mod::{lemma_fundamental_div_mod, lemma_mod_bound, lemma_mod_multiples_basic};
use vstd::arithmetic::mul::lemma_mul_is_distributive_add;
use vstd::arithmetic::power2::is_pow2;
use crate::allocator::{AllocError, Allocator};
use crate::flags::{Flags, ZERO};
use crate::layout::{dangling_from_layout, is_power_of_two, Layout};
use crate::region::{copy_prefix, Region};
use crate::stats::AllocStats;

verus! {

/// The byte pattern written into freshly allocated memory when
/// zero-initialization was not requested, so that a read of
/// uninitialized memory is easy to recognize in diagnostics.
pub const POISON_BYTE: u8 = 0xA5;

/// `a` rounded up to the next multiple of `g`.
pub open spec fn spec_align_up(a: int, g: int) -> int
    recommends
        g > 0,
{
    if a % g == 0 {
        a
    } else {
        a + (g - a % g)
    }
}

/// Rounding up to a multiple of a positive `g` lands on a multiple of
/// `g`, at most `g - 1` above the start.
proof fn lemma_align_up(a: int, g: int)
    requires
        0 <= a,
        0 < g,
    ensures
        spec_align_up(a, g) % g == 0,
        a <= spec_align_up(a, g) < a + g,
{
    lemma_mod_bound(a, g);
    if a % g != 0 {
        lemma_fundamental_div_mod(a, g);
        let q = a / g;
        assert(spec_align_up(a, g) == g * (q + 1)) by {
            lemma_mul_is_distributive_add(g, q, 1);
        }
        lemma_mod_multiples_basic(q + 1, g);
    }
}

/// A backend that performs no tracking: the canonical zero-size marker
/// implementation of the contract. The pool behind it is unbounded in
/// this model, so every well-formed request succeeds; its counters are
/// the all-zero snapshot, a valid (if unobservable) implementation. A
/// region it returns owns its backing bytes, and its address is the
/// aligned dangling address of the layout that produced it.
pub struct NoopAllocator;

impl Allocator for NoopAllocator {
    open spec fn spec_stats(&self) -> AllocStats {
        AllocStats::spec_zeroed()
    }

    open spec fn can_free(&self, region: &Region, layout: Layout) -> bool {
        true
    }

    fn allocate(&mut self, layout: Layout, flags: Flags) -> (r: Result<Region, AllocError>)
        ensures
            (r matches Ok(_)) <==> layout.is_allocatable(),
            r matches Ok(region) ==> {
                &&& region@.len() == layout.size
                &&& region.spec_addr() == layout.align
                &&& !flags.requests_zeroing() ==> forall|i: int|
                    0 <= i < region@.len() ==> region@[i] == POISON_BYTE
            },
    {
        if layout.size == 0 {
            return Err(AllocError::ZeroSize);
        }
        if !is_power_of_two(layout.align) {
            return Err(AllocError::InvalidAlignment);
        }
        let addr = dangling_from_layout(layout);
        let fill: u8 = if flags.contains(Flags::from_raw(ZERO)) {
            0u8
        } else {
            POISON_BYTE
        };
        Ok(Region::new_filled(addr, layout.size, fill))
    }

    fn free(&mut self, region: Region, layout: Layout)
        ensures
            final(self).spec_stats() == old(self).spec_stats(),
    {
        let _ = region;
    }

    fn reallocate(
        &mut self,
        region: &mut Region,
        old_layout: Layout,
        new_layout: Layout,
        flags: Flags,
    ) -> (r: Result<(), AllocError>)
        ensures
            (r matches Ok(_)) <==> new_layout.is_allocatable(),
            r matches Ok(_) ==> final(region)@.len() == new_layout.size,
    {
        match self.allocate(new_layout, flags) {
            Err(e) => Err(e),
            Ok(mut fresh) => {
                let n = if region.len() < new_layout.size {
                    region.len()
                } else {
                    new_layout.size
                };
                copy_prefix(&mut fresh, region, n);
                core::mem::swap(region, &mut fresh);
                self.free(fresh, old_layout);
                Ok(())
            },
        }
    }

    fn get_stats(&self) -> (s: AllocStats)
        ensures
            s == AllocStats::spec_zeroed(),
    {
        AllocStats::zeroed()
    }
}

/// A backend that tracks its counters: a bump allocator over a bounded
/// arena of nominal addresses `1 ..= capacity`, intended as the
/// reference tracking/test implementation of the contract. Nothing is
/// ever reused, so a request fails with `OutOfMemory` once the arena is
/// exhausted.
pub struct TrackingAllocator {
    next: usize,
    end: usize,
    stats: AllocStats,
}

impl TrackingAllocator {
    /// The next unused arena address.
    pub closed spec fn spec_next(&self) -> usize {
        self.next
    }

    /// One past the last arena address.
    pub closed spec fn spec_end(&self) -> usize {
        self.end
    }

    /// Structural invariant: the bump pointer stays inside the arena,
    /// the counters are well-formed, and the cumulative allocation total
    /// is bounded by the bytes the bump pointer has passed over, which
    /// keeps every counter update free of overflow.
    #[verifier::type_invariant]
    pub open spec fn inv(self) -> bool {
        &&& 1 <= self.spec_next() <= self.spec_end()
        &&& self.spec_stats().wf()
        &&& self.spec_stats().peak_usage <= self.spec_stats().total_allocated
        &&& self.spec_stats().total_allocated <= self.spec_next() - 1
    }

    /// A request fits the arena: its size still fits between the aligned
    /// bump pointer and the arena end.
    pub open spec fn spec_fits(&self, layout: Layout) -> bool {
        spec_align_up(self.spec_next() as int, layout.align as int) + layout.size
            <= self.spec_end() as int
    }

    /// A fresh tracking backend over an arena of `capacity` bytes, with
    /// all counters zero.
    pub fn with_capacity(capacity: usize) -> (a: TrackingAllocator)
        requires
            capacity <= usize::MAX - 1,
        ensures
            a.spec_stats() == AllocStats::spec_zeroed(),
            a.spec_next() == 1,
            a.spec_end() == capacity + 1,
    {
        TrackingAllocator { next: 1, end: capacity + 1, stats: AllocStats::zeroed() }
    }
}

impl Allocator for TrackingAllocator {
    closed spec fn spec_stats(&self) -> AllocStats {
        self.stats
    }

    open spec fn can_free(&self, region: &Region, layout: Layout) -> bool {
        region@.len() >= layout.size && layout.size <= self.spec_stats().current_usage
    }

    fn allocate(&mut self, layout: Layout, flags: Flags) -> (r: Result<Region, AllocError>)
        ensures
            (r matches Ok(_)) <==> (layout.is_allocatable() && old(self).spec_fits(layout)),
            layout.is_allocatable() && !old(self).spec_fits(layout) ==> r == Err::<Region,
                AllocError,
            >(AllocError::OutOfMemory),
            r matches Err(_) ==> *final(self) == *old(self),
            r matches Ok(region) ==> {
                &&& region@.len() == layout.size
                &&& region.spec_addr() as int == spec_align_up(
                    old(self).spec_next() as int,
                    layout.align as int,
                )
                &&& final(self).spec_next() == region.spec_addr() + layout.size
                &&& final(self).spec_end() == old(self).spec_end()
                &&& final(self).spec_stats().total_allocated == old(
                    self,
                ).spec_stats().total_allocated + layout.size
                &&& final(self).spec_stats().total_freed == old(self).spec_stats().total_freed
                &&& final(self).spec_stats().current_usage == old(
                    self,
                ).spec_stats().current_usage + layout.size
                &&& final(self).spec_stats().peak_usage == vstd::math::max(
                    old(self).spec_stats().peak_usage as int,
                    final(self).spec_stats().current_usage as int,
                )
                &&& !flags.requests_zeroing() ==> forall|i: int|
                    0 <= i < region@.len() ==> region@[i] == POISON_BYTE
            },
    {
        proof {
            use_type_invariant(&*self);
        }
        if layout.size == 0 {
            return Err(AllocError::ZeroSize);
        }
        if !is_power_of_two(layout.align) {
            return Err(AllocError::InvalidAlignment);
        }
        proof {
            reveal(is_pow2);
            lemma_align_up(self.next as int, layout.align as int);
        }
        let rem = self.next % layout.align;
        let pad = if rem == 0 {
            0
        } else {
            layout.align - rem
        };
        let avail = self.end - self.next;
        if pad > avail {
            return Err(AllocError::OutOfMemory);
        }
        let addr = self.next + pad;
        if layout.size > self.end - addr {
            return Err(AllocError::OutOfMemory);
        }
        let fill: u8 = if flags.contains(Flags::from_raw(ZERO)) {
            0u8
        } else {
            POISON_BYTE
        };
        let region = Region::new_filled(addr, layout.size, fill);
        self.next = addr + layout.size;
        let total_allocated = self.stats.total_allocated + layout.size;
        let current_usage = self.stats.current_usage + layout.size;
        let peak_usage = if current_usage > self.stats.peak_usage {
            current_usage
        } else {
            self.stats.peak_usage
        };
        self.stats = AllocStats {
            total_allocated,
            total_freed: self.stats.total_freed,
            peak_usage,
            current_usage,
        };
        Ok(region)
    }

    fn free(&mut self, region: Region, layout: Layout)
        ensures
            final(self).spec_stats().total_freed == old(self).spec_stats().total_freed
                + layout.size,
            final(self).spec_stats().current_usage == old(self).spec_stats().current_usage
                - layout.size,
            final(self).spec_next() == old(self).spec_next(),
            final(self).spec_end() == old(self).spec_end(),
    {
        proof {
            use_type_invariant(&*self);
        }
        let _ = region;
        let total_freed = self.stats.total_freed + layout.size;
        let current_usage = self.stats.current_usage - layout.size;
        self.stats = AllocStats {
            total_allocated: self.stats.total_allocated,
            total_freed,
            peak_usage: self.stats.peak_usage,
            current_usage,
        };
    }

    fn reallocate(
        &mut self,
        region: &mut Region,
        old_layout: Layout,
        new_layout: Layout,
        flags: Flags,
    ) -> (r: Result<(), AllocError>)
        ensures
            (r matches Ok(_)) <==> (new_layout.is_allocatable() && old(self).spec_fits(
                new_layout,
            )),
            r matches Ok(_) ==> {
                &&& final(region)@.len() == new_layout.size
                &&& final(self).spec_stats().total_allocated == old(
                    self,
                ).spec_stats().total_allocated + new_layout.size
                &&& final(self).spec_stats().total_freed == old(self).spec_stats().total_freed
                    + old_layout.size
                &&& final(self).spec_stats().current_usage == old(
                    self,
                ).spec_stats().current_usage + new_layout.size - old_layout.size
            },
    {
        proof {
            use_type_invariant(&*self);
        }
        match self.allocate(new_layout, flags) {
            Err(e) => Err(e),
            Ok(mut fresh) => {
                let n = if region.len() < new_layout.size {
                    region.len()
                } else {
                    new_layout.size
                };
                copy_prefix(&mut fresh, region, n);
                core::mem::swap(region, &mut fresh);
                self.free(fresh, old_layout);
                Ok(())
            },
        }
    }

    fn get_stats(&self) -> (s: AllocStats) {
        self.stats
    }
}

} // verus!
