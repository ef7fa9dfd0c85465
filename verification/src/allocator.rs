use vstd::prelude::*;
use vstd::arithmetic::power2::is_pow2;
use crate::flags::Flags;
use crate::layout::{is_power_of_two, Layout};
use crate::region::Region;
use crate::stats::AllocStats;

verus! {

/// Indicates an allocation error.
///
/// The taxonomy is closed: a backend must coerce any internal failure
/// into one of these three causes before returning to the caller.
#[derive(Clone, Copy, PartialEq, Eq, Structural, Debug)]
pub enum AllocError {
    /// The backend could not satisfy the request with available memory.
    OutOfMemory,
    /// The requested alignment was not a power of two, or was otherwise
    /// unsupported by the backend.
    InvalidAlignment,
    /// The request size was zero where the operation forbids it.
    ZeroSize,
}

/// The allocator capability contract.
///
/// An implementation of [`Allocator`] can allocate, re-allocate and free
/// memory regions described by a [`Layout`]. The contract is a stateless
/// capability set: the canonical implementation is a zero-size marker
/// type selected at compile time, so every call compiles to a direct
/// call with no runtime dispatch.
///
/// Every backend exposes its counters through the abstract
/// [`Allocator::spec_stats`], and which regions it accepts back through
/// [`Allocator::can_free`]. The method contracts below hold of every
/// backend: the three failure causes are reported exactly as described,
/// a successful allocation returns an aligned region of at least the
/// requested size (zeroed when the request asks for it), counters stay
/// well-formed and the cumulative ones monotonic, and the recorded peak
/// usage never decreases.
pub trait Allocator: Sized {
    /// Default capacity hint for owning containers built on a backend.
    const DEFAULT_CAPACITY: usize = 4096;

    /// The mathematical value of the backend's counters.
    spec fn spec_stats(&self) -> AllocStats;

    /// Which (region, layout) pairs may be handed back to this backend.
    /// A successful `allocate` establishes it for the returned region and
    /// the layout that produced it.
    spec fn can_free(&self, region: &Region, layout: Layout) -> bool;

    /// Pure pre-flight check: true iff the layout is well-formed enough
    /// to attempt an allocation. It does not guarantee that a subsequent
    /// allocation will succeed, since memory may still be exhausted.
    fn can_allocate(&self, layout: Layout) -> (r: bool)
        ensures
            r == layout.is_allocatable(),
    {
        layout.size > 0 && is_power_of_two(layout.align)
    }

    /// The primary entry point. On success the caller gains exclusive
    /// ownership of a region whose address satisfies `layout.align` and
    /// whose size is at least `layout.size`; the region must eventually
    /// be released through the matching [`Allocator::free`] of the same
    /// backend. Fails with `ZeroSize` on a zero-size layout, with
    /// `InvalidAlignment` on a non-power-of-two alignment, and with
    /// `OutOfMemory` when the backend cannot satisfy a well-formed
    /// request. A failed allocation leaves the counters unchanged.
    fn allocate(&mut self, layout: Layout, flags: Flags) -> (r: Result<Region, AllocError>)
        requires
            old(self).spec_stats().wf(),
        ensures
            final(self).spec_stats().wf(),
            layout.size == 0 ==> r == Err::<Region, AllocError>(AllocError::ZeroSize),
            layout.size > 0 && !is_pow2(layout.align as int) ==> r == Err::<Region, AllocError>(
                AllocError::InvalidAlignment,
            ),
            r matches Err(_) ==> final(self).spec_stats() == old(self).spec_stats(),
            r matches Ok(region) ==> {
                &&& layout.is_allocatable()
                &&& region@.len() >= layout.size
                &&& region.spec_addr() > 0
                &&& region.spec_addr() as int % layout.align as int == 0
                &&& flags.requests_zeroing() ==> forall|i: int|
                    0 <= i < region@.len() ==> region@[i] == 0
                &&& final(self).can_free(&region, layout)
            },
            final(self).spec_stats().total_allocated >= old(self).spec_stats().total_allocated,
            final(self).spec_stats().total_freed == old(self).spec_stats().total_freed,
            final(self).spec_stats().peak_usage >= old(self).spec_stats().peak_usage,
    ;

    /// Release a previously allocated region back to the backend. The
    /// caller must hand back a region this backend produced, with the
    /// layout that produced it; [`Allocator::can_free`] captures that
    /// obligation. Freeing never allocates, and never lowers the
    /// recorded peak.
    fn free(&mut self, region: Region, layout: Layout)
        requires
            old(self).spec_stats().wf(),
            old(self).can_free(&region, layout),
        ensures
            final(self).spec_stats().wf(),
            final(self).spec_stats().total_allocated == old(self).spec_stats().total_allocated,
            final(self).spec_stats().total_freed >= old(self).spec_stats().total_freed,
            final(self).spec_stats().peak_usage == old(self).spec_stats().peak_usage,
    ;

    /// Logically equivalent to allocate-new, copy the first
    /// `min(old_layout.size, new_layout.size)` bytes, free-old. On
    /// failure the original region is untouched and remains owned by the
    /// caller, and the counters are unchanged; the failure causes are
    /// reported exactly as for [`Allocator::allocate`], judged against
    /// `new_layout`.
    fn reallocate(
        &mut self,
        region: &mut Region,
        old_layout: Layout,
        new_layout: Layout,
        flags: Flags,
    ) -> (r: Result<(), AllocError>)
        requires
            old(self).spec_stats().wf(),
            old(self).can_free(old(region), old_layout),
        ensures
            final(self).spec_stats().wf(),
            new_layout.size == 0 ==> r == Err::<(), AllocError>(AllocError::ZeroSize),
            new_layout.size > 0 && !is_pow2(new_layout.align as int) ==> r == Err::<(),
                AllocError,
            >(AllocError::InvalidAlignment),
            r matches Err(_) ==> {
                &&& *final(region) == *old(region)
                &&& final(self).spec_stats() == old(self).spec_stats()
            },
            r matches Ok(_) ==> {
                &&& new_layout.is_allocatable()
                &&& final(region)@.len() >= new_layout.size
                &&& final(region).spec_addr() > 0
                &&& final(region).spec_addr() as int % new_layout.align as int == 0
                &&& forall|i: int|
                    0 <= i < old(region)@.len() && i < new_layout.size ==> final(region)@[i]
                        == old(region)@[i]
                &&& flags.requests_zeroing() ==> forall|i: int|
                    old(region)@.len() <= i < final(region)@.len() ==> final(region)@[i] == 0
                &&& final(self).can_free(final(region), new_layout)
            },
            final(self).spec_stats().total_allocated >= old(self).spec_stats().total_allocated,
            final(self).spec_stats().total_freed >= old(self).spec_stats().total_freed,
            final(self).spec_stats().peak_usage >= old(self).spec_stats().peak_usage,
    ;

    /// Overwrite the first `size` bytes of the region with zeros,
    /// leaving the remainder and the address unchanged. Backends reuse
    /// this inside `allocate` when zero-initialization is requested.
    fn zero_memory(region: &mut Region, size: usize)
        requires
            size <= old(region)@.len(),
        ensures
            final(region).spec_addr() == old(region).spec_addr(),
            final(region)@.len() == old(region)@.len(),
            forall|i: int| 0 <= i < size ==> final(region)@[i] == 0,
            forall|i: int| size <= i < final(region)@.len() ==> final(region)@[i] == old(region)@[i],
    {
        let mut i: usize = 0;
        let ghost orig = *region;
        while i < size
            invariant
                i <= size,
                size <= region@.len(),
                region@.len() == orig@.len(),
                region.spec_addr() == orig.spec_addr(),
                forall|j: int| 0 <= j < i ==> region@[j] == 0,
                forall|j: int| i <= j < region@.len() ==> region@[j] == orig@[j],
            decreases size - i,
        {
            region.write_byte(i, 0);
            i = i + 1;
        }
    }

    /// A snapshot of the backend's counters. The default implementation,
    /// for backends that track nothing, reports the all-zero snapshot.
    fn get_stats(&self) -> (s: AllocStats)
        ensures
            s == self.spec_stats(),
    ;
}

} // verus!
