use vstd::prelude::*;

verus! {

/// A snapshot of an allocator backend's counters.
///
/// `total_allocated` and `total_freed` are cumulative and monotonic;
/// `current_usage` is the instantaneous difference between them, and
/// `peak_usage` is the largest value `current_usage` has ever attained.
/// Stats are diagnostic only: no allocation outcome depends on them, and
/// a backend that tracks nothing reports the all-zero snapshot.
#[derive(Clone, Copy, PartialEq, Eq, Structural, Debug)]
pub struct AllocStats {
    /// Cumulative bytes ever allocated through this backend.
    pub total_allocated: usize,
    /// Cumulative bytes ever freed back to this backend.
    pub total_freed: usize,
    /// The maximum value `current_usage` has ever attained.
    pub peak_usage: usize,
    /// Bytes currently outstanding: `total_allocated - total_freed`.
    pub current_usage: usize,
}

impl AllocStats {
    /// Counter well-formedness: nothing is freed that was never
    /// allocated, the current usage is exactly the difference of the two
    /// cumulative counters, and the peak is never below the current
    /// usage.
    pub open spec fn wf(self) -> bool {
        &&& self.total_freed <= self.total_allocated
        &&& self.current_usage == self.total_allocated - self.total_freed
        &&& self.peak_usage >= self.current_usage
    }

    /// The all-zero snapshot reported by backends that track nothing.
    pub open spec fn spec_zeroed() -> AllocStats {
        AllocStats { total_allocated: 0, total_freed: 0, peak_usage: 0, current_usage: 0 }
    }

    /// Build the all-zero snapshot.
    pub fn zeroed() -> (s: AllocStats)
        ensures
            s == AllocStats::spec_zeroed(),
            s.wf(),
    {
        AllocStats { total_allocated: 0, total_freed: 0, peak_usage: 0, current_usage: 0 }
    }
}

} // verus!
