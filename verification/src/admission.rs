//! Admission control: a counting gate sized to `max_concurrent_tts`.  A unit
//! of work must acquire a permit before starting synthesis and release
//! exactly one permit when it finishes, on every exit path.  The running
//! server suspends a task whose acquisition fails here until a permit is
//! released; queued requests and background prefetch tasks compete for the
//! same pool with no separate lane.
use vstd::prelude::*;

verus! {

/// The counting gate: how many synthesis operations hold a permit right now,
/// against the fixed pool size.
pub struct AdmissionGate {
    pub active: usize,
    pub max: usize,
}

impl AdmissionGate {
    /// Never more permits out than the pool holds.
    pub open spec fn wf(&self) -> bool {
        self.active <= self.max
    }

    /// Whether one more synthesis may start right now.
    pub open spec fn can_admit(&self) -> bool {
        self.active < self.max
    }

    /// A gate for a pool of `max_concurrent_tts` permits, none held.
    pub fn new(max_concurrent_tts: usize) -> (r: AdmissionGate)
        ensures
            r.wf(),
            r.active == 0,
            r.max == max_concurrent_tts,
    {
        AdmissionGate { active: 0, max: max_concurrent_tts }
    }

    /// Draws a permit if the pool is not exhausted.  Succeeds exactly when
    /// fewer than `max` operations are active; a unit of work that is refused
    /// must wait for a release before synthesis may start.
    pub fn try_acquire(&mut self) -> (r: bool)
        requires
            old(self).wf(),
        ensures
            final(self).wf(),
            final(self).max == old(self).max,
            r == old(self).can_admit(),
            r ==> final(self).active == old(self).active + 1,
            !r ==> final(self).active == old(self).active,
    {
        if self.active < self.max {
            self.active = self.active + 1;
            true
        } else {
            false
        }
    }

    /// Returns a permit.  Called unconditionally when a synthesis pipeline
    /// finishes, whether it succeeded or failed.
    pub fn release(&mut self)
        requires
            old(self).wf(),
            old(self).active > 0,
        ensures
            final(self).wf(),
            final(self).max == old(self).max,
            final(self).active == old(self).active - 1,
    {
        self.active = self.active - 1;
    }
}

/// While `max_concurrent_tts` synthesis operations are active, no further
/// work is admitted, and after a single release work is admitted again: the
/// next synthesis call cannot start until a permit is released.
pub proof fn lemma_admission_blocks_at_capacity(full: AdmissionGate, released: AdmissionGate)
    requires
        full.wf(),
        full.active == full.max,
        full.max > 0,
        released.max == full.max,
        released.active == full.active - 1,
    ensures
        !full.can_admit(),
        released.can_admit(),
{
}

} // verus!
