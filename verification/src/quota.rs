//! Resource ceilings for a single evaluation session, and the live counters
//! that enforce them cooperatively.
//!
//! The interpreter running a submission is not preemptible from outside, so
//! every limit here is checked cooperatively from within the evaluation:
//! an allocation counter on each allocation, a call-depth counter on each
//! call, and a wall-clock check polled at safepoints inside the evaluation
//! loop.  Each decision function below only answers "continue or abort";
//! tearing the session down is the caller's job.

use vstd::prelude::*;

verus! {

/// The ceilings enforced on one evaluation session.
#[derive(Clone, Copy, PartialEq, Eq, Structural)]
pub struct Quota {
    /// Upper bound on bytes the session may hold live at once.
    pub memory_ceiling_bytes: usize,
    /// Upper bound on interpreter call frames on the session stack.
    pub stack_ceiling_frames: u32,
    /// Upper bound on wall-clock milliseconds a session may run.
    pub wall_clock_ceiling_ms: u64,
}

impl Quota {
    /// The process-wide default ceilings.
    pub fn default_quota() -> (q: Quota)
        ensures
            q.memory_ceiling_bytes == 2_000_000,
            q.stack_ceiling_frames == 10_000,
            q.wall_clock_ceiling_ms == 10_000,
    {
        Quota {
            memory_ceiling_bytes: 2_000_000,
            stack_ceiling_frames: 10_000,
            wall_clock_ceiling_ms: 10_000,
        }
    }
}

/// The wall-clock abort decision polled at safepoints: once the elapsed time
/// reaches the ceiling, the next poll answers "abort".  The poll itself never
/// performs teardown.
pub fn wall_clock_expired(elapsed_ms: u64, ceiling_ms: u64) -> (expired: bool)
    ensures
        expired == (elapsed_ms >= ceiling_ms),
{
    elapsed_ms >= ceiling_ms
}

/// Live quota counters owned by exactly one session.
///
/// `memory_in_use` tracks the session's live allocations and `call_depth`
/// its interpreter stack depth; both stay at or under their ceilings.
pub struct SessionMeter {
    pub quota: Quota,
    pub memory_in_use: usize,
    pub call_depth: u32,
}

impl SessionMeter {
    /// The counters never pass their ceilings.
    pub open spec fn wf(self) -> bool {
        &&& self.memory_in_use <= self.quota.memory_ceiling_bytes
        &&& self.call_depth <= self.quota.stack_ceiling_frames
    }

    /// Fresh counters for a new session.
    pub fn new(quota: Quota) -> (m: SessionMeter)
        ensures
            m.wf(),
            m.quota == quota,
            m.memory_in_use == 0,
            m.call_depth == 0,
    {
        SessionMeter { quota, memory_in_use: 0, call_depth: 0 }
    }

    /// Checked on each allocation: admits the allocation exactly when it fits
    /// under the memory ceiling, and otherwise changes nothing, so the caller
    /// must abort the evaluation from inside.
    pub fn charge_allocation(&mut self, bytes: usize) -> (admitted: bool)
        requires
            old(self).wf(),
        ensures
            final(self).quota == old(self).quota,
            final(self).call_depth == old(self).call_depth,
            admitted == (old(self).memory_in_use + bytes
                <= old(self).quota.memory_ceiling_bytes),
            admitted ==> final(self).memory_in_use == old(self).memory_in_use + bytes,
            !admitted ==> final(self).memory_in_use == old(self).memory_in_use,
            final(self).wf(),
    {
        if bytes <= self.quota.memory_ceiling_bytes - self.memory_in_use {
            self.memory_in_use = self.memory_in_use + bytes;
            true
        } else {
            false
        }
    }

    /// Returns memory to the session, as when its collector frees dead values.
    pub fn release_allocation(&mut self, bytes: usize)
        requires
            old(self).wf(),
            bytes <= old(self).memory_in_use,
        ensures
            final(self).quota == old(self).quota,
            final(self).call_depth == old(self).call_depth,
            final(self).memory_in_use == old(self).memory_in_use - bytes,
            final(self).wf(),
    {
        self.memory_in_use = self.memory_in_use - bytes;
    }

    /// Checked on every call: admits the new frame exactly when it fits under
    /// the stack ceiling, and otherwise changes nothing, so the caller must
    /// abort without unwinding the host's own stack.
    pub fn enter_call(&mut self) -> (admitted: bool)
        requires
            old(self).wf(),
        ensures
            final(self).quota == old(self).quota,
            final(self).memory_in_use == old(self).memory_in_use,
            admitted == (old(self).call_depth + 1 <= old(self).quota.stack_ceiling_frames),
            admitted ==> final(self).call_depth == old(self).call_depth + 1,
            !admitted ==> final(self).call_depth == old(self).call_depth,
            final(self).wf(),
    {
        if self.call_depth < self.quota.stack_ceiling_frames {
            self.call_depth = self.call_depth + 1;
            true
        } else {
            false
        }
    }

    /// Leaves the innermost call frame.
    pub fn leave_call(&mut self)
        requires
            old(self).wf(),
            old(self).call_depth > 0,
        ensures
            final(self).quota == old(self).quota,
            final(self).memory_in_use == old(self).memory_in_use,
            final(self).call_depth == old(self).call_depth - 1,
            final(self).wf(),
    {
        self.call_depth = self.call_depth - 1;
    }
}

/// The cadence at which the evaluation loop polls the wall-clock check: a
/// decrementing step budget that triggers a poll when it runs out and rearms.
pub struct Safepoint {
    /// How many evaluation steps pass between two polls.
    pub interval: u32,
    /// Steps left before the next poll.
    pub remaining: u32,
}

impl Safepoint {
    pub open spec fn wf(self) -> bool {
        &&& 0 < self.interval
        &&& 0 < self.remaining <= self.interval
    }

    pub fn new(interval: u32) -> (s: Safepoint)
        requires
            0 < interval,
        ensures
            s.wf(),
            s.interval == interval,
            s.remaining == interval,
    {
        Safepoint { interval, remaining: interval }
    }

    /// One evaluation step: reports whether a wall-clock poll is now due,
    /// and rearms the budget when it is.  Between two polls the evaluation
    /// runs at most `interval` steps, so polls come at bounded intervals.
    pub fn tick(&mut self) -> (poll_due: bool)
        requires
            old(self).wf(),
        ensures
            final(self).interval == old(self).interval,
            poll_due == (old(self).remaining == 1),
            poll_due ==> final(self).remaining == old(self).interval,
            !poll_due ==> final(self).remaining == old(self).remaining - 1,
            final(self).wf(),
    {
        if self.remaining == 1 {
            self.remaining = self.interval;
            true
        } else {
            self.remaining = self.remaining - 1;
            false
        }
    }
}

} // verus!
