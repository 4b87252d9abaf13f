//! Backpressure handling for write operations.
//!
//! This module provides backpressure management to prevent memory exhaustion
//! when the write side is slower than the producer side. It tracks pending
//! frames in a counter shared by every holder of the controller (and by the
//! writer task), and decides whether another frame may be queued.
//!
//! The counter is atomic and may be changed by other holders at any moment:
//! what a method decides rests on the value it read, and the decisions
//! themselves are the functions [`admits`], [`room_left`] and
//! [`reservation`].
//!
//! # Configuration
//!
//! - `max_pending`: Maximum number of pending frames (default: 1024)
//! - Timeout: How long to wait when backpressure is active (default: 5s)

use vstd::prelude::*;
use std::sync::atomic::{AtomicUsize, Ordering};
use std::sync::Arc;
use std::time::Duration;

use crate::error::ProcwireError;

verus! {

/// Default maximum pending frames before backpressure kicks in.
pub const DEFAULT_MAX_PENDING: usize = 1024;

/// Default backpressure timeout in seconds.
pub const DEFAULT_TIMEOUT_SECS: u64 = 5;

/// The duration of `secs` whole seconds, as `Duration::from_secs` makes it
/// (a plain value of seconds and nanoseconds: the same `secs` give equal
/// durations).
pub uninterp spec fn seconds_duration(secs: u64) -> Duration;

/// `Duration::from_secs`: a duration of whole seconds.
#[verifier::external_body]
pub(crate) fn duration_from_secs(secs: u64) -> (r: Duration)
    ensures
        r == seconds_duration(secs),
{
    Duration::from_secs(secs)
}

/// `<Duration as Clone>::clone`: the same duration.
pub assume_specification[ <Duration as Clone>::clone ](d: &Duration) -> (r: Duration)
    ensures
        r == *d,
;

/// Default backpressure timeout (how long to wait for space to become
/// available): five seconds.
pub fn default_timeout() -> (r: Duration)
    ensures
        r == seconds_duration(DEFAULT_TIMEOUT_SECS),
{
    duration_from_secs(DEFAULT_TIMEOUT_SECS)
}

/// `Arc::clone`: another handle on the same shared value.
#[verifier::external_body]
pub(crate) fn arc_share<T>(shared: &Arc<T>) -> (r: Arc<T>)
    ensures
        r == *shared,
{
    Arc::clone(shared)
}

/// `AtomicUsize::fetch_sub` with release ordering: lowers the shared count by
/// `n` (wrapping, as atomics do). It never unwinds.
#[verifier::external_body]
fn counter_sub(counter: &AtomicUsize, n: usize)
    opens_invariants none
    no_unwind
{
    counter.fetch_sub(n, Ordering::Release);
}

/// Whether a queue holding `pending` frames admits one more under the limit
/// `max_pending`.
pub open spec fn counts_admit(pending: usize, max_pending: usize) -> bool {
    pending < max_pending
}

/// The room a queue holding `pending` frames has left under `max_pending`.
pub open spec fn room_for(pending: usize, max_pending: usize) -> usize {
    if pending < max_pending {
        (max_pending - pending) as usize
    } else {
        0
    }
}

/// Law (the decisions agree on one reading): for the same count, a queue
/// admits one more frame exactly when it has room left; the room is the
/// limit minus the count, never more than the limit; and a reservation
/// succeeds exactly when one more frame is admitted.
pub proof fn law_decisions_agree(observed: usize, max_pending: usize)
    ensures
        counts_admit(observed, max_pending) == (observed < max_pending),
        counts_admit(observed, max_pending) == (room_for(observed, max_pending) > 0),
        room_for(observed, max_pending) <= max_pending,
        counts_admit(observed, max_pending) ==> room_for(observed, max_pending) + observed
            == max_pending,
{
}

/// Whether a queue holding `pending` frames admits one more under the limit
/// `max_pending`.
pub fn admits(pending: usize, max_pending: usize) -> (r: bool)
    ensures
        r == (pending < max_pending),
{
    pending < max_pending
}

/// The number of frames that may still be queued: `max_pending - pending`,
/// or 0 when the queue is at or above the limit.
pub fn room_left(pending: usize, max_pending: usize) -> (r: usize)
    ensures
        r == (if pending < max_pending {
            max_pending - pending
        } else {
            0
        }),
{
    max_pending.saturating_sub(pending)
}

/// The outcome of a reservation attempt that observed `pending` frames:
/// success below the limit, `BackpressureTimeout` at or above it.
pub fn reservation(pending: usize, max_pending: usize) -> (r: Result<(), ProcwireError>)
    ensures
        r is Ok <==> pending < max_pending,
        r is Err ==> r matches Err(ProcwireError::BackpressureTimeout),
{
    if pending >= max_pending {
        Err(ProcwireError::BackpressureTimeout)
    } else {
        Ok(())
    }
}

/// Backpressure controller for managing write queue pressure.
///
/// This controller uses atomic operations for lock-free tracking of
/// pending frame counts. It can be shared across multiple threads/tasks.
#[derive(Debug)]
pub struct BackpressureController {
    /// Current pending frame count.
    pending: Arc<AtomicUsize>,
    /// Maximum allowed pending frames.
    max_pending: usize,
    /// Timeout for waiting on backpressure.
    timeout: Duration,
}

impl BackpressureController {
    /// The shared pending counter.
    pub closed spec fn counter(&self) -> Arc<AtomicUsize> {
        self.pending
    }

    /// Whether `observed` is a value that reading the shared count gives:
    /// a count the counter held when it was read.
    pub closed spec fn reads(&self, observed: usize) -> bool {
        call_ensures(AtomicUsize::load, (&*self.pending, Ordering::Acquire), observed)
    }

    /// The maximum number of pending frames.
    pub closed spec fn pending_limit(&self) -> usize {
        self.max_pending
    }

    /// How long an asynchronous reservation waits for room.
    pub closed spec fn wait_limit(&self) -> Duration {
        self.timeout
    }

    /// Create a new backpressure controller with specified limit, a fresh
    /// counter and the default timeout.
    pub fn new(max_pending: usize) -> (r: Self)
        ensures
            r.pending_limit() == max_pending,
            r.wait_limit() == seconds_duration(DEFAULT_TIMEOUT_SECS),
    {
        Self {
            pending: Arc::new(AtomicUsize::new(0)),
            max_pending,
            timeout: default_timeout(),
        }
    }

    /// Create a controller with custom timeout and a fresh counter.
    pub fn with_timeout(max_pending: usize, timeout: Duration) -> (r: Self)
        ensures
            r.pending_limit() == max_pending,
            r.wait_limit() == timeout,
    {
        Self { pending: Arc::new(AtomicUsize::new(0)), max_pending, timeout }
    }

    /// Create from an existing atomic counter (for sharing with writer task).
    pub fn from_shared(pending: Arc<AtomicUsize>, max_pending: usize, timeout: Duration) -> (r:
        Self)
        ensures
            r.counter() == pending,
            r.pending_limit() == max_pending,
            r.wait_limit() == timeout,
    {
        Self { pending, max_pending, timeout }
    }

    /// Get a clone of the pending counter Arc (for sharing).
    pub fn pending_counter(&self) -> (r: Arc<AtomicUsize>)
        ensures
            r == self.counter(),
    {
        arc_share(&self.pending)
    }

    /// Check if we can accept more frames without blocking: whether the count
    /// read now [`admits`] one more.
    ///
    /// The count is shared and may change at any moment, so what is stated
    /// is the decision on the count that was read.
    pub fn can_accept(&self) -> (r: bool)
        ensures
            exists|observed: usize| r == #[trigger] counts_admit(observed, self.pending_limit()),
            exists|observed: usize| #[trigger] self.reads(observed) && r == counts_admit(
                observed,
                self.pending_limit(),
            ),
    {
        let current = self.pending.load(Ordering::Acquire);
        let r = admits(current, self.max_pending);
        assert(self.reads(current));
        assert(r == counts_admit(current, self.pending_limit()));
        r
    }

    /// Check if backpressure is currently active: whether the count read now
    /// does not [`admits`] one more.
    pub fn is_active(&self) -> (r: bool)
        ensures
            exists|observed: usize| r == !#[trigger] counts_admit(observed, self.pending_limit()),
            exists|observed: usize| #[trigger] self.reads(observed) && r == !counts_admit(
                observed,
                self.pending_limit(),
            ),
    {
        let current = self.pending.load(Ordering::Acquire);
        let r = !admits(current, self.max_pending);
        assert(self.reads(current));
        assert(r == !counts_admit(current, self.pending_limit()));
        r
    }

    /// Get current pending count.
    pub fn pending_count(&self) -> (r: usize)
        ensures
            self.reads(r),
    {
        let r = self.pending.load(Ordering::Acquire);
        assert(self.reads(r));
        r
    }

    /// How long a reservation waits for room before giving up.
    pub fn timeout(&self) -> (r: Duration)
        ensures
            r == self.wait_limit(),
    {
        self.timeout
    }

    /// Get maximum pending limit.
    pub fn max_pending(&self) -> (r: usize)
        ensures
            r == self.pending_limit(),
    {
        self.max_pending
    }

    /// Get available capacity: the [`room_left`] for the count read now.
    pub fn available_capacity(&self) -> (r: usize)
        ensures
            exists|observed: usize| r == #[trigger] room_for(observed, self.pending_limit()),
            exists|observed: usize| #[trigger] self.reads(observed) && r == room_for(
                observed,
                self.pending_limit(),
            ),
    {
        let current = self.pending.load(Ordering::Acquire);
        let r = room_left(current, self.max_pending);
        assert(self.reads(current));
        assert(r == room_for(current, self.pending_limit()));
        r
    }

    /// Try to reserve a slot without blocking.
    ///
    /// Returns `Ok(())` and counts one more pending frame if the count read
    /// now is below the limit (see [`reservation`]); otherwise
    /// `Err(BackpressureTimeout)` and the count is left alone.
    pub fn try_reserve(&self) -> (r: Result<(), ProcwireError>)
        ensures
            exists|observed: usize| (r is Ok) == #[trigger] counts_admit(observed, self.pending_limit()),
            exists|observed: usize| #[trigger] self.reads(observed) && (r is Ok) == counts_admit(
                observed,
                self.pending_limit(),
            ),
            r is Err ==> r matches Err(ProcwireError::BackpressureTimeout),
    {
        let current = self.pending.load(Ordering::Acquire);
        let outcome = reservation(current, self.max_pending);
        assert(self.reads(current));
        assert((outcome is Ok) == counts_admit(current, self.pending_limit()));
        if outcome.is_ok() {
            self.pending.fetch_add(1, Ordering::AcqRel);
        }
        outcome
    }

    /// Release a slot (called after frame is written).
    pub fn release(&self)
        opens_invariants none
        no_unwind
    {
        counter_sub(&self.pending, 1);
    }

    /// Release multiple slots at once (for batch writes).
    pub fn release_many(&self, count: usize) {
        counter_sub(&self.pending, count);
    }

    /// Reset the pending count to zero (use with caution).
    pub fn reset(&self) {
        self.pending.store(0, Ordering::Release);
    }
}

impl Default for BackpressureController {
    fn default() -> (r: Self)
        ensures
            r.pending_limit() == DEFAULT_MAX_PENDING,
            r.wait_limit() == seconds_duration(DEFAULT_TIMEOUT_SECS),
    {
        Self::new(DEFAULT_MAX_PENDING)
    }
}

impl Clone for BackpressureController {
    /// Another controller on the same counter, with the same limit and
    /// timeout.
    fn clone(&self) -> (r: Self)
        ensures
            r.counter() == self.counter(),
            r.pending_limit() == self.pending_limit(),
            r.wait_limit() == self.wait_limit(),
    {
        Self {
            pending: arc_share(&self.pending),
            max_pending: self.max_pending,
            timeout: self.timeout,
        }
    }
}

/// Guard that automatically releases a backpressure slot on drop.
///
/// Useful for RAII-style backpressure management.
pub struct BackpressureGuard {
    controller: BackpressureController,
    released: bool,
}

impl BackpressureGuard {
    /// The controller whose slot the guard holds.
    pub closed spec fn guarded(&self) -> BackpressureController {
        self.controller
    }

    /// Whether the slot no longer needs releasing by the guard.
    pub closed spec fn is_settled(&self) -> bool {
        self.released
    }

    /// Create a guard that will release on drop.
    pub fn new(controller: BackpressureController) -> (r: Self)
        ensures
            r.guarded() == controller,
            !r.is_settled(),
    {
        Self { controller, released: false }
    }

    /// Manually release the slot (at most once; dropping the guard afterwards
    /// releases nothing more).
    pub fn release(self) {
        let mut guard = self;
        if !guard.released {
            guard.controller.release();
            guard.released = true;
        }
    }

    /// Disarm the guard (don't release on drop).
    ///
    /// Use this when the slot will be released by another mechanism.
    pub fn disarm(&mut self)
        ensures
            final(self).is_settled(),
            final(self).guarded() == old(self).guarded(),
    {
        self.released = true;
    }
}

impl Drop for BackpressureGuard {
    fn drop(&mut self)
        opens_invariants none
        no_unwind
    {
        if !self.released {
            self.controller.release();
        }
    }
}

/// What a sender waiting for room does next.
#[derive(Debug, Clone, Copy, PartialEq, Eq, Structural)]
pub enum WaitStep {
    /// Room was found: go on.
    Proceed,
    /// The wait lasted longer than the timeout: give up with
    /// `BackpressureTimeout`.
    GiveUp,
    /// Sleep a moment and look again.
    Retry,
}

/// The next step of a wait for room: room found wins, even when the time is
/// up; otherwise a wait past its timeout gives up, and any other waits on.
pub fn wait_step(room_found: bool, past_timeout: bool) -> (r: WaitStep)
    ensures
        room_found ==> r == WaitStep::Proceed,
        !room_found && past_timeout ==> r == WaitStep::GiveUp,
        !room_found && !past_timeout ==> r == WaitStep::Retry,
{
    if room_found {
        WaitStep::Proceed
    } else if past_timeout {
        WaitStep::GiveUp
    } else {
        WaitStep::Retry
    }
}

} // verus!
