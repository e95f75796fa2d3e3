//! The semaphore itself: a lock-free counter on the hot path, and a
//! mutex / condition-variable pair on the cold path, used only to let a
//! drainer sleep until the counter returns to zero.

use vstd::prelude::*;

use std::sync::atomic::{AtomicUsize, Ordering};

use crate::model;
use crate::sync::{condvar_new, condvar_notify_all, condvar_wait_while_active, mutex_lock, mutex_new};

verus! {

/// How often an admission is re-attempted when the compare-and-swap loses a
/// race. Sequentially the first attempt always settles it; the cap only
/// bounds the optimistic retry under extreme contention, and running out of
/// retries reports the ordinary "try again later" outcome.
pub const CAS_RETRY_LIMIT: usize = 0xffff;

/// A counting semaphore with a drain barrier.
///
/// `active` counts the holders currently admitted and never leaves
/// `[0, capacity]` (see `crate::model` for the proved bounds). The mutex and
/// condition variable never protect `active`'s value: they only serialise
/// the drain notification against a waiter's check-then-wait transition, so
/// that the release that empties the semaphore cannot slip between a
/// drainer's check and its sleep.
pub struct RawSemaphore {
    active: AtomicUsize,
    capacity: usize,
    lock: parking_lot::Mutex<()>,
    cond: parking_lot::Condvar,
}

/// Decide admission from an observed counter value: the value the counter
/// must be advanced to, or `None` when every slot is already held. This is
/// the whole admission rule; `try_acquire` only applies it to the value the
/// atomic load observed.
pub fn admission(current: usize, capacity: usize) -> (next: Option<usize>)
    ensures
        next is Some <==> model::can_admit(current as nat, capacity as nat),
        (next matches Some(n) ==> n == current + 1),
{
    if current < capacity {
        Some(current + 1)
    } else {
        None
    }
}

/// Whether an observed counter value means the semaphore is active: the
/// whole observation rule; `is_active` only applies it to the value the
/// atomic load observed.
pub fn active_from(observed: usize) -> (active: bool)
    ensures
        active == (observed > 0),
{
    observed > 0
}

/// Whether a release drained the semaphore, decided from the pre-decrement
/// counter value: the draining release is exactly the one that brought the
/// counter from one to zero, and it alone must wake the drainers.
pub fn drained_by(previous: usize) -> (drained: bool)
    ensures
        drained == (previous == 1),
{
    previous == 1
}

impl RawSemaphore {
    /// The fixed number of slots, set at construction.
    pub closed spec fn capacity_spec(&self) -> usize {
        self.capacity
    }

    /// A fresh semaphore: no holder admitted yet. A capacity of zero is
    /// legal and admits nobody, ever.
    pub fn new(capacity: usize) -> (sem: RawSemaphore)
        ensures
            sem.capacity_spec() == capacity,
    {
        RawSemaphore {
            active: AtomicUsize::new(0),
            capacity,
            lock: mutex_new(),
            cond: condvar_new(),
        }
    }

    /// Attempt to be admitted as one more holder, without blocking.
    ///
    /// Reads the counter and, unless every slot is held, tries to advance it
    /// by one with a sequentially-consistent compare-and-swap; a lost race
    /// re-runs the read-decide-swap cycle. `false` means "try again later":
    /// either every slot was held, or the retry budget ran out under
    /// contention. Admission is only ever granted below capacity, so a
    /// semaphore of capacity zero refuses every attempt.
    pub fn try_acquire(&self) -> (admitted: bool)
        ensures
            admitted ==> self.capacity_spec() > 0,
    {
        let mut retries_left: usize = CAS_RETRY_LIMIT;
        loop
            decreases retries_left,
        {
            let current = self.active.load(Ordering::SeqCst);
            match admission(current, self.capacity) {
                None => {
                    return false;
                },
                Some(next) => {
                    let swapped = self.active.compare_exchange(
                        current,
                        next,
                        Ordering::SeqCst,
                        Ordering::SeqCst,
                    );
                    if swapped.is_ok() {
                        return true;
                    }
                },
            }
            if retries_left == 0 {
                return false;
            }
            retries_left = retries_left - 1;
        }
    }

    /// Relinquish one held slot, without blocking.
    ///
    /// Caller contract, deliberately unchecked for parity with the lock-free
    /// fast path: every call matches an earlier successful `try_acquire`.
    /// The release that empties the semaphore takes the mutex and wakes
    /// every drainer, even when none is waiting; holding the mutex around
    /// the notification is what rules out the lost-wakeup race.
    pub fn release(&self) {
        let previous = self.active.fetch_sub(1, Ordering::SeqCst);
        if drained_by(previous) {
            let _guard = mutex_lock(&self.lock);
            let _woken: usize = condvar_notify_all(&self.cond);
        }
    }

    /// Whether any holder is currently admitted: a best-effort snapshot that
    /// a concurrent acquire or release may outdate immediately.
    pub fn is_active(&self) -> bool {
        active_from(self.active.load(Ordering::SeqCst))
    }

    /// Block the calling thread until the counter has been observed at zero
    /// while holding the mutex.
    ///
    /// The guarded wait re-checks after every wakeup, so spurious wakeups
    /// and stale notifications (the counter rose again before this thread
    /// checked) put it back to sleep. Returns as soon as a check finds the
    /// semaphore inactive — immediately so when nothing is held — but says
    /// nothing about what the counter does afterwards.
    pub fn wait_until_inactive(&self) {
        let mut guard = mutex_lock(&self.lock);
        condvar_wait_while_active(&self.cond, &mut guard, self);
    }
}

} // verus!
