//! Trusted declarations for the mutex / condition-variable pair that backs
//! the drain wait. The pair never protects the counter's value; it exists
//! only so that a drainer can block without busy-waiting and so that the
//! draining release cannot race with a waiter's check-then-wait transition.

use vstd::prelude::*;

use crate::raw::RawSemaphore;

verus! {

#[verifier::external_type_specification]
#[verifier::external_body]
pub struct ExRawMutex(parking_lot::RawMutex);

#[verifier::external_type_specification]
#[verifier::external_body]
#[verifier::reject_recursive_types(R)]
#[verifier::reject_recursive_types(T)]
pub struct ExMutex<R, T: ?Sized>(lock_api::Mutex<R, T>);

#[verifier::external_type_specification]
#[verifier::external_body]
pub struct ExCondvar(parking_lot::Condvar);

/// Holds the drain mutex from `mutex_lock` until dropped. The guard type of
/// the outside crate carries a trait bound that Verus refuses to declare, so
/// it rides in an opaque struct instead.
#[verifier::external_body]
pub struct DrainGuard<'a> {
    guard: parking_lot::MutexGuard<'a, ()>,
}

/// Relies on lock_api::Mutex::new (parking_lot's mutex): returns a fresh,
/// unlocked mutex around the given value.
#[verifier::external_body]
pub(crate) fn mutex_new() -> parking_lot::Mutex<()> {
    parking_lot::Mutex::new(())
}

/// Relies on lock_api::Mutex::lock: blocks until the mutex can be acquired,
/// then returns the guard that holds it until dropped.
#[verifier::external_body]
pub(crate) fn mutex_lock<'a>(lock: &'a parking_lot::Mutex<()>) -> DrainGuard<'a> {
    DrainGuard { guard: lock.lock() }
}

/// Relies on parking_lot::Condvar::new: returns a fresh condition variable.
#[verifier::external_body]
pub(crate) fn condvar_new() -> parking_lot::Condvar {
    parking_lot::Condvar::new()
}

/// Relies on parking_lot::Condvar::notify_all: wakes every thread blocked on
/// this condition variable and returns how many were woken. Waking with no
/// waiter present is a harmless no-op.
#[verifier::external_body]
pub(crate) fn condvar_notify_all(cond: &parking_lot::Condvar) -> usize {
    cond.notify_all()
}

/// Relies on parking_lot::Condvar::wait_while: while the semaphore reports
/// itself active, atomically releases the guarded mutex and blocks; every
/// wakeup (notified or spurious) re-acquires the mutex and re-checks, and the
/// call returns with the mutex held only once a check found the semaphore
/// inactive. The closure only calls the library's verified `is_active`.
#[verifier::external_body]
pub(crate) fn condvar_wait_while_active<'a>(
    cond: &parking_lot::Condvar,
    guard: &mut DrainGuard<'a>,
    sem: &RawSemaphore,
) {
    cond.wait_while(&mut guard.guard, |_| sem.is_active())
}

} // verus!
