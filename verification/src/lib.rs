//! A counting semaphore with a drain barrier: a bounded counter with
//! non-blocking `try_acquire`/`release`, plus a blocking
//! `wait_until_inactive` that returns once the count has reached zero.

pub mod model;
pub mod raw;
pub mod sync;
