use std::sync::atomic::{AtomicUsize, Ordering};

use semaphore::raw::RawSemaphore;

// A drainer that starts before the last release must still return: the
// notification may not be lost between its check and its sleep.
#[test]
fn drain_wakes_a_concurrent_waiter() {
    let sem = RawSemaphore::new(1);
    for _ in 0..200 {
        assert!(sem.try_acquire());
        crossbeam_utils::thread::scope(|scope| {
            let waiter = scope.spawn(|_| {
                sem.wait_until_inactive();
                assert!(!sem.is_active());
            });
            // Give the waiter a chance to park before the drain.
            for _ in 0..5_000 {
                std::hint::spin_loop();
            }
            sem.release();
            waiter.join().unwrap();
        })
        .unwrap();
    }
}

// A drainer never returns before every held slot has been released.
#[test]
fn drain_returns_only_after_all_holders_release() {
    let sem = RawSemaphore::new(3);
    let releases_done = AtomicUsize::new(0);
    assert!(sem.try_acquire());
    assert!(sem.try_acquire());
    assert!(sem.try_acquire());
    crossbeam_utils::thread::scope(|scope| {
        let waiter = scope.spawn(|_| {
            sem.wait_until_inactive();
            assert_eq!(releases_done.load(Ordering::SeqCst), 3);
        });
        for _ in 0..3 {
            for _ in 0..2_000 {
                std::hint::spin_loop();
            }
            releases_done.fetch_add(1, Ordering::SeqCst);
            sem.release();
        }
        waiter.join().unwrap();
    })
    .unwrap();
}

// Holders on several threads never overshoot the capacity, and the counter
// drains once every admitted holder has released.
#[test]
fn concurrent_holders_respect_capacity() {
    let sem = RawSemaphore::new(4);
    let holders = AtomicUsize::new(0);
    let admitted_total = AtomicUsize::new(0);
    crossbeam_utils::thread::scope(|scope| {
        for _ in 0..8 {
            scope.spawn(|_| {
                for _ in 0..1_000 {
                    if sem.try_acquire() {
                        let now = holders.fetch_add(1, Ordering::SeqCst) + 1;
                        assert!(now <= 4);
                        admitted_total.fetch_add(1, Ordering::SeqCst);
                        std::hint::spin_loop();
                        holders.fetch_sub(1, Ordering::SeqCst);
                        sem.release();
                    }
                }
            });
        }
    })
    .unwrap();
    assert!(!sem.is_active());
    assert!(admitted_total.load(Ordering::SeqCst) >= 4);
    sem.wait_until_inactive();
}
