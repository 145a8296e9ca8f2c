use syncprims::condvar;
use syncprims::condvar_counted;
use syncprims::mutex::Mutex;

use crossbeam_utils::thread;
use std::time::Duration;
use std::time::Instant;

/// Holds the calling thread busy for `d`: a sleep without touching any
/// thread-parking facility of the host.
fn pause(d: Duration) {
    let start = Instant::now();
    while start.elapsed() < d {
        std::hint::spin_loop();
    }
}

#[test]
fn condvar_1_test_condvar() {
    let mutex = Mutex::new(0);
    let condvar = condvar::Condvar::new();

    let mut wakeups: u32 = 0;

    thread::scope(|s| {
        s.spawn(|_| {
            // Delay the store so that the main thread really waits.
            pause(Duration::from_secs(1));
            let mut guard = mutex.lock();
            guard.set(123);
            guard.unlock();
            condvar.notify_one();
        });

        let mut m = mutex.lock();
        // The loop absorbs spurious wakeups: waking up is only a hint to
        // re-check the condition.
        while *m.get() < 100 {
            m = condvar.wait(m);
            wakeups += 1;
        }
        assert_eq!(*m.get(), 123);
        m.unlock();
    })
    .unwrap();

    // The main thread really slept rather than busy-looping, allowing for a
    // few spurious wakeups.
    assert!(wakeups < 10);
}

#[test]
fn condvar_2_test_condvar() {
    let mutex = Mutex::new(0);
    let condvar = condvar_counted::Condvar::new();

    let mut wakeups: u32 = 0;

    thread::scope(|s| {
        s.spawn(|_| {
            pause(Duration::from_secs(1));
            let mut guard = mutex.lock();
            guard.set(123);
            guard.unlock();
            condvar.notify_one();
        });

        let mut m = mutex.lock();
        while *m.get() < 100 {
            m = condvar.wait(m);
            wakeups += 1;
        }
        assert_eq!(*m.get(), 123);
        m.unlock();
    })
    .unwrap();

    assert!(wakeups < 10);
}

#[test]
fn notify_with_no_waiters_is_not_lost() {
    // A notification with zero waiters leaves the condition variable in a
    // state from which a later waiter still works: the condition loop checks
    // the predicate before ever parking, so nothing can block forever.
    let mutex = Mutex::new(0);
    let condvar = condvar::Condvar::new();
    condvar.notify_one();
    condvar.notify_all();

    let mut guard = mutex.lock();
    guard.set(5);
    let mut m = guard;
    while *m.get() < 5 {
        m = condvar.wait(m);
    }
    assert_eq!(*m.get(), 5);
    m.unlock();

    // The same through the waiter-counting variant, whose notifications with
    // zero waiters make no system call at all.
    let counted = condvar_counted::Condvar::new();
    counted.notify_one();
    counted.notify_all();
    let mut m = mutex.lock();
    m.set(7);
    while *m.get() < 7 {
        m = counted.wait(m);
    }
    assert_eq!(*m.get(), 7);
    m.unlock();
}

#[test]
fn notify_all_unblocks_every_waiter() {
    // Three waiters block on one condition; a single notify_all lets all of
    // them through once the flag is up.
    let mutex = Mutex::new(0u32);
    let condvar = condvar::Condvar::new();

    thread::scope(|s| {
        for _ in 0..3 {
            s.spawn(|_| {
                let mut m = mutex.lock();
                while *m.get() == 0 {
                    m = condvar.wait(m);
                }
                assert_eq!(*m.get(), 1);
                m.unlock();
            });
        }
        pause(Duration::from_millis(300));
        let mut guard = mutex.lock();
        guard.set(1);
        guard.unlock();
        condvar.notify_all();
    })
    .unwrap();
}

#[test]
fn producer_consumer_exact_value() {
    // One producer stores a value under the mutex and notifies once; the
    // consumer loops on the condition and observes exactly that value, with
    // few wakeups over the single notification.
    let mutex = Mutex::new(0u64);
    let condvar = condvar_counted::Condvar::new();
    let mut wakeups: u32 = 0;

    thread::scope(|s| {
        s.spawn(|_| {
            pause(Duration::from_millis(300));
            let mut guard = mutex.lock();
            guard.set(987_654_321);
            guard.unlock();
            condvar.notify_one();
        });

        let mut m = mutex.lock();
        while *m.get() == 0 {
            m = condvar.wait(m);
            wakeups += 1;
        }
        assert_eq!(*m.get(), 987_654_321);
        m.unlock();
    })
    .unwrap();

    assert!(wakeups < 10);
}
