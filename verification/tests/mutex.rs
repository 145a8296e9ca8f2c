use syncprims::mutex::Mutex;

use crossbeam_utils::thread;
use std::time::Instant;

#[test]
fn mutex_3_main() {
    let m = Mutex::new(0);

    // Don't let the compiler assume things and optimize away the mutex usage.
    std::hint::black_box(&m);

    let start = Instant::now();
    for _ in 0..5_000_000 {
        // The lock is uncontended here, so the state word just moves between
        // unlocked and locked-without-waiters, with no system call.
        let mut guard = m.lock();
        let v: i32 = *guard.get();
        guard.set(v + 1);
        guard.unlock();
    }
    let duration = start.elapsed();
    let guard = m.lock();
    println!("locked {} times in {:?}", *guard.get(), duration);
    assert_eq!(*guard.get(), 5_000_000);
    guard.unlock();
}

#[test]
fn mutex_parallel_counter() {
    // Ten threads, each adding exactly one hundred increments under the lock:
    // the final value is exactly their product, with no lost update.
    let m = Mutex::new(0u64);
    thread::scope(|s| {
        for _ in 0..10 {
            s.spawn(|_| {
                for _ in 0..100 {
                    let mut guard = m.lock();
                    let v: u64 = *guard.get();
                    guard.set(v + 1);
                    guard.unlock();
                }
            });
        }
    })
    .unwrap();
    let guard = m.lock();
    assert_eq!(*guard.get(), 1000);
    guard.unlock();
}

#[test]
fn mutex_single_increment() {
    // The smallest instance: one thread, one increment.
    let m = Mutex::new(0u64);
    let mut guard = m.lock();
    let v: u64 = *guard.get();
    guard.set(v + 1);
    guard.unlock();
    let guard = m.lock();
    assert_eq!(*guard.get(), 1);
    guard.unlock();
}

#[test]
fn mutex_value_roundtrip() {
    // The guard really moves the stored value in and out of the lock.
    let m = Mutex::new(String::new());
    let mut guard = m.lock();
    assert_eq!(guard.get().len(), 0);
    let previous = guard.replace(String::from("first"));
    assert_eq!(previous, "");
    guard.unlock();

    let mut guard = m.lock();
    assert_eq!(guard.get().as_str(), "first");
    guard.set(String::from("second"));
    guard.unlock();

    let guard = m.lock();
    assert_eq!(guard.get().as_str(), "second");
    guard.unlock();
}
