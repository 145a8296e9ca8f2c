use syncprims::rwlock_basic;
use syncprims::rwlock_fair;

use crossbeam_utils::thread;

#[test]
fn concurrent_readers_share_the_lock() {
    // Several read guards of one lock are alive at the same time.
    let lock = rwlock_basic::RwLock::new(11u64);
    let a = lock.read();
    let b = lock.read();
    assert_eq!(*a.get(), 11);
    assert_eq!(*b.get(), 11);
    a.unlock();
    b.unlock();

    let fair = rwlock_fair::RwLock::new(13u64);
    let a = fair.read();
    let b = fair.read();
    assert_eq!(*a.get(), 13);
    assert_eq!(*b.get(), 13);
    a.unlock();
    b.unlock();
}

#[test]
fn writers_exclude_writers() {
    // Four threads each add two hundred and fifty write-locked increments:
    // the final value shows that no two writers ever held the lock together.
    let lock = rwlock_basic::RwLock::new(0u64);
    thread::scope(|s| {
        for _ in 0..4 {
            s.spawn(|_| {
                for _ in 0..250 {
                    let mut guard = lock.write();
                    let v: u64 = *guard.get();
                    guard.set(v + 1);
                    guard.unlock();
                }
            });
        }
    })
    .unwrap();
    let guard = lock.read();
    assert_eq!(*guard.get(), 1000);
    guard.unlock();
}

#[test]
fn writers_exclude_writers_fair() {
    let lock = rwlock_fair::RwLock::new(0u64);
    thread::scope(|s| {
        for _ in 0..4 {
            s.spawn(|_| {
                for _ in 0..250 {
                    let mut guard = lock.write();
                    let v: u64 = *guard.get();
                    guard.set(v + 1);
                    guard.unlock();
                }
            });
        }
    })
    .unwrap();
    let guard = lock.read();
    assert_eq!(*guard.get(), 1000);
    guard.unlock();
}

#[test]
fn readers_never_see_a_torn_update() {
    // Writers keep an invariant — the value is always even outside the lock —
    // and concurrent readers never observe it broken: no reader overlaps a
    // writer.
    let lock = rwlock_fair::RwLock::new(0u64);
    thread::scope(|s| {
        for _ in 0..2 {
            s.spawn(|_| {
                for _ in 0..200 {
                    let mut guard = lock.write();
                    let v: u64 = *guard.get();
                    // Break the invariant within the critical section, then
                    // restore it before unlocking.
                    guard.set(v + 1);
                    let w: u64 = *guard.get();
                    guard.set(w + 1);
                    guard.unlock();
                }
            });
        }
        for _ in 0..2 {
            s.spawn(|_| {
                for _ in 0..400 {
                    let guard = lock.read();
                    assert_eq!(*guard.get() % 2, 0);
                    guard.unlock();
                }
            });
        }
    })
    .unwrap();
    let guard = lock.read();
    assert_eq!(*guard.get(), 800);
    guard.unlock();
}

#[test]
fn write_guard_roundtrip() {
    let lock = rwlock_fair::RwLock::new(String::from("start"));
    let mut guard = lock.write();
    assert_eq!(guard.get().as_str(), "start");
    guard.set(String::from("changed"));
    guard.unlock();

    let guard = lock.read();
    assert_eq!(guard.get().as_str(), "changed");
    guard.unlock();

    let lock = rwlock_basic::RwLock::new(String::from("start"));
    let mut guard = lock.write();
    guard.set(String::from("changed"));
    guard.unlock();
    let guard = lock.read();
    assert_eq!(guard.get().as_str(), "changed");
    guard.unlock();
}

#[test]
fn waiting_writer_gets_the_lock() {
    // A writer that arrives while readers churn is eventually granted the
    // lock: the writer-waiting flag stops new readers from joining forever.
    let lock = rwlock_fair::RwLock::new(0u64);
    thread::scope(|s| {
        for _ in 0..3 {
            s.spawn(|_| {
                loop {
                    let guard = lock.read();
                    let done: u64 = *guard.get();
                    guard.unlock();
                    if done == 1 {
                        break;
                    }
                }
            });
        }
        s.spawn(|_| {
            let mut guard = lock.write();
            guard.set(1);
            guard.unlock();
        });
    })
    .unwrap();
    let guard = lock.read();
    assert_eq!(*guard.get(), 1);
    guard.unlock();
}
