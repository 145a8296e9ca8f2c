use syncprims::arc_basic;
use syncprims::arc_optimized;
use syncprims::arc_weak;

use crossbeam_utils::thread;
use std::sync::atomic::AtomicUsize;
use std::sync::atomic::Ordering::Relaxed;
use std::sync::Arc as StdArc;

/// Counts the destruction of the one original payload it was built into;
/// clones handed out by the payload accessors do not count.
struct DetectDrop {
    drops: StdArc<AtomicUsize>,
    original: bool,
}

impl DetectDrop {
    fn new(drops: &StdArc<AtomicUsize>) -> DetectDrop {
        DetectDrop { drops: drops.clone(), original: true }
    }
}

impl Clone for DetectDrop {
    fn clone(&self) -> DetectDrop {
        DetectDrop { drops: self.drops.clone(), original: false }
    }
}

impl Drop for DetectDrop {
    fn drop(&mut self) {
        if self.original {
            self.drops.fetch_add(1, Relaxed);
        }
    }
}

#[test]
fn s1_basic_test() {
    let num_drops = StdArc::new(AtomicUsize::new(0));

    // Two handles sharing an object with a string and a drop detector.
    let x = arc_basic::Arc::new(("hello", DetectDrop::new(&num_drops)));
    let y = x.clone();

    // Use x on another thread, and y here in parallel.
    thread::scope(|s| {
        s.spawn(|_| {
            assert_eq!(x.get().0, "hello");
            x.release();
        });
        assert_eq!(y.get().0, "hello");
    })
    .unwrap();

    // One handle, x, is gone by now; y still keeps the object alive.
    assert_eq!(num_drops.load(Relaxed), 0);

    y.release();

    // Now that y is gone too, the object has been dropped.
    assert_eq!(num_drops.load(Relaxed), 1);
}

#[test]
fn s2_weak_test() {
    let num_drops = StdArc::new(AtomicUsize::new(0));

    // One strong handle with two weak companions.
    let x = arc_weak::Arc::new(("hello", DetectDrop::new(&num_drops)));
    let y = arc_weak::Arc::downgrade(&x);
    let z = arc_weak::Arc::downgrade(&x);

    thread::scope(|s| {
        s.spawn(|_| {
            // The weak handle is upgradable at this point.
            let upgraded = y.upgrade().unwrap();
            assert_eq!(upgraded.get().0, "hello");
            upgraded.release();
            y.release();
        });
        assert_eq!(x.get().0, "hello");
    })
    .unwrap();

    // The payload is not dropped yet, and the weak handle still upgrades.
    assert_eq!(num_drops.load(Relaxed), 0);
    let still_live = z.upgrade();
    assert!(still_live.is_some());
    still_live.unwrap().release();

    x.release();

    // Now the payload is dropped, and the weak handle no longer upgrades.
    assert_eq!(num_drops.load(Relaxed), 1);
    assert!(z.upgrade().is_none());
    z.release();
}

#[test]
fn s3_optimized_test() {
    let num_drops = StdArc::new(AtomicUsize::new(0));

    let x = arc_optimized::Arc::new(("hello", DetectDrop::new(&num_drops)));
    let y = arc_optimized::Arc::downgrade(&x);
    let z = arc_optimized::Arc::downgrade(&x);

    thread::scope(|s| {
        s.spawn(|_| {
            let upgraded = y.upgrade().unwrap();
            assert_eq!(upgraded.get().0, "hello");
            upgraded.release();
            y.release();
        });
        assert_eq!(x.get().0, "hello");
    })
    .unwrap();

    assert_eq!(num_drops.load(Relaxed), 0);
    let still_live = z.upgrade();
    assert!(still_live.is_some());
    still_live.unwrap().release();

    x.release();

    assert_eq!(num_drops.load(Relaxed), 1);
    assert!(z.upgrade().is_none());
    z.release();
}

#[test]
fn get_mut_exactly_when_unique() {
    // Exclusive access is granted exactly while one handle of any kind exists.
    let mut x = arc_optimized::Arc::new(7u64);

    let y = x.clone();
    assert!(arc_optimized::Arc::get_mut(&mut x).is_none());
    y.release();

    let w = arc_optimized::Arc::downgrade(&x);
    assert!(arc_optimized::Arc::get_mut(&mut x).is_none());
    w.release();

    let guard = arc_optimized::Arc::get_mut(&mut x);
    assert!(guard.is_some());
    let mut guard = guard.unwrap();
    assert_eq!(*guard.get(), 7);
    guard.set(8);
    guard.release();
    assert_eq!(x.get(), 8);
    x.release();
}

#[test]
fn get_mut_exactly_when_unique_plain_counters() {
    // The same uniqueness rule, on the pointer whose allocation count tallies
    // every handle.
    let mut x = arc_weak::Arc::new(7u64);

    let y = x.clone();
    assert!(arc_weak::Arc::get_mut(&mut x).is_none());
    y.release();

    let w = arc_weak::Arc::downgrade(&x);
    assert!(arc_weak::Arc::get_mut(&mut x).is_none());
    w.release();

    let guard = arc_weak::Arc::get_mut(&mut x);
    assert!(guard.is_some());
    let mut guard = guard.unwrap();
    assert_eq!(*guard.get(), 7);
    guard.set(8);
    guard.release();
    assert_eq!(x.get(), 8);
    x.release();
}

#[test]
fn get_mut_single_counter() {
    let mut x = arc_basic::Arc::new(1u32);
    let y = x.clone();
    assert!(arc_basic::Arc::get_mut(&mut x).is_none());
    y.release();
    let guard = arc_basic::Arc::get_mut(&mut x);
    assert!(guard.is_some());
    guard.unwrap().release();
    x.release();
}

#[test]
fn upgrade_after_last_strong_release_fails_forever() {
    let num_drops = StdArc::new(AtomicUsize::new(0));
    let x = arc_optimized::Arc::new((3u32, DetectDrop::new(&num_drops)));
    let w = arc_optimized::Arc::downgrade(&x);
    let w2 = w.clone();
    x.release();
    assert_eq!(num_drops.load(Relaxed), 1);
    assert!(w.upgrade().is_none());
    assert!(w2.upgrade().is_none());
    w.release();
    assert!(w2.upgrade().is_none());
    w2.release();
}

#[test]
fn new_then_release_drops_once() {
    let num_drops = StdArc::new(AtomicUsize::new(0));
    let x = arc_basic::Arc::new(DetectDrop::new(&num_drops));
    x.release();
    assert_eq!(num_drops.load(Relaxed), 1);
}

/// A small deterministic pseudo-random source for jittered busy delays.
fn next_delay(state: &mut u32) -> u32 {
    let mut x: u32 = *state;
    x ^= x << 13;
    x ^= x >> 17;
    x ^= x << 5;
    *state = x;
    x % 64
}

#[test]
fn clone_release_stress_drops_once() {
    // Four threads each clone and release the root ten thousand times, with
    // jittered delays; the payload destructor runs exactly once, at the end.
    let num_drops = StdArc::new(AtomicUsize::new(0));
    let root = arc_optimized::Arc::new((42u64, DetectDrop::new(&num_drops)));

    thread::scope(|s| {
        for t in 0..4u32 {
            let handle = root.clone();
            s.spawn(move |_| {
                let mut rng: u32 = t + 1;
                for _ in 0..10_000 {
                    let extra = handle.clone();
                    for _ in 0..next_delay(&mut rng) {
                        std::hint::spin_loop();
                    }
                    assert_eq!(extra.get().0, 42);
                    extra.release();
                }
                handle.release();
            });
        }
    })
    .unwrap();

    assert_eq!(num_drops.load(Relaxed), 0);
    root.release();
    assert_eq!(num_drops.load(Relaxed), 1);
}
