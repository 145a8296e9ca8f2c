//! A concurrency toolkit built from first principles: an atomically
//! reference-counted shared pointer with weak references, and a family of
//! blocking synchronization primitives — a mutual-exclusion lock, a
//! reader-writer lock and a condition variable — built directly on atomic
//! memory operations and one OS-assisted wait/wake primitive.
//!
//! Each primitive drives a small transition system over an atomic control
//! word. The transition systems are stated as specification-level models
//! (`arc_model`, `mutex_model`, `rwlock_model`, `counter_model`), and the
//! central properties — the payload of a shared pointer is destroyed exactly
//! once, at most one thread holds the mutex, readers and writers exclude one
//! another, a notification between a counter read and the matching wait
//! cannot be missed — are proved of those models. The executable code makes
//! the same transitions on live atomics shared between threads, whose values
//! the verifier cannot track across threads; what is checked there is that
//! every function is panic-free and free of arithmetic overflow, that the
//! locks drive the very words their models speak of, and that each guard
//! hands the value it owns through exactly as its contract states. What only
//! running threads can show — values exchanged through the shared cells — is
//! exercised by the crate's tests.

pub mod arc_basic;
pub mod arc_model;
pub mod arc_optimized;
pub mod arc_weak;
pub mod condvar;
pub mod condvar_counted;
pub mod counter_model;
mod futex;
pub mod mutex;
pub mod mutex_model;
pub mod rwlock_basic;
pub mod rwlock_fair;
pub mod rwlock_model;
mod slot;
