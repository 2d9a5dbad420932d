//! Spin-style synchronization primitives written as verified state machines.
//!
//! Each primitive keeps its state word as a plain value and hands out
//! ownership tokens (guards).  An exclusive guard owns the payload while it is
//! held, so the type system itself rules out a second writer; the state word
//! records what is outstanding and every transition is proved to keep it
//! consistent.
pub mod lazy_lock;
pub mod mutex;
pub mod once;
pub mod once_lock;
pub mod rw_lock;

pub use lazy_lock::LazyLock;
pub use mutex::Mutex;
pub use mutex::MutexGuard;
pub use once::Finish;
pub use once::Once;
pub use once_lock::OnceLock;
pub use rw_lock::RWLock;
pub use rw_lock::RWLockReadGuard;
pub use rw_lock::RWLockWriteGuard;
