//! A value bound to an exclusive-access lock, reached through scoped tokens.
//!
//! A [`Mutex`] owns a lock word and the value the word guards. Acquiring the
//! lock hands out a [`MutexGuard`]: the token through which the value is read
//! and written, and whose end of scope releases the lock again.
//!
//! Exclusivity is carried by the borrow: acquiring takes the container by
//! `&mut`, so whoever drives it holds it alone. A layer that shares one
//! container between threads first takes the platform's lock and then enters
//! here with the exclusive reference that the platform's lock stands for.

pub mod model;
pub mod mutex;
pub mod raw;

pub use model::MutexView;
pub use mutex::Mutex;
pub use mutex::MutexGuard;
pub use raw::RawLock;
