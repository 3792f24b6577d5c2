//! A cell whose value is reached only while one process-wide lock is held.
//!
//! - `GlobalLock` is the lock that every cell shares; `acquire` blocks until
//!   it is free and returns a `GlobalPermit` that holds it until dropped.
//! - `GLock` owns one value. Building it, borrowing it exclusively and
//!   unwrapping it take no lock.
//! - `GLockGuard` pairs an exclusive borrow of a cell's value with a permit,
//!   so the value is read and written only while the lock is held, and the
//!   lock is released only after the borrow ends.
//!
//! A program keeps a single `GlobalLock` for its whole lifetime, so holding
//! access to one cell keeps every other cell locked as well.

mod cell;
mod global;
mod guard;

pub use cell::GLock;
pub use global::{GlobalLock, GlobalPermit};
pub use guard::GLockGuard;
