use vstd::prelude::*;

verus! {

/// parking_lot's raw lock, the one behind `parking_lot::Mutex`.
#[verifier::external_type_specification]
#[verifier::external_body]
pub struct ExRawMutex(parking_lot::RawMutex);

/// parking_lot's mutex over a protected value.
#[verifier::external_type_specification]
#[verifier::external_body]
#[verifier::reject_recursive_types(R)]
#[verifier::reject_recursive_types(T)]
pub struct ExMutex<R, T: ?Sized>(parking_lot::lock_api::Mutex<R, T>);

/// Proof that the global lock is held by its owner.
///
/// It holds parking_lot's guard of the lock, which unlocks the lock when it
/// drops. Verus refuses that guard type itself (its declaration is bounded by
/// parking_lot's `RawMutex` trait), so the permit is opaque to proofs.
#[verifier::external_body]
pub struct GlobalPermit<'a> {
    guard: parking_lot::MutexGuard<'a, ()>,
}

/// The mutual-exclusion lock that every `GLock` shares. It holds no data.
///
/// Two states: unlocked, and locked while a `GlobalPermit` of it is alive.
/// There is no re-entrancy: acquiring again while holding a permit of the
/// same lock blocks forever.
pub struct GlobalLock {
    raw: parking_lot::Mutex<()>,
}

/// Relies on parking_lot::Mutex::new: builds an unlocked mutex.
#[verifier::external_body]
fn new_unit_mutex() -> parking_lot::Mutex<()> {
    parking_lot::Mutex::new(())
}

/// Relies on parking_lot::Mutex::lock: blocks until no other thread holds the
/// mutex, then holds it until the returned permit drops.
#[verifier::external_body]
fn lock_unit_mutex(m: &parking_lot::Mutex<()>) -> GlobalPermit<'_> {
    GlobalPermit { guard: m.lock() }
}

impl GlobalLock {
    /// Creates the lock, unlocked. A process keeps one for its whole lifetime.
    pub fn new() -> Self {
        GlobalLock { raw: new_unit_mutex() }
    }

    /// Blocks until no other thread holds the lock, then returns the permit
    /// that keeps it held until the permit is dropped.
    pub fn acquire(&self) -> GlobalPermit<'_> {
        lock_unit_mutex(&self.raw)
    }
}

} // verus!
