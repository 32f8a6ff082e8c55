//! Mutual-exclusion wrapper shared by the token store and any other shared
//! mutable client state.
//!
//! The store behind the wrapper is written atomically: a reader observes
//! either the value before or the value after an update, never a partially
//! written one. That guarantee comes from the underlying lock and is
//! trusted; the verified token logic therefore takes the observed snapshot
//! as an argument and is proved for every value of it.

use vstd::prelude::*;

verus! {

/// Declares `std::sync::Mutex` so that it can stand in a field.
#[verifier::external_type_specification]
#[verifier::external_body]
#[verifier::reject_recursive_types(T)]
pub struct ExStdMutex<T: ?Sized>(std::sync::Mutex<T>);

/// Reported by `Mutex::lock` when the lock was poisoned by a holder that
/// panicked.
#[derive(Clone, Copy, Debug, PartialEq, Eq, Structural)]
pub struct LockError;

/// An exclusively-mutable slot guarded by a mutual-exclusion primitive.
///
/// Acquisition blocks the calling thread until exclusive access is
/// obtained, and the lock is released before the call returns, on every
/// path. Because the slot is shared, nothing can be promised about which
/// value an acquisition observes; the contracts of the token flow speak
/// about the snapshot instead.
#[derive(Debug)]
#[verifier::reject_recursive_types(T)]
pub struct Mutex<T> {
    inner: std::sync::Mutex<T>,
}

impl<T> Mutex<T> {
    /// Relies on `std::sync::Mutex::new`.
    #[verifier::external_body]
    pub fn new(val: T) -> Self {
        Mutex { inner: std::sync::Mutex::new(val) }
    }

    /// Relies on `std::sync::Mutex::lock`: blocks until the lock is
    /// acquired, then returns a snapshot of the guarded value; a poisoned
    /// lock is reported as `LockError`.
    #[verifier::external_body]
    pub fn lock(&self) -> Result<T, LockError> where T: Clone {
        match self.inner.lock() {
            Ok(guard) => Ok((*guard).clone()),
            Err(_) => Err(LockError),
        }
    }

    /// Relies on `std::sync::Mutex::lock`: replaces the guarded value in
    /// one critical section, so no reader observes a half-updated slot. A
    /// poisoned lock is recovered and overwritten, as the previous holder
    /// left the old value behind.
    #[verifier::external_body]
    pub fn set(&self, val: T) {
        match self.inner.lock() {
            Ok(mut guard) => {
                *guard = val;
            },
            Err(poisoned) => {
                *poisoned.into_inner() = val;
            },
        }
    }
}

} // verus!
