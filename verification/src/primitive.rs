//! The pieces of `std::sync` that the mutex is built on.
//!
//! Nothing in this file is proved. The types are opaque to the verifier, and
//! what the lock answers and what the interval holds is decided by the other
//! threads of the process, so no function here promises anything about its
//! result: the code that calls them is verified for whatever comes back.

use crate::backoff::next_spin;
use std::sync::atomic::{AtomicUsize, Ordering};
use vstd::prelude::*;

verus! {

/// `std::sync::Mutex`, the exclusive lock under the instrumented mutex.
#[verifier::external_type_specification]
#[verifier::external_body]
#[verifier::reject_recursive_types(T)]
pub struct ExMutex<T: ?Sized>(std::sync::Mutex<T>);

/// `std::sync::MutexGuard`, which owns the lock until it is dropped.
#[verifier::external_type_specification]
#[verifier::external_body]
#[verifier::reject_recursive_types(T)]
pub struct ExMutexGuard<'a, T: ?Sized + 'a>(std::sync::MutexGuard<'a, T>);

/// `std::sync::PoisonError`, which carries the guard of a lock whose earlier
/// holder panicked.
#[verifier::external_type_specification]
#[verifier::external_body]
#[verifier::reject_recursive_types(T)]
pub struct ExPoisonError<T>(std::sync::PoisonError<T>);

/// `std::sync::Mutex::new`: a lock around `data`, not held by anybody. The
/// lock is opaque here, so the contract claims nothing of it.
pub assume_specification<T>[ std::sync::Mutex::<T>::new ](data: T) -> std::sync::Mutex<T>;

/// `std::sync::PoisonError::into_inner`: the guard that the error carries.
/// The error is opaque here, so the contract claims nothing of the guard.
pub assume_specification<T>[ std::sync::PoisonError::<T>::into_inner ](
    error: std::sync::PoisonError<T>,
) -> T;

/// What the lock answered to one attempt that does not block.
#[verifier::reject_recursive_types(T)]
pub enum Probe<'a, T> {
    /// The lock was free and now belongs to the holder of this guard.
    Granted(std::sync::MutexGuard<'a, T>),
    /// Somebody else holds the lock.
    Held,
    /// The lock was free, but an earlier holder panicked while holding it.
    Poisoned(std::sync::PoisonError<std::sync::MutexGuard<'a, T>>),
}

/// `std::sync::Mutex::try_lock`, with its result sorted into the three cases
/// of [`Probe`]. Which case comes back depends on the other threads, so the
/// contract is silent about it.
#[verifier::external_body]
pub(crate) fn try_acquire<'a, T>(primitive: &'a std::sync::Mutex<T>) -> Probe<'a, T> {
    match primitive.try_lock() {
        Ok(guard) => Probe::Granted(guard),
        Err(std::sync::TryLockError::WouldBlock) => Probe::Held,
        Err(std::sync::TryLockError::Poisoned(poisoned)) => Probe::Poisoned(poisoned),
    }
}

/// `AtomicUsize::fetch_update` with [`next_spin`] as the update: replaces the
/// interval by its successor in one atomic step, retrying while other threads
/// get in between, and returns the interval that it replaced. That value is
/// whatever the threads of the process left there, so the contract is silent
/// about it.
#[verifier::external_body]
pub(crate) fn fetch_grow(interval: &AtomicUsize) -> usize {
    match interval.fetch_update(Ordering::SeqCst, Ordering::SeqCst, |spin| Some(next_spin(spin))) {
        Ok(previous) => previous,
        Err(previous) => previous,
    }
}

/// `Deref::deref` of `std::sync::MutexGuard`: the value that the lock
/// protects. The contract claims nothing of it.
#[verifier::external_body]
pub(crate) fn protected<'g, 'a, T>(guard: &'g std::sync::MutexGuard<'a, T>) -> &'g T {
    guard
}

/// `DerefMut::deref_mut` of `std::sync::MutexGuard`: the value that the lock
/// protects, for writing. The contract claims nothing of it.
#[verifier::external_body]
pub(crate) fn protected_mut<'g, 'a, T>(guard: &'g mut std::sync::MutexGuard<'a, T>) -> &'g mut T {
    guard
}

} // verus!
