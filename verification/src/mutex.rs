//! The instrumented mutex: a `std::sync::Mutex` with a shared spin interval
//! and an identifier for diagnostics.
//!
//! Acquiring the mutex is a loop of rounds. One round asks the lock once,
//! without blocking, and then either hands out the guard, or grows the shared
//! interval and says how long to sleep and how loudly to report the wait, or
//! reports that the lock is poisoned. [`Mutex::attempt`] is one such round;
//! sleeping and reporting between two rounds is left to the caller, so that
//! nothing here ever blocks.

use crate::backoff::{spec_wait, wait_after, Wait, DEFAULT_SPIN};
use crate::ident::{print_id, spec_print_id};
use crate::primitive::{fetch_grow, protected, protected_mut, try_acquire, Probe};
use std::sync::atomic::{AtomicUsize, Ordering};
use vstd::prelude::*;

verus! {

/// A mutual exclusion lock around a value of type `T` that keeps, for all the
/// threads that wait for it, the interval at which they try again.
#[verifier::reject_recursive_types(T)]
#[derive(Debug)]
pub struct Mutex<T> {
    inner: std::sync::Mutex<T>,
    spin_us: AtomicUsize,
    id: usize,
}

/// Exclusive access to the value in a [`Mutex`]; the lock is released when
/// the guard is dropped.
#[verifier::reject_recursive_types(T)]
pub struct MutexGuard<'a, T> {
    inner: std::sync::MutexGuard<'a, T>,
    id: usize,
}

/// The failure of an acquisition that found the lock poisoned: an earlier
/// holder panicked while holding it. The error carries the guard, so the
/// caller decides whether to go on with the value or to give up.
#[verifier::reject_recursive_types(T)]
pub struct Poisoned<'a, T> {
    source: std::sync::PoisonError<std::sync::MutexGuard<'a, T>>,
    id: usize,
}

/// Why [`Mutex::try_lock`] handed out no guard.
#[verifier::reject_recursive_types(T)]
pub enum TryLockError<'a, T> {
    /// Somebody else holds the lock.
    WouldBlock,
    /// The lock is poisoned.
    Poisoned(Poisoned<'a, T>),
}

/// How one round of an acquisition ended.
#[verifier::reject_recursive_types(T)]
pub enum Attempt<'a, T> {
    /// The lock is acquired. The acquisition is over.
    Acquired(MutexGuard<'a, T>),
    /// Somebody else holds the lock: sleep as the [`Wait`] says, then try
    /// again.
    Blocked(Wait),
    /// The lock is poisoned. The acquisition is over.
    Poisoned(Poisoned<'a, T>),
}

impl<'a, T> MutexGuard<'a, T> {
    /// The identifier of the mutex that this guard holds.
    pub closed spec fn spec_id(&self) -> usize {
        self.id
    }

    /// The guard of the lock under the mutex.
    pub closed spec fn primitive(&self) -> std::sync::MutexGuard<'a, T> {
        self.inner
    }

    /// The identifier of the mutex that this guard holds.
    #[verifier::when_used_as_spec(spec_id)]
    pub fn id(&self) -> (id: usize)
        ensures
            id == self.spec_id(),
    {
        self.id
    }

    /// The name of the mutex that this guard holds, for a line of diagnostics.
    pub fn name(&self) -> (name: String)
        ensures
            name@ == spec_print_id(self.spec_id()),
    {
        print_id(self.id)
    }
}

impl<'a, T> core::ops::Deref for MutexGuard<'a, T> {
    type Target = T;

    fn deref(&self) -> &T {
        protected(&self.inner)
    }
}

impl<'a, T> core::ops::DerefMut for MutexGuard<'a, T> {
    fn deref_mut(&mut self) -> &mut T {
        protected_mut(&mut self.inner)
    }
}

impl<'a, T> Poisoned<'a, T> {
    /// The identifier of the poisoned mutex.
    pub closed spec fn spec_id(&self) -> usize {
        self.id
    }

    /// The error of the lock under the mutex.
    pub closed spec fn source(&self) -> std::sync::PoisonError<std::sync::MutexGuard<'a, T>> {
        self.source
    }

    /// The identifier of the poisoned mutex.
    #[verifier::when_used_as_spec(spec_id)]
    pub fn id(&self) -> (id: usize)
        ensures
            id == self.spec_id(),
    {
        self.id
    }

    /// Gives up the error of the lock under the mutex, with the guard in it.
    pub fn into_source(self) -> (source: std::sync::PoisonError<std::sync::MutexGuard<'a, T>>)
        ensures
            source == self.source(),
    {
        self.source
    }

    /// Goes on in spite of the poison: the guard that the error carries.
    pub fn into_guard(self) -> (guard: MutexGuard<'a, T>)
        ensures
            guard.spec_id() == self.spec_id(),
    {
        MutexGuard { inner: self.source.into_inner(), id: self.id }
    }
}

impl<T> Mutex<T> {
    /// The identifier under which the mutex appears in diagnostics.
    pub closed spec fn spec_id(&self) -> usize {
        self.id
    }

    /// A mutex around `data` that nobody holds, with the spin interval at
    /// [`DEFAULT_SPIN`]. `id` is the identifier under which it will appear in
    /// diagnostics; the caller draws it from a counter so that no two mutexes
    /// of a process share one.
    pub fn new(data: T, id: usize) -> (mutex: Self)
        ensures
            mutex.spec_id() == id,
    {
        Mutex { inner: std::sync::Mutex::new(data), spin_us: AtomicUsize::new(DEFAULT_SPIN), id }
    }

    /// The identifier under which the mutex appears in diagnostics.
    #[verifier::when_used_as_spec(spec_id)]
    pub fn id(&self) -> (id: usize)
        ensures
            id == self.spec_id(),
    {
        self.id
    }

    /// The name of the mutex, for a line of diagnostics.
    pub fn name(&self) -> (name: String)
        ensures
            name@ == spec_print_id(self.spec_id()),
    {
        print_id(self.id)
    }

    /// The spin interval as it stands, in microseconds. Other threads may
    /// change it at any moment.
    pub fn spin_interval(&self) -> usize {
        self.spin_us.load(Ordering::Acquire)
    }

    /// What an attempt that does not block makes of the answer of the lock:
    /// a guard where the lock was granted, and the matching error otherwise.
    /// The spin interval is left alone.
    pub fn interpret<'a>(&self, probe: Probe<'a, T>) -> (tried: Result<
        MutexGuard<'a, T>,
        TryLockError<'a, T>,
    >)
        ensures
            match probe {
                Probe::Granted(granted) => tried matches Ok(guard) && guard.primitive() == granted
                    && guard.spec_id() == self.spec_id(),
                Probe::Held => tried matches Err(TryLockError::WouldBlock),
                Probe::Poisoned(error) => tried matches Err(TryLockError::Poisoned(poisoned))
                    && poisoned.source() == error && poisoned.spec_id() == self.spec_id(),
            },
    {
        match probe {
            Probe::Granted(granted) => Ok(MutexGuard { inner: granted, id: self.id }),
            Probe::Held => Err(TryLockError::WouldBlock),
            Probe::Poisoned(error) => Err(
                TryLockError::Poisoned(Poisoned { source: error, id: self.id }),
            ),
        }
    }

    /// Tries to acquire the mutex without blocking. Whatever the answer, the
    /// call returns at once and leaves the spin interval alone.
    pub fn try_lock(&self) -> (tried: Result<MutexGuard<'_, T>, TryLockError<'_, T>>)
        ensures
            match tried {
                Ok(guard) => guard.spec_id() == self.spec_id(),
                Err(TryLockError::WouldBlock) => true,
                Err(TryLockError::Poisoned(poisoned)) => poisoned.spec_id() == self.spec_id(),
            },
    {
        self.interpret(try_acquire(&self.inner))
    }

    /// Ends a round of an acquisition whose attempt came out as `tried`.
    ///
    /// A guard resets the spin interval to [`DEFAULT_SPIN`] and is handed on.
    /// A lock held elsewhere doubles the interval, in one atomic step however
    /// many threads do so at once, and the wait is planned from the doubled
    /// value. A poisoned lock is reported as it is, the interval untouched.
    pub fn settle<'a>(&self, tried: Result<MutexGuard<'a, T>, TryLockError<'a, T>>) -> (round:
        Attempt<'a, T>)
        ensures
            match tried {
                Ok(guard) => round == Attempt::Acquired(guard),
                Err(TryLockError::WouldBlock) => round matches Attempt::Blocked(wait)
                    && exists|previous: usize| wait == #[trigger] spec_wait(previous),
                Err(TryLockError::Poisoned(poisoned)) => round == Attempt::Poisoned(poisoned),
            },
    {
        match tried {
            Ok(guard) => {
                self.spin_us.store(DEFAULT_SPIN, Ordering::Release);
                Attempt::Acquired(guard)
            },
            Err(TryLockError::WouldBlock) => {
                let previous = fetch_grow(&self.spin_us);
                Attempt::Blocked(wait_after(previous))
            },
            Err(TryLockError::Poisoned(poisoned)) => Attempt::Poisoned(poisoned),
        }
    }

    /// One round of an acquisition: tries the lock once and settles the
    /// outcome. The caller loops: on [`Attempt::Blocked`] it reports the wait
    /// at the given severity, sleeps for the given interval and calls again.
    pub fn attempt(&self) -> (round: Attempt<'_, T>)
        ensures
            match round {
                Attempt::Acquired(guard) => guard.spec_id() == self.spec_id(),
                Attempt::Blocked(wait) => exists|previous: usize|
                    wait == #[trigger] spec_wait(previous),
                Attempt::Poisoned(poisoned) => poisoned.spec_id() == self.spec_id(),
            },
    {
        let tried = self.try_lock();
        self.settle(tried)
    }
}

} // verus!
