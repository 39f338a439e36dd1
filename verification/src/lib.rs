//! A spin lock: mutual exclusion by busy-wait polling.
//!
//! [`SpinMutex`] owns a single value and serializes access to it with an
//! atomic flag. A caller acquires the lock with [`SpinMutex::lock`], which
//! polls the flag in a tight loop (a "spin") until it can atomically take it,
//! and receives a [`SpinMutexGuard`] granting exclusive access to the value.
//! Dropping the guard without calling [`SpinMutexGuard::unlock`] leaves the
//! lock held forever, so every critical section ends with `unlock`, which
//! consumes the guard; a second release of the same guard is therefore
//! impossible by construction.
//!
//! The abstract flag protocol that the lock follows, and the laws it obeys
//! (at most one live guard, no double release, the released value visible
//! to the next acquirer, no lost updates among serialized critical
//! sections), are stated and proved in [`protocol`].

use vstd::prelude::*;
use vstd::rwlock::{RwLock, WriteHandle};

pub mod protocol;

pub use SpinMutex as Mutex;

verus! {

/// A mutual-exclusion primitive that protects a single value of type `T`
/// using active polling (a spin lock) instead of operating-system blocking.
///
/// At most one [`SpinMutexGuard`] for a given `SpinMutex` is live at any
/// instant; the guard is the sole channel of access to the protected value.
/// A `SpinMutex` may be shared freely among threads (it is `Sync` whenever
/// `T` can be sent across threads): the flag serializes all access.
///
/// Acquisition is not interruptible and makes no fairness guarantee: any
/// polling caller may win a given transition. Acquiring twice from the same
/// thread without releasing first spins forever; that is a caller
/// obligation, not a condition the lock detects.
#[verifier::reject_recursive_types(T)]
pub struct SpinMutex<T> {
    inner: RwLock<T, spec_fn(T) -> bool>,
}

/// Exclusive access to the value protected by a [`SpinMutex`], produced only
/// by a successful [`SpinMutex::lock`].
///
/// While the guard is live it is the unique owner of the protected value:
/// reads go through [`borrow`](SpinMutexGuard::borrow) and writes through
/// [`store`](SpinMutexGuard::store). The critical section ends with
/// [`unlock`](SpinMutexGuard::unlock), which consumes the guard, writes the
/// value back and atomically clears the flag with release ordering, so that
/// every write made under the guard is visible to the next acquirer.
#[verifier::reject_recursive_types(T)]
pub struct SpinMutexGuard<'a, T> {
    value: T,
    handle: WriteHandle<'a, T, spec_fn(T) -> bool>,
}

impl<T> SpinMutex<T> {
    /// Well-formedness: the storage invariant of the underlying lock admits
    /// every value, so a guard may write any value of type `T` back.
    #[verifier::type_invariant]
    spec fn wf(self) -> bool {
        forall|v: T| #[trigger] self.inner.inv(v)
    }

    /// Creates a new lock owning `data`, with the flag initially clear.
    pub fn new(data: T) -> SpinMutex<T> {
        SpinMutex { inner: RwLock::new(data, Ghost(|v: T| true)) }
    }

    /// Acquires the lock, busy-waiting until the flag is atomically taken
    /// (a compare-and-swap with acquire ordering on success), and returns
    /// the guard granting exclusive access to the protected value.
    ///
    /// Never fails: it either returns a guard or keeps polling. While it
    /// polls it never sleeps, parks, or registers a wake-up; it returns as
    /// soon as a release by the previous holder is observed.
    pub fn lock(&self) -> (guard: SpinMutexGuard<'_, T>)
        ensures
            guard.mutex() == *self,
    {
        proof {
            use_type_invariant(self);
        }
        let (value, handle) = self.inner.acquire_write();
        SpinMutexGuard { value, handle }
    }
}

impl<'a, T> SpinMutexGuard<'a, T> {
    /// Well-formedness: the guard's handle leads back to a lock whose
    /// storage invariant admits every value.
    #[verifier::type_invariant]
    spec fn wf(self) -> bool {
        forall|v: T| #[trigger] self.handle.rwlock().inv(v)
    }

    /// The lock this guard was acquired from.
    pub closed spec fn mutex(self) -> SpinMutex<T> {
        SpinMutex { inner: self.handle.rwlock() }
    }

    /// Read-only projection onto the protected value.
    pub fn borrow(&self) -> (v: &T)
        ensures
            *v == self@,
    {
        &self.value
    }

    /// Overwrites the protected value; the guard still belongs to the same
    /// lock, so the new value is what the next acquirer will observe once
    /// this guard is released.
    pub fn store(&mut self, new_value: T)
        ensures
            final(self)@ == new_value,
            final(self).mutex() == old(self).mutex(),
    {
        proof {
            use_type_invariant(&*self);
        }
        self.value = new_value;
    }

    /// Ends the critical section: writes the protected value back and
    /// atomically clears the flag with release ordering, making every write
    /// made under this guard visible to the next acquirer. Consumes the
    /// guard, so release happens exactly once per successful acquisition.
    pub fn unlock(self) {
        proof {
            use_type_invariant(&self);
        }
        let SpinMutexGuard { value, handle } = self;
        handle.release_write(value);
    }
}

impl<'a, T> View for SpinMutexGuard<'a, T> {
    type V = T;

    /// The protected value as currently seen through this guard.
    closed spec fn view(&self) -> T {
        self.value
    }
}

} // verus!
