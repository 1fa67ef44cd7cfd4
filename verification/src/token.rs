//! Trusted boundary around the `spin` crate's mutex.
//!
//! Everything the rest of the crate knows about a spin lock flows through
//! the declarations and the few `external_body` wrappers in this module:
//! the mutex and guard types are declared opaque, and a held lock is
//! modelled as a [`ResourceToken`] that records, as ghost state, which
//! mutex it came from and which value it currently protects.

use vstd::pervasive::arbitrary;
use vstd::prelude::*;

verus! {

#[verifier::external_type_specification]
#[verifier::external_body]
#[verifier::reject_recursive_types(T)]
#[verifier::reject_recursive_types(R)]
pub struct ExMutex<T: ?Sized, R>(spin::mutex::Mutex<T, R>);

#[verifier::external_type_specification]
#[verifier::external_body]
#[verifier::reject_recursive_types(T)]
#[verifier::reject_recursive_types(R)]
pub struct ExMutexGuard<'a, T: 'a + ?Sized, R>(spin::mutex::MutexGuard<'a, T, R>);

#[verifier::external_type_specification]
#[verifier::external_body]
pub struct ExSpin(spin::relax::Spin);

/// Exclusive access to one resource: wraps the guard that the spin mutex
/// handed out, together with ghost state naming the mutex it was taken
/// from and the value it protects.
///
/// Dropping the token releases the underlying lock.
#[verifier::reject_recursive_types(T)]
pub struct ResourceToken<'a, T> {
    guard: spin::MutexGuard<'a, T>,
    source: Ghost<&'a spin::Mutex<T>>,
    value: Ghost<T>,
}

impl<'a, T> ResourceToken<'a, T> {
    /// The mutex this token was acquired from.
    pub closed spec fn resource(&self) -> &'a spin::Mutex<T> {
        self.source@
    }

    /// The value the token's resource currently holds.
    pub closed spec fn value(&self) -> T {
        self.value@
    }

    /// Relies on `spin::MutexGuard`'s `Deref` impl: while the guard is
    /// held, it gives shared access to exactly the protected value, which
    /// no other party can change in the meantime.
    #[verifier::external_body]
    pub fn read(&self) -> (r: &T)
        ensures
            *r == self.value(),
    {
        &*self.guard
    }

    /// Relies on `spin::MutexGuard`'s `DerefMut` impl: while the guard is
    /// held, it gives exclusive access to the protected value, so an
    /// assignment through it replaces that value.
    #[verifier::external_body]
    pub fn set(&mut self, v: T)
        ensures
            final(self).value() == v,
            final(self).resource() == old(self).resource(),
    {
        *self.guard = v;
    }
}

/// Relies on `spin::Mutex::try_lock`: it returns `Some(guard)` exactly
/// when the lock was free, taking it, and `None` when the lock is
/// currently held elsewhere; the guard grants exclusive access until it
/// is dropped. Whether the attempt succeeds depends on concurrent
/// holders, so nothing is promised about which branch comes back.
#[verifier::external_body]
pub(crate) fn try_acquire<'a, T>(m: &'a spin::Mutex<T>) -> (r: Option<ResourceToken<'a, T>>)
    ensures
        r matches Some(t) ==> t.resource() == m,
{
    match m.try_lock() {
        Some(g) => Some(ResourceToken { guard: g, source: Ghost(m), value: Ghost(arbitrary()) }),
        None => None,
    }
}

/// Relies on `core::hint::spin_loop`: it emits a processor yield hint for
/// busy-wait loops and has no observable effect on any value.
#[verifier::external_body]
pub(crate) fn cpu_relax() {
    core::hint::spin_loop();
}

} // verus!
