//! The lock from the standard library, as far as this crate uses it.
//!
//! What a lock protects is shared with other threads, so nothing is claimed
//! about the value that is found under it: the code that works on that value
//! is verified for every value.

use std::sync::Mutex;
use std::sync::MutexGuard;
use vstd::prelude::*;

verus! {

/// `std::sync::Mutex`: a lock, of which the verifier sees nothing.
#[verifier::external_type_specification]
#[verifier::external_body]
#[verifier::reject_recursive_types(T)]
pub struct ExMutex<T: ?Sized>(Mutex<T>);

/// `std::sync::MutexGuard`: a lock that is held, of which the verifier sees
/// nothing.
#[verifier::external_type_specification]
#[verifier::external_body]
#[verifier::reject_recursive_types(T)]
pub struct ExMutexGuard<'a, T: ?Sized + 'a>(MutexGuard<'a, T>);

/// `Mutex::new` puts a value under a new lock. Nothing is claimed of the lock.
pub assume_specification<T>[ Mutex::<T>::new ](value: T) -> Mutex<T>
;

/// `Mutex::lock`: waits until the lock is free and takes it. A lock that was
/// poisoned by a panic elsewhere is taken all the same, so the call does not
/// panic. Nothing is claimed of the value under the lock. The crate never asks
/// for a lock while it holds one, so the wait ends.
#[verifier::external_body]
pub(crate) fn lock<T>(mutex: &Mutex<T>) -> MutexGuard<'_, T>
    opens_invariants none
    no_unwind
{
    match mutex.lock() {
        Ok(guard) => guard,
        Err(poisoned) => poisoned.into_inner(),
    }
}

/// `DerefMut::deref_mut` of a guard: the value under the lock, for as long as
/// the guard is borrowed. Nothing is claimed of the value; the call does not
/// panic.
#[verifier::external_body]
pub(crate) fn locked<'a, 'b, T>(guard: &'a mut MutexGuard<'b, T>) -> &'a mut T
    opens_invariants none
    no_unwind
{
    &mut *guard
}

} // verus!
