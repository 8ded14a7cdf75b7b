//! The spin lock that guards the shared bus.
//!
//! Nothing here is proved: these are the declarations on which the proofs of
//! the other modules rest. The lock and its guard are opaque values. No
//! contract says whether an attempt to take the lock succeeds, since that
//! depends on who else holds it at that instant, and none says what the lock
//! protects, since that changes behind a shared reference.
use vstd::prelude::*;

verus! {

/// `spin::mutex::Mutex`, carried as an opaque value.
#[verifier::external_type_specification]
#[verifier::external_body]
#[verifier::reject_recursive_types(T)]
#[verifier::reject_recursive_types(R)]
pub struct ExMutex<T: ?Sized, R>(spin::mutex::Mutex<T, R>);

/// `spin::relax::Spin`, the default relax strategy that `Mutex` is
/// parameterised with.
#[verifier::external_type_specification]
#[verifier::external_body]
pub struct ExSpin(spin::relax::Spin);

/// `spin::mutex::MutexGuard`, carried as an opaque value. Holding one is
/// holding the lock; dropping it releases the lock.
#[verifier::external_type_specification]
#[verifier::external_body]
#[verifier::reject_recursive_types(T)]
pub struct ExMutexGuard<'a, T: 'a + ?Sized>(spin::mutex::MutexGuard<'a, T>);

/// `spin::mutex::Mutex::new` wraps a value in an unlocked mutex. Nothing is
/// claimed of the result.
pub assume_specification<T, R>[ spin::mutex::Mutex::<T, R>::new ](
    value: T,
) -> (mutex: spin::mutex::Mutex<T, R>);

/// `spin::mutex::Mutex::try_lock` makes one attempt to take the lock and
/// returns at once: a guard if it got the lock, `None` if the lock was held.
/// Which of the two happens is not claimed.
pub assume_specification<T: ?Sized, R>[ spin::mutex::Mutex::<T, R>::try_lock ](
    mutex: &spin::mutex::Mutex<T, R>,
) -> (guard: Option<spin::mutex::MutexGuard<'_, T>>);

/// `DerefMut::deref_mut` of `spin::mutex::MutexGuard` hands out the value
/// that the held lock protects. Nothing is claimed of that value: whoever
/// held the lock before may have left it in any state.
#[verifier::external_body]
pub(crate) fn protected<'g, 'a, T>(
    guard: &'g mut spin::mutex::MutexGuard<'a, T>,
) -> (value: &'g mut T) {
    core::ops::DerefMut::deref_mut(guard)
}

} // verus!
