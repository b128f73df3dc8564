//! The wake-up signal that blocked observers sleep on: a mutex that guards
//! nothing but the moment of waiting, and a condition variable.

use vstd::prelude::*;
use std::sync::{Condvar, Mutex, MutexGuard};

verus! {

#[verifier::external_type_specification]
#[verifier::external_body]
#[verifier::reject_recursive_types(T)]
pub struct ExMutex<T: ?Sized>(Mutex<T>);

#[verifier::external_type_specification]
#[verifier::external_body]
#[verifier::reject_recursive_types(T)]
pub struct ExMutexGuard<'a, T: ?Sized + 'a>(MutexGuard<'a, T>);

#[verifier::external_type_specification]
#[verifier::external_body]
pub struct ExCondvar(Condvar);

/// Relies on std's `Mutex::new`: a fresh unlocked mutex.
pub assume_specification<T>[ Mutex::<T>::new ](t: T) -> Mutex<T>;

/// Relies on std's `Condvar::new`: a condition variable no thread waits on.
pub assume_specification[ Condvar::new ]() -> Condvar;

/// Relies on std's `Mutex::lock`: blocks until the lock is held. It fails only
/// on a mutex poisoned by a panic while held; the signal mutex is held only
/// around a readiness check and a wake-up, neither of which panics.
#[verifier::external_body]
pub(crate) fn lock_signal(m: &Mutex<()>) -> MutexGuard<'_, ()> {
    m.lock().unwrap()
}

/// Relies on std's `Condvar::notify_all`: every thread waiting on `cv` wakes.
#[verifier::external_body]
pub(crate) fn wake_all(cv: &Condvar) {
    cv.notify_all()
}

} // verus!
