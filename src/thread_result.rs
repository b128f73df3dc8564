//! A result cell shared between threads: a producer publishes once, observers
//! poll with `ready` or block in `get`.

use vstd::prelude::*;
use vstd::rwlock::{RwLock, RwLockPredicate};
use std::sync::{Condvar, Mutex, MutexGuard};
use crate::signal::{lock_signal, wake_all};
use crate::slot::ResultSlot;

verus! {

/// What every slot stored in a cell satisfies: until it is published it
/// holds `T`'s default value.
pub open spec fn slot_inv<T: Default>(s: ResultSlot<T>) -> bool {
    !s@.is_ready() ==> call_ensures(T::default, (), s.stored())
}

/// The lock predicate of the shared slot, `slot_inv`.
pub struct SlotInv;

impl<T: Default> RwLockPredicate<ResultSlot<T>> for SlotInv {
    open spec fn inv(self, s: ResultSlot<T>) -> bool {
        slot_inv(s)
    }
}

/// A value computed by one thread and read by others. The slot is guarded by
/// a reader-writer lock; observers that block sleep on a condition variable
/// that the producer wakes after publishing. Every read and write of the slot
/// goes through `ResultSlot`'s methods under the lock; the laws in `laws` are
/// proved of the slot's model, not of this shared cell, whose calls through
/// `&self` carry no state that a contract can follow from one call to the next.
///
/// The signal mutex is held only for the readiness check and the wake-up,
/// which cannot panic, so it is never poisoned. The slot's lock is vstd's,
/// which has no poisoned state: a payload whose `clone` panics in `get` leaves
/// a reader registered, and later calls to `set` then wait forever instead of
/// failing. This is a deliberate choice over a lock whose poisoning would make
/// every call able to panic. A value overwritten by `set` is dropped after
/// both locks are released, so a panicking `drop` leaves no lock held.
pub struct ThreadResult<T: Default> {
    state: RwLock<ResultSlot<T>, SlotInv>,
    signal: Mutex<()>,
    wake: Condvar,
}

/// Relies on std's `Condvar::wait_while`: sleeps, with the signal mutex
/// released, until `pending` answers false; wake-ups that find it still true
/// go back to sleep. Returns the guard, locked again. Like `lock_signal` it
/// fails only on a poisoned mutex, which the signal mutex never is.
#[verifier::external_body]
fn wait_while_pending<'a, T: Default + Clone>(
    cv: &Condvar,
    g: MutexGuard<'a, ()>,
    shared: &ThreadResult<T>,
) -> MutexGuard<'a, ()> {
    cv.wait_while(g, |_| shared.pending()).unwrap()
}

impl<T: Default + Clone> ThreadResult<T> {
    /// Whether `s` is a slot that this cell's lock admits.
    pub closed spec fn admits(&self, s: ResultSlot<T>) -> bool {
        self.state.inv(s)
    }

    /// A cell with nothing published, holding `T`'s default value. That the
    /// first slot is unpublished and holds the default is proved of
    /// `ResultSlot::new`, which builds it; the lock's contents cannot be named
    /// here, so this contract states only which slots the lock admits.
    pub fn new() -> (r: Self)
        ensures
            forall|s: ResultSlot<T>| r.admits(s) <==> slot_inv(s),
    {
        let slot = ResultSlot::new();
        ThreadResult {
            state: RwLock::new(slot, Ghost(SlotInv)),
            signal: Mutex::new(()),
            wake: Condvar::new(),
        }
    }

    /// Publishes `t` and wakes every observer blocked in `get`. A second call
    /// overwrites the value and wakes them again; the value it replaces is
    /// dropped only after both locks are released.
    pub fn set(&self, t: T) {
        let (mut slot, handle) = self.state.acquire_write();
        let _replaced = slot.publish(t);
        handle.release_write(slot);
        let _guard = lock_signal(&self.signal);
        wake_all(&self.wake);
    }

    /// Whether a value has been published, read under the lock.
    pub fn ready(&self) -> (r: bool) {
        let handle = self.state.acquire_read();
        let r = handle.borrow().is_ready();
        handle.release_read();
        r
    }

    fn pending(&self) -> (r: bool) {
        !self.ready()
    }

    /// Sleeps until a value has been published. The signal mutex is released
    /// on return, before anything reads the payload.
    fn wait_published(&self) {
        let guard = lock_signal(&self.signal);
        let _relocked = wait_while_pending(&self.wake, guard, self);
    }

    /// Blocks until a value has been published, then returns a copy of it.
    pub fn get(&self) -> (r: T) {
        self.wait_published();
        let handle = self.state.acquire_read();
        let r = handle.borrow().read();
        handle.release_read();
        r
    }
}

impl<T: Default + Clone> Default for ThreadResult<T> {
    /// The same as `ThreadResult::new`.
    fn default() -> (r: Self)
        ensures
            forall|s: ResultSlot<T>| r.admits(s) <==> slot_inv(s),
    {
        ThreadResult::new()
    }
}

} // verus!
