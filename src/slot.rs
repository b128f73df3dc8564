//! The state machine behind a result cell: a value that is not ready until it
//! is published, and ready from then on.

use vstd::prelude::*;

verus! {

/// What an observer can learn of a result cell.
pub enum Phase<T> {
    NotReady,
    Ready(T),
}

/// One operation on a result cell.
pub enum Call<T> {
    Publish(T),
    Probe,
    Read,
}

impl<T> Phase<T> {
    pub open spec fn is_ready(self) -> bool {
        self is Ready
    }
}

impl<T> Call<T> {
    pub open spec fn is_set(self) -> bool {
        self is Publish
    }
}

/// The phase a cell is in after one call: only a `Publish` changes it.
pub open spec fn after<T>(p: Phase<T>, c: Call<T>) -> Phase<T> {
    match c {
        Call::Publish(v) => Phase::Ready(v),
        _ => p,
    }
}

/// The phase a cell is in after a sequence of calls, first call first.
pub open spec fn run<T>(p: Phase<T>, calls: Seq<Call<T>>) -> Phase<T>
    decreases calls.len(),
{
    if calls.len() == 0 {
        p
    } else {
        run(after(p, calls[0]), calls.drop_first())
    }
}

/// The answer of a readiness probe in a phase.
pub open spec fn ready_answer<T>(p: Phase<T>) -> bool {
    p.is_ready()
}

/// Whether a sequence of calls holds no `Publish`.
pub open spec fn no_set<T>(calls: Seq<Call<T>>) -> bool {
    forall|i: int| 0 <= i < calls.len() ==> !(#[trigger] calls[i]).is_set()
}

/// The stored value and the readiness flag of a result cell.
pub struct ResultSlot<T> {
    value: T,
    ready: bool,
}

impl<T> View for ResultSlot<T> {
    type V = Phase<T>;

    closed spec fn view(&self) -> Phase<T> {
        if self.ready {
            Phase::Ready(self.value)
        } else {
            Phase::NotReady
        }
    }
}

impl<T> ResultSlot<T> {
    /// The value held, whether or not it has been published.
    pub closed spec fn stored(self) -> T {
        self.value
    }
}

impl<T: Default + Clone> ResultSlot<T> {
    /// An unpublished slot holding `T`'s default value.
    pub fn new() -> (s: Self)
        ensures
            s@ == Phase::<T>::NotReady,
            call_ensures(T::default, (), s.stored()),
    {
        ResultSlot { value: T::default(), ready: false }
    }

    /// Publishes `t`: the slot is ready and holds `t`, whatever it held before.
    /// The value it held is handed back, so that the caller decides where it
    /// is dropped.
    pub fn publish(&mut self, t: T) -> (prev: T)
        ensures
            final(self)@ == after(old(self)@, Call::Publish(t)),
            final(self)@ == Phase::Ready(t),
            prev == old(self).stored(),
    {
        let mut held = t;
        core::mem::swap(&mut self.value, &mut held);
        self.ready = true;
        held
    }

    /// Whether a value has been published.
    pub fn is_ready(&self) -> (r: bool)
        ensures
            r == ready_answer(self@),
    {
        self.ready
    }

    /// A copy of the value held: the published one once the slot is ready.
    pub fn read(&self) -> (r: T)
        ensures
            cloned(self.stored(), r),
            self@ matches Phase::Ready(v) ==> cloned(v, r),
    {
        self.value.clone()
    }
}

} // verus!
