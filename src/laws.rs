//! What holds of every sequence of calls in the model of a result slot
//! (`Phase` and `run`), which `ResultSlot`'s methods follow.

use vstd::prelude::*;
use crate::slot::{after, no_set, ready_answer, run, Call, Phase};

verus! {

/// Running two sequences of calls one after the other is running their
/// concatenation.
pub proof fn lemma_run_concat<T>(p: Phase<T>, a: Seq<Call<T>>, b: Seq<Call<T>>)
    ensures
        run(p, a + b) == run(run(p, a), b),
    decreases a.len(),
{
    if a.len() > 0 {
        assert((a + b).drop_first() =~= a.drop_first() + b);
        lemma_run_concat(after(p, a[0]), a.drop_first(), b);
    } else {
        assert(a + b =~= b);
    }
}

/// A ready cell stays ready whatever calls follow.
pub proof fn lemma_ready_is_kept<T>(p: Phase<T>, calls: Seq<Call<T>>)
    requires
        p.is_ready(),
    ensures
        run(p, calls).is_ready(),
    decreases calls.len(),
{
    if calls.len() > 0 {
        lemma_ready_is_kept(after(p, calls[0]), calls.drop_first());
    }
}

/// Readiness is monotone: once a readiness probe answers true after some
/// prefix of a sequence of calls, it answers true after every longer prefix.
pub proof fn lemma_readiness_monotone<T>(p: Phase<T>, calls: Seq<Call<T>>, i: int, j: int)
    requires
        0 <= i <= j <= calls.len(),
        ready_answer(run(p, calls.take(i))),
    ensures
        ready_answer(run(p, calls.take(j))),
{
    assert(calls.take(j) =~= calls.take(i) + calls.subrange(i, j));
    lemma_run_concat(p, calls.take(i), calls.subrange(i, j));
    lemma_ready_is_kept(run(p, calls.take(i)), calls.subrange(i, j));
}

/// Calls without a publish leave the phase as it was.
pub proof fn lemma_no_set_keeps_phase<T>(p: Phase<T>, calls: Seq<Call<T>>)
    requires
        no_set(calls),
    ensures
        run(p, calls) == p,
    decreases calls.len(),
{
    if calls.len() > 0 {
        assert(!calls[0].is_set());
        assert forall|i: int| 0 <= i < calls.drop_first().len() implies !(
        #[trigger] calls.drop_first()[i]).is_set() by {
            assert(calls.drop_first()[i] == calls[i + 1]);
        }
        lemma_no_set_keeps_phase(after(p, calls[0]), calls.drop_first());
    }
}

/// No premature read: a fresh cell on which nothing has been published
/// answers false to every readiness probe.
pub proof fn lemma_not_ready_before_set<T>(calls: Seq<Call<T>>)
    requires
        no_set(calls),
    ensures
        !ready_answer(run(Phase::<T>::NotReady, calls)),
{
    lemma_no_set_keeps_phase(Phase::<T>::NotReady, calls);
}

/// Value visibility: after `v` is published, and until the next publish,
/// the cell is ready and holds `v`, whatever it was before.
pub proof fn lemma_published_value_visible<T>(p: Phase<T>, v: T, calls: Seq<Call<T>>)
    requires
        no_set(calls),
    ensures
        run(p, seq![Call::Publish(v)] + calls) == Phase::Ready(v),
{
    lemma_run_concat(p, seq![Call::Publish(v)], calls);
    let one = seq![Call::Publish(v)];
    assert(one.drop_first() =~= Seq::<Call<T>>::empty());
    assert(run(p, one) == run(Phase::Ready(v), one.drop_first()));
    lemma_no_set_keeps_phase(Phase::Ready(v), calls);
}

} // verus!
