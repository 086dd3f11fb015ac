//! What holds of every stack, proved over the functions of `model`.

use vstd::prelude::*;
use crate::model::{front, popped, popped_n, pops, pushed, pushed_all, pushes, run, successful_pops, with_front, Step};

verus! {

/// Pushing `v` and popping at once gives `v` back and restores the stack.
pub proof fn lemma_push_then_pop<T>(s: Seq<T>, v: T)
    ensures
        front(pushed(s, v)) == Some(v),
        popped(pushed(s, v)) == s,
        pushed(s, v).len() == s.len() + 1,
{
    assert(pushed(s, v).drop_first() =~= s);
}

/// Last in, first out: after the elements of `vs` are pushed in order, as
/// many pops return them in the opposite order, each as `Some`, and leave
/// the stack that the pushes started from.
pub proof fn lemma_pops_reverse_pushes<T>(s: Seq<T>, vs: Seq<T>)
    ensures
        pops(pushed_all(s, vs), vs.len()).len() == vs.len(),
        forall|i: int|
            0 <= i < vs.len() ==> #[trigger] pops(pushed_all(s, vs), vs.len())[i] == Some(
                vs[vs.len() - 1 - i],
            ),
        popped_n(pushed_all(s, vs), vs.len()) == s,
    decreases vs.len(),
{
    if vs.len() > 0 {
        // The last push sits on top: the first pop returns it and uncovers
        // the stack that the earlier pushes built.
        let earlier: Seq<T> = vs.drop_last();
        lemma_push_then_pop(pushed_all(s, earlier), vs.last());
        lemma_pops_reverse_pushes(s, earlier);
    }
}

/// A pop finds nothing on an empty stack, such as a new one, and leaves it
/// empty.
pub proof fn lemma_pop_on_empty<T>()
    ensures
        front(Seq::<T>::empty()) is None,
        popped(Seq::<T>::empty()) == Seq::<T>::empty(),
{
}

/// Once everything pushed onto an empty stack has been popped again, the
/// stack is empty and a further pop finds nothing.
pub proof fn lemma_pop_on_drained<T>(vs: Seq<T>)
    ensures
        popped_n(pushed_all(Seq::<T>::empty(), vs), vs.len()) == Seq::<T>::empty(),
        front(popped_n(pushed_all(Seq::<T>::empty(), vs), vs.len())) is None,
{
    lemma_pops_reverse_pushes(Seq::<T>::empty(), vs);
}

/// Once the front of a stack has been replaced by `v`, a pop returns `v`,
/// and what the pop leaves is what it would have left without the
/// replacement.
pub proof fn lemma_replaced_front_is_popped<T>(s: Seq<T>, v: T)
    requires
        s.len() > 0,
    ensures
        front(with_front(s, v)) == Some(v),
        popped(with_front(s, v)) == popped(s),
        with_front(s, v).len() == s.len(),
{
    assert(with_front(s, v).drop_first() =~= s.drop_first());
}

/// However pushes and pops are interleaved, the stack holds as many
/// elements as it started with, plus the pushes, minus the pops that found
/// an element. From a new stack that is pushes minus successful pops.
pub proof fn lemma_live_count<T>(s: Seq<T>, ops: Seq<Step<T>>)
    ensures
        successful_pops(s, ops) <= s.len() + pushes(ops),
        run(s, ops).len() == s.len() + pushes(ops) - successful_pops(s, ops),
    decreases ops.len(),
{
    if ops.len() > 0 {
        lemma_live_count(s, ops.drop_last());
    }
}

/// The count of `lemma_live_count` holds at every point of a run: after
/// each prefix of the operations.
pub proof fn lemma_live_count_at_every_point<T>(s: Seq<T>, ops: Seq<Step<T>>)
    ensures
        forall|k: int|
            0 <= k <= ops.len() ==> #[trigger] run(s, ops.take(k)).len() == s.len() + pushes(
                ops.take(k),
            ) - successful_pops(s, ops.take(k)),
{
    assert forall|k: int| 0 <= k <= ops.len() implies #[trigger] run(s, ops.take(k)).len()
        == s.len() + pushes(ops.take(k)) - successful_pops(s, ops.take(k)) by {
        lemma_live_count(s, ops.take(k));
    }
}

} // verus!
