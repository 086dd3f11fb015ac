//! The stack as mathematics: a sequence whose index 0 is the front.
//!
//! The contracts of both list types are written over these functions, and
//! the proofs in `laws` are about them.

use vstd::prelude::*;

verus! {

/// The stack `s` with `v` placed at the front.
pub open spec fn pushed<T>(s: Seq<T>, v: T) -> Seq<T> {
    seq![v] + s
}

/// The front element of `s`, or `None` when `s` is empty.
pub open spec fn front<T>(s: Seq<T>) -> Option<T> {
    if s.len() == 0 {
        None
    } else {
        Some(s[0])
    }
}

/// What is left of `s` once its front is removed. An empty stack stays empty.
pub open spec fn popped<T>(s: Seq<T>) -> Seq<T> {
    if s.len() == 0 {
        s
    } else {
        s.drop_first()
    }
}

/// The stack `s` with its front element exchanged for `v`; everything
/// behind the front stays as it was.
pub open spec fn with_front<T>(s: Seq<T>, v: T) -> Seq<T>
    recommends
        s.len() > 0,
{
    s.update(0, v)
}

/// The stack after pushing `vs[0]`, then `vs[1]`, and so on up to the last
/// element of `vs`, onto `s`.
pub open spec fn pushed_all<T>(s: Seq<T>, vs: Seq<T>) -> Seq<T>
    decreases vs.len(),
{
    if vs.len() == 0 {
        s
    } else {
        pushed(pushed_all(s, vs.drop_last()), vs.last())
    }
}

/// The results of `n` pops from `s`, the first pop's result first.
pub open spec fn pops<T>(s: Seq<T>, n: nat) -> Seq<Option<T>>
    decreases n,
{
    if n == 0 {
        Seq::empty()
    } else {
        seq![front(s)] + pops(popped(s), (n - 1) as nat)
    }
}

/// The stack that `n` pops leave of `s`.
pub open spec fn popped_n<T>(s: Seq<T>, n: nat) -> Seq<T>
    decreases n,
{
    if n == 0 {
        s
    } else {
        popped_n(popped(s), (n - 1) as nat)
    }
}

/// One operation that changes a stack.
pub enum Step<T> {
    Push(T),
    Pop,
}

/// The stack after one operation on `s`.
pub open spec fn step<T>(s: Seq<T>, op: Step<T>) -> Seq<T> {
    match op {
        Step::Push(v) => pushed(s, v),
        Step::Pop => popped(s),
    }
}

/// The stack after the operations `ops`, carried out in order on `s`.
pub open spec fn run<T>(s: Seq<T>, ops: Seq<Step<T>>) -> Seq<T>
    decreases ops.len(),
{
    if ops.len() == 0 {
        s
    } else {
        step(run(s, ops.drop_last()), ops.last())
    }
}

/// How many of `ops` are pushes.
pub open spec fn pushes<T>(ops: Seq<Step<T>>) -> nat
    decreases ops.len(),
{
    if ops.len() == 0 {
        0
    } else {
        let before: nat = pushes(ops.drop_last());
        if ops.last() is Push {
            before + 1
        } else {
            before
        }
    }
}

/// How many of `ops`, carried out in order on `s`, are pops that find an
/// element to remove.
pub open spec fn successful_pops<T>(s: Seq<T>, ops: Seq<Step<T>>) -> nat
    decreases ops.len(),
{
    if ops.len() == 0 {
        0
    } else {
        let before: nat = successful_pops(s, ops.drop_last());
        if ops.last() is Pop && run(s, ops.drop_last()).len() > 0 {
            before + 1
        } else {
            before
        }
    }
}

} // verus!
