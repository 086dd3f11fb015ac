//! A stack of any element type, held as a chain of boxed nodes.
//!
//! Every node is owned by exactly one link: the list's head or the `next`
//! of the node before it. A link is emptied before the node it held is
//! used to build the link's new contents, so no link is ever read while it
//! is being rewritten.

use vstd::prelude::*;
use crate::model::{front, popped, pushed, with_front};

verus! {

type Link<T> = Option<Box<Node<T>>>;

struct Node<T> {
    elem: T,
    next: Link<T>,
}

/// A last-in-first-out list. Its view is the sequence of its elements,
/// the front (the element pushed last) at index 0.
pub struct List<T> {
    head: Link<T>,
}

impl<T> Node<T> {
    /// The elements of the nodes reachable from `link`, nearest first.
    spec fn chain(link: Link<T>) -> Seq<T>
        decreases link,
    {
        match link {
            None => Seq::empty(),
            Some(node) => seq![node.elem] + Self::chain(node.next),
        }
    }
}

impl<T> View for List<T> {
    type V = Seq<T>;

    closed spec fn view(&self) -> Seq<T> {
        Node::<T>::chain(self.head)
    }
}

impl<T> List<T> {
    /// An empty list.
    pub fn new() -> (list: Self)
        ensures
            list@ == Seq::<T>::empty(),
    {
        List { head: None }
    }

    /// Puts `elem` at the front. The elements already there keep their
    /// order behind it.
    pub fn push(&mut self, elem: T)
        ensures
            final(self)@ == pushed(old(self)@, elem),
    {
        let new_node = Box::new(Node { elem, next: self.head.take() });
        self.head = Some(new_node);
    }

    /// Removes the front element and returns it. On an empty list this
    /// returns `None` and the list stays empty.
    pub fn pop(&mut self) -> (res: Option<T>)
        ensures
            res == front(old(self)@),
            final(self)@ == popped(old(self)@),
    {
        match self.head.take() {
            None => None,
            Some(boxed) => {
                let node = *boxed;
                self.head = node.next;
                Some(node.elem)
            },
        }
    }

    /// A shared reference to the front element, or `None` on an empty
    /// list. The list is only read: it is the same list after any number
    /// of calls, so what the next `pop` returns is not affected.
    pub fn peek(&self) -> (res: Option<&T>)
        ensures
            front(self@) == (match res {
                Some(elem) => Some(*elem),
                None => None,
            }),
    {
        match &self.head {
            None => None,
            Some(node) => Some(&node.elem),
        }
    }

    /// A mutable reference to the front element, or `None` on an empty
    /// list. Whatever the caller writes through the reference becomes the
    /// front element; the length and the elements behind the front cannot
    /// be changed through it.
    pub fn peek_mut(&mut self) -> (res: Option<&mut T>)
        ensures
            match res {
                Some(elem) => front(old(self)@) == Some(*elem) && final(self)@ == with_front(
                    old(self)@,
                    *final(elem),
                ),
                None => old(self)@.len() == 0 && final(self)@ == old(self)@,
            },
    {
        match &mut self.head {
            None => None,
            Some(node) => Some(&mut node.elem),
        }
    }
}

impl<T> Drop for List<T> {
    /// Releases the nodes one by one, front to back, in a loop. Each node's
    /// `next` is emptied before the node is let go, so letting it go never
    /// descends into the rest of the chain.
    fn drop(&mut self)
        ensures
            final(self)@ == Seq::<T>::empty(),
        opens_invariants none
        no_unwind
    {
        let ghost total: nat = self@.len();
        let ghost mut released: nat = 0;
        // `Option::take` makes no promise not to unwind; `swap` does.
        let mut cur: Link<T> = None;
        core::mem::swap(&mut self.head, &mut cur);
        loop
            invariant
                self.head is None,
                released + Node::<T>::chain(cur).len() == total,
            ensures
                released == total,
            decreases cur,
        {
            match cur {
                None => {
                    break;
                },
                Some(mut node) => {
                    let mut rest: Link<T> = None;
                    core::mem::swap(&mut node.next, &mut rest);
                    cur = rest;
                    proof {
                        released = released + 1;
                    }
                },
            }
        }
        // One node is released per turn, so the loop turns once per element.
        assert(released == old(self)@.len());
    }
}

} // verus!
