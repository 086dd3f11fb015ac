//! A stack of `i32`, held as a chain of boxed nodes behind a two-variant
//! link.

use vstd::prelude::*;
use crate::model::{front, popped, pushed};

verus! {

enum Link {
    Empty,
    More(Box<Node>),
}

struct Node {
    elem: i32,
    next: Link,
}

/// A last-in-first-out list of `i32`. Its view is the sequence of its
/// elements, the front (the element pushed last) at index 0.
pub struct List {
    head: Link,
}

impl Link {
    /// The elements of the nodes reachable from this link, nearest first.
    spec fn chain(self) -> Seq<i32>
        decreases self,
    {
        match self {
            Link::Empty => Seq::empty(),
            Link::More(node) => seq![node.elem] + node.next.chain(),
        }
    }

    /// Empties this link and returns what it held.
    fn take(&mut self) -> (held: Link)
        ensures
            held == *old(self),
            *final(self) is Empty,
        opens_invariants none
        no_unwind
    {
        let mut held = Link::Empty;
        core::mem::swap(self, &mut held);
        held
    }
}

impl View for List {
    type V = Seq<i32>;

    closed spec fn view(&self) -> Seq<i32> {
        self.head.chain()
    }
}

impl List {
    /// An empty list.
    pub fn new() -> (list: Self)
        ensures
            list@ == Seq::<i32>::empty(),
    {
        List { head: Link::Empty }
    }

    /// Puts `elem` at the front. The elements already there keep their
    /// order behind it.
    pub fn push(&mut self, elem: i32)
        ensures
            final(self)@ == pushed(old(self)@, elem),
    {
        let new_node = Box::new(Node { elem, next: self.head.take() });
        self.head = Link::More(new_node);
    }

    /// Removes the front element and returns it. On an empty list this
    /// returns `None` and the list stays empty.
    pub fn pop(&mut self) -> (res: Option<i32>)
        ensures
            res == front(old(self)@),
            final(self)@ == popped(old(self)@),
    {
        match self.head.take() {
            Link::Empty => None,
            Link::More(boxed) => {
                let node = *boxed;
                self.head = node.next;
                Some(node.elem)
            },
        }
    }
}

impl Drop for List {
    /// Releases the nodes one by one, front to back, in a loop. Each node's
    /// `next` is emptied before the node is let go, so letting it go never
    /// descends into the rest of the chain.
    fn drop(&mut self)
        ensures
            final(self)@ == Seq::<i32>::empty(),
        opens_invariants none
        no_unwind
    {
        let ghost total: nat = self@.len();
        let ghost mut released: nat = 0;
        let mut cur = self.head.take();
        loop
            invariant
                self.head is Empty,
                released + cur.chain().len() == total,
            ensures
                released == total,
            decreases cur,
        {
            match cur {
                Link::Empty => {
                    break;
                },
                Link::More(mut node) => {
                    cur = node.next.take();
                    proof {
                        released = released + 1;
                    }
                },
            }
        }
        // One node is released per turn, so the loop turns once per element.
        assert(released == old(self)@.len());
    }
}

} // verus!
