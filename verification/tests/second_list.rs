use linked_stack::second::List;
use std::rc::Rc;

#[test]
fn second_basics() {
    let mut list = List::new();
    assert_eq!(list.pop(), None);
    list.push(1);
    list.push(2);
    list.push(3);
    assert_eq!(list.pop(), Some(3));
    assert_eq!(list.pop(), Some(2));
    list.push(4);
    list.push(5);
    assert_eq!(list.pop(), Some(5));
    assert_eq!(list.pop(), Some(4));
    assert_eq!(list.pop(), Some(1));
    assert_eq!(list.pop(), None);
}

#[test]
fn deallocate() {
    let mut list = List::new();
    list.push(42);
    list.push(33);
}

#[test]
fn strings() {
    let mut list = List::new();
    list.push("hi");
    list.push("there");
    let _ = list.pop();
}

#[test]
fn peek() {
    let mut list = List::new();
    assert_eq!(list.peek(), None);
    list.push("hi");
    let peek = list.peek();
    assert_eq!(peek, Some(&"hi"));
}

#[test]
fn peek_mut() {
    let mut list = List::new();
    assert_eq!(list.peek_mut(), None);
    list.push("before");
    list.peek_mut().map(|contents| {
        *contents = "after"
    });
    assert_eq!(list.peek(), Some(&"after"));
    assert_eq!(list.pop(), Some("after"));
}

#[test]
fn new_list_has_nothing_to_pop_or_peek() {
    let mut list: List<u8> = List::new();
    assert_eq!(list.pop(), None);
    assert_eq!(list.peek(), None);
    assert_eq!(list.peek_mut(), None);
    assert_eq!(list.pop(), None);
}

#[test]
fn pops_come_in_reverse_order_of_pushes() {
    let pushed: Vec<String> = (0..500).map(|i| format!("v{}", i)).collect();
    let mut list = List::new();
    for v in pushed.iter() {
        list.push(v.clone());
    }
    let mut got = Vec::new();
    for _ in 0..pushed.len() {
        got.push(list.pop());
    }
    let want: Vec<Option<String>> = pushed.iter().rev().cloned().map(Some).collect();
    assert_eq!(got, want);
    assert_eq!(list.pop(), None);
}

#[test]
fn drained_list_pops_none() {
    let mut list = List::new();
    list.push('a');
    list.push('b');
    assert_eq!(list.pop(), Some('b'));
    assert_eq!(list.pop(), Some('a'));
    assert_eq!(list.pop(), None);
    assert_eq!(list.peek(), None);
    assert_eq!(list.peek_mut(), None);
    assert_eq!(list.pop(), None);
    list.push('c');
    assert_eq!(list.peek(), Some(&'c'));
    assert_eq!(list.pop(), Some('c'));
    assert_eq!(list.pop(), None);
}

#[test]
fn peeking_between_pops_changes_nothing() {
    let mut list = List::new();
    list.push(10);
    list.push(20);
    list.push(30);
    assert_eq!(list.pop(), Some(30));
    for _ in 0..100 {
        assert_eq!(list.peek(), Some(&20));
    }
    assert_eq!(list.pop(), Some(20));
    assert_eq!(list.peek(), Some(&10));
    assert_eq!(list.peek(), Some(&10));
    assert_eq!(list.pop(), Some(10));
    assert_eq!(list.peek(), None);
    assert_eq!(list.pop(), None);
}

#[test]
fn peek_shows_the_element_pushed_last() {
    let mut list = List::new();
    list.push(1);
    assert_eq!(list.peek(), Some(&1));
    list.push(2);
    assert_eq!(list.peek(), Some(&2));
    assert_eq!(list.peek_mut(), Some(&mut 2));
}

#[test]
fn replacement_through_peek_mut_is_what_pop_returns() {
    let mut list = List::new();
    list.push(1);
    list.push(2);
    list.push(3);
    if let Some(front) = list.peek_mut() {
        assert_eq!(*front, 3);
        *front = 30;
    }
    assert_eq!(list.peek(), Some(&30));
    assert_eq!(list.pop(), Some(30));
    assert_eq!(list.pop(), Some(2));
    assert_eq!(list.pop(), Some(1));
    assert_eq!(list.pop(), None);
}

#[test]
fn peek_mut_without_a_write_changes_nothing() {
    let mut list = List::new();
    list.push(String::from("kept"));
    list.push(String::from("front"));
    assert_eq!(list.peek_mut().map(|s| s.len()), Some(5));
    assert_eq!(list.pop(), Some(String::from("front")));
    assert_eq!(list.pop(), Some(String::from("kept")));
}

#[test]
fn peek_mut_can_change_the_front_in_place() {
    let mut list = List::new();
    list.push(vec![1, 2]);
    list.push(vec![3]);
    if let Some(front) = list.peek_mut() {
        front.push(4);
    }
    assert_eq!(list.pop(), Some(vec![3, 4]));
    assert_eq!(list.pop(), Some(vec![1, 2]));
}

#[test]
fn live_nodes_are_pushes_minus_successful_pops() {
    let token = Rc::new(());
    let mut list = List::new();
    let mut pushes: usize = 0;
    let mut successful_pops: usize = 0;
    assert_eq!(Rc::strong_count(&token) - 1, 0);
    for round in 0..200usize {
        if round % 3 == 2 || round % 7 == 0 {
            if list.pop().is_some() {
                successful_pops += 1;
            }
        } else {
            list.push(Rc::clone(&token));
            pushes += 1;
        }
        assert_eq!(Rc::strong_count(&token) - 1, pushes - successful_pops);
    }
    while list.pop().is_some() {
        successful_pops += 1;
        assert_eq!(Rc::strong_count(&token) - 1, pushes - successful_pops);
    }
    assert_eq!(pushes, successful_pops);
    assert_eq!(list.pop(), None);
    assert_eq!(Rc::strong_count(&token), 1);
}

#[test]
fn pop_on_empty_list_counts_as_no_pop() {
    let token = Rc::new(());
    let mut list = List::new();
    assert!(list.pop().is_none());
    assert!(list.pop().is_none());
    list.push(Rc::clone(&token));
    assert_eq!(Rc::strong_count(&token), 2);
    assert!(list.pop().is_some());
    assert!(list.pop().is_none());
    assert_eq!(Rc::strong_count(&token), 1);
}

#[test]
fn teardown_releases_every_element() {
    let token = Rc::new(());
    let mut list = List::new();
    for _ in 0..10 {
        list.push(Rc::clone(&token));
    }
    assert_eq!(Rc::strong_count(&token), 11);
    drop(list);
    assert_eq!(Rc::strong_count(&token), 1);
}

#[test]
fn teardown_of_empty_list() {
    let list: List<String> = List::new();
    drop(list);
    let mut drained = List::new();
    drained.push(1);
    assert_eq!(drained.pop(), Some(1));
    drop(drained);
}

#[test]
fn long_chain_is_torn_down() {
    let token = Rc::new(());
    let mut list = List::new();
    for _ in 0..100_000 {
        list.push(Rc::clone(&token));
    }
    assert_eq!(Rc::strong_count(&token), 100_001);
    drop(list);
    assert_eq!(Rc::strong_count(&token), 1);
}

#[test]
fn long_chain_of_integers_is_torn_down() {
    let mut list = List::new();
    for v in 0..100_000u64 {
        list.push(v);
    }
    assert_eq!(list.peek(), Some(&99_999));
    drop(list);
}
