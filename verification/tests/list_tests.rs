use rlox::fwd_list::FwdList;
use rlox::list::List as Stack;
use rlox::queue::List as Queue;
use rlox::rc_list::List;

#[test]
fn head_on_empty_list_returns_none() {
    let lst = List::<i32>::new();
    assert_eq!(lst.head(), None);
}

#[test]
fn head_returns_reference_to_recently_added_item() {
    let lst = List::new();

    let lst = lst.prepend(1).prepend(2).prepend(3);

    assert_eq!(lst.head(), Some(&3));
}

#[test]
fn tail_returns_list_without_head() {
    let lst = List::new();
    let lst = lst.prepend(1).prepend(2).prepend(3);

    let lst = lst.tail();
    assert_eq!(lst.head(), Some(&2));

    let lst = lst.tail();
    assert_eq!(lst.head(), Some(&1));

    let lst = lst.tail();
    assert_eq!(lst.head(), None);
}

#[test]
fn iter_returns_iterator_with_shared_references() {
    let lst = List::new();
    let lst = lst.prepend(1).prepend(2).prepend(3);

    let mut iter = lst.iter().into_iter();
    assert_eq!(iter.next(), Some(&3));
    assert_eq!(iter.next(), Some(&2));
    assert_eq!(iter.next(), Some(&1));
    assert_eq!(iter.next(), None);
}

#[test]
fn new_list_is_empty() {
    let lst = FwdList::<i32>::new();

    assert!(lst.empty());
}

#[test]
fn new_list_size_is_zero() {
    let lst = FwdList::<i32>::new();

    assert_eq!(lst.size(), 0);
}

#[test]
fn new_list_when_item_pushed_then_list_is_no_longer_empty() {
    let mut lst = FwdList::<i32>::new();
    assert!(lst.empty());

    lst.push(1);
    assert!(!lst.empty());
}

#[test]
fn new_list_when_item_pushed_then_size_is_increased() {
    let mut lst = FwdList::<i32>::new();
    assert_eq!(lst.size(), 0);
    lst.push(1);
    assert_eq!(lst.size(), 1);
}

#[test]
fn pop_returns_items_in_lifo_order() {
    let mut lst = FwdList::new();
    lst.push(1);
    lst.push(2);
    lst.push(3);
    assert_eq!(lst.iter(), vec![&3, &2, &1]);
    assert_eq!(lst.pop(), Some(3));
    assert_eq!(lst.pop(), Some(2));
    assert_eq!(lst.size(), 1);
    assert_eq!(lst.pop(), Some(1));
    assert_eq!(lst.pop(), None);
    assert!(lst.empty());
}

#[test]
fn stack_push_pop_peek() {
    let mut stack = Stack::new();
    assert_eq!(stack.pop(), None);
    assert!(stack.is_empty());
    stack.push(1);
    stack.push(2);
    stack.push(3);
    assert_eq!(stack.peek(), Some(&3));
    assert_eq!(stack.iter(), vec![&3, &2, &1]);
    assert_eq!(stack.pop(), Some(3));
    assert_eq!(stack.peek(), Some(&2));
    assert_eq!(stack.into_iter(), vec![2, 1]);
}

#[test]
fn queue_basic_operations() {
    let mut list = Queue::new();

    // Check empty list behaves right
    assert_eq!(list.pop(), None);

    // Populate list
    list.push(1);
    list.push(2);
    list.push(3);

    // Check normal removal
    assert_eq!(list.pop(), Some(1));
    assert_eq!(list.pop(), Some(2));

    // Push some more just to make sure nothing's corrupted
    list.push(4);
    list.push(5);

    // Check normal removal
    assert_eq!(list.pop(), Some(3));
    assert_eq!(list.pop(), Some(4));

    // Check exhaustion
    assert_eq!(list.pop(), Some(5));
    assert_eq!(list.pop(), None);
}

#[test]
fn queue_peek_and_into_iter() {
    let mut list = Queue::new();
    assert_eq!(list.peek(), None);
    list.push(1);
    list.push(2);
    list.push(3);
    assert_eq!(list.peek(), Some(&1));
    assert_eq!(list.into_iter(), vec![1, 2, 3]);
}

#[test]
fn peek_mut_returns_mutable_reference_to_head() {
    let mut stack = Stack::new();
    assert_eq!(stack.peek_mut(), None);
    stack.push(1);
    stack.push(2);
    if let Some(value) = stack.peek_mut() {
        *value = 42;
    }
    assert_eq!(stack.peek(), Some(&42));
    assert_eq!(stack.pop(), Some(42));
    assert_eq!(stack.pop(), Some(1));
}
