//! A singly linked stack.
use vstd::prelude::*;

verus! {

struct Node<T> {
    elem: T,
    next: Option<Box<Node<T>>>,
}

/// The elements of a chain of nodes, first node first.
spec fn elements<T>(link: Option<Box<Node<T>>>) -> Seq<T>
    decreases link,
{
    match link {
        None => Seq::empty(),
        Some(node) => seq![node.elem] + elements(node.next),
    }
}

/// A stack: the element pushed last is first.
pub struct List<T> {
    head: Option<Box<Node<T>>>,
}

impl<T> View for List<T> {
    type V = Seq<T>;

    closed spec fn view(&self) -> Seq<T> {
        elements(self.head)
    }
}

impl<T> List<T> {
    pub fn new() -> (list: Self)
        ensures
            list@ == Seq::<T>::empty(),
    {
        List { head: None }
    }

    pub fn push(&mut self, elem: T)
        ensures
            final(self)@ == seq![elem] + old(self)@,
    {
        let new_node = Box::new(Node { elem, next: self.head.take() });
        self.head = Some(new_node);
    }

    pub fn pop(&mut self) -> (elem: Option<T>)
        ensures
            old(self)@.len() == 0 ==> elem is None && final(self)@ == old(self)@,
            old(self)@.len() > 0 ==> elem == Some(old(self)@[0]) && final(self)@ == old(
                self,
            )@.drop_first(),
    {
        match self.head.take() {
            Some(node) => {
                let node = *node;
                self.head = node.next;
                assert((seq![node.elem] + elements(node.next)).drop_first() =~= elements(
                    node.next,
                ));
                Some(node.elem)
            },
            None => None,
        }
    }

    pub fn peek(&self) -> (elem: Option<&T>)
        ensures
            self@.len() == 0 ==> elem is None,
            self@.len() > 0 ==> elem == Some(&self@[0]),
    {
        match &self.head {
            Some(node) => Some(&node.elem),
            None => None,
        }
    }

    /// The first element, to be changed in place.
    pub fn peek_mut(&mut self) -> (elem: Option<&mut T>)
        ensures
            old(self)@.len() == 0 ==> elem is None && final(self)@ == old(self)@,
            old(self)@.len() > 0 ==> (elem matches Some(first) && *first == old(self)@[0]
                && final(self)@ == old(self)@.update(0, *final(first))),
    {
        match &mut self.head {
            Some(node) => {
                proof {
                    assert((seq![node.elem] + elements(node.next)).len() > 0);
                }
                Some(&mut node.elem)
            },
            None => None,
        }
    }

    /// Whether the list holds no element.
    pub fn is_empty(&self) -> (empty: bool)
        ensures
            empty == (self@.len() == 0),
    {
        self.head.is_none()
    }

    /// The elements from the first to the last, leaving the list empty
    /// behind.
    pub fn into_iter(self) -> (items: Vec<T>)
        ensures
            items@ == self@,
    {
        let mut list = self;
        let mut items: Vec<T> = Vec::new();
        loop
            invariant
                items@ + list@ == self@,
            ensures
                items@ == self@,
            decreases list@.len(),
        {
            let ghost before = list@;
            match list.pop() {
                Some(elem) => {
                    items.push(elem);
                    assert(items@ + list@ =~= (items@.drop_last() + before));
                },
                None => {
                    assert(items@ + list@ =~= items@);
                    break ;
                },
            }
        }
        items
    }

    /// References to the items, first to last.
    pub fn iter(&self) -> (refs: Vec<&T>)
        ensures
            refs@.len() == self@.len(),
            forall|i: int| 0 <= i < refs@.len() ==> *refs@[i] == self@[i],
    {
        let mut refs: Vec<&T> = Vec::new();
        let mut link = &self.head;
        loop
            invariant
                refs@.len() + elements(*link).len() == self@.len(),
                forall|i: int| 0 <= i < refs@.len() ==> *refs@[i] == self@[i],
                forall|i: int|
                    0 <= i < elements(*link).len() ==> elements(*link)[i] == self@[refs@.len() + i],
            ensures
                refs@.len() == self@.len(),
            decreases elements(*link).len(),
        {
            match link {
                Some(node) => {
                    let ghost rest = elements(*link);
                    assert(rest[0] == node.elem);
                    assert(forall|i: int|
                        0 <= i < elements(node.next).len() ==> elements(node.next)[i] == rest[i
                            + 1]);
                    refs.push(&node.elem);
                    link = &node.next;
                },
                None => {
                    break ;
                },
            }
        }
        refs
    }
}

} // verus!
