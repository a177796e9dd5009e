//! A persistent list: lists share their tails.
use std::rc::Rc;
use vstd::prelude::*;

verus! {

struct Node<T> {
    item: T,
    next: Option<Rc<Node<T>>>,
}

/// The items of a chain of nodes, first node first.
spec fn items<T>(link: Option<Rc<Node<T>>>) -> Seq<T>
    decreases link,
{
    match link {
        None => Seq::empty(),
        Some(node) => seq![node.item] + items(node.next),
    }
}

pub struct List<T> {
    head: Option<Rc<Node<T>>>,
}

impl<T> View for List<T> {
    type V = Seq<T>;

    closed spec fn view(&self) -> Seq<T> {
        items(self.head)
    }
}

impl<T> List<T> {
    pub fn new() -> (list: Self)
        ensures
            list@ == Seq::<T>::empty(),
    {
        List { head: None }
    }

    /// The first item, if there is one.
    pub fn head(&self) -> (item: Option<&T>)
        ensures
            self@.len() == 0 ==> item is None,
            self@.len() > 0 ==> item == Some(&self@[0]),
    {
        match &self.head {
            Some(node) => Some(&node.item),
            None => None,
        }
    }

    /// A list with `item` before the items of this one, which stays as it is.
    pub fn prepend(&self, item: T) -> (list: List<T>)
        ensures
            list@ == seq![item] + self@,
    {
        let next = match &self.head {
            Some(node) => Some(Rc::clone(node)),
            None => None,
        };
        List { head: Some(Rc::new(Node { item, next })) }
    }

    /// A list of the items after the first; of the empty list, the empty list.
    pub fn tail(&self) -> (list: List<T>)
        ensures
            self@.len() == 0 ==> list@ == Seq::<T>::empty(),
            self@.len() > 0 ==> list@ == self@.drop_first(),
    {
        match &self.head {
            Some(node) => {
                assert((seq![node.item] + items(node.next)).drop_first() =~= items(node.next));
                match &node.next {
                    Some(next) => List { head: Some(Rc::clone(next)) },
                    None => List { head: None },
                }
            },
            None => List { head: None },
        }
    }

    /// References to the items, first to last.
    pub fn iter(&self) -> (refs: Vec<&T>)
        ensures
            refs@.len() == self@.len(),
            forall|i: int| 0 <= i < refs@.len() ==> *refs@[i] == self@[i],
    {
        let mut refs: Vec<&T> = Vec::new();
        let mut link = &self.head;
        loop
            invariant
                refs@.len() + items(*link).len() == self@.len(),
                forall|i: int| 0 <= i < refs@.len() ==> *refs@[i] == self@[i],
                forall|i: int|
                    0 <= i < items(*link).len() ==> items(*link)[i] == self@[refs@.len() + i],
            ensures
                refs@.len() == self@.len(),
            decreases items(*link).len(),
        {
            match link {
                Some(node) => {
                    let ghost rest = items(*link);
                    assert(rest[0] == node.item);
                    assert(forall|i: int|
                        0 <= i < items(node.next).len() ==> items(node.next)[i] == rest[i
                            + 1]);
                    refs.push(&node.item);
                    link = &node.next;
                },
                None => {
                    break ;
                },
            }
        }
        refs
    }
}


} // verus!
