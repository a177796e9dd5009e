//! A singly linked queue: what is pushed first is popped first. Pushing
//! walks to the end of the chain.
use vstd::prelude::*;

verus! {

struct Node<T> {
    elem: T,
    next: Option<Box<Node<T>>>,
}

/// The elements of a chain of nodes, first node first.
spec fn elements<T>(link: Option<Box<Node<T>>>) -> Seq<T>
    decreases link,
{
    match link {
        None => Seq::empty(),
        Some(node) => seq![node.elem] + elements(node.next),
    }
}

/// The chain with a node for `elem` at its end.
fn appended<T>(link: Option<Box<Node<T>>>, elem: T) -> (chain: Option<Box<Node<T>>>)
    ensures
        elements(chain) == elements(link).push(elem),
    decreases link,
{
    match link {
        None => {
            let chain = Some(Box::new(Node { elem, next: None }));
            assert(elements::<T>(None) =~= Seq::<T>::empty());
            assert(elements(chain) =~= Seq::<T>::empty().push(elem));
            chain
        },
        Some(node) => {
            let node = *node;
            let ghost first = node.elem;
            let ghost rest = elements(node.next);
            let next = appended(node.next, elem);
            assert(seq![first] + rest.push(elem) =~= (seq![first] + rest).push(elem));
            Some(Box::new(Node { elem: node.elem, next }))
        },
    }
}

pub struct List<T> {
    head: Option<Box<Node<T>>>,
}

impl<T> View for List<T> {
    type V = Seq<T>;

    closed spec fn view(&self) -> Seq<T> {
        elements(self.head)
    }
}

impl<T> List<T> {
    pub fn new() -> (list: Self)
        ensures
            list@ == Seq::<T>::empty(),
    {
        List { head: None }
    }

    /// Puts `elem` at the end.
    pub fn push(&mut self, elem: T)
        ensures
            final(self)@ == old(self)@.push(elem),
    {
        self.head = appended(self.head.take(), elem);
    }

    /// Takes the first element off, if there is one.
    pub fn pop(&mut self) -> (elem: Option<T>)
        ensures
            old(self)@.len() == 0 ==> elem is None && final(self)@ == old(self)@,
            old(self)@.len() > 0 ==> elem == Some(old(self)@[0]) && final(self)@ == old(
                self,
            )@.drop_first(),
    {
        match self.head.take() {
            Some(node) => {
                let node = *node;
                self.head = node.next;
                assert((seq![node.elem] + elements(node.next)).drop_first() =~= elements(
                    node.next,
                ));
                Some(node.elem)
            },
            None => None,
        }
    }

    pub fn peek(&self) -> (elem: Option<&T>)
        ensures
            self@.len() == 0 ==> elem is None,
            self@.len() > 0 ==> elem == Some(&self@[0]),
    {
        match &self.head {
            Some(node) => Some(&node.elem),
            None => None,
        }
    }

    /// The elements in the order they would be popped.
    pub fn into_iter(self) -> (items: Vec<T>)
        ensures
            items@ == self@,
    {
        let mut list = self;
        let mut items: Vec<T> = Vec::new();
        loop
            invariant
                items@ + list@ == self@,
            ensures
                items@ == self@,
            decreases list@.len(),
        {
            let ghost before = list@;
            match list.pop() {
                Some(elem) => {
                    items.push(elem);
                    assert(items@ + list@ =~= (items@.drop_last() + before));
                },
                None => {
                    assert(items@ + list@ =~= items@);
                    break ;
                },
            }
        }
        items
    }
}

/// A queue hands out its elements in the order in which they were pushed:
/// after a push onto a queue that holds something, the first element is the
/// one that was first before.
pub proof fn lemma_first_in_first_out<T>(queue: Seq<T>, elem: T)
    requires
        queue.len() > 0,
    ensures
        queue.push(elem)[0] == queue[0],
        queue.push(elem).drop_first() == queue.drop_first().push(elem),
{
    assert(queue.push(elem).drop_first() =~= queue.drop_first().push(elem));
}

} // verus!
