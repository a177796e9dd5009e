//! A singly linked list that knows its size.
use vstd::prelude::*;

verus! {

struct ListNode<T> {
    item: T,
    next: Option<Box<ListNode<T>>>,
}

/// The items of a chain of nodes, first node first.
spec fn items<T>(link: Option<Box<ListNode<T>>>) -> Seq<T>
    decreases link,
{
    match link {
        None => Seq::empty(),
        Some(node) => seq![node.item] + items(node.next),
    }
}

pub struct FwdList<T> {
    head: Option<Box<ListNode<T>>>,
    size: usize,
}

impl<T> View for FwdList<T> {
    type V = Seq<T>;

    closed spec fn view(&self) -> Seq<T> {
        items(self.head)
    }
}

impl<T> FwdList<T> {
    /// The recorded size is the number of items.
    pub closed spec fn wf(&self) -> bool {
        self.size == items(self.head).len()
    }

    pub fn new() -> (list: Self)
        ensures
            list.wf(),
            list@ == Seq::<T>::empty(),
    {
        FwdList { head: None, size: 0 }
    }

    pub fn size(&self) -> (size: usize)
        requires
            self.wf(),
        ensures
            size == self@.len(),
    {
        self.size
    }

    pub fn empty(&self) -> (empty: bool)
        requires
            self.wf(),
        ensures
            empty == (self@.len() == 0),
    {
        self.size == 0
    }

    pub fn push(&mut self, item: T)
        requires
            old(self).wf(),
            old(self)@.len() < usize::MAX,
        ensures
            final(self).wf(),
            final(self)@ == seq![item] + old(self)@,
    {
        let new_node = Box::new(ListNode { item, next: self.head.take() });
        self.head = Some(new_node);
        self.size += 1;
    }

    pub fn pop(&mut self) -> (item: Option<T>)
        requires
            old(self).wf(),
        ensures
            final(self).wf(),
            old(self)@.len() == 0 ==> item is None && final(self)@ == old(self)@,
            old(self)@.len() > 0 ==> item == Some(old(self)@[0]) && final(self)@ == old(
                self,
            )@.drop_first(),
    {
        match self.head.take() {
            Some(node) => {
                let node = *node;
                self.head = node.next;
                assert((seq![node.item] + items(node.next)).drop_first() =~= items(node.next));
                self.size -= 1;
                Some(node.item)
            },
            None => None,
        }
    }

    /// References to the items, first to last.
    pub fn iter(&self) -> (refs: Vec<&T>)
        ensures
            refs@.len() == self@.len(),
            forall|i: int| 0 <= i < refs@.len() ==> *refs@[i] == self@[i],
    {
        let mut refs: Vec<&T> = Vec::new();
        let mut link = &self.head;
        loop
            invariant
                refs@.len() + items(*link).len() == self@.len(),
                forall|i: int| 0 <= i < refs@.len() ==> *refs@[i] == self@[i],
                forall|i: int|
                    0 <= i < items(*link).len() ==> items(*link)[i] == self@[refs@.len() + i],
            ensures
                refs@.len() == self@.len(),
            decreases items(*link).len(),
        {
            match link {
                Some(node) => {
                    let ghost rest = items(*link);
                    assert(rest[0] == node.item);
                    assert(forall|i: int|
                        0 <= i < items(node.next).len() ==> items(node.next)[i] == rest[i
                            + 1]);
                    refs.push(&node.item);
                    link = &node.next;
                },
                None => {
                    break ;
                },
            }
        }
        refs
    }
}


} // verus!
