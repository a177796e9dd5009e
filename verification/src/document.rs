//! A document for a line editor: a list of lines.
use crate::text::{lines_of, replace_in, replaced};
use vstd::prelude::*;
use vstd::string::*;

verus! {

pub struct Document {
    content: Vec<String>,
}

impl View for Document {
    type V = Seq<Seq<char>>;

    closed spec fn view(&self) -> Seq<Seq<char>> {
        lines_of(self.content@)
    }
}

impl Document {
    pub fn new() -> (document: Document)
        ensures
            document@ == Seq::<Seq<char>>::empty(),
    {
        let document = Document { content: Vec::new() };
        assert(document@ =~= Seq::<Seq<char>>::empty());
        document
    }

    pub fn content(&self) -> (content: &Vec<String>)
        ensures
            lines_of(content@) == self@,
    {
        &self.content
    }

    pub fn add_line(&mut self, line: String)
        ensures
            final(self)@ == old(self)@.push(line@),
    {
        self.content.push(line);
        assert(self@ =~= old(self)@.push(line@));
    }

    pub fn insert_line(&mut self, index: usize, line: String)
        requires
            index <= old(self)@.len(),
        ensures
            final(self)@ == old(self)@.insert(index as int, line@),
    {
        self.content.insert(index, line);
        assert(self@ =~= old(self)@.insert(index as int, line@));
    }

    pub fn clear(&mut self)
        ensures
            final(self)@ == Seq::<Seq<char>>::empty(),
    {
        self.content.clear();
        assert(self@ =~= Seq::<Seq<char>>::empty());
    }

    pub fn erase_line(&mut self, index: usize)
        requires
            index < old(self)@.len(),
        ensures
            final(self)@ == old(self)@.remove(index as int),
    {
        self.content.remove(index);
        assert(self@ =~= old(self)@.remove(index as int));
    }

    /// Replaces `old_text` by `new_text` in every line.
    pub fn replace_text(&mut self, old_text: &str, new_text: &str)
        ensures
            final(self)@.len() == old(self)@.len(),
            forall|i: int|
                0 <= i < old(self)@.len() ==> final(self)@[i] == replaced(
                    old(self)@[i],
                    old_text@,
                    new_text@,
                ),
    {
        let mut i: usize = 0;
        while i < self.content.len()
            invariant
                i <= self.content.len(),
                self@.len() == old(self)@.len(),
                forall|j: int|
                    0 <= j < i ==> self@[j] == replaced(old(self)@[j], old_text@, new_text@),
                forall|j: int| i <= j < self@.len() ==> self@[j] == old(self)@[j],
            decreases self.content.len() - i,
        {
            let ghost before = self@;
            let line = replace_in(self.content[i].as_str(), old_text, new_text);
            let ghost changed = line@;
            self.content.set(i, line);
            assert(self@ =~= before.update(i as int, changed));
            i += 1;
        }
    }
}

} // verus!
