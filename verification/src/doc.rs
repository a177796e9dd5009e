//! A document for a text viewer: lines of text that can be edited at a
//! line and column, counted in characters.
use crate::text::{lines_of, slice_text, with_char_inserted, with_char_removed};
use vstd::prelude::*;
use vstd::string::*;

verus! {

/// `text` with `ch` inserted before column `col` of line `line`; unchanged
/// where the position lies outside the text.
pub open spec fn with_char(text: Seq<Seq<char>>, line: int, col: int, ch: char) -> Seq<Seq<char>> {
    if 0 <= line < text.len() && 0 <= col <= text[line].len() {
        text.update(line, text[line].insert(col, ch))
    } else {
        text
    }
}

/// `text` without the character at column `col` of line `line`; unchanged
/// where there is no such character.
pub open spec fn without_char(text: Seq<Seq<char>>, line: int, col: int) -> Seq<Seq<char>> {
    if 0 <= line < text.len() && 0 <= col < text[line].len() {
        text.update(line, text[line].remove(col))
    } else {
        text
    }
}

/// `text` with line `line` broken before column `col`; unchanged where the
/// position lies outside the text.
pub open spec fn with_break(text: Seq<Seq<char>>, line: int, col: int) -> Seq<Seq<char>> {
    if 0 <= line < text.len() && 0 <= col <= text[line].len() {
        text.update(line, text[line].subrange(0, col)).insert(
            line + 1,
            text[line].subrange(col, text[line].len() as int),
        )
    } else {
        text
    }
}

/// `text` with the line after `line` appended to it; unchanged where no line
/// follows.
pub open spec fn with_join(text: Seq<Seq<char>>, line: int) -> Seq<Seq<char>> {
    if 0 <= line && line + 1 < text.len() {
        text.remove(line + 1).update(line, text[line] + text[line + 1])
    } else {
        text
    }
}

pub struct Doc {
    lines: Vec<String>,
    file_name: Option<String>,
}

impl Doc {
    /// The lines of the document.
    pub closed spec fn text(&self) -> Seq<Seq<char>> {
        lines_of(self.lines@)
    }

    /// The name of the file the document came from, if any.
    pub closed spec fn name(&self) -> Option<Seq<char>> {
        match self.file_name {
            Some(name) => Some(name@),
            None => None,
        }
    }

    /// A document with the one line `Hello World!` and no file name.
    pub fn new() -> (doc: Self)
        ensures
            doc.text() == seq!["Hello World!"@],
            doc.name() is None,
    {
        let mut lines: Vec<String> = Vec::new();
        lines.push(String::from_str("Hello World!"));
        let doc = Doc { lines, file_name: None };
        assert(doc.text() =~= seq!["Hello World!"@]);
        doc
    }

    pub fn from_lines(lines: Vec<String>) -> (doc: Self)
        ensures
            doc.text() == lines_of(lines@),
            doc.name() is None,
    {
        Doc { lines, file_name: None }
    }

    /// A document with the given lines, named after the file they were read
    /// from.
    pub fn from_file_lines(lines: Vec<String>, file_name: String) -> (doc: Self)
        ensures
            doc.text() == lines_of(lines@),
            doc.name() == Some(file_name@),
    {
        Doc { lines, file_name: Some(file_name) }
    }

    /// The number of lines.
    pub fn length(&self) -> (n: usize)
        ensures
            n == self.text().len(),
    {
        self.lines.len()
    }

    pub fn file_name(&self) -> (name: Option<&String>)
        ensures
            match self.name() {
                Some(text) => name matches Some(found) && found@ == text,
                None => name is None,
            },
    {
        self.file_name.as_ref()
    }

    /// The number of characters of line `line`.
    pub fn line_length(&self, line: usize) -> (n: usize)
        requires
            line < self.text().len(),
        ensures
            n == self.text()[line as int].len(),
    {
        self.lines[line].as_str().unicode_len()
    }

    pub fn lines(&self) -> (lines: &Vec<String>)
        ensures
            lines_of(lines@) == self.text(),
    {
        &self.lines
    }

    /// Inserts `ch` before column `col` of line `line`. A position outside
    /// the document changes nothing.
    pub fn insert_char(&mut self, line: usize, col: usize, ch: char)
        ensures
            final(self).name() == old(self).name(),
            final(self).text() == with_char(old(self).text(), line as int, col as int, ch),
    {
        if line >= self.lines.len() {
            return ;
        }
        let length = self.lines[line].as_str().unicode_len();
        if col > length {
            return ;
        }
        let changed = with_char_inserted(self.lines[line].as_str(), col, ch);
        self.lines.set(line, changed);
        assert(self.text() =~= old(self).text().update(
            line as int,
            old(self).text()[line as int].insert(col as int, ch),
        ));
    }

    /// Removes the character at column `col` of line `line`. A position
    /// outside the document changes nothing.
    pub fn remove(&mut self, line: usize, col: usize)
        ensures
            final(self).name() == old(self).name(),
            final(self).text() == without_char(old(self).text(), line as int, col as int),
    {
        if line >= self.lines.len() {
            return ;
        }
        let length = self.lines[line].as_str().unicode_len();
        if col >= length {
            return ;
        }
        let changed = with_char_removed(self.lines[line].as_str(), col);
        self.lines.set(line, changed);
        assert(self.text() =~= old(self).text().update(
            line as int,
            old(self).text()[line as int].remove(col as int),
        ));
    }

    /// Breaks line `line` before column `col`: what follows becomes a new
    /// line after it. A position outside the document changes nothing.
    pub fn insert_new_line(&mut self, line: usize, col: usize)
        ensures
            final(self).name() == old(self).name(),
            final(self).text() == with_break(old(self).text(), line as int, col as int),
    {
        if line >= self.lines.len() {
            return ;
        }
        let length = self.lines[line].as_str().unicode_len();
        if col > length {
            return ;
        }
        let head = slice_text(self.lines[line].as_str(), 0, col);
        let tail = slice_text(self.lines[line].as_str(), col, length);
        self.lines.set(line, head);
        self.lines.insert(line + 1, tail);
        assert(self.text() =~= ({
            let whole = old(self).text()[line as int];
            old(self).text().update(line as int, whole.subrange(0, col as int)).insert(
                line + 1,
                whole.subrange(col as int, whole.len() as int),
            )
        }));
    }

    /// Appends the line after `line` to it. Where no line follows, nothing
    /// changes.
    pub fn join_with_next_line(&mut self, line: usize)
        ensures
            final(self).name() == old(self).name(),
            final(self).text() == with_join(old(self).text(), line as int),
    {
        if self.lines.len() == 0 || line >= self.lines.len() - 1 {
            return ;
        }
        let next_line_content = self.lines.remove(line + 1);
        let mut joined = self.lines[line].clone();
        joined.append(next_line_content.as_str());
        self.lines.set(line, joined);
        assert(self.text() =~= old(self).text().remove(line + 1).update(
            line as int,
            old(self).text()[line as int] + old(self).text()[line + 1],
        ));
    }
}

} // verus!
