//! Lines of text as sequences of characters.
use vstd::prelude::*;
use vstd::string::*;

verus! {

/// The character sequences of a list of strings.
pub open spec fn lines_of(lines: Seq<String>) -> Seq<Seq<char>> {
    lines.map_values(|line: String| line@)
}

/// What `str::replace` gives: `line` with each match of `old_text`, found
/// from left to right without overlap, replaced by `new_text`.
pub uninterp spec fn replaced(line: Seq<char>, old_text: Seq<char>, new_text: Seq<char>) -> Seq<
    char,
>;

/// `str::replace`: the result is named `replaced`.
#[verifier::external_body]
pub(crate) fn replace_in(line: &str, old_text: &str, new_text: &str) -> (r: String)
    ensures
        r@ == replaced(line@, old_text@, new_text@),
{
    line.replace(old_text, new_text)
}

/// `str` equality: two slices are equal exactly when they hold the same
/// characters.
#[verifier::external_body]
pub(crate) fn same_text(a: &str, b: &str) -> (r: bool)
    ensures
        r == (a@ == b@),
{
    a == b
}

/// `char::to_string`: the one-character string.
#[verifier::external_body]
pub(crate) fn char_text(c: char) -> (r: String)
    ensures
        r@ == seq![c],
{
    c.to_string()
}

/// A new string with the characters `from..to` of `line`.
pub fn slice_text(line: &str, from: usize, to: usize) -> (r: String)
    requires
        from <= to <= line@.len(),
    ensures
        r@ == line@.subrange(from as int, to as int),
{
    String::from_str(line.substring_char(from, to))
}

/// `line` with `ch` inserted before the character at `col`.
pub fn with_char_inserted(line: &str, col: usize, ch: char) -> (r: String)
    requires
        col <= line@.len(),
    ensures
        r@ == line@.insert(col as int, ch),
{
    let n = line.unicode_len();
    let mut r = slice_text(line, 0, col);
    r.append(char_text(ch).as_str());
    r.append(line.substring_char(col, n));
    assert(r@ =~= line@.insert(col as int, ch));
    r
}

/// `line` without the character at `col`.
pub fn with_char_removed(line: &str, col: usize) -> (r: String)
    requires
        col < line@.len(),
    ensures
        r@ == line@.remove(col as int),
{
    let n = line.unicode_len();
    let mut r = slice_text(line, 0, col);
    r.append(line.substring_char(col + 1, n));
    assert(r@ =~= line@.remove(col as int));
    r
}

} // verus!
