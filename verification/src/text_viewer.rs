//! The state of a text viewer: a document, a cursor, and the cursor as
//! shown, which never stands beyond the end of its line.
use crate::doc::{with_break, with_char, with_join, without_char, Doc};
use vstd::prelude::*;
use vstd::string::*;

verus! {

/// A position, counted from 1: `x` is the column, `y` the line.
#[derive(Debug, PartialEq, Eq, Clone, Copy, Structural)]
pub struct Coordinates {
    pub x: usize,
    pub y: usize,
}

#[derive(Debug, PartialEq, Eq, Clone, Copy, Structural)]
pub struct Box {
    pub width: usize,
    pub height: usize,
}

pub struct TextViewer {
    doc: Doc,
    cursor: Coordinates,
    adjusted_cursor: Coordinates,
    terminal_size: Box,
}

pub struct TextViewBuilder {
    file_name: Option<String>,
    cursor_pos: Option<Coordinates>,
    terminal_size: Box,
}

impl TextViewBuilder {
    pub closed spec fn chosen_file(&self) -> Option<Seq<char>> {
        match self.file_name {
            Some(name) => Some(name@),
            None => None,
        }
    }

    pub closed spec fn chosen_cursor(&self) -> Option<Coordinates> {
        self.cursor_pos
    }

    pub closed spec fn chosen_size(&self) -> Box {
        self.terminal_size
    }

    /// No file, the cursor at the top left, a terminal of 80 by 24.
    pub fn new() -> (builder: Self)
        ensures
            builder.chosen_file() is None,
            builder.chosen_cursor() == Some(Coordinates { x: 1, y: 1 }),
            builder.chosen_size() == (Box { width: 80, height: 24 }),
    {
        TextViewBuilder {
            file_name: None,
            cursor_pos: Some(Coordinates { x: 1, y: 1 }),
            terminal_size: Box { width: 80, height: 24 },
        }
    }

    pub fn with_file_name(self, file_name: &str) -> (builder: Self)
        ensures
            builder.chosen_file() == Some(file_name@),
            builder.chosen_cursor() == self.chosen_cursor(),
            builder.chosen_size() == self.chosen_size(),
    {
        let mut builder = self;
        builder.file_name = Some(String::from_str(file_name));
        builder
    }

    pub fn with_cursor_pos(self, x: usize, y: usize) -> (builder: Self)
        ensures
            builder.chosen_file() == self.chosen_file(),
            builder.chosen_cursor() == Some(Coordinates { x, y }),
            builder.chosen_size() == self.chosen_size(),
    {
        let mut builder = self;
        builder.cursor_pos = Some(Coordinates { x, y });
        builder
    }

    pub fn with_terminal_size(self, width: usize, height: usize) -> (builder: Self)
        ensures
            builder.chosen_file() == self.chosen_file(),
            builder.chosen_cursor() == self.chosen_cursor(),
            builder.chosen_size() == (Box { width, height }),
    {
        let mut builder = self;
        builder.terminal_size = Box { width, height };
        builder
    }

    /// The name of the file to show, if one was chosen.
    pub fn file_name(&self) -> (name: Option<&String>)
        ensures
            match self.chosen_file() {
                Some(text) => name matches Some(found) && found@ == text,
                None => name is None,
            },
    {
        self.file_name.as_ref()
    }

    /// A viewer on `loaded`, the document read from the chosen file, or on
    /// the default document where there is none. The cursor is the chosen
    /// one, or the first column of the last line.
    pub fn build(self, loaded: Option<Doc>) -> (viewer: TextViewer)
        ensures
            viewer.document().text() == match loaded {
                Some(doc) => doc.text(),
                None => seq!["Hello World!"@],
            },
            viewer.document().name() == match loaded {
                Some(doc) => doc.name(),
                None => None,
            },
            viewer.cursor() == match self.chosen_cursor() {
                Some(position) => position,
                None => Coordinates { x: 1, y: viewer.document().text().len() as usize },
            },
            viewer.shown_cursor() == viewer.cursor(),
            viewer.size() == self.chosen_size(),
    {
        let doc = match loaded {
            Some(doc) => doc,
            None => Doc::new(),
        };
        let cursor_pos = match self.cursor_pos {
            Some(position) => position,
            None => Coordinates { x: 1, y: doc.length() },
        };
        TextViewer {
            doc,
            cursor: cursor_pos,
            terminal_size: self.terminal_size,
            adjusted_cursor: cursor_pos,
        }
    }
}

/// The cursor as shown: pulled back to one past the end of a line of
/// `length` characters.
pub open spec fn adjusted(cursor: Coordinates, length: nat) -> Coordinates {
    if cursor.x > length + 1 {
        Coordinates { x: (length + 1) as usize, y: cursor.y }
    } else {
        cursor
    }
}

impl TextViewer {
    pub closed spec fn document(&self) -> Doc {
        self.doc
    }

    pub closed spec fn cursor(&self) -> Coordinates {
        self.cursor
    }

    pub closed spec fn shown_cursor(&self) -> Coordinates {
        self.adjusted_cursor
    }

    pub closed spec fn size(&self) -> Box {
        self.terminal_size
    }

    /// The cursor stands on a line of the document.
    pub open spec fn wf(&self) -> bool {
        1 <= self.cursor().y <= self.document().text().len()
    }

    /// The length of the cursor's line.
    pub open spec fn line_length(&self) -> nat {
        self.document().text()[self.cursor().y - 1].len()
    }

    /// The viewer with its cursor at `target`, shown within the line.
    pub open spec fn moved_to(&self, before: &TextViewer, target: Coordinates) -> bool {
        &&& self.document() == before.document()
        &&& self.size() == before.size()
        &&& self.cursor() == target
        &&& self.shown_cursor() == adjusted(target, self.line_length())
    }

    pub fn position(&self) -> (cursor: Coordinates)
        ensures
            cursor == self.cursor(),
    {
        self.cursor
    }

    pub fn doc(&self) -> (doc: &Doc)
        ensures
            *doc == self.document(),
    {
        &self.doc
    }

    pub fn terminal_size(&self) -> (size: Box)
        ensures
            size == self.size(),
    {
        self.terminal_size
    }

    /// Where the terminal's cursor is put: the shown cursor, held back three
    /// columns and three rows from the far edges of the terminal.
    pub fn clipped_cursor(&self) -> (cursor: Coordinates)
        requires
            self.size().width >= 3,
            self.size().height >= 3,
        ensures
            cursor.x == if self.shown_cursor().x <= self.size().width - 3 {
                self.shown_cursor().x
            } else {
                (self.size().width - 3) as usize
            },
            cursor.y == if self.shown_cursor().y <= self.size().height - 3 {
                self.shown_cursor().y
            } else {
                (self.size().height - 3) as usize
            },
    {
        let max_x = self.terminal_size.width - 3;
        let max_y = self.terminal_size.height - 3;
        let x = if self.adjusted_cursor.x <= max_x {
            self.adjusted_cursor.x
        } else {
            max_x
        };
        let y = if self.adjusted_cursor.y <= max_y {
            self.adjusted_cursor.y
        } else {
            max_y
        };
        Coordinates { x, y }
    }

    pub fn shown_position(&self) -> (cursor: Coordinates)
        ensures
            cursor == self.shown_cursor(),
    {
        self.adjusted_cursor
    }

    pub fn adjust_cursor_to_line_length(&mut self)
        requires
            old(self).wf(),
        ensures
            final(self).moved_to(old(self), old(self).cursor()),
    {
        let line_length = self.doc.line_length(self.cursor.y - 1);
        let mut adjusted_pos = self.cursor;
        if self.cursor.x >= 1 && self.cursor.x - 1 > line_length {
            adjusted_pos.x = line_length + 1;
        }
        self.adjusted_cursor = adjusted_pos;
    }

    pub fn cursor_up(&mut self)
        requires
            old(self).wf(),
        ensures
            final(self).wf(),
            final(self).moved_to(
                old(self),
                if old(self).cursor().y > 1 {
                    Coordinates { x: old(self).cursor().x, y: (old(self).cursor().y - 1) as usize }
                } else {
                    old(self).cursor()
                },
            ),
    {
        if self.cursor.y > 1 {
            self.cursor.y -= 1;
        }
        self.adjust_cursor_to_line_length();
    }

    pub fn cursor_down(&mut self)
        requires
            old(self).wf(),
        ensures
            final(self).wf(),
            final(self).moved_to(
                old(self),
                if old(self).cursor().y < old(self).document().text().len() {
                    Coordinates { x: old(self).cursor().x, y: (old(self).cursor().y + 1) as usize }
                } else {
                    old(self).cursor()
                },
            ),
    {
        if self.cursor.y < self.doc.length() {
            self.cursor.y += 1;
        }
        self.adjust_cursor_to_line_length();
    }

    pub fn cursor_left(&mut self)
        requires
            old(self).wf(),
        ensures
            final(self).wf(),
            final(self).moved_to(
                old(self),
                if old(self).cursor().x > 1 {
                    Coordinates { x: (old(self).cursor().x - 1) as usize, y: old(self).cursor().y }
                } else {
                    old(self).cursor()
                },
            ),
    {
        if self.cursor.x > 1 {
            self.cursor.x -= 1;
        }
        self.adjust_cursor_to_line_length();
    }

    pub fn cursor_right(&mut self)
        requires
            old(self).wf(),
        ensures
            final(self).wf(),
            final(self).moved_to(
                old(self),
                if old(self).cursor().x <= old(self).line_length() && old(self).cursor().x
                    < usize::MAX {
                    Coordinates { x: (old(self).cursor().x + 1) as usize, y: old(self).cursor().y }
                } else {
                    old(self).cursor()
                },
            ),
    {
        let line_length = self.doc.line_length(self.cursor.y - 1);
        if self.cursor.x <= line_length && self.cursor.x < usize::MAX {
            self.cursor.x += 1;
        }
        self.adjust_cursor_to_line_length();
    }

    pub fn update_cursor(&mut self, target: Coordinates)
        requires
            1 <= target.y <= old(self).document().text().len(),
        ensures
            final(self).wf(),
            final(self).moved_to(old(self), target),
    {
        self.cursor = target;
        self.adjust_cursor_to_line_length();
    }
}

// ---------------------------------------------------------------------------
// Keys
// ---------------------------------------------------------------------------
/// A key press, as far as the viewer tells keys apart.
#[derive(Debug, PartialEq, Eq, Clone, Copy, Structural)]
pub enum Key {
    Quit,
    Up,
    Down,
    Left,
    Right,
    Enter,
    Char(char),
    Delete,
    Backspace,
    Other,
}

/// What a key press can change: the text, the cursor, and the cursor shown.
pub ghost struct Display {
    pub text: Seq<Seq<char>>,
    pub cursor: Coordinates,
    pub shown: Coordinates,
}

/// The cursor stands on a line of the text and not before its first column,
/// and the cursor shown stands on the same line, within it or just after
/// its end.
pub open spec fn settled(display: Display) -> bool {
    &&& 1 <= display.cursor.y <= display.text.len()
    &&& 1 <= display.cursor.x
    &&& display.shown.y == display.cursor.y
    &&& 1 <= display.shown.x <= display.text[display.cursor.y - 1].len() + 1
}

/// The text with the cursor at `cursor`, shown within its line.
pub open spec fn placed(text: Seq<Seq<char>>, cursor: Coordinates) -> Display {
    Display { text, cursor, shown: adjusted(cursor, text[cursor.y - 1].len()) }
}

/// The display after a key press. The arrows move the cursor within the
/// text; `Enter` breaks the line at the cursor shown and goes to the start
/// of the new line; a character is inserted there and the cursor moves on;
/// `Delete` removes the character there or, at the end of a line, joins the
/// next line to it; `Backspace` removes the character before, or joins the
/// line to the one above.
pub open spec fn after_key(display: Display, key: Key) -> Display {
    let Display { text, cursor, shown } = display;
    let line = shown.y - 1;
    let col = shown.x - 1;
    match key {
        Key::Up => placed(
            text,
            if cursor.y > 1 {
                Coordinates { x: cursor.x, y: (cursor.y - 1) as usize }
            } else {
                cursor
            },
        ),
        Key::Down => placed(
            text,
            if cursor.y < text.len() {
                Coordinates { x: cursor.x, y: (cursor.y + 1) as usize }
            } else {
                cursor
            },
        ),
        Key::Left => placed(
            text,
            if cursor.x > 1 {
                Coordinates { x: (cursor.x - 1) as usize, y: cursor.y }
            } else {
                cursor
            },
        ),
        Key::Right => placed(text, stepped_right(text, cursor)),
        Key::Enter => placed(
            with_break(text, line, col),
            Coordinates { x: 1, y: (cursor.y + 1) as usize },
        ),
        Key::Char(c) => {
            let changed = with_char(text, line, col, c);
            placed(changed, stepped_right(changed, cursor))
        },
        Key::Delete => Display {
            text: if col >= text[line].len() {
                with_join(text, line)
            } else {
                without_char(text, line, col)
            },
            cursor,
            shown,
        },
        Key::Backspace => if cursor.x == 1 && cursor.y > 1 {
            if text[cursor.y - 2].len() < usize::MAX {
                placed(
                    with_join(text, cursor.y - 2),
                    Coordinates {
                        x: (text[cursor.y - 2].len() + 1) as usize,
                        y: (cursor.y - 1) as usize,
                    },
                )
            } else {
                display
            }
        } else if cursor.x > 1 {
            placed(
                if shown.x >= 2 {
                    without_char(text, line, shown.x - 2)
                } else {
                    text
                },
                Coordinates { x: (cursor.x - 1) as usize, y: cursor.y },
            )
        } else {
            display
        },
        Key::Quit => display,
        Key::Other => display,
    }
}

/// The cursor one column on, unless it stands beyond the end of its line.
pub open spec fn stepped_right(text: Seq<Seq<char>>, cursor: Coordinates) -> Coordinates {
    if cursor.x <= text[cursor.y - 1].len() && cursor.x < usize::MAX {
        Coordinates { x: (cursor.x + 1) as usize, y: cursor.y }
    } else {
        cursor
    }
}

impl TextViewer {
    /// What is on display.
    pub open spec fn display(&self) -> Display {
        Display { text: self.document().text(), cursor: self.cursor(), shown: self.shown_cursor() }
    }

    /// Whether the display is settled, as `press` asks.
    pub fn is_settled(&self) -> (r: bool)
        ensures
            r == settled(self.display()),
    {
        if self.cursor.y < 1 || self.cursor.y > self.doc.length() || self.cursor.x < 1 {
            return false;
        }
        let length = self.doc.line_length(self.cursor.y - 1);
        self.adjusted_cursor.y == self.cursor.y && self.adjusted_cursor.x >= 1
            && self.adjusted_cursor.x - 1 <= length
    }

    /// Puts the cursor shown within the cursor's line.
    pub fn settle(&mut self)
        requires
            old(self).wf(),
            old(self).cursor().x >= 1,
        ensures
            final(self).moved_to(old(self), old(self).cursor()),
            settled(final(self).display()),
    {
        self.adjust_cursor_to_line_length();
    }

    /// Handles a key press, and says whether the viewer goes on: every key
    /// but `Quit` lets it.
    pub fn press(&mut self, key: Key) -> (running: bool)
        requires
            settled(old(self).display()),
        ensures
            running == (key != Key::Quit),
            final(self).display() == after_key(old(self).display(), key),
            settled(final(self).display()),
            final(self).document().name() == old(self).document().name(),
            final(self).size() == old(self).size(),
    {
        match key {
            Key::Quit => {
                return false;
            },
            Key::Up => {
                self.cursor_up();
            },
            Key::Down => {
                self.cursor_down();
            },
            Key::Left => {
                self.cursor_left();
            },
            Key::Right => {
                self.cursor_right();
            },
            Key::Enter => {
                self.doc.insert_new_line(self.adjusted_cursor.y - 1, self.adjusted_cursor.x - 1);
                let lines = self.doc.length();
                self.cursor.y += 1;
                self.cursor.x = 1;
                self.adjust_cursor_to_line_length();
            },
            Key::Char(c) => {
                self.doc.insert_char(self.adjusted_cursor.y - 1, self.adjusted_cursor.x - 1, c);
                self.cursor_right();
            },
            Key::Delete => {
                let length = self.doc.line_length(self.adjusted_cursor.y - 1);
                if self.adjusted_cursor.x - 1 >= length {
                    self.doc.join_with_next_line(self.adjusted_cursor.y - 1);
                } else {
                    self.doc.remove(self.adjusted_cursor.y - 1, self.adjusted_cursor.x - 1);
                }
            },
            Key::Backspace => {
                if self.cursor.x == 1 && self.cursor.y > 1 {
                    let above = self.doc.line_length(self.cursor.y - 2);
                    if above < usize::MAX {
                        let target_cursor = Coordinates { x: above + 1, y: self.cursor.y - 1 };
                        self.doc.join_with_next_line(self.cursor.y - 2);
                        self.update_cursor(target_cursor);
                    }
                } else if self.cursor.x > 1 {
                    if self.adjusted_cursor.x >= 2 {
                        self.doc.remove(self.adjusted_cursor.y - 1, self.adjusted_cursor.x - 2);
                    }
                    self.cursor_left();
                }
            },
            Key::Other => {},
        }
        true
    }

    /// The lines to show, as a range of line numbers from 0: all of them if
    /// they fit under the title, else a screenful from the top while the
    /// cursor is on it, else the screenful that ends with the cursor's line.
    /// Where the lines do not all fit, the cursor may not stand below the
    /// last line.
    pub fn visible_lines(&self) -> (range: (usize, usize))
        requires
            self.size().height >= 3,
            self.document().text().len() < self.size().height - 2 || self.cursor().y
                <= self.document().text().len(),
        ensures
            range == window(
                self.document().text().len(),
                self.cursor().y as nat,
                self.size().height as nat,
            ),
            range.0 <= range.1 <= self.document().text().len(),
    {
        let height = self.terminal_size.height;
        let length = self.doc.length();
        if length < height - 2 {
            (0, length)
        } else if self.cursor.y <= height - 3 {
            (0, height - 3)
        } else {
            (self.cursor.y - (height - 3), self.cursor.y)
        }
    }
}

/// The range of lines shown of `length` lines with the cursor on line `y`,
/// on a terminal of `height` rows, two of which lie above the text and one
/// below.
pub open spec fn window(length: nat, y: nat, height: nat) -> (usize, usize) {
    if length < height - 2 {
        (0usize, length as usize)
    } else if y <= height - 3 {
        (0usize, (height - 3) as usize)
    } else {
        ((y - (height - 3)) as usize, y as usize)
    }
}

} // verus!
