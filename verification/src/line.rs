//! The line under edit and its cursor.
use vstd::prelude::*;
use vstd::string::*;
use crate::text::{blank_text, blanks, draw_row, push_char, row, PREFIX_SIZE};

verus! {

/// The line being typed: its text and the position of the cursor in it.
///
/// The cursor counts characters and lies between 0 and the length of the
/// text, both included.
pub struct Line {
    /// The text of the line.
    content: String,
    /// Where the next character goes.
    cursor: usize,
}

impl Line {
    /// The text of the line.
    pub closed spec fn text(&self) -> Seq<char> {
        self.content@
    }

    /// The position of the cursor, in characters from the start.
    pub closed spec fn position(&self) -> nat {
        self.cursor as nat
    }

    /// The cursor lies within the text or just behind it. This holds of
    /// every line.
    #[verifier::type_invariant]
    pub open spec fn wf(&self) -> bool {
        self.position() <= self.text().len()
    }

    /// The column of the terminal where the cursor is shown: behind the
    /// prompt, and no further than the last column that can be named.
    pub open spec fn column(&self) -> nat {
        if PREFIX_SIZE + self.position() <= u16::MAX {
            PREFIX_SIZE as nat + self.position()
        } else {
            u16::MAX as nat
        }
    }

    /// An empty line.
    pub fn new() -> (line: Line)
        ensures
            line.wf(),
            line.text() == Seq::<char>::empty(),
            line.position() == 0,
    {
        Line { content: String::new(), cursor: 0 }
    }

    /// The text of the line.
    pub fn content(&self) -> (content: &str)
        ensures
            content@ == self.text(),
    {
        self.content.as_str()
    }

    /// The position of the cursor.
    pub fn cursor(&self) -> (cursor: usize)
        ensures
            cursor == self.position(),
            cursor <= self.text().len(),
    {
        proof {
            use_type_invariant(self);
        }
        self.cursor
    }

    /// Inserts `ch` at the cursor and steps the cursor over it. Returns the
    /// text that redraws the row.
    pub fn insert(&mut self, ch: char) -> (drawn: String)
        ensures
            final(self).wf(),
            final(self).text() == old(self).text().insert(old(self).position() as int, ch),
            final(self).position() == old(self).position() + 1,
            drawn@ == row(final(self).text()),
    {
        proof {
            use_type_invariant(&*self);
        }
        let length = self.content.as_str().unicode_len();
        let head = self.content.as_str().substring_char(0, self.cursor);
        let tail = self.content.as_str().substring_char(self.cursor, length);
        let mut content = head.to_owned();
        push_char(&mut content, ch);
        content.append(tail);
        assert(content@ =~= self.content@.insert(self.cursor as int, ch));
        let grown = content.as_str().unicode_len();
        assert(grown == length + 1);
        self.content = content;
        self.cursor = self.cursor + 1;
        draw_row(self.content.as_str())
    }

    /// Removes the character before the cursor, if there is one, and steps
    /// the cursor back. Returns the text that redraws the row and blanks the
    /// column that the line gave up.
    pub fn backspace(&mut self) -> (drawn: String)
        ensures
            final(self).wf(),
            old(self).position() > 0 ==> final(self).text() == old(self).text().remove(
                old(self).position() - 1,
            ) && final(self).position() == old(self).position() - 1,
            old(self).position() == 0 ==> final(self).text() == old(self).text()
                && final(self).position() == 0,
            drawn@ == row(final(self).text()).push(' '),
    {
        proof {
            use_type_invariant(&*self);
        }
        if self.cursor > 0 {
            let length = self.content.as_str().unicode_len();
            let head = self.content.as_str().substring_char(0, self.cursor - 1);
            let tail = self.content.as_str().substring_char(self.cursor, length);
            let mut content = head.to_owned();
            content.append(tail);
            assert(content@ =~= self.content@.remove(self.cursor - 1));
            self.cursor = self.cursor - 1;
            self.content = content;
        }
        let mut drawn = draw_row(self.content.as_str());
        push_char(&mut drawn, ' ');
        drawn
    }

    /// Moves the cursor one character to the left; it stays at the start.
    pub fn decrease_counter(&mut self)
        ensures
            final(self).wf(),
            final(self).text() == old(self).text(),
            final(self).position() == if old(self).position() > 0 {
                old(self).position() - 1
            } else {
                0
            },
    {
        proof {
            use_type_invariant(&*self);
        }
        if self.cursor > 0 {
            self.cursor = self.cursor - 1;
        }
    }

    /// Moves the cursor one character to the right; it stays at the end.
    pub fn increase_counter(&mut self)
        ensures
            final(self).wf(),
            final(self).text() == old(self).text(),
            final(self).position() == if old(self).position() < old(self).text().len() {
                old(self).position() + 1
            } else {
                old(self).position()
            },
    {
        proof {
            use_type_invariant(&*self);
        }
        let length = self.content.as_str().unicode_len();
        if self.cursor < length {
            self.cursor = self.cursor + 1;
        }
    }

    /// Replaces the whole text by `line` and puts the cursor on its last
    /// character (at 0 where `line` is empty). Returns the text that blanks
    /// the old row and draws the new one.
    pub fn set(&mut self, line: String) -> (drawn: String)
        ensures
            final(self).wf(),
            final(self).text() == line@,
            final(self).position() == if line@.len() > 0 {
                line@.len() - 1
            } else {
                0
            },
            drawn@ == row(blanks(old(self).text().len())) + row(line@),
    {
        let before = self.content.as_str().unicode_len();
        let length = line.as_str().unicode_len();
        let mut drawn = draw_row(blank_text(before).as_str());
        let shown = draw_row(line.as_str());
        drawn.append(shown.as_str());
        let cursor = if length > 0 {
            length - 1
        } else {
            0
        };
        *self = Line { content: line, cursor };
        drawn
    }

    /// Hands out the text and leaves an empty line with the cursor at 0.
    pub fn take(&mut self) -> (content: String)
        ensures
            content@ == old(self).text(),
            final(self).wf(),
            final(self).text() == Seq::<char>::empty(),
            final(self).position() == 0,
    {
        let mut content = String::new();
        self.cursor = 0;
        core::mem::swap(&mut self.content, &mut content);
        content
    }

    /// Says where the terminal's cursor belongs after a change: the column
    /// to move it to.
    pub fn update_cursor(&self) -> (column: u16)
        ensures
            column == self.column(),
    {
        if self.cursor <= (u16::MAX - PREFIX_SIZE) as usize {
            PREFIX_SIZE + self.cursor as u16
        } else {
            u16::MAX
        }
    }
}

impl Default for Line {
    fn default() -> (line: Line)
        ensures
            line.wf(),
            line.text() == Seq::<char>::empty(),
            line.position() == 0,
    {
        Line::new()
    }
}

} // verus!
