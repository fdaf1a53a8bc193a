//! Editing one line of text: the path that is typed into the file picker or
//! the save dialog.

use vstd::prelude::*;

verus! {

/// A key as far as line editing is concerned.
#[derive(Debug, Clone, Copy, PartialEq, Eq, Structural)]
pub enum EditKey {
    Left,
    Right,
    Home,
    End,
    Backspace,
    Delete,
    Char(char),
    /// Any other key: it is not an editing key.
    Other,
}

/// A line of text and the cursor in it. The cursor counts characters and
/// stands before the character at its index, or behind the last one.
#[derive(Debug, Clone, PartialEq, Eq)]
pub struct TextInput {
    pub text: Vec<char>,
    pub cursor: usize,
}

/// What a key did to the line.
#[derive(Debug, Clone, Copy, PartialEq, Eq, Structural)]
pub struct Edited {
    /// Whether the key was an editing key.
    pub handled: bool,
    /// Whether the text changed.
    pub changed: bool,
}

/// The text after a key, given the text and cursor before it.
pub open spec fn text_after(text: Seq<char>, cursor: int, key: EditKey) -> Seq<char> {
    match key {
        EditKey::Backspace => if cursor > 0 {
            text.remove(cursor - 1)
        } else {
            text
        },
        EditKey::Delete => if cursor < text.len() {
            text.remove(cursor)
        } else {
            text
        },
        EditKey::Char(c) => text.insert(cursor, c),
        _ => text,
    }
}

/// The cursor after a key, given the text and cursor before it.
pub open spec fn cursor_after(text: Seq<char>, cursor: int, key: EditKey) -> int {
    match key {
        EditKey::Left => if cursor > 0 {
            cursor - 1
        } else {
            cursor
        },
        EditKey::Right => if cursor < text.len() {
            cursor + 1
        } else {
            cursor
        },
        EditKey::Home => 0,
        EditKey::End => text.len() as int,
        EditKey::Backspace => if cursor > 0 {
            cursor - 1
        } else {
            cursor
        },
        EditKey::Char(_) => cursor + 1,
        _ => cursor,
    }
}

impl TextInput {
    /// The cursor lies within the text or at its end.
    pub open spec fn well_formed(self) -> bool {
        self.cursor <= self.text@.len()
    }

    /// An empty line.
    pub fn new() -> (line: Self)
        ensures
            line.text@.len() == 0,
            line.cursor == 0,
            line.well_formed(),
    {
        TextInput { text: Vec::new(), cursor: 0 }
    }

    /// Empties the line.
    pub fn clear(&mut self)
        ensures
            final(self).text@.len() == 0,
            final(self).cursor == 0,
            final(self).well_formed(),
    {
        self.text.clear();
        self.cursor = 0;
    }

    /// Applies one key to the line.
    pub fn edit(&mut self, key: EditKey) -> (outcome: Edited)
        requires
            old(self).well_formed(),
            old(self).text@.len() < usize::MAX,
        ensures
            final(self).well_formed(),
            final(self).text@ == text_after(old(self).text@, old(self).cursor as int, key),
            final(self).cursor == cursor_after(old(self).text@, old(self).cursor as int, key),
            outcome.handled == !(key is Other),
            outcome.changed == (final(self).text@.len() != old(self).text@.len()),
    {
        let len = self.text.len();
        match key {
            EditKey::Left => {
                if self.cursor > 0 {
                    self.cursor = self.cursor - 1;
                }
                Edited { handled: true, changed: false }
            },
            EditKey::Right => {
                if self.cursor < len {
                    self.cursor = self.cursor + 1;
                }
                Edited { handled: true, changed: false }
            },
            EditKey::Home => {
                self.cursor = 0;
                Edited { handled: true, changed: false }
            },
            EditKey::End => {
                self.cursor = len;
                Edited { handled: true, changed: false }
            },
            EditKey::Backspace => {
                if self.cursor > 0 {
                    let _removed = self.text.remove(self.cursor - 1);
                    self.cursor = self.cursor - 1;
                    Edited { handled: true, changed: true }
                } else {
                    Edited { handled: true, changed: false }
                }
            },
            EditKey::Delete => {
                if self.cursor < len {
                    let _removed = self.text.remove(self.cursor);
                    Edited { handled: true, changed: true }
                } else {
                    Edited { handled: true, changed: false }
                }
            },
            EditKey::Char(c) => {
                self.text.insert(self.cursor, c);
                self.cursor = self.cursor + 1;
                Edited { handled: true, changed: true }
            },
            EditKey::Other => Edited { handled: false, changed: false },
        }
    }
}

/// Typing a character and then pressing backspace gives back the line as it
/// was.
pub proof fn lemma_backspace_undoes_typing(text: Seq<char>, cursor: int, c: char)
    requires
        0 <= cursor <= text.len(),
    ensures
        text_after(
            text_after(text, cursor, EditKey::Char(c)),
            cursor_after(text, cursor, EditKey::Char(c)),
            EditKey::Backspace,
        ) == text,
        cursor_after(
            text_after(text, cursor, EditKey::Char(c)),
            cursor_after(text, cursor, EditKey::Char(c)),
            EditKey::Backspace,
        ) == cursor,
{
    assert(text.insert(cursor, c).remove(cursor) =~= text);
}

} // verus!
