//! The input editor: the line under edit and its cursor, and the keystroke
//! transitions that move them.
//!
//! The cursor is a character offset, always within `0 ..= text.len()`.

use vstd::prelude::*;
use vstd::string::{StrSliceExecFns, StringExecFns};

verus! {

/// The current input line and the cursor offset into it.
#[derive(Debug)]
pub struct InputEditorState {
    pub text: String,
    pub cursor: usize,
}

/// Where the cursor lands after a text change: shifted by the length delta
/// of the change and clamped into the new text.
pub open spec fn shifted_cursor(cursor: int, old_len: int, new_len: int) -> int {
    let moved = cursor + new_len - old_len;
    if moved < 0 {
        0
    } else if moved > new_len {
        new_len
    } else {
        moved
    }
}

impl InputEditorState {
    /// The cursor never leaves the text.
    pub open spec fn wf(&self) -> bool {
        self.cursor <= self.text@.len()
    }

    pub fn new() -> (e: Self)
        ensures
            e.text@ == Seq::<char>::empty(),
            e.cursor == 0,
            e.wf(),
    {
        InputEditorState { text: String::new(), cursor: 0 }
    }

    /// One step left; stops at the start of the line.
    pub fn arrow_left(&mut self)
        ensures
            final(self).text == old(self).text,
            final(self).cursor == if old(self).cursor > 0 {
                old(self).cursor - 1
            } else {
                0int
            },
            old(self).wf() ==> final(self).wf(),
    {
        if self.cursor > 0 {
            self.cursor = self.cursor - 1;
        }
    }

    /// One step right; stops at the end of the line.
    pub fn arrow_right(&mut self)
        requires
            old(self).wf(),
        ensures
            final(self).text == old(self).text,
            final(self).cursor == vstd::math::min(
                old(self).cursor + 1,
                old(self).text@.len() as int,
            ),
            final(self).wf(),
    {
        let len = self.text.as_str().unicode_len();
        if self.cursor < len {
            self.cursor = self.cursor + 1;
        }
    }

    /// Jump to the start of the line.
    pub fn home(&mut self)
        ensures
            final(self).text == old(self).text,
            final(self).cursor == 0,
            final(self).wf(),
    {
        self.cursor = 0;
    }

    /// Jump to the end of the line.
    pub fn end(&mut self)
        ensures
            final(self).text == old(self).text,
            final(self).cursor == old(self).text@.len(),
            final(self).wf(),
    {
        self.cursor = self.text.as_str().unicode_len();
    }

    /// Replace the text with an edited version, carrying the cursor by the
    /// length delta of the change rather than recomputing it, so that
    /// mid-line insertions and deletions keep their position.
    pub fn text_change(&mut self, new_text: String)
        requires
            old(self).wf(),
        ensures
            final(self).text == new_text,
            final(self).cursor == shifted_cursor(
                old(self).cursor as int,
                old(self).text@.len() as int,
                new_text@.len() as int,
            ),
            final(self).wf(),
    {
        let old_len = self.text.as_str().unicode_len();
        let new_len = new_text.as_str().unicode_len();
        if new_len >= old_len {
            self.cursor = self.cursor + (new_len - old_len);
        } else {
            let shrink = old_len - new_len;
            self.cursor = if self.cursor >= shrink {
                self.cursor - shrink
            } else {
                0
            };
            if self.cursor > new_len {
                self.cursor = new_len;
            }
        }
        self.text = new_text;
    }

    /// Adopt a recalled line whole, with the cursor at its end.
    pub fn recall(&mut self, value: String)
        ensures
            final(self).text == value,
            final(self).cursor == value@.len(),
            final(self).wf(),
    {
        self.cursor = value.as_str().unicode_len();
        self.text = value;
    }

    /// Append a completion suffix, with the cursor at the new end.
    pub fn append(&mut self, suffix: &str)
        ensures
            final(self).text@ == old(self).text@ + suffix@,
            final(self).cursor == final(self).text@.len(),
            final(self).wf(),
    {
        self.text.append(suffix);
        self.cursor = self.text.as_str().unicode_len();
    }

    /// Drop the line: empty text, cursor at the start.
    pub fn clear(&mut self)
        ensures
            final(self).text@ == Seq::<char>::empty(),
            final(self).cursor == 0,
            final(self).wf(),
    {
        self.text = String::new();
        self.cursor = 0;
    }
}

} // verus!
