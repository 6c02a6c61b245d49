//! The query text buffer: a byte string plus an insertion cursor, edited by
//! the text-entry mode of the input state machine. The cursor is always a
//! valid insertion point, and every arrow movement wraps at both ends.

use vstd::prelude::*;

use crate::words::first_boundary_past;
use crate::words::last_word_end_at;
use crate::words::next_word_start_at;
use crate::words::spec_last_word_end;

verus! {

/// The free-text query being typed, with the insertion cursor.
pub struct Query {
    pub text: Vec<u8>,
    pub cursor: usize,
}

impl Query {
    /// The cursor is a valid insertion point into the text.
    pub open spec fn wf(&self) -> bool {
        self.cursor <= self.text@.len()
    }

    /// A fresh query with the cursor at the end of the given text.
    pub fn new(text: Vec<u8>) -> (q: Query)
        ensures
            q.wf(),
            q.text@ == text@,
            q.cursor == text@.len(),
    {
        let cursor = text.len();
        Query { text, cursor }
    }

    /// Insert one byte at the cursor and advance the cursor past it.
    pub fn insert_char(&mut self, c: u8)
        requires
            old(self).wf(),
            old(self).text@.len() < usize::MAX,
        ensures
            final(self).wf(),
            final(self).text@ == old(self).text@.insert(old(self).cursor as int, c),
            final(self).cursor == old(self).cursor + 1,
    {
        self.text.insert(self.cursor, c);
        self.cursor = self.cursor + 1;
    }

    /// Delete the byte before the cursor, if any; otherwise do nothing.
    /// Returns whether anything changed.
    pub fn backspace(&mut self) -> (changed: bool)
        requires
            old(self).wf(),
        ensures
            final(self).wf(),
            changed == (old(self).cursor != 0),
            old(self).cursor == 0 ==> *final(self) == *old(self),
            old(self).cursor != 0 ==> {
                &&& final(self).text@ == old(self).text@.remove(old(self).cursor - 1)
                &&& final(self).cursor == old(self).cursor - 1
            },
    {
        if self.cursor != 0 {
            self.text.remove(self.cursor - 1);
            self.cursor = self.cursor - 1;
            true
        } else {
            false
        }
    }

    /// Move the cursor one position left, wrapping from the start to the end
    /// of the text.
    pub fn move_left(&mut self)
        requires
            old(self).wf(),
        ensures
            final(self).wf(),
            final(self).text@ == old(self).text@,
            final(self).cursor == if old(self).cursor > 0 {
                (old(self).cursor - 1) as int
            } else {
                old(self).text@.len() as int
            },
    {
        if self.cursor > 0 {
            self.cursor = self.cursor - 1;
        } else {
            self.cursor = self.text.len();
        }
    }

    /// Move the cursor one position right, wrapping from the end of the text
    /// back to the start.
    pub fn move_right(&mut self)
        requires
            old(self).wf(),
        ensures
            final(self).wf(),
            final(self).text@ == old(self).text@,
            final(self).cursor == if old(self).cursor < old(self).text@.len() {
                old(self).cursor + 1
            } else {
                0int
            },
    {
        if self.cursor < self.text.len() {
            self.cursor = self.cursor + 1;
        } else {
            self.cursor = 0;
        }
    }

    /// Jump the cursor back to just after the previous word boundary.
    pub fn word_left(&mut self)
        requires
            old(self).wf(),
        ensures
            final(self).wf(),
            final(self).text@ == old(self).text@,
            final(self).cursor == spec_last_word_end(old(self).text@, old(self).cursor as int),
    {
        self.cursor = last_word_end_at(self.text.as_slice(), self.cursor);
    }

    /// Jump the cursor forward to just after the next word boundary, or to
    /// the end of the text when there is none.
    pub fn word_right(&mut self)
        requires
            old(self).wf(),
        ensures
            final(self).wf(),
            final(self).text@ == old(self).text@,
            final(self).cursor == first_boundary_past(old(self).text@, old(self).cursor as int),
    {
        self.cursor = next_word_start_at(self.text.as_slice(), self.cursor);
    }

    /// Jump the cursor to the start of the text.
    pub fn home(&mut self)
        ensures
            final(self).wf(),
            final(self).text@ == old(self).text@,
            final(self).cursor == 0,
    {
        self.cursor = 0;
    }

    /// Jump the cursor to the end of the text.
    pub fn end(&mut self)
        ensures
            final(self).wf(),
            final(self).text@ == old(self).text@,
            final(self).cursor == old(self).text@.len(),
    {
        self.cursor = self.text.len();
    }

    /// Remove the text between the previous word boundary and the cursor,
    /// leaving the cursor at the boundary.
    pub fn delete_word_back(&mut self)
        requires
            old(self).wf(),
        ensures
            final(self).wf(),
            ({
                let t = old(self).text@;
                let c = old(self).cursor as int;
                let b = spec_last_word_end(t, c);
                &&& final(self).cursor == b
                &&& final(self).text@ == t.subrange(0, b) + t.subrange(c, t.len() as int)
            }),
    {
        let b = last_word_end_at(self.text.as_slice(), self.cursor);
        let mut out: Vec<u8> = Vec::new();
        let mut i: usize = 0;
        while i < b
            invariant
                i <= b,
                b <= self.cursor,
                self.cursor <= self.text@.len(),
                out@ == self.text@.subrange(0, i as int),
            decreases b - i,
        {
            out.push(self.text[i]);
            assert(out@ == self.text@.subrange(0, i + 1));
            i = i + 1;
        }
        let mut j: usize = self.cursor;
        while j < self.text.len()
            invariant
                b <= self.cursor,
                self.cursor <= j,
                j <= self.text@.len(),
                out@ == self.text@.subrange(0, b as int) + self.text@.subrange(
                    self.cursor as int,
                    j as int,
                ),
            decreases self.text@.len() - j,
        {
            out.push(self.text[j]);
            assert(out@ == self.text@.subrange(0, b as int) + self.text@.subrange(
                self.cursor as int,
                j + 1,
            ));
            j = j + 1;
        }
        self.text = out;
        self.cursor = b;
    }
}

} // verus!
