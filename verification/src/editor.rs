//! The query editor: a character-indexed text buffer, a cursor, and the
//! backlog of submitted queries.
//!
//! The buffer is a sequence of Unicode scalar values, not raw bytes, so
//! every edit works on whole characters: an insertion can never split a
//! multi-byte character and a deletion always removes exactly one.

use vstd::prelude::*;

verus! {

/// The state the query panel owns. All operations are total: positions are
/// clamped to the buffer, and deleting at the start of the buffer is a no-op.
pub struct QueryEditorState {
    /// The query text as whole characters, in order.
    pub text: Vec<char>,
    /// A character index into `text`; always within `0 ..= text.len()`.
    pub cursor_pos: usize,
    /// Submitted query strings awaiting execution, oldest first.
    pub submission_queue: Vec<String>,
}

impl QueryEditorState {
    /// The cursor always points at a character boundary of the buffer.
    pub open spec fn wf(self) -> bool {
        self.cursor_pos <= self.text@.len()
    }

    /// The submission queue as the sequence of the submitted texts'
    /// characters, oldest first.
    pub open spec fn queue_model(self) -> Seq<Seq<char>> {
        self.submission_queue@.map_values(|s: String| s@)
    }

    /// A fresh editor: empty buffer, cursor at the start, nothing queued.
    pub fn new() -> (r: QueryEditorState)
        ensures
            r.wf(),
            r.text@ == Seq::<char>::empty(),
            r.cursor_pos == 0,
            r.submission_queue@ == Seq::<String>::empty(),
    {
        QueryEditorState { text: Vec::new(), cursor_pos: 0, submission_queue: Vec::new() }
    }

    /// Inserts `c` at the cursor's character position and advances the
    /// cursor past it. On a buffer that already holds the largest
    /// representable number of characters the call changes nothing.
    pub fn insert_char(&mut self, c: char)
        requires
            old(self).wf(),
        ensures
            final(self).wf(),
            final(self).submission_queue == old(self).submission_queue,
            old(self).text@.len() < usize::MAX ==> {
                &&& final(self).text@ == old(self).text@.insert(old(self).cursor_pos as int, c)
                &&& final(self).cursor_pos == old(self).cursor_pos + 1
            },
            old(self).text@.len() >= usize::MAX ==> *final(self) == *old(self),
    {
        let n = self.text.len();
        if n < usize::MAX {
            self.text.insert(self.cursor_pos, c);
            self.cursor_pos = self.cursor_pos + 1;
        }
    }

    /// Removes the character immediately before the cursor and moves the
    /// cursor onto the freed position; at the start of the buffer it leaves
    /// everything unchanged.
    pub fn delete_before_cursor(&mut self)
        requires
            old(self).wf(),
        ensures
            final(self).wf(),
            final(self).submission_queue == old(self).submission_queue,
            old(self).cursor_pos == 0 ==> *final(self) == *old(self),
            old(self).cursor_pos > 0 ==> {
                &&& final(self).text@ == old(self).text@.remove(old(self).cursor_pos - 1)
                &&& final(self).cursor_pos == old(self).cursor_pos - 1
            },
    {
        if self.cursor_pos > 0 {
            self.text.remove(self.cursor_pos - 1);
            self.cursor_pos = self.cursor_pos - 1;
        }
    }

    /// Moves the cursor one character left, stopping at the start of the
    /// buffer.
    pub fn move_left(&mut self)
        requires
            old(self).wf(),
        ensures
            final(self).wf(),
            final(self).text == old(self).text,
            final(self).submission_queue == old(self).submission_queue,
            final(self).cursor_pos == if old(self).cursor_pos > 0 {
                old(self).cursor_pos - 1
            } else {
                0int
            },
    {
        if self.cursor_pos > 0 {
            self.cursor_pos = self.cursor_pos - 1;
        }
    }

    /// Moves the cursor one character right, stopping at the end of the
    /// buffer.
    pub fn move_right(&mut self)
        requires
            old(self).wf(),
        ensures
            final(self).wf(),
            final(self).text == old(self).text,
            final(self).submission_queue == old(self).submission_queue,
            final(self).cursor_pos == if old(self).cursor_pos < old(self).text@.len() {
                old(self).cursor_pos + 1
            } else {
                old(self).cursor_pos as int
            },
    {
        if self.cursor_pos < self.text.len() {
            self.cursor_pos = self.cursor_pos + 1;
        }
    }

    /// Appends a copy of the current text to the submission queue. The text
    /// and the cursor stay as they are: submitting does not clear the box.
    pub fn submit(&mut self)
        requires
            old(self).wf(),
        ensures
            final(self).wf(),
            final(self).text == old(self).text,
            final(self).cursor_pos == old(self).cursor_pos,
            final(self).queue_model() == old(self).queue_model().push(old(self).text@),
    {
        let s = chars_to_string(&self.text);
        self.submission_queue.push(s);
        proof {
            assert(self.queue_model() =~= old(self).queue_model().push(old(self).text@));
        }
    }

    /// The current text rebuilt as an owned string, character for character.
    pub fn text_string(&self) -> (r: String)
        ensures
            r@ == self.text@,
    {
        chars_to_string(&self.text)
    }
}

/// Relies on `String::push`: appends the given character to the end of the
/// string.
#[verifier::external_body]
fn string_push(s: &mut String, c: char)
    ensures
        final(s)@ == old(s)@.push(c),
{
    s.push(c)
}

/// Builds the string spelled by a character sequence.
pub fn chars_to_string(chars: &Vec<char>) -> (r: String)
    ensures
        r@ == chars@,
{
    let mut r = String::new();
    let mut i: usize = 0;
    while i < chars.len()
        invariant
            i <= chars@.len(),
            r@ == chars@.subrange(0, i as int),
        decreases chars@.len() - i,
    {
        string_push(&mut r, chars[i]);
        i = i + 1;
        proof {
            assert(r@ =~= chars@.subrange(0, i as int));
        }
    }
    proof {
        assert(r@ =~= chars@);
    }
    r
}

} // verus!
