//! The edit buffer: the single line of text composed while the core is
//! in insert mode, with a cursor for standard line-edit operations.

use vstd::prelude::*;

verus! {

/// Mathematical model of an [`EditBuffer`]: the characters typed so far
/// and the position within them where the next character is inserted.
#[verifier::ext_equal]
pub struct EditView {
    pub text: Seq<char>,
    pub cursor: int,
}

impl EditView {
    /// The cursor sits between characters, so it may equal the length.
    pub open spec fn wf(self) -> bool {
        0 <= self.cursor <= self.text.len()
    }

    /// The buffer as it is created and after every clear.
    pub open spec fn empty() -> EditView {
        EditView { text: Seq::empty(), cursor: 0 }
    }

    /// Insert one character at the cursor; the cursor moves past it.
    pub open spec fn insert_char(self, c: char) -> EditView {
        EditView { text: self.text.insert(self.cursor, c), cursor: self.cursor + 1 }
    }

    /// Delete the character before the cursor, if any.
    pub open spec fn backspace(self) -> EditView {
        if self.cursor > 0 {
            EditView { text: self.text.remove(self.cursor - 1), cursor: self.cursor - 1 }
        } else {
            self
        }
    }

    /// Move the cursor one character to the left, stopping at the start.
    pub open spec fn move_left(self) -> EditView {
        if self.cursor > 0 {
            EditView { text: self.text, cursor: self.cursor - 1 }
        } else {
            self
        }
    }

    /// Move the cursor one character to the right, stopping at the end.
    pub open spec fn move_right(self) -> EditView {
        if self.cursor < self.text.len() {
            EditView { text: self.text, cursor: self.cursor + 1 }
        } else {
            self
        }
    }
}

/// The in-progress outgoing message: an ordered sequence of characters
/// with a cursor, mutated only by the line-edit operations below.
pub struct EditBuffer {
    text: Vec<char>,
    cursor: usize,
}

impl View for EditBuffer {
    type V = EditView;

    closed spec fn view(&self) -> EditView {
        EditView { text: self.text@, cursor: self.cursor as int }
    }
}

impl EditBuffer {
    pub fn new() -> (b: EditBuffer)
        ensures
            b@ == EditView::empty(),
    {
        let b = EditBuffer { text: Vec::new(), cursor: 0 };
        proof {
            assert(b@ =~= EditView::empty());
        }
        b
    }

    /// The composed text, in order.
    pub fn text(&self) -> (t: &Vec<char>)
        ensures
            t@ == self@.text,
    {
        &self.text
    }

    pub fn cursor(&self) -> (c: usize)
        ensures
            c == self@.cursor,
    {
        self.cursor
    }

    pub fn len(&self) -> (n: usize)
        ensures
            n == self@.text.len(),
    {
        self.text.len()
    }

    pub fn insert_char(&mut self, c: char)
        requires
            old(self)@.wf(),
            old(self)@.text.len() < usize::MAX,
        ensures
            final(self)@ == old(self)@.insert_char(c),
            final(self)@.wf(),
    {
        self.text.insert(self.cursor, c);
        self.cursor = self.cursor + 1;
        proof {
            assert(self@ =~= old(self)@.insert_char(c));
        }
    }

    pub fn backspace(&mut self)
        requires
            old(self)@.wf(),
        ensures
            final(self)@ == old(self)@.backspace(),
            final(self)@.wf(),
    {
        if self.cursor > 0 {
            self.text.remove(self.cursor - 1);
            self.cursor = self.cursor - 1;
        }
        proof {
            assert(self@ =~= old(self)@.backspace());
        }
    }

    pub fn move_left(&mut self)
        requires
            old(self)@.wf(),
        ensures
            final(self)@ == old(self)@.move_left(),
            final(self)@.wf(),
    {
        if self.cursor > 0 {
            self.cursor = self.cursor - 1;
        }
        proof {
            assert(self@ =~= old(self)@.move_left());
        }
    }

    pub fn move_right(&mut self)
        requires
            old(self)@.wf(),
        ensures
            final(self)@ == old(self)@.move_right(),
            final(self)@.wf(),
    {
        if self.cursor < self.text.len() {
            self.cursor = self.cursor + 1;
        }
        proof {
            assert(self@ =~= old(self)@.move_right());
        }
    }

    /// Discard the whole buffer, as Esc-cancel and Enter-submit do.
    pub fn clear(&mut self)
        ensures
            final(self)@ == EditView::empty(),
    {
        self.text.clear();
        self.cursor = 0;
        proof {
            assert(self@ =~= EditView::empty());
        }
    }

    /// Hand the composed text out and leave the buffer empty.
    pub fn take_text(&mut self) -> (t: Vec<char>)
        ensures
            t@ == old(self)@.text,
            final(self)@ == EditView::empty(),
    {
        self.cursor = 0;
        let mut t: Vec<char> = Vec::new();
        core::mem::swap(&mut t, &mut self.text);
        proof {
            assert(self@ =~= EditView::empty());
        }
        t
    }
}

} // verus!
