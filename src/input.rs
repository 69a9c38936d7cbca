use vstd::prelude::*;

verus! {

/// Number of bytes that the UTF-8 encoding of `c` takes.
pub open spec fn utf8_width(c: char) -> nat {
    if (c as u32) < 0x80 {
        1
    } else if (c as u32) < 0x800 {
        2
    } else if (c as u32) < 0x10000 {
        3
    } else {
        4
    }
}

/// Number of bytes that the UTF-8 encoding of `s` takes.
pub open spec fn utf8_len(s: Seq<char>) -> nat
    decreases s.len(),
{
    if s.len() == 0 {
        0
    } else {
        utf8_len(s.drop_last()) + utf8_width(s.last())
    }
}

/// `s` with the character at position `k` left out.
pub open spec fn remove_at(s: Seq<char>, k: int) -> Seq<char> {
    s.subrange(0, k) + s.subrange(k + 1, s.len() as int)
}

/// The abstract state of an editor: its text, and the number of characters
/// to the left of the cursor.
pub struct InputView {
    pub text: Seq<char>,
    pub cursor: nat,
}

/// One editing operation on an [`Input`].
pub enum EditOp {
    Insert(char),
    Delete,
    Left,
    Right,
}

impl InputView {
    /// The state after one operation, as the editor's methods perform it.
    pub open spec fn step(self, op: EditOp) -> InputView {
        match op {
            EditOp::Insert(c) => InputView {
                text: self.text.insert(self.cursor as int, c),
                cursor: self.cursor + 1,
            },
            EditOp::Delete => if self.cursor == 0 {
                self
            } else {
                InputView {
                    text: remove_at(self.text, self.cursor - 1),
                    cursor: (self.cursor - 1) as nat,
                }
            },
            EditOp::Left => InputView {
                text: self.text,
                cursor: if self.cursor == 0 {
                    0
                } else {
                    (self.cursor - 1) as nat
                },
            },
            EditOp::Right => InputView {
                text: self.text,
                cursor: if self.cursor >= self.text.len() {
                    self.cursor
                } else {
                    self.cursor + 1
                },
            },
        }
    }

    /// The state after the operations of `ops`, first to last.
    pub open spec fn run(self, ops: Seq<EditOp>) -> InputView
        decreases ops.len(),
    {
        if ops.len() == 0 {
            self
        } else {
            self.run(ops.drop_last()).step(ops.last())
        }
    }
}

/// Whatever operations are applied, starting from a valid state, the cursor
/// stays within `[0, character count]`.
pub proof fn lemma_cursor_stays_in_text(v: InputView, ops: Seq<EditOp>)
    requires
        v.cursor <= v.text.len(),
    ensures
        v.run(ops).cursor <= v.run(ops).text.len(),
    decreases ops.len(),
{
    if ops.len() > 0 {
        lemma_cursor_stays_in_text(v, ops.drop_last());
    }
}

/// An editable line of text with a cursor counted in characters, not bytes.
pub struct Input {
    buf: Vec<char>,
    character_index: usize,
}

/// Width in bytes of the UTF-8 encoding of `c`.
fn char_width(c: char) -> (r: usize)
    ensures
        r == utf8_width(c),
{
    let v = c as u32;
    if v < 0x80 {
        1
    } else if v < 0x800 {
        2
    } else if v < 0x10000 {
        3
    } else {
        4
    }
}

/// Relies on `FromIterator<char> for String`: the string holds the characters in order.
#[verifier::external_body]
fn string_of_chars(chars: &Vec<char>) -> (r: String)
    ensures
        r@ == chars@,
{
    chars.iter().collect()
}

impl View for Input {
    type V = InputView;

    closed spec fn view(&self) -> InputView {
        InputView { text: self.buf@, cursor: self.character_index as nat }
    }
}

impl Input {
    /// The cursor never stands past the end of the text.
    pub open spec fn wf(&self) -> bool {
        self@.cursor <= self@.text.len()
    }

    /// An empty editor with the cursor at the start.
    pub fn new() -> (r: Self)
        ensures
            r.wf(),
            r@.text == Seq::<char>::empty(),
            r@.cursor == 0,
    {
        Input { buf: Vec::new(), character_index: 0 }
    }

    /// The cursor position, in characters; also the caret's column offset.
    pub fn get_index(&self) -> (r: usize)
        ensures
            r == self@.cursor,
    {
        self.character_index
    }

    /// The text being edited.
    pub fn get_string(&self) -> (r: String)
        ensures
            r@ == self@.text,
    {
        string_of_chars(&self.buf)
    }

    /// Number of characters in the text.
    pub fn char_count(&self) -> (r: usize)
        ensures
            r == self@.text.len(),
    {
        self.buf.len()
    }

    /// `new_cursor_pos` limited to the range of valid cursor positions.
    pub fn clamp_cursor(&self, new_cursor_pos: usize) -> (r: usize)
        ensures
            self@.text.len() <= usize::MAX,
            r == if new_cursor_pos <= self@.text.len() {
                new_cursor_pos as nat
            } else {
                self@.text.len()
            },
    {
        if new_cursor_pos <= self.buf.len() {
            new_cursor_pos
        } else {
            self.buf.len()
        }
    }

    /// Moves the cursor one character left, staying at the start if already there.
    pub fn move_cursor_left(&mut self)
        requires
            old(self).wf(),
        ensures
            final(self).wf(),
            final(self)@.text == old(self)@.text,
            final(self)@ == old(self)@.step(EditOp::Left),
            final(self)@.cursor == if old(self)@.cursor == 0 {
                0
            } else {
                (old(self)@.cursor - 1) as nat
            },
    {
        let cursor_moved_left = self.character_index.saturating_sub(1);
        self.character_index = self.clamp_cursor(cursor_moved_left);
    }

    /// Moves the cursor one character right, staying at the end if already there.
    pub fn move_cursor_right(&mut self)
        requires
            old(self).wf(),
        ensures
            final(self).wf(),
            final(self)@.text == old(self)@.text,
            final(self)@ == old(self)@.step(EditOp::Right),
            final(self)@.cursor == if old(self)@.cursor == old(self)@.text.len() {
                old(self)@.cursor
            } else {
                old(self)@.cursor + 1
            },
    {
        let cursor_moved_right = self.character_index.saturating_add(1);
        self.character_index = self.clamp_cursor(cursor_moved_right);
    }

    /// Inserts `new_char` at the cursor and moves the cursor past it.
    pub fn enter_char(&mut self, new_char: char)
        requires
            old(self).wf(),
        ensures
            final(self).wf(),
            final(self)@.text == old(self)@.text.insert(old(self)@.cursor as int, new_char),
            final(self)@.cursor == old(self)@.cursor + 1,
            final(self)@ == old(self)@.step(EditOp::Insert(new_char)),
    {
        self.buf.insert(self.character_index, new_char);
        self.move_cursor_right();
    }

    /// Byte offset of the cursor in the UTF-8 encoding of the text.
    pub fn byte_index(&self) -> (r: usize)
        requires
            self.wf(),
            utf8_len(self@.text) <= usize::MAX,
        ensures
            r == utf8_len(self@.text.subrange(0, self@.cursor as int)),
    {
        let mut i: usize = 0;
        let mut total: usize = 0;
        while i < self.character_index
            invariant
                self.wf(),
                utf8_len(self@.text) <= usize::MAX,
                i <= self.character_index,
                total == utf8_len(self@.text.subrange(0, i as int)),
            decreases self.character_index - i,
        {
            proof {
                let s = self@.text;
                assert(s.subrange(0, i + 1).drop_last() =~= s.subrange(0, i as int));
                lemma_utf8_len_prefix_le(s, i + 1);
            }
            total = total + char_width(self.buf[i]);
            i = i + 1;
        }
        total
    }

    /// Removes the character just left of the cursor and moves the cursor
    /// onto its place; does nothing with the cursor at the start.
    pub fn delete_char(&mut self)
        requires
            old(self).wf(),
        ensures
            final(self).wf(),
            old(self)@.cursor == 0 ==> final(self)@ == old(self)@,
            old(self)@.cursor > 0 ==> final(self)@.text == remove_at(
                old(self)@.text,
                old(self)@.cursor - 1,
            ) && final(self)@.cursor == old(self)@.cursor - 1,
            final(self)@ == old(self)@.step(EditOp::Delete),
    {
        let is_not_cursor_leftmost = self.character_index != 0;
        if is_not_cursor_leftmost {
            let current_index = self.character_index;
            let from_left_to_current_index = current_index - 1;
            let mut rebuilt: Vec<char> = Vec::new();
            let mut i: usize = 0;
            while i < self.buf.len()
                invariant
                    0 < current_index <= self.buf.len(),
                    from_left_to_current_index == current_index - 1,
                    i <= self.buf.len(),
                    i <= from_left_to_current_index ==> rebuilt@ == self.buf@.subrange(0, i as int),
                    i > from_left_to_current_index ==> rebuilt@ == self.buf@.subrange(
                        0,
                        from_left_to_current_index as int,
                    ) + self.buf@.subrange(current_index as int, i as int),
                decreases self.buf.len() - i,
            {
                if i != from_left_to_current_index {
                    rebuilt.push(self.buf[i]);
                }
                i = i + 1;
                proof {
                    let s = self.buf@;
                    if i - 1 < from_left_to_current_index {
                        assert(rebuilt@ =~= s.subrange(0, i as int));
                    } else {
                        assert(rebuilt@ =~= s.subrange(0, from_left_to_current_index as int)
                            + s.subrange(current_index as int, i as int));
                    }
                }
            }
            self.buf = rebuilt;
            self.character_index = from_left_to_current_index;
        }
    }

    /// Empties the text and puts the cursor back at the start.
    pub fn reset_cursor(&mut self)
        ensures
            final(self).wf(),
            final(self)@.text == Seq::<char>::empty(),
            final(self)@.cursor == 0,
    {
        self.buf.clear();
        self.character_index = 0;
    }

    /// Hands out the text and leaves the editor empty, cursor at the start.
    pub fn take(&mut self) -> (r: String)
        ensures
            r@ == old(self)@.text,
            final(self).wf(),
            final(self)@.text == Seq::<char>::empty(),
            final(self)@.cursor == 0,
    {
        let r = self.get_string();
        self.reset_cursor();
        r
    }
}

/// The encoded length of a prefix is at most that of the whole text.
proof fn lemma_utf8_len_prefix_le(s: Seq<char>, k: int)
    requires
        0 <= k <= s.len(),
    ensures
        utf8_len(s.subrange(0, k)) <= utf8_len(s),
    decreases s.len(),
{
    if k < s.len() {
        assert(s.drop_last().subrange(0, k) =~= s.subrange(0, k));
        lemma_utf8_len_prefix_le(s.drop_last(), k);
    } else {
        assert(s.subrange(0, k) =~= s);
    }
}

} // verus!
