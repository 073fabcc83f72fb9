//! The query under edit: a sequence of characters and a cursor that counts
//! characters, never bytes.
use vstd::prelude::*;

verus! {

/// What an [`InputBuffer`] stands for: the text and the number of characters
/// to the left of the cursor.
pub struct InputView {
    pub text: Seq<char>,
    pub cursor: nat,
}

/// One edit of the query.
pub enum Edit {
    /// Put a character at the cursor and step over it.
    Insert(char),
    /// Remove the character to the left of the cursor.
    Delete,
    /// Move the cursor one character to the left.
    Left,
    /// Move the cursor one character to the right.
    Right,
}

impl InputView {
    /// The cursor stands inside the text or at its end.
    pub open spec fn wf(self) -> bool {
        self.cursor <= self.text.len()
    }

    /// The buffer after `c` is typed at the cursor.
    pub open spec fn inserted(self, c: char) -> InputView {
        InputView { text: self.text.insert(self.cursor as int, c), cursor: self.cursor + 1 }
    }

    /// The buffer after a backspace: unchanged with the cursor at the start,
    /// else without the character before the cursor.
    pub open spec fn deleted(self) -> InputView {
        if self.cursor == 0 {
            self
        } else {
            InputView {
                text: self.text.remove(self.cursor - 1),
                cursor: (self.cursor - 1) as nat,
            }
        }
    }

    /// The buffer with the cursor one step to the left, if there is room.
    pub open spec fn moved_left(self) -> InputView {
        InputView { text: self.text, cursor: if self.cursor == 0 { 0 } else { (self.cursor - 1) as nat } }
    }

    /// The buffer with the cursor one step to the right, if there is room.
    pub open spec fn moved_right(self) -> InputView {
        InputView {
            text: self.text,
            cursor: if self.cursor < self.text.len() { self.cursor + 1 } else { self.cursor },
        }
    }

    /// The buffer after one edit.
    pub open spec fn apply(self, edit: Edit) -> InputView {
        match edit {
            Edit::Insert(c) => self.inserted(c),
            Edit::Delete => self.deleted(),
            Edit::Left => self.moved_left(),
            Edit::Right => self.moved_right(),
        }
    }

    /// The buffer after a run of edits, first to last.
    pub open spec fn apply_all(self, edits: Seq<Edit>) -> InputView
        decreases edits.len(),
    {
        if edits.len() == 0 {
            self
        } else {
            self.apply(edits[0]).apply_all(edits.subrange(1, edits.len() as int))
        }
    }

    /// The buffer after each character of `cs` is typed in turn.
    pub open spec fn typed(self, cs: Seq<char>) -> InputView
        decreases cs.len(),
    {
        if cs.len() == 0 {
            self
        } else {
            self.typed(cs.drop_last()).inserted(cs.last())
        }
    }

    /// The buffer after `n` backspaces.
    pub open spec fn erased(self, n: nat) -> InputView
        decreases n,
    {
        if n == 0 {
            self
        } else {
            self.deleted().erased((n - 1) as nat)
        }
    }
}

/// Every edit leaves the cursor inside the text or at its end.
pub proof fn lemma_edit_keeps_cursor_in_range(v: InputView, edit: Edit)
    requires
        v.wf(),
    ensures
        v.apply(edit).wf(),
{
}

/// After any run of insertions, deletions and moves the cursor is at least 0
/// and at most the number of characters in the text.
pub proof fn lemma_edits_keep_cursor_in_range(v: InputView, edits: Seq<Edit>)
    requires
        v.wf(),
    ensures
        v.apply_all(edits).wf(),
        0 <= v.apply_all(edits).cursor <= v.apply_all(edits).text.len(),
    decreases edits.len(),
{
    if edits.len() > 0 {
        lemma_edit_keeps_cursor_in_range(v, edits[0]);
        lemma_edits_keep_cursor_in_range(v.apply(edits[0]), edits.subrange(1, edits.len() as int));
    }
}

/// A backspace with the cursor at the start changes neither text nor cursor.
pub proof fn lemma_delete_at_start_is_noop(v: InputView)
    requires
        v.cursor == 0,
    ensures
        v.deleted() == v,
        v.apply(Edit::Delete) == v,
{
}

/// A backspace undoes the insertion before it.
pub proof fn lemma_delete_undoes_insert(v: InputView, c: char)
    requires
        v.wf(),
    ensures
        v.inserted(c).deleted() == v,
{
    assert(v.text.insert(v.cursor as int, c).remove(v.cursor as int) =~= v.text);
}

/// Typing leaves the cursor inside the text, behind what was typed.
pub proof fn lemma_typed_shape(v: InputView, cs: Seq<char>)
    requires
        v.wf(),
    ensures
        v.typed(cs).wf(),
        v.typed(cs).cursor == v.cursor + cs.len(),
        v.typed(cs).text == v.text.subrange(0, v.cursor as int) + cs + v.text.subrange(
            v.cursor as int,
            v.text.len() as int,
        ),
    decreases cs.len(),
{
    if cs.len() == 0 {
        assert(v.text =~= v.text.subrange(0, v.cursor as int) + cs + v.text.subrange(
            v.cursor as int,
            v.text.len() as int,
        ));
    } else {
        lemma_typed_shape(v, cs.drop_last());
        let before = v.typed(cs.drop_last());
        assert(before.inserted(cs.last()).text =~= v.text.subrange(0, v.cursor as int) + cs
            + v.text.subrange(v.cursor as int, v.text.len() as int));
    }
}

/// Typing any characters and then pressing backspace once for each of them
/// gives back the text and the cursor that were there before.
pub proof fn lemma_type_then_erase_roundtrip(v: InputView, cs: Seq<char>)
    requires
        v.wf(),
    ensures
        v.typed(cs).erased(cs.len()) == v,
    decreases cs.len(),
{
    if cs.len() > 0 {
        let before = v.typed(cs.drop_last());
        lemma_typed_shape(v, cs.drop_last());
        lemma_delete_undoes_insert(before, cs.last());
        lemma_type_then_erase_roundtrip(v, cs.drop_last());
        assert(v.typed(cs).erased(cs.len()) == v.typed(cs).deleted().erased(
            (cs.len() - 1) as nat,
        ));
    }
}

/// The query text with its cursor.
pub struct InputBuffer {
    chars: Vec<char>,
    cursor: usize,
}

impl View for InputBuffer {
    type V = InputView;

    closed spec fn view(&self) -> InputView {
        InputView { text: self.chars@, cursor: self.cursor as nat }
    }
}

impl InputBuffer {
    /// The cursor stands inside the text or at its end.
    pub open spec fn wf(&self) -> bool {
        self@.wf()
    }

    /// An empty query with the cursor at its start.
    pub fn new() -> (buf: InputBuffer)
        ensures
            buf@.text == Seq::<char>::empty(),
            buf@.cursor == 0,
            buf.wf(),
    {
        InputBuffer { chars: Vec::new(), cursor: 0 }
    }

    /// The number of characters in the query.
    pub fn len(&self) -> (n: usize)
        ensures
            n == self@.text.len(),
    {
        self.chars.len()
    }

    /// Whether the query holds no character.
    pub fn is_empty(&self) -> (b: bool)
        ensures
            b == (self@.text.len() == 0),
    {
        self.chars.len() == 0
    }

    /// The number of characters to the left of the cursor.
    pub fn cursor(&self) -> (n: usize)
        ensures
            n == self@.cursor,
    {
        self.cursor
    }

    /// The characters of the query, in order.
    pub fn chars(&self) -> (cs: &Vec<char>)
        ensures
            cs@ == self@.text,
    {
        &self.chars
    }

    /// The query as a string.
    pub fn text(&self) -> (s: String)
        ensures
            s@ == self@.text,
    {
        collect_chars(&self.chars)
    }

    /// The nearest cursor position to `new_cursor_pos` that the text admits.
    pub fn clamp_cursor(&self, new_cursor_pos: usize) -> (pos: usize)
        ensures
            pos <= self@.text.len(),
            new_cursor_pos <= self@.text.len() ==> pos == new_cursor_pos,
            new_cursor_pos > self@.text.len() ==> pos == self@.text.len(),
    {
        let count: usize = self.chars.len();
        if new_cursor_pos > count {
            count
        } else {
            new_cursor_pos
        }
    }

    /// Moves the cursor one character to the left; at the start it stays.
    pub fn move_cursor_left(&mut self)
        requires
            old(self).wf(),
        ensures
            final(self)@ == old(self)@.moved_left(),
            final(self).wf(),
    {
        let cursor_moved_left: usize = if self.cursor == 0 { 0 } else { self.cursor - 1 };
        self.cursor = self.clamp_cursor(cursor_moved_left);
    }

    /// Moves the cursor one character to the right; at the end it stays.
    pub fn move_cursor_right(&mut self)
        requires
            old(self).wf(),
        ensures
            final(self)@ == old(self)@.moved_right(),
            final(self).wf(),
    {
        let cursor_moved_right: usize = if self.cursor == usize::MAX {
            usize::MAX
        } else {
            self.cursor + 1
        };
        assert(self.chars@.len() == self.chars.len());
        self.cursor = self.clamp_cursor(cursor_moved_right);
    }

    /// Types `new_char` at the cursor, which then stands behind it.
    pub fn enter_char(&mut self, new_char: char)
        requires
            old(self).wf(),
        ensures
            final(self)@ == old(self)@.inserted(new_char),
            final(self).wf(),
    {
        self.chars.insert(self.cursor, new_char);
        self.move_cursor_right();
    }

    /// Removes the character to the left of the cursor and steps back over
    /// its place. With the cursor at the start nothing changes.
    pub fn delete_char(&mut self)
        requires
            old(self).wf(),
        ensures
            final(self)@ == old(self)@.deleted(),
            old(self)@.cursor == 0 ==> final(self)@ == old(self)@,
            final(self).wf(),
    {
        let is_not_cursor_leftmost: bool = self.cursor != 0;
        if is_not_cursor_leftmost {
            let before: usize = self.cursor - 1;
            let _removed: char = self.chars.remove(before);
            self.cursor = before;
        }
    }
}

/// Calls `String::from_iter` on the characters of a vector. The contract is
/// taken on trust from it: the string holds exactly those characters, in
/// order.
#[verifier::external_body]
pub(crate) fn collect_chars(chars: &Vec<char>) -> (s: String)
    ensures
        s@ == chars@,
{
    String::from_iter(chars.iter())
}

} // verus!
