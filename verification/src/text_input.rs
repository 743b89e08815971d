//! An editable line of UTF-8 text with an insertion cursor.
//!
//! The buffer stores a `String` and the cursor as a byte offset into it.
//! Its abstract value is simpler: the characters before the cursor and the
//! characters after it. Every operation is specified on that pair, and the
//! buffer's invariant says that the byte offset always falls between two
//! characters.

use crate::boundary::{
    byte_len, byte_length, char_width, lemma_char_span, lemma_encode_concat,
    lemma_encode_injective, lemma_encode_push, lemma_join, lemma_split,
};
use crate::std_text::remove_range;
use vstd::prelude::*;
use vstd::utf8::*;

verus! {

/// What a text buffer stands for: the characters on either side of the
/// cursor.
pub struct TextView {
    pub before: Seq<char>,
    pub after: Seq<char>,
}

impl TextView {
    /// The whole text.
    pub open spec fn text(self) -> Seq<char> {
        self.before + self.after
    }

    /// The cursor as a byte offset into the encoded text.
    pub open spec fn cursor(self) -> nat {
        byte_len(self.before)
    }

    /// The empty text.
    pub open spec fn empty() -> TextView {
        TextView { before: Seq::empty(), after: Seq::empty() }
    }

    /// The given text with the cursor behind its last character.
    pub open spec fn at_end(s: Seq<char>) -> TextView {
        TextView { before: s, after: Seq::empty() }
    }

    /// `c` is put in front of the cursor.
    pub open spec fn insert(self, c: char) -> TextView {
        TextView { before: self.before.push(c), after: self.after }
    }

    /// The character in front of the cursor is removed, if there is one.
    pub open spec fn backspace(self) -> TextView {
        if self.before.len() == 0 {
            self
        } else {
            TextView { before: self.before.drop_last(), after: self.after }
        }
    }

    /// The character behind the cursor is removed, if there is one.
    pub open spec fn delete(self) -> TextView {
        if self.after.len() == 0 {
            self
        } else {
            TextView { before: self.before, after: self.after.drop_first() }
        }
    }

    /// The cursor steps over the character in front of it, if there is one.
    pub open spec fn left(self) -> TextView {
        if self.before.len() == 0 {
            self
        } else {
            TextView {
                before: self.before.drop_last(),
                after: seq![self.before.last()] + self.after,
            }
        }
    }

    /// The cursor steps over the character behind it, if there is one.
    pub open spec fn right(self) -> TextView {
        if self.after.len() == 0 {
            self
        } else {
            TextView { before: self.before.push(self.after[0]), after: self.after.drop_first() }
        }
    }

    /// The cursor goes in front of the first character.
    pub open spec fn home(self) -> TextView {
        TextView { before: Seq::empty(), after: self.before + self.after }
    }

    /// The cursor goes behind the last character.
    pub open spec fn end(self) -> TextView {
        TextView { before: self.before + self.after, after: Seq::empty() }
    }

    /// Wherever the cursor stands, its byte offset is a character boundary
    /// of the encoded text: it lies within the text and never inside the
    /// encoding of a character.
    pub proof fn lemma_cursor_on_boundary(self)
        ensures
            is_char_boundary(encode_utf8(self.text()), self.cursor() as int),
            self.cursor() <= byte_len(self.text()),
    {
        lemma_join(self.before, self.after);
        lemma_encode_concat(self.before, self.after);
    }

    /// The cursor is at offset zero exactly when nothing is in front of
    /// it, and at the length of the text exactly when nothing is behind
    /// it.
    pub proof fn lemma_cursor_at_ends(self)
        ensures
            self.cursor() == 0 <==> self.before.len() == 0,
            self.cursor() == byte_len(self.text()) <==> self.after.len() == 0,
    {
        lemma_encode_concat(self.before, self.after);
    }

    /// Typing a character and taking it back with backspace restores the
    /// text and the cursor, whatever the character.
    pub proof fn lemma_insert_then_backspace(self, c: char)
        ensures
            self.insert(c).backspace() == self,
            self.insert(c).backspace().text() == self.text(),
            self.insert(c).backspace().cursor() == self.cursor(),
    {
        assert(self.before.push(c).drop_last() =~= self.before);
    }

    /// With the cursor at offset zero, stepping left changes nothing; with
    /// the cursor at the end of the text, stepping right changes nothing.
    pub proof fn lemma_steps_stop_at_ends(self)
        ensures
            self.cursor() == 0 ==> self.left() == self,
            self.cursor() == byte_len(self.text()) ==> self.right() == self,
    {
        self.lemma_cursor_at_ends();
    }

    /// Stepping left and back right, or right and back left, returns to
    /// where the cursor was, unless the first step had nowhere to go.
    pub proof fn lemma_steps_undo_each_other(self)
        ensures
            self.before.len() > 0 ==> self.left().right() == self,
            self.after.len() > 0 ==> self.right().left() == self,
    {
        if self.before.len() > 0 {
            let stepped = self.left();
            assert(stepped.before.push(stepped.after[0]) =~= self.before);
            assert(stepped.after.drop_first() =~= self.after);
        }
        if self.after.len() > 0 {
            let stepped = self.right();
            assert(stepped.before.drop_last() =~= self.before);
            assert(seq![stepped.before.last()] + stepped.after =~= self.after);
        }
    }
}

/// A line of text and a cursor, stored as a `String` and a byte offset.
#[derive(Clone, Debug)]
pub struct TextInput {
    value: String,
    cursor: usize,
}

impl View for TextInput {
    type V = TextView;

    /// The characters that the bytes before the cursor decode to, and those
    /// that the bytes after it decode to.
    open spec fn view(&self) -> TextView {
        let bytes = encode_utf8(self.text());
        TextView {
            before: decode_utf8(bytes.subrange(0, self.offset() as int)),
            after: decode_utf8(bytes.subrange(self.offset() as int, bytes.len() as int)),
        }
    }
}

impl TextInput {
    /// The characters of the stored string.
    pub closed spec fn text(&self) -> Seq<char> {
        self.value@
    }

    /// The stored cursor, a byte offset.
    pub closed spec fn offset(&self) -> nat {
        self.cursor as nat
    }

    /// The invariant of the buffer: the cursor is a character boundary of
    /// the encoded text, so it lies within the text and never inside the
    /// encoding of a character.
    pub open spec fn wf(&self) -> bool {
        is_char_boundary(encode_utf8(self.text()), self.offset() as int)
    }

    /// In a well-formed buffer the stored string and offset are those of
    /// the abstract value: the text is the two parts joined, and the
    /// cursor is the encoded length of the first part.
    pub proof fn lemma_view(&self)
        requires
            self.wf(),
        ensures
            self.text() == self@.text(),
            self.offset() == self@.cursor(),
            self.offset() <= byte_len(self.text()),
            self.offset() == 0 <==> self@.before.len() == 0,
            self.offset() == byte_len(self.text()) <==> self@.after.len() == 0,
    {
        lemma_split(self.text(), self.offset() as int);
    }

    /// A buffer whose string is `a` followed by `b`, and whose offset is the
    /// encoded length of `a`, is well formed and stands for the pair
    /// `(a, b)`.
    pub proof fn lemma_view_from_parts(&self, a: Seq<char>, b: Seq<char>)
        requires
            self.text() == a + b,
            self.offset() == byte_len(a),
        ensures
            self.wf(),
            self@ == (TextView { before: a, after: b }),
    {
        lemma_join(a, b);
        encode_utf8_decode_utf8(a);
        encode_utf8_decode_utf8(b);
    }

    /// If typing `c` into `start` gives `typed`, and backspace on `typed`
    /// gives `undone`, then `undone` has the string and the cursor of
    /// `start`.
    pub proof fn lemma_insert_then_backspace(
        start: TextInput,
        typed: TextInput,
        undone: TextInput,
        c: char,
    )
        requires
            start.wf(),
            typed.wf(),
            undone.wf(),
            typed@ == start@.insert(c),
            undone@ == typed@.backspace(),
        ensures
            undone.text() == start.text(),
            undone.offset() == start.offset(),
    {
        start@.lemma_insert_then_backspace(c);
        start.lemma_view();
        undone.lemma_view();
    }

    /// An empty buffer.
    pub fn new() -> (t: TextInput)
        ensures
            t.wf(),
            t@ == TextView::empty(),
    {
        TextInput { value: String::new(), cursor: 0 }
    }

    /// A buffer holding `s`, with the cursor behind the last character.
    pub fn from(s: String) -> (t: TextInput)
        ensures
            t.wf(),
            t@ == TextView::at_end(s@),
    {
        let t = TextInput { cursor: byte_length(s.as_str()), value: s };
        proof {
            t.lemma_view_from_parts(s@, Seq::empty());
        }
        t
    }

    /// Checks the invariant at run time: true if the cursor lies on a
    /// character boundary of the text.
    pub fn is_valid(&self) -> (ok: bool)
        ensures
            ok == self.wf(),
    {
        self.value.as_str().is_char_boundary(self.cursor)
    }

    /// The text as a string slice.
    pub fn value(&self) -> (s: &str)
        ensures
            s@ == self.text(),
            self.wf() ==> s@ == self@.text(),
    {
        proof {
            if self.wf() {
                self.lemma_view();
            }
        }
        self.value.as_str()
    }

    /// The cursor as a byte offset into the text.
    pub fn cursor(&self) -> (n: usize)
        ensures
            n == self.offset(),
            self.wf() ==> n == self@.cursor(),
    {
        proof {
            if self.wf() {
                self.lemma_view();
            }
        }
        self.cursor
    }

    /// Inserts `c` at the cursor and moves the cursor behind it.
    pub fn insert_char(&mut self, c: char)
        requires
            old(self).wf(),
        ensures
            final(self).wf(),
            final(self)@ == old(self)@.insert(c),
    {
        let ghost a = self@.before;
        let ghost b = self@.after;
        proof {
            lemma_split(self.text(), self.offset() as int);
        }
        let width = c.len_utf8();
        self.value.insert(self.cursor, c);
        proof {
            lemma_encode_push(a, c);
            lemma_encode_concat(a.push(c), b);
            lemma_encode_injective(self.value@, a.push(c) + b);
        }
        self.cursor = self.cursor + width;
        proof {
            self.lemma_view_from_parts(a.push(c), b);
        }
    }

    /// Removes the character in front of the cursor and moves the cursor to
    /// where that character began. Does nothing at the start of the text.
    pub fn backspace(&mut self)
        requires
            old(self).wf(),
        ensures
            final(self).wf(),
            final(self)@ == old(self)@.backspace(),
    {
        if self.cursor == 0 {
            return ;
        }
        let ghost a = self@.before.drop_last();
        let ghost b = self@.after;
        let idx = self.boundary_before();
        proof {
            self.lemma_char_before();
        }
        remove_range(&mut self.value, idx, self.cursor);
        proof {
            lemma_encode_concat(a, b);
            lemma_encode_injective(self.value@, a + b);
        }
        self.cursor = idx;
        proof {
            self.lemma_view_from_parts(a, b);
        }
    }

    /// Removes the character behind the cursor; the cursor stays. Does
    /// nothing at the end of the text.
    pub fn delete(&mut self)
        requires
            old(self).wf(),
        ensures
            final(self).wf(),
            final(self)@ == old(self)@.delete(),
    {
        if self.cursor >= byte_length(self.value.as_str()) {
            proof {
                self.lemma_view();
            }
            return ;
        }
        let ghost a = self@.before;
        let ghost b = self@.after.drop_first();
        let next = self.boundary_after();
        proof {
            self.lemma_char_after();
        }
        remove_range(&mut self.value, self.cursor, next);
        proof {
            lemma_encode_concat(a, b);
            lemma_encode_injective(self.value@, a + b);
            self.lemma_view_from_parts(a, b);
        }
    }

    /// Moves the cursor to the start of the character in front of it. Does
    /// nothing at the start of the text, and never changes the text.
    pub fn move_left(&mut self)
        requires
            old(self).wf(),
        ensures
            final(self).wf(),
            final(self)@ == old(self)@.left(),
            final(self).text() == old(self).text(),
            old(self).offset() == 0 ==> *final(self) == *old(self),
    {
        if self.cursor == 0 {
            return ;
        }
        let ghost a = self@.before;
        let ghost b = self@.after;
        let idx = self.boundary_before();
        proof {
            self.lemma_char_before();
        }
        self.cursor = idx;
        proof {
            self.lemma_view_from_parts(a.drop_last(), seq![a.last()] + b);
        }
    }

    /// Moves the cursor behind the character that follows it. Does nothing
    /// at the end of the text, and never changes the text.
    pub fn move_right(&mut self)
        requires
            old(self).wf(),
        ensures
            final(self).wf(),
            final(self)@ == old(self)@.right(),
            final(self).text() == old(self).text(),
            old(self).offset() == byte_len(old(self).text()) ==> *final(self) == *old(self),
    {
        if self.cursor >= byte_length(self.value.as_str()) {
            proof {
                self.lemma_view();
            }
            return ;
        }
        let ghost a = self@.before;
        let ghost b = self@.after;
        let next = self.boundary_after();
        proof {
            self.lemma_char_after();
        }
        self.cursor = next;
        proof {
            self.lemma_view_from_parts(a.push(b[0]), b.drop_first());
        }
    }

    /// Moves the cursor in front of the first character.
    pub fn move_home(&mut self)
        requires
            old(self).wf(),
        ensures
            final(self).wf(),
            final(self)@ == old(self)@.home(),
            final(self).text() == old(self).text(),
    {
        proof {
            self.lemma_view();
        }
        self.cursor = 0;
        proof {
            self.lemma_view_from_parts(Seq::empty(), self.text());
        }
    }

    /// Moves the cursor behind the last character.
    pub fn move_end(&mut self)
        requires
            old(self).wf(),
        ensures
            final(self).wf(),
            final(self)@ == old(self)@.end(),
            final(self).text() == old(self).text(),
    {
        proof {
            self.lemma_view();
        }
        self.cursor = byte_length(self.value.as_str());
        proof {
            self.lemma_view_from_parts(self.text(), Seq::empty());
        }
    }

    /// With the cursor behind a character, that character's encoding
    /// spans the bytes from a boundary up to the cursor, with no boundary
    /// in between; and the text is what precedes the character, the
    /// character, and what follows the cursor.
    proof fn lemma_char_before(&self)
        requires
            self.wf(),
            self.offset() > 0,
        ensures
            self@.before.len() > 0,
            self.text() == self@.before.drop_last() + seq![self@.before.last()] + self@.after,
            self.text() == self@.before.drop_last() + (seq![self@.before.last()] + self@.after),
            byte_len(self@.before.drop_last()) + char_width(self@.before.last()) == self.offset(),
            is_char_boundary(
                encode_utf8(self.text()),
                byte_len(self@.before.drop_last()) as int,
            ),
            forall|i: int|
                byte_len(self@.before.drop_last()) < i < self.offset() ==> !#[trigger] is_char_boundary(
                    encode_utf8(self.text()),
                    i,
                ),
            encode_utf8(self.text()).subrange(0, byte_len(self@.before.drop_last()) as int)
                == encode_utf8(self@.before.drop_last()),
            encode_utf8(self.text()).subrange(
                self.offset() as int,
                byte_len(self.text()) as int,
            ) == encode_utf8(self@.after),
    {
        let a = self@.before;
        let b = self@.after;
        lemma_split(self.text(), self.offset() as int);
        assert(a =~= a.drop_last().push(a.last()));
        lemma_encode_push(a.drop_last(), a.last());
        lemma_char_span(a.drop_last(), a.last(), b);
        assert(a + b =~= a.drop_last() + seq![a.last()] + b);
    }

    /// With the cursor in front of a character, that character's encoding
    /// spans the bytes from the cursor up to a boundary, with no boundary
    /// in between; and the text is what precedes the cursor, the
    /// character, and what follows it.
    proof fn lemma_char_after(&self)
        requires
            self.wf(),
            self.offset() < byte_len(self.text()),
        ensures
            self@.after.len() > 0,
            self.text() == self@.before + seq![self@.after[0]] + self@.after.drop_first(),
            self.text() == self@.before.push(self@.after[0]) + self@.after.drop_first(),
            self.offset() + char_width(self@.after[0]) == byte_len(
                self@.before.push(self@.after[0]),
            ),
            self.offset() + char_width(self@.after[0]) <= byte_len(self.text()),
            is_char_boundary(
                encode_utf8(self.text()),
                (self.offset() + char_width(self@.after[0])) as int,
            ),
            forall|i: int|
                self.offset() < i < self.offset() + char_width(self@.after[0])
                    ==> !#[trigger] is_char_boundary(encode_utf8(self.text()), i),
            encode_utf8(self.text()).subrange(0, self.offset() as int) == encode_utf8(
                self@.before,
            ),
            encode_utf8(self.text()).subrange(
                (self.offset() + char_width(self@.after[0])) as int,
                byte_len(self.text()) as int,
            ) == encode_utf8(self@.after.drop_first()),
    {
        let a = self@.before;
        let b = self@.after;
        self.lemma_view();
        lemma_encode_push(a, b[0]);
        lemma_char_span(a, b[0], b.drop_first());
        lemma_join(a.push(b[0]), b.drop_first());
    }

    /// The nearest character boundary below the cursor: where the character
    /// in front of the cursor begins.
    fn boundary_before(&self) -> (idx: usize)
        requires
            self.wf(),
            self.offset() > 0,
        ensures
            self@.before.len() > 0,
            idx == byte_len(self@.before.drop_last()),
    {
        let ghost low = byte_len(self@.before.drop_last());
        proof {
            self.lemma_char_before();
        }
        let mut idx: usize = self.cursor - 1;
        while !self.value.as_str().is_char_boundary(idx)
            invariant
                low <= idx < self.cursor,
                is_char_boundary(encode_utf8(self.value@), low as int),
            decreases idx,
        {
            idx = idx - 1;
        }
        idx
    }

    /// The nearest character boundary above the cursor: where the character
    /// behind the cursor ends.
    fn boundary_after(&self) -> (idx: usize)
        requires
            self.wf(),
            self.offset() < byte_len(self.text()),
        ensures
            self@.after.len() > 0,
            idx == self.offset() + char_width(self@.after[0]),
    {
        let ghost high = self.offset() + char_width(self@.after[0]);
        proof {
            self.lemma_char_after();
        }
        let len = byte_length(self.value.as_str());
        let mut idx: usize = self.cursor + 1;
        while !self.value.as_str().is_char_boundary(idx)
            invariant
                self.cursor < idx <= high <= len,
                is_char_boundary(encode_utf8(self.value@), high as int),
            decreases high - idx,
        {
            idx = idx + 1;
        }
        idx
    }
}

impl Default for TextInput {
    /// The empty buffer.
    fn default() -> (t: TextInput)
        ensures
            t.wf(),
            t@ == TextView::empty(),
    {
        TextInput::new()
    }
}

} // verus!
