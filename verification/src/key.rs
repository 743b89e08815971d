//! Key presses as the form sees them, and how an editing key changes a
//! text buffer.

use crate::text_input::{TextInput, TextView};
use vstd::prelude::*;
use vstd::utf8::{encode_utf8, is_char_boundary};

verus! {

/// A key press. `Other` stands for any key that the form has no use for.
#[derive(Clone, Copy, Debug, PartialEq, Eq, Structural)]
pub enum Key {
    Char(char),
    Backspace,
    Delete,
    Left,
    Right,
    Home,
    End,
    Up,
    Down,
    Tab,
    Enter,
    Esc,
    Other,
}

/// The character that asks for a new type or scope instead of being typed.
pub const ADD_KEY: char = '+';

impl Key {
    /// True for the keys that edit a text buffer or move its cursor.
    pub open spec fn is_edit(self) -> bool {
        match self {
            Key::Char(_) | Key::Backspace | Key::Delete | Key::Left | Key::Right | Key::Home
            | Key::End => true,
            _ => false,
        }
    }
}

/// The text `v` after the key: an editing key acts on it, any other key
/// leaves it as it is.
pub open spec fn edited(v: TextView, key: Key) -> TextView {
    match key {
        Key::Char(c) => v.insert(c),
        Key::Backspace => v.backspace(),
        Key::Delete => v.delete(),
        Key::Left => v.left(),
        Key::Right => v.right(),
        Key::Home => v.home(),
        Key::End => v.end(),
        _ => v,
    }
}

/// The text `v` after the keys, pressed one after the other.
pub open spec fn edited_by(v: TextView, keys: Seq<Key>) -> TextView
    decreases keys.len(),
{
    if keys.len() == 0 {
        v
    } else {
        edited(edited_by(v, keys.drop_last()), keys.last())
    }
}

/// Whatever text the editing starts from and whatever keys are pressed, in
/// whatever order, the cursor ends up on a character boundary of the text:
/// within it, and never inside the encoding of a character.
pub proof fn lemma_cursor_on_boundary_after(v: TextView, keys: Seq<Key>)
    ensures
        is_char_boundary(
            encode_utf8(edited_by(v, keys).text()),
            edited_by(v, keys).cursor() as int,
        ),
{
    edited_by(v, keys).lemma_cursor_on_boundary();
}

/// Applies the key to the buffer: typing, deleting and cursor movement.
/// Keys that do not edit leave the buffer untouched.
pub fn edit(input: &mut TextInput, key: Key)
    requires
        old(input).wf(),
    ensures
        final(input).wf(),
        final(input)@ == edited(old(input)@, key),
        !key.is_edit() ==> *final(input) == *old(input),
{
    match key {
        Key::Char(c) => input.insert_char(c),
        Key::Backspace => input.backspace(),
        Key::Delete => input.delete(),
        Key::Left => input.move_left(),
        Key::Right => input.move_right(),
        Key::Home => input.move_home(),
        Key::End => input.move_end(),
        _ => {},
    }
}

} // verus!
