//! Contracts for the few operations of `String` and `char` that the text
//! buffer relies on and that `vstd` leaves unspecified.
//!
//! Nothing here is proved: each contract restates the standard library's
//! documentation over the UTF-8 encoding of the string's characters.

use vstd::prelude::*;
use vstd::utf8::*;

verus! {

/// `char::len_utf8`: the number of bytes that the character takes when
/// encoded as UTF-8.
pub assume_specification[ char::len_utf8 ](c: char) -> (n: usize)
    ensures
        n == encode_scalar(c as u32).len(),
;

/// `String::insert`: splices the encoding of `ch` into the string at byte
/// position `idx`. The standard library panics unless `idx` lies on a
/// character boundary within the string, which the precondition rules out.
/// The grown string is again a `String`, so its byte length fits a `usize`.
/// Failure to allocate is not modelled.
pub assume_specification[ String::insert ](s: &mut String, idx: usize, ch: char)
    requires
        is_char_boundary(encode_utf8(old(s)@), idx as int),
    ensures
        encode_utf8(final(s)@) == encode_utf8(old(s)@).subrange(0, idx as int) + encode_scalar(
            ch as u32,
        ) + encode_utf8(old(s)@).subrange(idx as int, encode_utf8(old(s)@).len() as int),
        encode_utf8(final(s)@).len() <= usize::MAX,
;

/// `String::drain` over `from..to`, with the drained characters dropped at
/// once: the bytes in the range leave the string and the rest closes up.
/// The standard library panics unless both ends lie on character
/// boundaries and `from <= to`, which the precondition rules out.
#[verifier::external_body]
pub(crate) fn remove_range(s: &mut String, from: usize, to: usize)
    requires
        from <= to,
        is_char_boundary(encode_utf8(old(s)@), from as int),
        is_char_boundary(encode_utf8(old(s)@), to as int),
    ensures
        encode_utf8(final(s)@) == encode_utf8(old(s)@).subrange(0, from as int) + encode_utf8(
            old(s)@,
        ).subrange(to as int, encode_utf8(old(s)@).len() as int),
{
    s.drain(from..to);
}

/// Whether a character counts as white space. This is the answer of
/// `char::is_whitespace`, which goes by Unicode's `White_Space`; the set of
/// such characters is not spelled out here.
pub uninterp spec fn white_space(c: char) -> bool;

/// `char::is_whitespace`: the answer depends on the character alone.
pub assume_specification[ char::is_whitespace ](c: char) -> (b: bool)
    ensures
        b == white_space(c),
;

} // verus!
