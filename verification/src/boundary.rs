//! Facts about the UTF-8 encoding of character sequences and about the
//! byte offsets that fall between two encoded characters.
//!
//! A text with a cursor is a sequence of characters cut in two. These
//! lemmas connect that picture with the byte offset that the cursor is
//! stored as.

use vstd::prelude::*;
use vstd::utf8::*;

verus! {

/// The number of bytes that the character takes in UTF-8.
pub open spec fn char_width(c: char) -> nat {
    encode_scalar(c as u32).len()
}

/// The number of bytes that the characters take in UTF-8.
pub open spec fn byte_len(s: Seq<char>) -> nat {
    encode_utf8(s).len()
}

/// The length of the string in bytes.
pub fn byte_length(s: &str) -> (n: usize)
    ensures
        n == byte_len(s@),
{
    s.as_bytes().len()
}

/// Encoding distributes over concatenation.
pub proof fn lemma_encode_concat(a: Seq<char>, b: Seq<char>)
    ensures
        encode_utf8(a + b) == encode_utf8(a) + encode_utf8(b),
        byte_len(a + b) == byte_len(a) + byte_len(b),
    decreases a.len(),
{
    if a.len() > 0 {
        assert((a + b).drop_first() =~= a.drop_first() + b);
        lemma_encode_concat(a.drop_first(), b);
    }
}

/// Appending a character appends its encoding.
pub proof fn lemma_encode_push(a: Seq<char>, c: char)
    ensures
        encode_utf8(a.push(c)) == encode_utf8(a) + encode_scalar(c as u32),
        byte_len(a.push(c)) == byte_len(a) + char_width(c),
{
    reveal_with_fuel(encode_utf8, 2);
    lemma_encode_concat(a, seq![c]);
    assert(a.push(c) =~= a + seq![c]);
}

/// A text has at most as many characters as bytes.
pub proof fn lemma_chars_at_most_bytes(s: Seq<char>)
    ensures
        s.len() <= byte_len(s),
    decreases s.len(),
{
    if s.len() > 0 {
        lemma_chars_at_most_bytes(s.drop_first());
    }
}

/// Two sequences with the same encoding are the same sequence.
pub proof fn lemma_encode_injective(a: Seq<char>, b: Seq<char>)
    requires
        encode_utf8(a) == encode_utf8(b),
    ensures
        a == b,
{
    encode_utf8_decode_utf8(a);
    encode_utf8_decode_utf8(b);
}

/// Where two character sequences are joined, their encodings are joined,
/// and the joint is a character boundary.
pub proof fn lemma_join(a: Seq<char>, b: Seq<char>)
    ensures
        is_char_boundary(encode_utf8(a + b), byte_len(a) as int),
        encode_utf8(a + b).subrange(0, byte_len(a) as int) == encode_utf8(a),
        encode_utf8(a + b).subrange(byte_len(a) as int, byte_len(a + b) as int) == encode_utf8(b),
    decreases a.len(),
{
    encode_utf8_valid_utf8(a + b);
    if a.len() > 0 {
        let rest = a.drop_first();
        assert((a + b).drop_first() =~= rest + b);
        lemma_join(rest, b);
        encode_utf8_first_scalar(a + b);
        assert(pop_first_scalar(encode_utf8(a + b)) =~= encode_utf8(rest + b));
    }
}

/// A character boundary cuts the characters in two: the bytes before it
/// and the bytes after it each decode to a part, the parts make up the
/// whole, and each part encodes to its bytes.
pub proof fn lemma_split(s: Seq<char>, i: int)
    requires
        is_char_boundary(encode_utf8(s), i),
    ensures
        0 <= i <= byte_len(s),
        s == decode_utf8(encode_utf8(s).subrange(0, i)) + decode_utf8(
            encode_utf8(s).subrange(i, byte_len(s) as int),
        ),
        encode_utf8(decode_utf8(encode_utf8(s).subrange(0, i))) == encode_utf8(s).subrange(0, i),
        encode_utf8(decode_utf8(encode_utf8(s).subrange(i, byte_len(s) as int))) == encode_utf8(
            s,
        ).subrange(i, byte_len(s) as int),
        byte_len(decode_utf8(encode_utf8(s).subrange(0, i))) == i,
{
    let bytes = encode_utf8(s);
    encode_utf8_valid_utf8(s);
    valid_utf8_split(bytes, i);
    decode_utf8_split(bytes, i);
    encode_utf8_decode_utf8(s);
    decode_utf8_encode_utf8(bytes.subrange(0, i));
    decode_utf8_encode_utf8(bytes.subrange(i, bytes.len() as int));
}

/// Both ends of the encoding of a character are character boundaries, and
/// no boundary falls strictly between them.
pub proof fn lemma_char_span(a: Seq<char>, c: char, b: Seq<char>)
    ensures
        is_char_boundary(encode_utf8(a + seq![c] + b), byte_len(a) as int),
        is_char_boundary(
            encode_utf8(a + seq![c] + b),
            (byte_len(a) + char_width(c)) as int,
        ),
        byte_len(a) + char_width(c) <= byte_len(a + seq![c] + b),
        forall|i: int|
            byte_len(a) < i < byte_len(a) + char_width(c) ==> !#[trigger] is_char_boundary(
                encode_utf8(a + seq![c] + b),
                i,
            ),
{
    let tail = seq![c] + b;
    let whole = encode_utf8(a + seq![c] + b);
    assert(a + seq![c] + b =~= a + tail);
    assert(a + seq![c] + b =~= a.push(c) + b);
    lemma_join(a, tail);
    lemma_join(a.push(c), b);
    lemma_encode_push(a, c);
    encode_utf8_valid_utf8(a + seq![c] + b);
    encode_utf8_first_scalar(tail);
    assert forall|i: int| byte_len(a) < i < byte_len(a) + char_width(c) implies !is_char_boundary(
        whole,
        i,
    ) by {
        is_char_boundary_iff_not_is_continuation_byte(whole, i);
    }
}

} // verus!
