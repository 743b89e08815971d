//! Stripping white space from both ends of a text.

use crate::boundary::{byte_length, lemma_chars_at_most_bytes};
use crate::std_text::white_space;
use vstd::prelude::*;
use vstd::string::StrSliceExecFns;

verus! {

/// `s` without its leading white space.
pub open spec fn skip_leading(s: Seq<char>) -> Seq<char>
    decreases s.len(),
{
    if s.len() > 0 && white_space(s[0]) {
        skip_leading(s.drop_first())
    } else {
        s
    }
}

/// `s` without its trailing white space.
pub open spec fn skip_trailing(s: Seq<char>) -> Seq<char>
    decreases s.len(),
{
    if s.len() > 0 && white_space(s.last()) {
        skip_trailing(s.drop_last())
    } else {
        s
    }
}

/// `s` without the white space at either end.
pub open spec fn trimmed(s: Seq<char>) -> Seq<char> {
    skip_trailing(skip_leading(s))
}

/// True if every character of `s` is white space.
pub open spec fn is_blank(s: Seq<char>) -> bool {
    forall|i: int| 0 <= i < s.len() ==> white_space(#[trigger] s[i])
}

/// If the first `n` characters are white space and the next one, if any,
/// is not, then skipping the leading white space drops exactly those `n`.
pub proof fn lemma_skip_leading(s: Seq<char>, n: int)
    requires
        0 <= n <= s.len(),
        forall|i: int| 0 <= i < n ==> white_space(#[trigger] s[i]),
        n < s.len() ==> !white_space(s[n]),
    ensures
        skip_leading(s) == s.subrange(n, s.len() as int),
    decreases n,
{
    if n > 0 {
        let rest = s.drop_first();
        assert(forall|i: int| 0 <= i < n - 1 ==> white_space(#[trigger] rest[i]));
        lemma_skip_leading(rest, n - 1);
    }
}

/// If the characters from `m` on are white space and the one before, if
/// any, is not, then skipping the trailing white space keeps exactly the
/// first `m`.
pub proof fn lemma_skip_trailing(s: Seq<char>, m: int)
    requires
        0 <= m <= s.len(),
        forall|i: int| m <= i < s.len() ==> white_space(#[trigger] s[i]),
        0 < m ==> !white_space(s[m - 1]),
    ensures
        skip_trailing(s) == s.subrange(0, m),
    decreases s.len() - m,
{
    if m < s.len() {
        lemma_skip_trailing(s.drop_last(), m);
    }
}

/// Trimming leaves nothing exactly when the text is blank.
pub proof fn lemma_trimmed_empty_iff_blank(s: Seq<char>)
    ensures
        trimmed(s).len() == 0 <==> is_blank(s),
    decreases s.len(),
{
    if s.len() > 0 && white_space(s[0]) {
        let rest = s.drop_first();
        lemma_trimmed_empty_iff_blank(rest);
        if is_blank(rest) {
            assert forall|i: int| 0 <= i < s.len() implies white_space(#[trigger] s[i]) by {
                if i > 0 {
                    assert(s[i] == rest[i - 1]);
                }
            }
        }
        if is_blank(s) {
            assert(forall|i: int| 0 <= i < rest.len() ==> white_space(#[trigger] rest[i]));
        }
    } else if s.len() > 0 {
        lemma_skip_trailing_keeps_first(s);
    }
}

/// Skipping trailing white space never removes a first character that is
/// not white space.
proof fn lemma_skip_trailing_keeps_first(s: Seq<char>)
    requires
        s.len() > 0,
        !white_space(s[0]),
    ensures
        skip_trailing(s).len() > 0,
    decreases s.len(),
{
    if white_space(s.last()) {
        lemma_skip_trailing_keeps_first(s.drop_last());
    }
}

/// The text without the white space at either end.
pub fn trim(s: &str) -> (r: &str)
    ensures
        r@ == trimmed(s@),
{
    let bound = byte_length(s);
    proof {
        lemma_chars_at_most_bytes(s@);
    }
    let mut start: usize = 0;
    let mut end: usize = 0;
    let mut i: usize = 0;
    for c in it: s.chars()
        invariant
            it.seq() == s@,
            i == it.index(),
            s@.len() <= bound,
            start <= end <= i,
            forall|k: int| 0 <= k < start ==> white_space(#[trigger] s@[k]),
            forall|k: int| end <= k < i ==> white_space(#[trigger] s@[k]),
            start < end ==> !white_space(s@[start as int]) && !white_space(s@[end - 1]),
            start == end ==> start == i,
    {
        if !c.is_whitespace() {
            if start == end {
                start = i;
            }
            end = i + 1;
        } else if start == end {
            start = i + 1;
            end = i + 1;
        }
        i = i + 1;
    }
    proof {
        let len = s@.len() as int;
        lemma_skip_leading(s@, start as int);
        let tail = s@.subrange(start as int, len);
        assert(forall|k: int| end - start <= k < tail.len() ==> white_space(#[trigger] tail[k]));
        lemma_skip_trailing(tail, end - start);
    }
    s.substring_char(start, end)
}

} // verus!
