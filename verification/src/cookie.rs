//! The session token carried by a `Set-Cookie` header.

use crate::escape::push_char;
use vstd::prelude::*;

verus! {

/// The first position at or after `from` where `s` has a `;`, or the end of
/// `s` where there is none.
pub open spec fn segment_end(s: Seq<char>, from: int) -> int
    decreases s.len() - from,
{
    if from < 0 || from >= s.len() || s[from] == ';' {
        from
    } else {
        segment_end(s, from + 1)
    }
}

/// The part of `s` before its first `;`: all of `s` where it has none.
pub open spec fn first_segment(s: Seq<char>) -> Seq<char> {
    s.take(segment_end(s, 0))
}

/// `segment_end` stops at the first `;` and nowhere before it.
pub proof fn lemma_segment_end(s: Seq<char>, from: int)
    requires
        0 <= from <= s.len(),
    ensures
        from <= segment_end(s, from) <= s.len(),
        forall|j: int| from <= j < segment_end(s, from) ==> s[j] != ';',
        segment_end(s, from) < s.len() ==> s[segment_end(s, from)] == ';',
    decreases s.len() - from,
{
    if from < s.len() && s[from] != ';' {
        lemma_segment_end(s, from + 1);
    }
}

/// The first segment holds no `;`, and where it is shorter than the text a
/// `;` follows it.
pub proof fn lemma_first_segment(s: Seq<char>)
    ensures
        first_segment(s).len() <= s.len(),
        forall|j: int| 0 <= j < first_segment(s).len() ==> first_segment(s)[j] != ';',
        first_segment(s).len() < s.len() ==> s[first_segment(s).len() as int] == ';',
        first_segment(s).is_prefix_of(s),
{
    lemma_segment_end(s, 0);
}

/// Splits `text` at `;` and returns the first piece.
pub fn first_token(text: &str) -> (token: String)
    ensures
        token@ == first_segment(text@),
{
    let mut token = String::new();
    let mut open = true;
    for c in it: text.chars()
        invariant
            it.seq() == text@,
            open ==> token@ == text@.take(it.index() as int) && segment_end(text@, 0)
                == segment_end(text@, it.index() as int),
            !open ==> token@ == first_segment(text@),
    {
        if open {
            if c == ';' {
                open = false;
            } else {
                push_char(&mut token, c);
                assert(token@ == text@.take(it.index() + 1));
            }
        }
    }
    token
}

} // verus!
