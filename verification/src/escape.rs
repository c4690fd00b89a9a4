//! Escaping of text for use as XML element content or attribute value.

use vstd::prelude::*;

verus! {

/// What one character becomes inside XML text: the five markup characters
/// turn into their named entities, every other character stays as it is.
pub open spec fn escape_char(c: char) -> Seq<char> {
    if c == '<' {
        seq!['&', 'l', 't', ';']
    } else if c == '>' {
        seq!['&', 'g', 't', ';']
    } else if c == '"' {
        seq!['&', 'q', 'u', 'o', 't', ';']
    } else if c == '\'' {
        seq!['&', 'a', 'p', 'o', 's', ';']
    } else if c == '&' {
        seq!['&', 'a', 'm', 'p', ';']
    } else {
        seq![c]
    }
}

/// The escaped form of a text: the escaped forms of its characters, in order.
pub open spec fn escape(s: Seq<char>) -> Seq<char>
    decreases s.len(),
{
    if s.len() == 0 {
        Seq::empty()
    } else {
        escape(s.drop_last()) + escape_char(s.last())
    }
}

/// True of the four characters that never occur in escaped text.
pub open spec fn is_markup(c: char) -> bool {
    c == '<' || c == '>' || c == '"' || c == '\''
}

/// Escaped text holds none of `<`, `>`, `"` and `'`, whatever the input was.
pub proof fn lemma_escape_has_no_markup(s: Seq<char>)
    ensures
        forall|i: int| 0 <= i < escape(s).len() ==> !is_markup(#[trigger] escape(s)[i]),
    decreases s.len(),
{
    if s.len() > 0 {
        lemma_escape_has_no_markup(s.drop_last());
        let head = escape(s.drop_last());
        let tail = escape_char(s.last());
        assert forall|i: int| 0 <= i < escape(s).len() implies !is_markup(
            #[trigger] escape(s)[i],
        ) by {
            if i < head.len() {
                assert(escape(s)[i] == head[i]);
            } else {
                assert(escape(s)[i] == tail[i - head.len()]);
            }
        }
    }
}

/// Text without any of the five special characters is its own escaped form.
pub proof fn lemma_escape_plain(s: Seq<char>)
    requires
        forall|i: int| 0 <= i < s.len() ==> !is_markup(#[trigger] s[i]) && s[i] != '&',
    ensures
        escape(s) == s,
    decreases s.len(),
{
    if s.len() > 0 {
        lemma_escape_plain(s.drop_last());
        assert(escape_char(s.last()) == seq![s.last()]);
        assert(s.drop_last() + seq![s.last()] == s);
    }
}

/// `String::push`: appends one character to the end of the string.
#[verifier::external_body]
pub(crate) fn push_char(s: &mut String, c: char)
    ensures
        final(s)@ == old(s)@.push(c),
{
    s.push(c)
}

/// Returns `my_str` with `<`, `>`, `"`, `'` and `&` replaced by `&lt;`,
/// `&gt;`, `&quot;`, `&apos;` and `&amp;`.
pub fn xmlencode(my_str: &str) -> (s: String)
    ensures
        s@ == escape(my_str@),
{
    let mut s = String::new();
    for c in it: my_str.chars()
        invariant
            it.seq() == my_str@,
            s@ == escape(my_str@.take(it.index() as int)),
    {
        proof {
            reveal_strlit("&lt;");
            reveal_strlit("&gt;");
            reveal_strlit("&quot;");
            reveal_strlit("&apos;");
            reveal_strlit("&amp;");
            let next = my_str@.take(it.index() + 1);
            assert(next.drop_last() == my_str@.take(it.index() as int));
            assert(next.last() == c);
        }
        let ghost before = s@;
        if c == '<' {
            s.append("&lt;");
        } else if c == '>' {
            s.append("&gt;");
        } else if c == '"' {
            s.append("&quot;");
        } else if c == '\'' {
            s.append("&apos;");
        } else if c == '&' {
            s.append("&amp;");
        } else {
            push_char(&mut s, c);
        }
        assert(s@ == before + escape_char(c));
    }
    assert(my_str@.take(my_str@.len() as int) == my_str@);
    s
}

} // verus!
