//! The rule for XML element and attribute names.

use vstd::prelude::*;

verus! {

/// The characters a name may hold: ASCII letters, ASCII digits, underscore.
pub open spec fn is_name_char(c: char) -> bool {
    ('a' <= c && c <= 'z') || ('A' <= c && c <= 'Z') || ('0' <= c && c <= '9') || c == '_'
}

/// Every character of `s` is a name character. The empty text qualifies.
pub open spec fn is_name_text(s: Seq<char>) -> bool {
    forall|i: int| 0 <= i < s.len() ==> is_name_char(#[trigger] s[i])
}

/// A usable element or attribute name: not empty, name characters only.
pub open spec fn is_valid_name(s: Seq<char>) -> bool {
    s.len() > 0 && is_name_text(s)
}

/// Whether the regular expression `pattern` compiles and, if it does, whether
/// it matches somewhere in `text`.
pub uninterp spec fn regex_is_match(pattern: Seq<char>, text: Seq<char>) -> Option<bool>;

/// `regex::Regex::new` followed by `Regex::is_match` on the compiled
/// expression. `None` stands for a pattern that does not compile. Of the one
/// pattern this library uses, an anchored repetition of a character class,
/// the contract states the match outright: it compiles, and it matches
/// exactly the texts made of characters of the class.
#[verifier::external_body]
fn pattern_matches(pattern: &str, text: &str) -> (r: Option<bool>)
    ensures
        r == regex_is_match(pattern@, text@),
        pattern@ == "^[a-zA-Z0-9_]*$"@ ==> r == Some(is_name_text(text@)),
{
    match regex::Regex::new(pattern) {
        Ok(re) => Some(re.is_match(text)),
        Err(_) => None,
    }
}

/// Tells whether `text` consists of name characters only.
pub fn check_valid_xml(text: &str) -> (b: bool)
    ensures
        b == is_name_text(text@),
{
    match pattern_matches("^[a-zA-Z0-9_]*$", text) {
        Some(b) => b,
        None => false,
    }
}

} // verus!
