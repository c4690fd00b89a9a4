//! What holds of the pending fragment across several calls.

use crate::escape::{escape, is_markup, lemma_escape_has_no_markup, lemma_escape_plain};
use crate::names::is_valid_name;
use crate::params::{
    attribute_text, attributes_text, close_tag, lemma_one_attribute, open_tag, param_element,
    wrapped_params,
};
use vstd::prelude::*;

verus! {

/// A parameter element is never empty, so a fragment that one was appended
/// to is shown inside the envelope.
pub proof fn lemma_param_shown(
    before: Seq<char>,
    name: Seq<char>,
    attrs: Seq<(Seq<char>, Seq<char>)>,
    value: Seq<char>,
)
    ensures
        wrapped_params(before + param_element(name, attrs, value)) == "<params>"@ + before
            + param_element(name, attrs, value) + "</params>"@,
{
    reveal_strlit("<");
    assert((before + param_element(name, attrs, value)).len() > 0);
    assert("<params>"@ + (before + param_element(name, attrs, value)) + "</params>"@
        =~= "<params>"@ + before + param_element(name, attrs, value) + "</params>"@);
}

/// After a parameter with a valid name is set on a client with nothing
/// pending, the client shows `<params><name>ESCAPED</name></params>`, where
/// ESCAPED is the escaped value and holds none of `<`, `>`, `"` and `'`.
pub proof fn lemma_single_param(name: Seq<char>, value: Seq<char>)
    requires
        is_valid_name(name),
    ensures
        wrapped_params(Seq::empty() + param_element(name, Seq::empty(), value)) == "<params>"@
            + "<"@ + name + ">"@ + escape(value) + "</"@ + name + ">"@ + "</params>"@,
        forall|i: int| 0 <= i < escape(value).len() ==> !is_markup(#[trigger] escape(value)[i]),
{
    let none = Seq::<(Seq<char>, Seq<char>)>::empty();
    lemma_param_shown(Seq::empty(), name, none, value);
    lemma_escape_has_no_markup(value);
    assert(attributes_text(none) == Seq::<char>::empty());
    assert("<params>"@ + Seq::<char>::empty() + param_element(name, none, value) + "</params>"@
        =~= "<params>"@ + "<"@ + name + ">"@ + escape(value) + "</"@ + name + ">"@
        + "</params>"@);
}

/// Parameters are shown in the order in which they were set: the second
/// stands behind the first, behind whatever was pending before.
pub proof fn lemma_params_in_order(
    before: Seq<char>,
    first: Seq<char>,
    first_value: Seq<char>,
    second: Seq<char>,
    second_value: Seq<char>,
)
    requires
        is_valid_name(first),
        is_valid_name(second),
    ensures
        wrapped_params(
            before + param_element(first, Seq::empty(), first_value) + param_element(
                second,
                Seq::empty(),
                second_value,
            ),
        ) == "<params>"@ + before + param_element(first, Seq::empty(), first_value)
            + param_element(second, Seq::empty(), second_value) + "</params>"@,
{
    lemma_param_shown(
        before + param_element(first, Seq::empty(), first_value),
        second,
        Seq::empty(),
        second_value,
    );
}

/// An element opened, a parameter set and the element closed, on a client
/// with nothing pending, show as `<params><a><b>V</b></a></params>`, where V
/// is the escaped value: the value itself where it holds none of the five
/// special characters.
pub proof fn lemma_nested_param(a: Seq<char>, b: Seq<char>, value: Seq<char>)
    requires
        is_valid_name(a),
        is_valid_name(b),
    ensures
        wrapped_params(
            Seq::empty() + open_tag(a) + param_element(b, Seq::empty(), value) + close_tag(a),
        ) == "<params>"@ + "<"@ + a + ">"@ + "<"@ + b + ">"@ + escape(value) + "</"@ + b + ">"@
            + "</"@ + a + ">"@ + "</params>"@,
        (forall|i: int| 0 <= i < value.len() ==> !is_markup(#[trigger] value[i]) && value[i] != '&')
            ==> escape(value) == value,
{
    let none = Seq::<(Seq<char>, Seq<char>)>::empty();
    let fragment = Seq::empty() + open_tag(a) + param_element(b, none, value) + close_tag(a);
    reveal_strlit("<");
    assert(fragment.len() > 0);
    assert(attributes_text(none) == Seq::<char>::empty());
    assert("<params>"@ + fragment + "</params>"@ =~= "<params>"@ + "<"@ + a + ">"@ + "<"@ + b
        + ">"@ + escape(value) + "</"@ + b + ">"@ + "</"@ + a + ">"@ + "</params>"@);
    if forall|i: int| 0 <= i < value.len() ==> !is_markup(#[trigger] value[i]) && value[i] != '&' {
        lemma_escape_plain(value);
    }
}

/// A parameter with one attribute, set on a client with nothing pending,
/// shows as `<params><name key="VALUE" >CONTENT</name></params>`: a space on
/// either side of the attribute, both texts escaped.
pub proof fn lemma_param_with_attribute(
    name: Seq<char>,
    value: Seq<char>,
    key: Seq<char>,
    attr_value: Seq<char>,
)
    requires
        is_valid_name(name),
        is_valid_name(key),
    ensures
        wrapped_params(Seq::empty() + param_element(name, seq![(key, attr_value)], value))
            == "<params>"@ + "<"@ + name + " "@ + key + "=\""@ + escape(attr_value) + "\" "@
            + ">"@ + escape(value) + "</"@ + name + ">"@ + "</params>"@,
{
    let attrs = seq![(key, attr_value)];
    lemma_param_shown(Seq::empty(), name, attrs, value);
    lemma_one_attribute((key, attr_value));
    assert(attributes_text(attrs) == attribute_text((key, attr_value)));
    assert("<params>"@ + Seq::<char>::empty() + param_element(name, attrs, value)
        + "</params>"@ =~= "<params>"@ + "<"@ + name + " "@ + key + "=\""@ + escape(attr_value)
        + "\" "@ + ">"@ + escape(value) + "</"@ + name + ">"@ + "</params>"@);
}

} // verus!
