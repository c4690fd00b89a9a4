//! The shape of the pending parameter fragment: elements, attributes and the
//! envelope that the fragment is shown in.

use crate::escape::{escape, xmlencode};
use crate::names::{check_valid_xml, is_name_text, is_valid_name};
use vstd::prelude::*;

verus! {

/// An attribute that can be attached to a parameter element.
pub struct Attributes {
    pub key: String,
    pub value: String,
}

impl View for Attributes {
    type V = (Seq<char>, Seq<char>);

    open spec fn view(&self) -> (Seq<char>, Seq<char>) {
        (self.key@, self.value@)
    }
}

/// The attributes of a list as pairs of key and value.
pub open spec fn attr_views(attribs: Seq<Attributes>) -> Seq<(Seq<char>, Seq<char>)> {
    attribs.map_values(|a: Attributes| a@)
}

/// The message for an element without a name.
pub open spec fn empty_element_message() -> Seq<char> {
    "Xml element cannot be empty"@
}

/// The message for an element name with a character that is not allowed.
pub open spec fn invalid_element_message() -> Seq<char> {
    "Xml element can only contain alphanumeric and underscores"@
}

/// The message for an attribute without a name.
pub open spec fn empty_attribute_message() -> Seq<char> {
    "Xml attribute name cannot be empty"@
}

/// The message for an attribute name with a character that is not allowed.
pub open spec fn invalid_attribute_message() -> Seq<char> {
    "Xml attribute name can only contain alphanumeric and underscores"@
}

/// Why an element name is refused, if it is.
pub open spec fn element_error(name: Seq<char>) -> Option<Seq<char>> {
    if name.len() == 0 {
        Some(empty_element_message())
    } else if !is_name_text(name) {
        Some(invalid_element_message())
    } else {
        None
    }
}

/// Why a list of attributes is refused, if it is: the complaint about the
/// first attribute whose key is not a valid name.
pub open spec fn attributes_error(attrs: Seq<(Seq<char>, Seq<char>)>) -> Option<Seq<char>>
    decreases attrs.len(),
{
    if attrs.len() == 0 {
        None
    } else if attrs[0].0.len() == 0 {
        Some(empty_attribute_message())
    } else if !is_name_text(attrs[0].0) {
        Some(invalid_attribute_message())
    } else {
        attributes_error(attrs.drop_first())
    }
}

/// Why a parameter with attributes is refused, if it is. The element name is
/// judged first, then the attributes in order.
pub open spec fn param_error(name: Seq<char>, attrs: Seq<(Seq<char>, Seq<char>)>) -> Option<
    Seq<char>,
> {
    if element_error(name) is Some {
        element_error(name)
    } else {
        attributes_error(attrs)
    }
}

/// `<name>`
pub open spec fn open_tag(name: Seq<char>) -> Seq<char> {
    "<"@ + name + ">"@
}

/// `</name>`
pub open spec fn close_tag(name: Seq<char>) -> Seq<char> {
    "</"@ + name + ">"@
}

/// One attribute as it stands in an opening tag: a space, `key="value"` with
/// the value escaped, and a space.
pub open spec fn attribute_text(attr: (Seq<char>, Seq<char>)) -> Seq<char> {
    " "@ + attr.0 + "=\""@ + escape(attr.1) + "\" "@
}

/// All attributes of a list as they stand in an opening tag, in order.
pub open spec fn attributes_text(attrs: Seq<(Seq<char>, Seq<char>)>) -> Seq<char>
    decreases attrs.len(),
{
    if attrs.len() == 0 {
        Seq::empty()
    } else {
        attributes_text(attrs.drop_last()) + attribute_text(attrs.last())
    }
}

/// `<name ATTRS>VALUE</name>` with the value escaped.
pub open spec fn param_element(
    name: Seq<char>,
    attrs: Seq<(Seq<char>, Seq<char>)>,
    value: Seq<char>,
) -> Seq<char> {
    "<"@ + name + attributes_text(attrs) + ">"@ + escape(value) + "</"@ + name + ">"@
}

/// The pending fragment as it is shown: nothing where it is empty, else the
/// fragment inside one `<params>` element.
pub open spec fn wrapped_params(fragment: Seq<char>) -> Seq<char> {
    if fragment.len() == 0 {
        Seq::empty()
    } else {
        "<params>"@ + fragment + "</params>"@
    }
}

/// Names a complaint for `name` as an element name, or none.
pub fn check_element(name: &str) -> (r: Option<&'static str>)
    ensures
        r is Some == !is_valid_name(name@),
        match r {
            Some(e) => element_error(name@) == Some(e@),
            None => element_error(name@) is None,
        },
{
    if name.is_empty() {
        Some("Xml element cannot be empty")
    } else if !check_valid_xml(name) {
        Some("Xml element can only contain alphanumeric and underscores")
    } else {
        None
    }
}

/// Renders the attributes of an opening tag, or names the complaint about
/// the first attribute whose key is not a valid name.
pub fn render_attributes(attribs: &Vec<Attributes>) -> (r: Result<String, &'static str>)
    ensures
        match r {
            Ok(text) => attributes_error(attr_views(attribs@)) is None && text@ == attributes_text(
                attr_views(attribs@),
            ),
            Err(e) => attributes_error(attr_views(attribs@)) == Some(e@),
        },
{
    let ghost all = attr_views(attribs@);
    let mut text = String::new();
    let mut i: usize = 0;
    assert(all.skip(0) == all);
    while i < attribs.len()
        invariant
            i <= attribs.len(),
            all == attr_views(attribs@),
            attributes_error(all) == attributes_error(all.skip(i as int)),
            text@ == attributes_text(all.take(i as int)),
        decreases attribs.len() - i,
    {
        let attr = &attribs[i];
        proof {
            let rest = all.skip(i as int);
            assert(rest[0] == attr@);
            assert(rest.drop_first() == all.skip(i + 1));
            let upto = all.take(i + 1);
            assert(upto.drop_last() == all.take(i as int));
            assert(upto.last() == attr@);
        }
        if attr.key.as_str().is_empty() {
            return Err("Xml attribute name cannot be empty");
        }
        if !check_valid_xml(attr.key.as_str()) {
            return Err("Xml attribute name can only contain alphanumeric and underscores");
        }
        let value = xmlencode(attr.value.as_str());
        text.append(" ");
        text.append(attr.key.as_str());
        text.append("=\"");
        text.append(value.as_str());
        text.append("\" ");
        assert(text@ =~= attributes_text(all.take(i as int)) + attribute_text(attr@));
        i += 1;
    }
    assert(all.take(i as int) == all);
    Ok(text)
}

/// A list of one attribute renders as that attribute alone.
pub proof fn lemma_one_attribute(attr: (Seq<char>, Seq<char>))
    ensures
        attributes_text(seq![attr]) == attribute_text(attr),
{
    let one = seq![attr];
    assert(one.drop_last().len() == 0);
    assert(attributes_text(one.drop_last()) == Seq::<char>::empty());
    assert(attributes_text(one) =~= attribute_text(attr));
}

} // verus!
