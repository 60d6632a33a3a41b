//! Field attributes: ordered `{name, optional input}` pairs, and the
//! label, packed and tag resolvers over them.

use vstd::prelude::*;

use crate::lit::{Lit, LitV};
use crate::num::{all_digits, dec_val};
use crate::text::str_eq;

verus! {

/// What an attribute carries beside its name: nothing, one literal, or a
/// parenthesized list of identifier paths.
pub enum AttrInput {
    Bare,
    Lit(Lit),
    Idents(Vec<String>),
}

/// One attribute of a field declaration.
pub struct Attr {
    pub name: String,
    pub input: AttrInput,
}

/// The mathematical model of an attribute input.
pub enum AttrInputV {
    Bare,
    Lit(LitV),
    Idents(Seq<Seq<char>>),
}

/// The mathematical model of an attribute.
pub struct AttrV {
    pub name: Seq<char>,
    pub input: AttrInputV,
}

impl View for AttrInput {
    type V = AttrInputV;

    open spec fn view(&self) -> AttrInputV {
        match self {
            AttrInput::Bare => AttrInputV::Bare,
            AttrInput::Lit(l) => AttrInputV::Lit(l@),
            AttrInput::Idents(v) => AttrInputV::Idents(v.deep_view()),
        }
    }
}

impl View for Attr {
    type V = AttrV;

    open spec fn view(&self) -> AttrV {
        AttrV { name: self.name@, input: self.input@ }
    }
}

/// A field cardinality label.
#[derive(Clone, Copy, Debug, PartialEq, Eq, Structural)]
pub enum Label {
    Optional,
    Required,
    Repeated,
}

/// The label named by an attribute, if it is a bare label marker.
pub open spec fn spec_label_from_attr(attr: AttrV) -> Option<Label> {
    if attr.input is Bare {
        if attr.name == "optional"@ {
            Some(Label::Optional)
        } else if attr.name == "required"@ {
            Some(Label::Required)
        } else if attr.name == "repeated"@ {
            Some(Label::Repeated)
        } else {
            None
        }
    } else {
        None
    }
}

impl Label {
    /// Recognizes the bare `optional`, `required` and `repeated` markers.
    pub fn from_attr(attr: &Attr) -> (r: Option<Label>)
        ensures
            r == spec_label_from_attr(attr@),
    {
        match &attr.input {
            AttrInput::Bare => {
                if str_eq(attr.name.as_str(), "optional") {
                    Some(Label::Optional)
                } else if str_eq(attr.name.as_str(), "required") {
                    Some(Label::Required)
                } else if str_eq(attr.name.as_str(), "repeated") {
                    Some(Label::Repeated)
                } else {
                    None
                }
            },
            _ => None,
        }
    }
}

/// The boolean carried by an attribute of the given name: a bare marker
/// means `true`, a boolean literal means its value.  Any other shape is
/// not recognized.
pub open spec fn spec_bool_attr(key: Seq<char>, attr: AttrV) -> Option<bool> {
    if attr.name == key {
        match attr.input {
            AttrInputV::Bare => Some(true),
            AttrInputV::Lit(LitV::Bool(b)) => Some(b),
            _ => None,
        }
    } else {
        None
    }
}

/// Recognizes a boolean attribute of the given name.
pub fn bool_attr(key: &str, attr: &Attr) -> (r: Option<bool>)
    ensures
        r == spec_bool_attr(key@, attr@),
{
    if !str_eq(attr.name.as_str(), key) {
        return None;
    }
    match &attr.input {
        AttrInput::Bare => Some(true),
        AttrInput::Lit(Lit::Bool(b)) => Some(*b),
        _ => None,
    }
}

/// The tag carried by a `tag` attribute: an unsuffixed integer literal
/// whose value fits in 32 bits.  Any other shape is not recognized.
pub open spec fn spec_tag_attr(attr: AttrV) -> Option<u32> {
    if attr.name == "tag"@ {
        match attr.input {
            AttrInputV::Lit(LitV::Int { digits, suffix }) => {
                if suffix.len() == 0 && digits.len() >= 1 && all_digits(digits) && dec_val(digits)
                    <= u32::MAX {
                    Some(dec_val(digits) as u32)
                } else {
                    None
                }
            },
            _ => None,
        }
    } else {
        None
    }
}

/// Recognizes a `tag` attribute.
pub fn tag_attr(attr: &Attr) -> (r: Option<u32>)
    ensures
        r == spec_tag_attr(attr@),
{
    if !str_eq(attr.name.as_str(), "tag") {
        return None;
    }
    match &attr.input {
        AttrInput::Lit(Lit::Int { digits, suffix }) => {
            if suffix.unicode_len() != 0 {
                return None;
            }
            match crate::num::parse_dec_u64(digits.as_str()) {
                Some(v) => {
                    if v <= u32::MAX as u64 {
                        Some(v as u32)
                    } else {
                        None
                    }
                },
                None => {
                    proof {
                        if digits@.len() >= 1 && all_digits(digits@) && dec_val(digits@)
                            <= u32::MAX {
                            assert(dec_val(digits@) <= u64::MAX);
                        }
                    }
                    None
                },
            }
        },
        _ => None,
    }
}

} // verus!
