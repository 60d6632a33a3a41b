//! The closed error taxonomy of field resolution.

use vstd::prelude::*;

use crate::lit::{Lit, LitV};

verus! {

/// The semantic classes an attribute can belong to; duplicates are
/// reported per class.
#[derive(Clone, Copy, Debug, PartialEq, Eq, Structural)]
pub enum AttrClass {
    TypeAttr,
    LabelAttr,
    PackedAttr,
    TagAttr,
    DefaultAttr,
}

/// An error detected while resolving one field declaration.
#[derive(Debug, PartialEq, Eq)]
pub enum FieldError {
    /// The same semantic attribute appears more than once.
    DuplicateAttr(AttrClass),
    /// Attributes recognized by none of the resolvers, listed verbatim.
    UnknownAttrs(Vec<String>),
    /// No explicit tag and no positionally inferred tag.
    MissingTag,
    /// `packed` together with a label other than `repeated`, or without a
    /// label.
    PackedNotRepeated,
    /// `packed = true` on a repeated field of a non-numeric scalar type.
    PackedNotNumeric,
    /// A declared default together with the `repeated` label.
    RepeatedDefault,
    /// A literal that does not parse into the declared scalar type.
    InvalidDefault(Lit),
    /// An `enumeration` attribute that does not carry exactly one
    /// identifier path.
    InvalidEnumeration,
    /// An `optional` marker on a oneof member.
    OneofOptional,
    /// A `required` marker on a oneof member.
    OneofRequired,
    /// A `repeated` or `packed` marker on a oneof member.
    OneofRepeated,
}

/// The mathematical model of a resolution error.
pub enum ErrV {
    DuplicateAttr(AttrClass),
    UnknownAttrs(Seq<Seq<char>>),
    MissingTag,
    PackedNotRepeated,
    PackedNotNumeric,
    RepeatedDefault,
    InvalidDefault(LitV),
    InvalidEnumeration,
    OneofOptional,
    OneofRequired,
    OneofRepeated,
}

impl View for FieldError {
    type V = ErrV;

    open spec fn view(&self) -> ErrV {
        match self {
            FieldError::DuplicateAttr(c) => ErrV::DuplicateAttr(*c),
            FieldError::UnknownAttrs(v) => ErrV::UnknownAttrs(v.deep_view()),
            FieldError::MissingTag => ErrV::MissingTag,
            FieldError::PackedNotRepeated => ErrV::PackedNotRepeated,
            FieldError::PackedNotNumeric => ErrV::PackedNotNumeric,
            FieldError::RepeatedDefault => ErrV::RepeatedDefault,
            FieldError::InvalidDefault(l) => ErrV::InvalidDefault(l@),
            FieldError::InvalidEnumeration => ErrV::InvalidEnumeration,
            FieldError::OneofOptional => ErrV::OneofOptional,
            FieldError::OneofRequired => ErrV::OneofRequired,
            FieldError::OneofRepeated => ErrV::OneofRepeated,
        }
    }
}

} // verus!
