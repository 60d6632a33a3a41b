//! The scalar wire types and their resolver.

use vstd::prelude::*;

use crate::attr::{Attr, AttrInput, AttrInputV, AttrV};
use crate::errors::{ErrV, FieldError};
use crate::lit::{Lit, LitV};
use crate::text::{check_path, is_path, str_eq};

verus! {

/// A scalar wire type.  `Enumeration` carries the path of an externally
/// defined enum type.
#[derive(Debug, PartialEq, Eq)]
pub enum Ty {
    Double,
    Float,
    Int32,
    Int64,
    Uint32,
    Uint64,
    Sint32,
    Sint64,
    Fixed32,
    Fixed64,
    Sfixed32,
    Sfixed64,
    Bool,
    Str,
    Bytes,
    Enumeration(String),
}

/// The mathematical model of a scalar wire type.
pub enum TyV {
    Double,
    Float,
    Int32,
    Int64,
    Uint32,
    Uint64,
    Sint32,
    Sint64,
    Fixed32,
    Fixed64,
    Sfixed32,
    Sfixed64,
    Bool,
    Str,
    Bytes,
    Enumeration(Seq<char>),
}

impl View for Ty {
    type V = TyV;

    open spec fn view(&self) -> TyV {
        match self {
            Ty::Double => TyV::Double,
            Ty::Float => TyV::Float,
            Ty::Int32 => TyV::Int32,
            Ty::Int64 => TyV::Int64,
            Ty::Uint32 => TyV::Uint32,
            Ty::Uint64 => TyV::Uint64,
            Ty::Sint32 => TyV::Sint32,
            Ty::Sint64 => TyV::Sint64,
            Ty::Fixed32 => TyV::Fixed32,
            Ty::Fixed64 => TyV::Fixed64,
            Ty::Sfixed32 => TyV::Sfixed32,
            Ty::Sfixed64 => TyV::Sfixed64,
            Ty::Bool => TyV::Bool,
            Ty::Str => TyV::Str,
            Ty::Bytes => TyV::Bytes,
            Ty::Enumeration(p) => TyV::Enumeration(p@),
        }
    }
}

impl Clone for Ty {
    fn clone(&self) -> (r: Self)
        ensures
            r@ == self@,
    {
        match self {
            Ty::Double => Ty::Double,
            Ty::Float => Ty::Float,
            Ty::Int32 => Ty::Int32,
            Ty::Int64 => Ty::Int64,
            Ty::Uint32 => Ty::Uint32,
            Ty::Uint64 => Ty::Uint64,
            Ty::Sint32 => Ty::Sint32,
            Ty::Sint64 => Ty::Sint64,
            Ty::Fixed32 => Ty::Fixed32,
            Ty::Fixed64 => Ty::Fixed64,
            Ty::Sfixed32 => Ty::Sfixed32,
            Ty::Sfixed64 => Ty::Sfixed64,
            Ty::Bool => Ty::Bool,
            Ty::Str => Ty::Str,
            Ty::Bytes => Ty::Bytes,
            Ty::Enumeration(p) => Ty::Enumeration(p.clone()),
        }
    }
}

/// A numeric type: every scalar type but strings and byte sequences.
pub open spec fn spec_is_numeric(t: TyV) -> bool {
    !(t is Str || t is Bytes)
}

/// The signedness/width classes used by default-value resolution.
pub open spec fn is_i32_class(t: TyV) -> bool {
    t is Int32 || t is Sint32 || t is Sfixed32
}

pub open spec fn is_i64_class(t: TyV) -> bool {
    t is Int64 || t is Sint64 || t is Sfixed64
}

pub open spec fn is_u32_class(t: TyV) -> bool {
    t is Uint32 || t is Fixed32
}

pub open spec fn is_u64_class(t: TyV) -> bool {
    t is Uint64 || t is Fixed64
}

/// The scalar type named by an attribute: bare markers for the primitive
/// types, and an `enumeration` attribute carrying exactly one identifier
/// path, either as a string value or as a one-element list.
pub open spec fn spec_ty_from_attr(attr: AttrV) -> Result<Option<TyV>, ErrV> {
    if attr.input is Bare {
        if attr.name == "float"@ {
            Ok(Some(TyV::Float))
        } else if attr.name == "double"@ {
            Ok(Some(TyV::Double))
        } else if attr.name == "int32"@ {
            Ok(Some(TyV::Int32))
        } else if attr.name == "int64"@ {
            Ok(Some(TyV::Int64))
        } else if attr.name == "uint32"@ {
            Ok(Some(TyV::Uint32))
        } else if attr.name == "uint64"@ {
            Ok(Some(TyV::Uint64))
        } else if attr.name == "sint32"@ {
            Ok(Some(TyV::Sint32))
        } else if attr.name == "sint64"@ {
            Ok(Some(TyV::Sint64))
        } else if attr.name == "fixed32"@ {
            Ok(Some(TyV::Fixed32))
        } else if attr.name == "fixed64"@ {
            Ok(Some(TyV::Fixed64))
        } else if attr.name == "sfixed32"@ {
            Ok(Some(TyV::Sfixed32))
        } else if attr.name == "sfixed64"@ {
            Ok(Some(TyV::Sfixed64))
        } else if attr.name == "bool"@ {
            Ok(Some(TyV::Bool))
        } else if attr.name == "string"@ {
            Ok(Some(TyV::Str))
        } else if attr.name == "bytes"@ {
            Ok(Some(TyV::Bytes))
        } else {
            Ok(None)
        }
    } else if attr.name == "enumeration"@ {
        match attr.input {
            AttrInputV::Lit(LitV::Str(s)) => {
                if is_path(s) {
                    Ok(Some(TyV::Enumeration(s)))
                } else {
                    Err(ErrV::InvalidEnumeration)
                }
            },
            AttrInputV::Idents(items) => {
                if items.len() == 1 && is_path(items[0]) {
                    Ok(Some(TyV::Enumeration(items[0])))
                } else {
                    Err(ErrV::InvalidEnumeration)
                }
            },
            _ => Ok(None),
        }
    } else {
        Ok(None)
    }
}

/// The view of a type-resolver result.
pub open spec fn view_ty_result(r: Result<Option<Ty>, FieldError>) -> Result<Option<TyV>, ErrV> {
    match r {
        Ok(None) => Ok(None),
        Ok(Some(t)) => Ok(Some(t@)),
        Err(e) => Err(e@),
    }
}

impl Ty {
    /// Resolves the scalar type named by one attribute, or reports that
    /// the attribute names none.
    pub fn from_attr(attr: &Attr) -> (r: Result<Option<Ty>, FieldError>)
        ensures
            view_ty_result(r) == spec_ty_from_attr(attr@),
    {
        let name = attr.name.as_str();
        match &attr.input {
            AttrInput::Bare => {
                if str_eq(name, "float") {
                    Ok(Some(Ty::Float))
                } else if str_eq(name, "double") {
                    Ok(Some(Ty::Double))
                } else if str_eq(name, "int32") {
                    Ok(Some(Ty::Int32))
                } else if str_eq(name, "int64") {
                    Ok(Some(Ty::Int64))
                } else if str_eq(name, "uint32") {
                    Ok(Some(Ty::Uint32))
                } else if str_eq(name, "uint64") {
                    Ok(Some(Ty::Uint64))
                } else if str_eq(name, "sint32") {
                    Ok(Some(Ty::Sint32))
                } else if str_eq(name, "sint64") {
                    Ok(Some(Ty::Sint64))
                } else if str_eq(name, "fixed32") {
                    Ok(Some(Ty::Fixed32))
                } else if str_eq(name, "fixed64") {
                    Ok(Some(Ty::Fixed64))
                } else if str_eq(name, "sfixed32") {
                    Ok(Some(Ty::Sfixed32))
                } else if str_eq(name, "sfixed64") {
                    Ok(Some(Ty::Sfixed64))
                } else if str_eq(name, "bool") {
                    Ok(Some(Ty::Bool))
                } else if str_eq(name, "string") {
                    Ok(Some(Ty::Str))
                } else if str_eq(name, "bytes") {
                    Ok(Some(Ty::Bytes))
                } else {
                    Ok(None)
                }
            },
            AttrInput::Lit(Lit::Str(s)) => {
                if str_eq(name, "enumeration") {
                    if check_path(s.as_str()) {
                        Ok(Some(Ty::Enumeration(s.clone())))
                    } else {
                        Err(FieldError::InvalidEnumeration)
                    }
                } else {
                    Ok(None)
                }
            },
            AttrInput::Idents(items) => {
                if str_eq(name, "enumeration") {
                    if items.len() == 1 && check_path(items[0].as_str()) {
                        proof {
                            assert(items.deep_view()[0] == items@[0]@);
                        }
                        Ok(Some(Ty::Enumeration(items[0].clone())))
                    } else {
                        Err(FieldError::InvalidEnumeration)
                    }
                } else {
                    Ok(None)
                }
            },
            _ => Ok(None),
        }
    }

    /// The type as it appears in wire-schema field declarations.
    pub fn as_str(&self) -> (r: &'static str)
        ensures
            r@ == spec_ty_name(self@),
    {
        proof {
            reveal_strlit("double");
            reveal_strlit("float");
            reveal_strlit("int32");
            reveal_strlit("int64");
            reveal_strlit("uint32");
            reveal_strlit("uint64");
            reveal_strlit("sint32");
            reveal_strlit("sint64");
            reveal_strlit("fixed32");
            reveal_strlit("fixed64");
            reveal_strlit("sfixed32");
            reveal_strlit("sfixed64");
            reveal_strlit("bool");
            reveal_strlit("string");
            reveal_strlit("bytes");
            reveal_strlit("enum");
        }
        match self {
            Ty::Double => "double",
            Ty::Float => "float",
            Ty::Int32 => "int32",
            Ty::Int64 => "int64",
            Ty::Uint32 => "uint32",
            Ty::Uint64 => "uint64",
            Ty::Sint32 => "sint32",
            Ty::Sint64 => "sint64",
            Ty::Fixed32 => "fixed32",
            Ty::Fixed64 => "fixed64",
            Ty::Sfixed32 => "sfixed32",
            Ty::Sfixed64 => "sfixed64",
            Ty::Bool => "bool",
            Ty::Str => "string",
            Ty::Bytes => "bytes",
            Ty::Enumeration(_) => "enum",
        }
    }

    /// False exactly for the length-delimited types `string` and `bytes`.
    pub fn is_numeric(&self) -> (r: bool)
        ensures
            r == spec_is_numeric(self@),
    {
        !(matches!(self, Ty::Str | Ty::Bytes))
    }
}

/// Exec check for the signed 32-bit class.
pub fn class_i32(ty: &Ty) -> (r: bool)
    ensures
        r == is_i32_class(ty@),
{
    matches!(ty, Ty::Int32 | Ty::Sint32 | Ty::Sfixed32)
}

/// Exec check for the signed 64-bit class.
pub fn class_i64(ty: &Ty) -> (r: bool)
    ensures
        r == is_i64_class(ty@),
{
    matches!(ty, Ty::Int64 | Ty::Sint64 | Ty::Sfixed64)
}

/// Exec check for the unsigned 32-bit class.
pub fn class_u32(ty: &Ty) -> (r: bool)
    ensures
        r == is_u32_class(ty@),
{
    matches!(ty, Ty::Uint32 | Ty::Fixed32)
}

/// Exec check for the unsigned 64-bit class.
pub fn class_u64(ty: &Ty) -> (r: bool)
    ensures
        r == is_u64_class(ty@),
{
    matches!(ty, Ty::Uint64 | Ty::Fixed64)
}

/// The schema name of each scalar type.
pub open spec fn spec_ty_name(t: TyV) -> Seq<char> {
    match t {
        TyV::Double => "double"@,
        TyV::Float => "float"@,
        TyV::Int32 => "int32"@,
        TyV::Int64 => "int64"@,
        TyV::Uint32 => "uint32"@,
        TyV::Uint64 => "uint64"@,
        TyV::Sint32 => "sint32"@,
        TyV::Sint64 => "sint64"@,
        TyV::Fixed32 => "fixed32"@,
        TyV::Fixed64 => "fixed64"@,
        TyV::Sfixed32 => "sfixed32"@,
        TyV::Sfixed64 => "sfixed64"@,
        TyV::Bool => "bool"@,
        TyV::Str => "string"@,
        TyV::Bytes => "bytes"@,
        TyV::Enumeration(_) => "enum"@,
    }
}

} // verus!
