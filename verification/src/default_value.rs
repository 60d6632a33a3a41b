//! Default values of scalar fields: resolution of a declared literal into
//! a typed default, synthesis of the implicit default, and rendering into
//! initializer and comparison expressions.

use vstd::prelude::*;

use crate::attr::{Attr, AttrInput, AttrInputV, AttrV};
use crate::errors::{ErrV, FieldError};
use crate::lit::{lemma_parse_lit_int_wf, parse_lit, spec_parse_lit, Lit, LitV};
use crate::num::{all_digits, dec_val, parse_dec_u64};
use crate::render::{byte_lit_body, byte_lit_text, escape_str, escape_string, i64_text, int_text};
use crate::text::{check_ident, is_ident, str_eq, trim_slice, trim_spec};
use crate::ty::{
    class_i32, class_i64, class_u32, class_u64, is_i32_class, is_i64_class, is_u32_class,
    is_u64_class, Ty, TyV,
};

verus! {

/// How an enumeration default names its variant: a declared variant
/// identifier, or the enum type's nominated default variant.
#[derive(Debug, PartialEq, Eq)]
pub enum VariantRef {
    Named(String),
    DefaultCtor,
}

/// The mathematical model of a variant reference.
pub enum VariantRefV {
    Named(Seq<char>),
    DefaultCtor,
}

impl View for VariantRef {
    type V = VariantRefV;

    open spec fn view(&self) -> VariantRefV {
        match self {
            VariantRef::Named(s) => VariantRefV::Named(s@),
            VariantRef::DefaultCtor => VariantRefV::DefaultCtor,
        }
    }
}

/// A resolved default value.  Float defaults keep their literal digit
/// text; `Path` holds a symbolic constant path such as the special float
/// values.
#[derive(Debug, PartialEq, Eq)]
pub enum DefaultValue {
    F64(String),
    F32(String),
    I32(i32),
    I64(i64),
    U32(u32),
    U64(u64),
    Bool(bool),
    Str(String),
    Bytes(Vec<u8>),
    Enumeration { path: String, variant: VariantRef },
    Path(String),
}

/// The mathematical model of a default value.
pub enum DefaultV {
    F64(Seq<char>),
    F32(Seq<char>),
    I32(i32),
    I64(i64),
    U32(u32),
    U64(u64),
    Bool(bool),
    Str(Seq<char>),
    Bytes(Seq<u8>),
    Enumeration { path: Seq<char>, variant: VariantRefV },
    Path(Seq<char>),
}

impl View for DefaultValue {
    type V = DefaultV;

    open spec fn view(&self) -> DefaultV {
        match self {
            DefaultValue::F64(t) => DefaultV::F64(t@),
            DefaultValue::F32(t) => DefaultV::F32(t@),
            DefaultValue::I32(v) => DefaultV::I32(*v),
            DefaultValue::I64(v) => DefaultV::I64(*v),
            DefaultValue::U32(v) => DefaultV::U32(*v),
            DefaultValue::U64(v) => DefaultV::U64(*v),
            DefaultValue::Bool(b) => DefaultV::Bool(*b),
            DefaultValue::Str(s) => DefaultV::Str(s@),
            DefaultValue::Bytes(b) => DefaultV::Bytes(b@),
            DefaultValue::Enumeration { path, variant } => DefaultV::Enumeration {
                path: path@,
                variant: variant@,
            },
            DefaultValue::Path(p) => DefaultV::Path(p@),
        }
    }
}

impl Clone for VariantRef {
    fn clone(&self) -> (r: Self)
        ensures
            r@ == self@,
    {
        match self {
            VariantRef::Named(s) => VariantRef::Named(s.clone()),
            VariantRef::DefaultCtor => VariantRef::DefaultCtor,
        }
    }
}

impl Clone for DefaultValue {
    fn clone(&self) -> (r: Self)
        ensures
            r@ == self@,
    {
        match self {
            DefaultValue::F64(t) => DefaultValue::F64(t.clone()),
            DefaultValue::F32(t) => DefaultValue::F32(t.clone()),
            DefaultValue::I32(v) => DefaultValue::I32(*v),
            DefaultValue::I64(v) => DefaultValue::I64(*v),
            DefaultValue::U32(v) => DefaultValue::U32(*v),
            DefaultValue::U64(v) => DefaultValue::U64(*v),
            DefaultValue::Bool(b) => DefaultValue::Bool(*b),
            DefaultValue::Str(s) => DefaultValue::Str(s.clone()),
            DefaultValue::Bytes(b) => DefaultValue::Bytes(b.clone()),
            DefaultValue::Enumeration { path, variant } => DefaultValue::Enumeration {
                path: path.clone(),
                variant: variant.clone(),
            },
            DefaultValue::Path(p) => DefaultValue::Path(p.clone()),
        }
    }
}

/// Nonempty digit text made of decimal digits only.
pub open spec fn int_digits_ok(digits: Seq<char>) -> bool {
    digits.len() >= 1 && all_digits(digits)
}

/// The view of a default-resolver result.
pub open spec fn view_dv_result(r: Result<DefaultValue, FieldError>) -> Result<DefaultV, ErrV> {
    match r {
        Ok(d) => Ok(d@),
        Err(e) => Err(e@),
    }
}

/// Resolution of a literal into a default of the given scalar type.  The
/// rules, in priority order: an integer literal whose optional size
/// suffix matches the target class; a float literal (or an integer
/// literal) for float and double fields; a boolean, string or byte-string
/// literal for the exactly matching type; and otherwise a string literal
/// resolved by `spec_str_default`.  `depth` bounds the one permitted
/// re-parse of a string's content.
pub open spec fn spec_from_lit(ty: TyV, lit: LitV, depth: nat) -> Result<DefaultV, ErrV>
    decreases depth, 2int,
{
    match lit {
        LitV::Int { digits, suffix } => {
            if is_i32_class(ty) && (suffix.len() == 0 || suffix == "i32"@) {
                if int_digits_ok(digits) && dec_val(digits) <= i32::MAX {
                    Ok(DefaultV::I32(dec_val(digits) as i32))
                } else {
                    Err(ErrV::InvalidDefault(lit))
                }
            } else if is_i64_class(ty) && (suffix.len() == 0 || suffix == "i64"@) {
                if int_digits_ok(digits) && dec_val(digits) <= i64::MAX {
                    Ok(DefaultV::I64(dec_val(digits) as i64))
                } else {
                    Err(ErrV::InvalidDefault(lit))
                }
            } else if is_u32_class(ty) && (suffix.len() == 0 || suffix == "u32"@) {
                if int_digits_ok(digits) && dec_val(digits) <= u32::MAX {
                    Ok(DefaultV::U32(dec_val(digits) as u32))
                } else {
                    Err(ErrV::InvalidDefault(lit))
                }
            } else if is_u64_class(ty) && (suffix.len() == 0 || suffix == "u64"@) {
                if int_digits_ok(digits) && dec_val(digits) <= u64::MAX {
                    Ok(DefaultV::U64(dec_val(digits) as u64))
                } else {
                    Err(ErrV::InvalidDefault(lit))
                }
            } else if ty is Float {
                Ok(DefaultV::F32(digits))
            } else if ty is Double {
                Ok(DefaultV::F64(digits))
            } else {
                Err(ErrV::InvalidDefault(lit))
            }
        },
        LitV::Float { digits, suffix } => {
            if ty is Float && (suffix.len() == 0 || suffix == "f32"@) {
                Ok(DefaultV::F32(digits))
            } else if ty is Double && (suffix.len() == 0 || suffix == "f64"@) {
                Ok(DefaultV::F64(digits))
            } else {
                Err(ErrV::InvalidDefault(lit))
            }
        },
        LitV::Bool(b) => {
            if ty is Bool {
                Ok(DefaultV::Bool(b))
            } else {
                Err(ErrV::InvalidDefault(lit))
            }
        },
        LitV::ByteStr(bs) => {
            if ty is Bytes {
                Ok(DefaultV::Bytes(bs))
            } else {
                Err(ErrV::InvalidDefault(lit))
            }
        },
        LitV::Str(s) => {
            if ty is Str {
                Ok(DefaultV::Str(s))
            } else {
                spec_str_default(ty, lit, s, depth)
            }
        },
    }
}

/// Resolution of a string literal for a non-string field, over its
/// trimmed content: an enumeration variant name; the special float
/// strings `inf`, `-inf` and `nan`; a negated numeric literal, widened so
/// the minimum representable value does not overflow; or one re-parse of
/// the content as a literal of another kind.
pub open spec fn spec_str_default(ty: TyV, lit: LitV, s: Seq<char>, depth: nat) -> Result<
    DefaultV,
    ErrV,
>
    decreases depth, 1int,
{
    let v = trim_spec(s);
    if ty is Enumeration {
        if is_ident(v) {
            Ok(DefaultV::Enumeration { path: ty->Enumeration_0, variant: VariantRefV::Named(v) })
        } else {
            Err(ErrV::InvalidDefault(lit))
        }
    } else if ty is Float && v == "inf"@ {
        Ok(DefaultV::Path("::core::f32::INFINITY"@))
    } else if ty is Float && v == "-inf"@ {
        Ok(DefaultV::Path("::core::f32::NEG_INFINITY"@))
    } else if ty is Float && v == "nan"@ {
        Ok(DefaultV::Path("::core::f32::NAN"@))
    } else if ty is Double && v == "inf"@ {
        Ok(DefaultV::Path("::core::f64::INFINITY"@))
    } else if ty is Double && v == "-inf"@ {
        Ok(DefaultV::Path("::core::f64::NEG_INFINITY"@))
    } else if ty is Double && v == "nan"@ {
        Ok(DefaultV::Path("::core::f64::NAN"@))
    } else {
        let neg = if v.len() >= 1 && v[0] == '-' {
            spec_parse_lit(v.subrange(1, v.len() as int))
        } else {
            None
        };
        match neg {
            Some(LitV::Int { digits, suffix }) => {
                if is_i32_class(ty) && (suffix.len() == 0 || suffix == "i32"@) {
                    if dec_val(digits) <= 2147483648 {
                        Ok(DefaultV::I32((-(dec_val(digits) as int)) as i32))
                    } else {
                        Err(ErrV::InvalidDefault(lit))
                    }
                } else if is_i64_class(ty) && (suffix.len() == 0 || suffix == "i64"@) {
                    if dec_val(digits) <= 9223372036854775808 {
                        Ok(DefaultV::I64((-(dec_val(digits) as int)) as i64))
                    } else {
                        Err(ErrV::InvalidDefault(lit))
                    }
                } else if ty is Float && suffix.len() == 0 {
                    Ok(DefaultV::F32(seq!['-'] + digits))
                } else if ty is Double && suffix.len() == 0 {
                    Ok(DefaultV::F64(seq!['-'] + digits))
                } else {
                    spec_restart(ty, lit, v, depth)
                }
            },
            Some(LitV::Float { digits, suffix }) => {
                if ty is Float && (suffix.len() == 0 || suffix == "f32"@) {
                    Ok(DefaultV::F32(seq!['-'] + digits))
                } else if ty is Double && (suffix.len() == 0 || suffix == "f64"@) {
                    Ok(DefaultV::F64(seq!['-'] + digits))
                } else {
                    spec_restart(ty, lit, v, depth)
                }
            },
            _ => spec_restart(ty, lit, v, depth),
        }
    }
}

/// The single permitted re-parse of a trimmed string content as a literal
/// of another kind.  Content that is itself a quoted string is rejected,
/// and a second re-parse is never attempted.
pub open spec fn spec_restart(ty: TyV, lit: LitV, v: Seq<char>, depth: nat) -> Result<
    DefaultV,
    ErrV,
>
    decreases depth, 0int,
{
    match spec_parse_lit(v) {
        Some(LitV::Str(_)) => Err(ErrV::InvalidDefault(lit)),
        Some(l2) => {
            if depth > 0 {
                spec_from_lit(ty, l2, (depth - 1) as nat)
            } else {
                Err(ErrV::InvalidDefault(lit))
            }
        },
        None => Err(ErrV::InvalidDefault(lit)),
    }
}

impl DefaultValue {
    /// The literal carried by a `default` attribute, if the attribute is
    /// named `default` and carries one.
    pub fn from_attr(attr: &Attr) -> (r: Option<Lit>)
        ensures
            match r {
                Some(l) => spec_default_attr(attr@) == Some(l@),
                None => spec_default_attr(attr@) is None,
            },
    {
        if !str_eq(attr.name.as_str(), "default") {
            return None;
        }
        match &attr.input {
            AttrInput::Lit(l) => Some(l.clone()),
            _ => None,
        }
    }

    /// Resolves a declared literal into a default of the given scalar
    /// type, with one permitted re-parse of a string's content.
    pub fn from_lit(ty: &Ty, lit: Lit) -> (r: Result<DefaultValue, FieldError>)
        ensures
            view_dv_result(r) == spec_from_lit(ty@, lit@, 1),
    {
        Self::from_lit_depth(ty, lit, 1)
    }

    /// Resolution at a given remaining re-parse depth.
    fn from_lit_depth(ty: &Ty, lit: Lit, depth: u8) -> (r: Result<DefaultValue, FieldError>)
        ensures
            view_dv_result(r) == spec_from_lit(ty@, lit@, depth as nat),
        decreases depth,
    {
        match lit {
            Lit::Int { digits, suffix } => {
                if class_i32(ty) && (suffix.unicode_len() == 0 || str_eq(suffix.as_str(), "i32")) {
                    match parse_dec_u64(digits.as_str()) {
                        Some(v) if v <= i32::MAX as u64 => Ok(DefaultValue::I32(v as i32)),
                        _ => Err(FieldError::InvalidDefault(Lit::Int { digits, suffix })),
                    }
                } else if class_i64(ty) && (suffix.unicode_len() == 0 || str_eq(
                    suffix.as_str(),
                    "i64",
                )) {
                    match parse_dec_u64(digits.as_str()) {
                        Some(v) if v <= i64::MAX as u64 => Ok(DefaultValue::I64(v as i64)),
                        _ => Err(FieldError::InvalidDefault(Lit::Int { digits, suffix })),
                    }
                } else if class_u32(ty) && (suffix.unicode_len() == 0 || str_eq(
                    suffix.as_str(),
                    "u32",
                )) {
                    match parse_dec_u64(digits.as_str()) {
                        Some(v) if v <= u32::MAX as u64 => Ok(DefaultValue::U32(v as u32)),
                        _ => Err(FieldError::InvalidDefault(Lit::Int { digits, suffix })),
                    }
                } else if class_u64(ty) && (suffix.unicode_len() == 0 || str_eq(
                    suffix.as_str(),
                    "u64",
                )) {
                    match parse_dec_u64(digits.as_str()) {
                        Some(v) => Ok(DefaultValue::U64(v)),
                        _ => Err(FieldError::InvalidDefault(Lit::Int { digits, suffix })),
                    }
                } else if matches!(ty, Ty::Float) {
                    Ok(DefaultValue::F32(digits))
                } else if matches!(ty, Ty::Double) {
                    Ok(DefaultValue::F64(digits))
                } else {
                    Err(FieldError::InvalidDefault(Lit::Int { digits, suffix }))
                }
            },
            Lit::Float { digits, suffix } => {
                if matches!(ty, Ty::Float) && (suffix.unicode_len() == 0 || str_eq(
                    suffix.as_str(),
                    "f32",
                )) {
                    Ok(DefaultValue::F32(digits))
                } else if matches!(ty, Ty::Double) && (suffix.unicode_len() == 0 || str_eq(
                    suffix.as_str(),
                    "f64",
                )) {
                    Ok(DefaultValue::F64(digits))
                } else {
                    Err(FieldError::InvalidDefault(Lit::Float { digits, suffix }))
                }
            },
            Lit::Bool(b) => {
                if matches!(ty, Ty::Bool) {
                    Ok(DefaultValue::Bool(b))
                } else {
                    Err(FieldError::InvalidDefault(Lit::Bool(b)))
                }
            },
            Lit::ByteStr(bs) => {
                if matches!(ty, Ty::Bytes) {
                    Ok(DefaultValue::Bytes(bs))
                } else {
                    Err(FieldError::InvalidDefault(Lit::ByteStr(bs)))
                }
            },
            Lit::Str(s) => {
                if matches!(ty, Ty::Str) {
                    Ok(DefaultValue::Str(s))
                } else {
                    Self::str_default(ty, s, depth)
                }
            },
        }
    }

    /// Resolution of a string literal for a non-string field.
    fn str_default(ty: &Ty, s: String, depth: u8) -> (r: Result<DefaultValue, FieldError>)
        requires
            !(ty@ is Str),
        ensures
            view_dv_result(r) == spec_str_default(ty@, LitV::Str(s@), s@, depth as nat),
        decreases depth, 1int,
    {
        let vt = String::from_str(trim_slice(s.as_str()));
        let v = vt.as_str();
        let n = v.unicode_len();
        if let Ty::Enumeration(path) = ty {
            if check_ident(v) {
                return Ok(
                    DefaultValue::Enumeration {
                        path: path.clone(),
                        variant: VariantRef::Named(String::from_str(v)),
                    },
                );
            } else {
                return Err(FieldError::InvalidDefault(Lit::Str(s)));
            }
        }
        if matches!(ty, Ty::Float) {
            if str_eq(v, "inf") {
                return Ok(DefaultValue::Path(String::from_str("::core::f32::INFINITY")));
            } else if str_eq(v, "-inf") {
                return Ok(DefaultValue::Path(String::from_str("::core::f32::NEG_INFINITY")));
            } else if str_eq(v, "nan") {
                return Ok(DefaultValue::Path(String::from_str("::core::f32::NAN")));
            }
        }
        if matches!(ty, Ty::Double) {
            if str_eq(v, "inf") {
                return Ok(DefaultValue::Path(String::from_str("::core::f64::INFINITY")));
            } else if str_eq(v, "-inf") {
                return Ok(DefaultValue::Path(String::from_str("::core::f64::NEG_INFINITY")));
            } else if str_eq(v, "nan") {
                return Ok(DefaultValue::Path(String::from_str("::core::f64::NAN")));
            }
        }
        let neg: Option<Lit> = if n >= 1 && v.get_char(0) == '-' {
            let rest = v.substring_char(1, n);
            proof {
                assert(rest@ =~= trim_spec(s@).subrange(1, trim_spec(s@).len() as int));
            }
            parse_lit(rest)
        } else {
            None
        };
        match neg {
            Some(Lit::Int { digits, suffix }) => {
                if class_i32(ty) && (suffix.unicode_len() == 0 || str_eq(suffix.as_str(), "i32")) {
                    match parse_dec_u64(digits.as_str()) {
                        Some(m) if m <= 2147483648u64 => {
                            let w: i64 = -(m as i64);
                            proof {
                                assert(w as i32 == (-(dec_val(digits@) as int)) as i32);
                            }
                            Ok(DefaultValue::I32(w as i32))
                        },
                        _ => {
                            proof {
                                lemma_parse_lit_int_wf(
                                    trim_spec(s@).subrange(1, trim_spec(s@).len() as int),
                                );
                            }
                            Err(FieldError::InvalidDefault(Lit::Str(s)))
                        },
                    }
                } else if class_i64(ty) && (suffix.unicode_len() == 0 || str_eq(
                    suffix.as_str(),
                    "i64",
                )) {
                    match parse_dec_u64(digits.as_str()) {
                        Some(m) if m <= 9223372036854775808u64 => {
                            let w: i64 = if m == 9223372036854775808u64 {
                                i64::MIN
                            } else {
                                -(m as i64)
                            };
                            proof {
                                assert(w == (-(dec_val(digits@) as int)) as i64);
                            }
                            Ok(DefaultValue::I64(w))
                        },
                        _ => {
                            proof {
                                lemma_parse_lit_int_wf(
                                    trim_spec(s@).subrange(1, trim_spec(s@).len() as int),
                                );
                            }
                            Err(FieldError::InvalidDefault(Lit::Str(s)))
                        },
                    }
                } else if matches!(ty, Ty::Float) && suffix.unicode_len() == 0 {
                    let mut t = String::from_str("-");
                    t.append(digits.as_str());
                    proof {
                        reveal_strlit("-");
                        assert(t@ =~= seq!['-'] + digits@);
                    }
                    Ok(DefaultValue::F32(t))
                } else if matches!(ty, Ty::Double) && suffix.unicode_len() == 0 {
                    let mut t = String::from_str("-");
                    t.append(digits.as_str());
                    proof {
                        reveal_strlit("-");
                        assert(t@ =~= seq!['-'] + digits@);
                    }
                    Ok(DefaultValue::F64(t))
                } else {
                    Self::restart(ty, s, v, depth)
                }
            },
            Some(Lit::Float { digits, suffix }) => {
                if matches!(ty, Ty::Float) && (suffix.unicode_len() == 0 || str_eq(
                    suffix.as_str(),
                    "f32",
                )) {
                    let mut t = String::from_str("-");
                    t.append(digits.as_str());
                    proof {
                        reveal_strlit("-");
                        assert(t@ =~= seq!['-'] + digits@);
                    }
                    Ok(DefaultValue::F32(t))
                } else if matches!(ty, Ty::Double) && (suffix.unicode_len() == 0 || str_eq(
                    suffix.as_str(),
                    "f64",
                )) {
                    let mut t = String::from_str("-");
                    t.append(digits.as_str());
                    proof {
                        reveal_strlit("-");
                        assert(t@ =~= seq!['-'] + digits@);
                    }
                    Ok(DefaultValue::F64(t))
                } else {
                    Self::restart(ty, s, v, depth)
                }
            },
            _ => Self::restart(ty, s, v, depth),
        }
    }

    /// The single permitted re-parse of the trimmed content.
    fn restart(ty: &Ty, s: String, v: &str, depth: u8) -> (r: Result<DefaultValue, FieldError>)
        requires
            v@ == trim_spec(s@),
        ensures
            view_dv_result(r) == spec_restart(ty@, LitV::Str(s@), v@, depth as nat),
        decreases depth, 0int,
    {
        match parse_lit(v) {
            Some(Lit::Str(_)) => Err(FieldError::InvalidDefault(Lit::Str(s))),
            Some(l2) => {
                if depth > 0 {
                    Self::from_lit_depth(ty, l2, depth - 1)
                } else {
                    Err(FieldError::InvalidDefault(Lit::Str(s)))
                }
            },
            None => Err(FieldError::InvalidDefault(Lit::Str(s))),
        }
    }
}

/// The implicit default synthesized when no default is declared: numeric
/// zero of the right width, `false`, the empty string or byte sequence,
/// or the enum type's nominated default variant.
pub open spec fn spec_new_default(ty: TyV) -> DefaultV {
    match ty {
        TyV::Float => DefaultV::F32("0.0"@),
        TyV::Double => DefaultV::F64("0.0"@),
        TyV::Int32 | TyV::Sint32 | TyV::Sfixed32 => DefaultV::I32(0),
        TyV::Int64 | TyV::Sint64 | TyV::Sfixed64 => DefaultV::I64(0),
        TyV::Uint32 | TyV::Fixed32 => DefaultV::U32(0),
        TyV::Uint64 | TyV::Fixed64 => DefaultV::U64(0),
        TyV::Bool => DefaultV::Bool(false),
        TyV::Str => DefaultV::Str(Seq::<char>::empty()),
        TyV::Bytes => DefaultV::Bytes(Seq::<u8>::empty()),
        TyV::Enumeration(p) => DefaultV::Enumeration { path: p, variant: VariantRefV::DefaultCtor },
    }
}

/// The literal form of a resolved default, where one exists: the implicit
/// enumeration default and unrecognized symbolic paths have none.
/// Negative numbers and the special float values serialize as string
/// literals, as the native syntax requires.
pub open spec fn spec_to_lit(d: DefaultV) -> Option<LitV> {
    match d {
        DefaultV::I32(v) => {
            if v >= 0 {
                Some(LitV::Int { digits: crate::num::dec_str(v as nat), suffix: Seq::empty() })
            } else {
                Some(LitV::Str(seq!['-'] + crate::num::dec_str((-(v as int)) as nat)))
            }
        },
        DefaultV::I64(v) => {
            if v >= 0 {
                Some(LitV::Int { digits: crate::num::dec_str(v as nat), suffix: Seq::empty() })
            } else {
                Some(LitV::Str(seq!['-'] + crate::num::dec_str((-(v as int)) as nat)))
            }
        },
        DefaultV::U32(v) => Some(
            LitV::Int { digits: crate::num::dec_str(v as nat), suffix: Seq::empty() },
        ),
        DefaultV::U64(v) => Some(
            LitV::Int { digits: crate::num::dec_str(v as nat), suffix: Seq::empty() },
        ),
        DefaultV::F32(t) => {
            if t.len() >= 1 && t[0] == '-' {
                Some(LitV::Str(t))
            } else {
                Some(LitV::Float { digits: t, suffix: Seq::empty() })
            }
        },
        DefaultV::F64(t) => {
            if t.len() >= 1 && t[0] == '-' {
                Some(LitV::Str(t))
            } else {
                Some(LitV::Float { digits: t, suffix: Seq::empty() })
            }
        },
        DefaultV::Bool(b) => Some(LitV::Bool(b)),
        DefaultV::Str(s) => Some(LitV::Str(s)),
        DefaultV::Bytes(b) => Some(LitV::ByteStr(b)),
        DefaultV::Enumeration { path, variant } => {
            match variant {
                VariantRefV::Named(v) => Some(LitV::Str(v)),
                VariantRefV::DefaultCtor => None,
            }
        },
        DefaultV::Path(t) => {
            if t == "::core::f32::INFINITY"@ || t == "::core::f64::INFINITY"@ {
                Some(LitV::Str("inf"@))
            } else if t == "::core::f32::NEG_INFINITY"@ || t == "::core::f64::NEG_INFINITY"@ {
                Some(LitV::Str("-inf"@))
            } else if t == "::core::f32::NAN"@ || t == "::core::f64::NAN"@ {
                Some(LitV::Str("nan"@))
            } else {
                None
            }
        },
    }
}

impl DefaultValue {
    /// Synthesizes the implicit default of a scalar type.
    pub fn new(ty: &Ty) -> (r: DefaultValue)
        ensures
            r@ == spec_new_default(ty@),
    {
        match ty {
            Ty::Float => DefaultValue::F32(String::from_str("0.0")),
            Ty::Double => DefaultValue::F64(String::from_str("0.0")),
            Ty::Int32 | Ty::Sint32 | Ty::Sfixed32 => DefaultValue::I32(0),
            Ty::Int64 | Ty::Sint64 | Ty::Sfixed64 => DefaultValue::I64(0),
            Ty::Uint32 | Ty::Fixed32 => DefaultValue::U32(0),
            Ty::Uint64 | Ty::Fixed64 => DefaultValue::U64(0),
            Ty::Bool => DefaultValue::Bool(false),
            Ty::Str => DefaultValue::Str(String::new()),
            Ty::Bytes => DefaultValue::Bytes(Vec::new()),
            Ty::Enumeration(p) => DefaultValue::Enumeration {
                path: p.clone(),
                variant: VariantRef::DefaultCtor,
            },
        }
    }

    /// The literal form of this default, where one exists.
    pub fn to_lit(&self) -> (r: Option<Lit>)
        ensures
            match r {
                Some(l) => spec_to_lit(self@) == Some(l@),
                None => spec_to_lit(self@) is None,
            },
    {
        match self {
            DefaultValue::I32(v) => {
                if *v >= 0 {
                    Some(
                        Lit::Int {
                            digits: crate::num::u64_to_dec(*v as u64),
                            suffix: String::new(),
                        },
                    )
                } else {
                    Some(Lit::Str(crate::render::i64_text(*v as i64)))
                }
            },
            DefaultValue::I64(v) => {
                if *v >= 0 {
                    Some(
                        Lit::Int {
                            digits: crate::num::u64_to_dec(*v as u64),
                            suffix: String::new(),
                        },
                    )
                } else {
                    Some(Lit::Str(crate::render::i64_text(*v)))
                }
            },
            DefaultValue::U32(v) => Some(
                Lit::Int { digits: crate::num::u64_to_dec(*v as u64), suffix: String::new() },
            ),
            DefaultValue::U64(v) => Some(
                Lit::Int { digits: crate::num::u64_to_dec(*v), suffix: String::new() },
            ),
            DefaultValue::F32(t) => {
                if t.as_str().unicode_len() >= 1 && t.as_str().get_char(0) == '-' {
                    Some(Lit::Str(t.clone()))
                } else {
                    Some(Lit::Float { digits: t.clone(), suffix: String::new() })
                }
            },
            DefaultValue::F64(t) => {
                if t.as_str().unicode_len() >= 1 && t.as_str().get_char(0) == '-' {
                    Some(Lit::Str(t.clone()))
                } else {
                    Some(Lit::Float { digits: t.clone(), suffix: String::new() })
                }
            },
            DefaultValue::Bool(b) => Some(Lit::Bool(*b)),
            DefaultValue::Str(s) => Some(Lit::Str(s.clone())),
            DefaultValue::Bytes(b) => Some(Lit::ByteStr(b.clone())),
            DefaultValue::Enumeration { path, variant } => {
                match variant {
                    VariantRef::Named(v) => Some(Lit::Str(v.clone())),
                    VariantRef::DefaultCtor => None,
                }
            },
            DefaultValue::Path(t) => {
                if str_eq(t.as_str(), "::core::f32::INFINITY") || str_eq(
                    t.as_str(),
                    "::core::f64::INFINITY",
                ) {
                    Some(Lit::Str(String::from_str("inf")))
                } else if str_eq(t.as_str(), "::core::f32::NEG_INFINITY") || str_eq(
                    t.as_str(),
                    "::core::f64::NEG_INFINITY",
                ) {
                    Some(Lit::Str(String::from_str("-inf")))
                } else if str_eq(t.as_str(), "::core::f32::NAN") || str_eq(
                    t.as_str(),
                    "::core::f64::NAN",
                ) {
                    Some(Lit::Str(String::from_str("nan")))
                } else {
                    None
                }
            },
        }
    }
}

/// The rendered expression of a default value: numbers with their size
/// suffix, quoted and escaped strings, hex-escaped byte strings cast to a
/// byte slice, enumeration variants as qualified paths, and symbolic
/// paths verbatim.
pub open spec fn spec_render(d: DefaultV) -> Seq<char> {
    match d {
        DefaultV::F64(t) => t + "f64"@,
        DefaultV::F32(t) => t + "f32"@,
        DefaultV::I32(v) => int_text(v as int) + "i32"@,
        DefaultV::I64(v) => int_text(v as int) + "i64"@,
        DefaultV::U32(v) => int_text(v as int) + "u32"@,
        DefaultV::U64(v) => int_text(v as int) + "u64"@,
        DefaultV::Bool(b) => if b {
            "true"@
        } else {
            "false"@
        },
        DefaultV::Str(s) => seq!['"'] + escape_str(s) + seq!['"'],
        DefaultV::Bytes(bs) => "b\""@ + byte_lit_body(bs) + "\" as &[u8]"@,
        DefaultV::Enumeration { path, variant } => {
            match variant {
                VariantRefV::Named(v) => path + "::"@ + v,
                VariantRefV::DefaultCtor => path + "::default()"@,
            }
        },
        DefaultV::Path(t) => t,
    }
}

/// The default cast to its storage representation: enumerations are cast
/// to their underlying 32-bit integer.
pub open spec fn spec_typed(d: DefaultV) -> Seq<char> {
    if d is Enumeration {
        spec_render(d) + " as i32"@
    } else {
        spec_render(d)
    }
}

/// The default as an initializer: empty string and byte defaults collapse
/// to a default-constructed form.
pub open spec fn spec_owned(d: DefaultV) -> Seq<char> {
    match d {
        DefaultV::Str(s) => {
            if s.len() == 0 {
                "::core::default::Default::default()"@
            } else {
                seq!['"'] + escape_str(s) + "\".into()"@
            }
        },
        DefaultV::Bytes(bs) => {
            if bs.len() == 0 {
                "::core::default::Default::default()"@
            } else {
                "b\""@ + byte_lit_body(bs) + "\".as_ref().into()"@
            }
        },
        _ => spec_typed(d),
    }
}

/// The default as a comparison operand: string defaults are normalized to
/// their byte-sequence form so that equality gating compares bytes.
pub open spec fn spec_typed_for_cmp(d: DefaultV) -> Seq<char> {
    match d {
        DefaultV::Enumeration { .. } => spec_typed(d),
        DefaultV::Str(s) => "b\""@ + byte_lit_body(vstd::utf8::encode_utf8(s)) + "\" as &[u8]"@,
        _ => spec_render(d),
    }
}

impl DefaultValue {
    /// Renders this default as an expression.
    pub fn render(&self) -> (r: String)
        ensures
            r@ == spec_render(self@),
    {
        match self {
            DefaultValue::F64(t) => {
                let mut out = t.clone();
                out.append("f64");
                out
            },
            DefaultValue::F32(t) => {
                let mut out = t.clone();
                out.append("f32");
                out
            },
            DefaultValue::I32(v) => {
                let mut out = i64_text(*v as i64);
                out.append("i32");
                out
            },
            DefaultValue::I64(v) => {
                let mut out = i64_text(*v);
                out.append("i64");
                out
            },
            DefaultValue::U32(v) => {
                let mut out = i64_text(*v as i64);
                out.append("u32");
                out
            },
            DefaultValue::U64(v) => {
                let mut out = crate::num::u64_to_dec(*v);
                out.append("u64");
                proof {
                    assert(int_text(*v as int) == crate::num::dec_str(*v as nat));
                }
                out
            },
            DefaultValue::Bool(b) => {
                if *b {
                    String::from_str("true")
                } else {
                    String::from_str("false")
                }
            },
            DefaultValue::Str(s) => {
                let mut out = String::from_str("\"");
                out.append(escape_string(s.as_str()).as_str());
                out.append("\"");
                proof {
                    reveal_strlit("\"");
                    assert(out@ =~= spec_render(self@));
                }
                out
            },
            DefaultValue::Bytes(bs) => {
                let mut out = String::from_str("b\"");
                out.append(byte_lit_text(bs.as_slice()).as_str());
                out.append("\" as &[u8]");
                out
            },
            DefaultValue::Enumeration { path, variant } => {
                let mut out = path.clone();
                match variant {
                    VariantRef::Named(v) => {
                        out.append("::");
                        out.append(v.as_str());
                    },
                    VariantRef::DefaultCtor => {
                        out.append("::default()");
                    },
                }
                out
            },
            DefaultValue::Path(t) => t.clone(),
        }
    }

    /// The default cast to its storage representation.
    pub fn typed(&self) -> (r: String)
        ensures
            r@ == spec_typed(self@),
    {
        if matches!(self, DefaultValue::Enumeration { .. }) {
            let mut out = self.render();
            out.append(" as i32");
            out
        } else {
            self.render()
        }
    }

    /// The default as an initializer expression.
    pub fn owned(&self) -> (r: String)
        ensures
            r@ == spec_owned(self@),
    {
        match self {
            DefaultValue::Str(s) => {
                if s.as_str().unicode_len() == 0 {
                    String::from_str("::core::default::Default::default()")
                } else {
                    let mut out = String::from_str("\"");
                    out.append(escape_string(s.as_str()).as_str());
                    out.append("\".into()");
                    proof {
                        reveal_strlit("\"");
                        assert(out@ =~= spec_owned(self@));
                    }
                    out
                }
            },
            DefaultValue::Bytes(bs) => {
                if bs.len() == 0 {
                    String::from_str("::core::default::Default::default()")
                } else {
                    let mut out = String::from_str("b\"");
                    out.append(byte_lit_text(bs.as_slice()).as_str());
                    out.append("\".as_ref().into()");
                    out
                }
            },
            _ => self.typed(),
        }
    }

    /// The default as a comparison operand.
    pub fn typed_for_cmp(&self) -> (r: String)
        ensures
            r@ == spec_typed_for_cmp(self@),
    {
        match self {
            DefaultValue::Enumeration { .. } => self.typed(),
            DefaultValue::Str(s) => {
                let bytes = s.as_str().as_bytes();
                let mut out = String::from_str("b\"");
                out.append(byte_lit_text(bytes).as_str());
                out.append("\" as &[u8]");
                out
            },
            _ => self.render(),
        }
    }
}

/// The literal carried by a `default` attribute.
pub open spec fn spec_default_attr(attr: AttrV) -> Option<LitV> {
    if attr.name == "default"@ {
        match attr.input {
            AttrInputV::Lit(l) => Some(l),
            _ => None,
        }
    } else {
        None
    }
}

} // verus!
