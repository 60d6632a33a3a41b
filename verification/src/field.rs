//! Scalar fields: the resolver that turns an attribute list into a
//! validated field descriptor, and the emitter that produces its code
//! fragments.

use vstd::prelude::*;

use crate::attr::{bool_attr, spec_bool_attr, spec_label_from_attr, spec_tag_attr, tag_attr, Attr,
    Label};
use crate::default_value::{spec_default_attr, spec_from_lit, spec_new_default, DefaultV,
    DefaultValue};
use crate::errors::{AttrClass, ErrV, FieldError};
use crate::lit::{Lit, LitV};
use crate::ty::{spec_is_numeric, spec_ty_from_attr, view_ty_result, Ty, TyV};

verus! {

/// The five field-handling strategies.  `Repeated` and `Packed` carry no
/// default: repeated fields cannot have one.
#[derive(Debug, PartialEq, Eq)]
pub enum Kind {
    /// A plain field: encoded only when it differs from its default.
    Plain(DefaultValue),
    /// An explicitly optional field.
    Optional(DefaultValue),
    /// A required field, always encoded.
    Required(DefaultValue),
    /// A repeated field, one tagged entry per element.
    Repeated,
    /// A packed repeated field of a numeric type.
    Packed,
}

/// The mathematical model of a field kind.
pub enum KindV {
    Plain(DefaultV),
    Optional(DefaultV),
    Required(DefaultV),
    Repeated,
    Packed,
}

impl View for Kind {
    type V = KindV;

    open spec fn view(&self) -> KindV {
        match self {
            Kind::Plain(d) => KindV::Plain(d@),
            Kind::Optional(d) => KindV::Optional(d@),
            Kind::Required(d) => KindV::Required(d@),
            Kind::Repeated => KindV::Repeated,
            Kind::Packed => KindV::Packed,
        }
    }
}

impl Clone for Kind {
    fn clone(&self) -> (r: Self)
        ensures
            r@ == self@,
    {
        match self {
            Kind::Plain(d) => Kind::Plain(d.clone()),
            Kind::Optional(d) => Kind::Optional(d.clone()),
            Kind::Required(d) => Kind::Required(d.clone()),
            Kind::Repeated => Kind::Repeated,
            Kind::Packed => Kind::Packed,
        }
    }
}

/// A resolved scalar field: its wire type, handling kind, and tag.
#[derive(Debug, PartialEq, Eq)]
pub struct Field {
    pub ty: Ty,
    pub kind: Kind,
    pub tag: u32,
}

/// The mathematical model of a resolved field.
pub struct FieldV {
    pub ty: TyV,
    pub kind: KindV,
    pub tag: u32,
}

impl View for Field {
    type V = FieldV;

    open spec fn view(&self) -> FieldV {
        FieldV { ty: self.ty@, kind: self.kind@, tag: self.tag }
    }
}

impl Clone for Field {
    fn clone(&self) -> (r: Self)
        ensures
            r@ == self@,
    {
        Field { ty: self.ty.clone(), kind: self.kind.clone(), tag: self.tag }
    }
}

/// The resolution table over (label, packed flag, has-explicit-default):
/// the three invalid combinations fail, and every other combination
/// yields exactly one kind.  Absent an explicit packed flag, a repeated
/// field is packed exactly when its scalar type is numeric.
pub open spec fn spec_resolve_kind(
    numeric: bool,
    label: Option<Label>,
    packed: Option<bool>,
    has_default: bool,
    dflt: DefaultV,
) -> Result<KindV, ErrV> {
    if packed == Some(true) && label != Some(Label::Repeated) {
        Err(ErrV::PackedNotRepeated)
    } else if label == Some(Label::Repeated) && packed == Some(true) && !numeric {
        Err(ErrV::PackedNotNumeric)
    } else if label == Some(Label::Repeated) && has_default {
        Err(ErrV::RepeatedDefault)
    } else {
        match label {
            None => Ok(KindV::Plain(dflt)),
            Some(Label::Optional) => Ok(KindV::Optional(dflt)),
            Some(Label::Required) => Ok(KindV::Required(dflt)),
            Some(Label::Repeated) => {
                if packed == Some(true) || (packed is None && numeric) {
                    Ok(KindV::Packed)
                } else {
                    Ok(KindV::Repeated)
                }
            },
        }
    }
}

/// The view of a kind-resolver result.
pub open spec fn view_kind_result(r: Result<Kind, FieldError>) -> Result<KindV, ErrV> {
    match r {
        Ok(k) => Ok(k@),
        Err(e) => Err(e@),
    }
}

/// Combines label, packed flag and presence-of-default into one field
/// kind, rejecting the invalid combinations.
pub fn resolve_kind(
    numeric: bool,
    label: Option<Label>,
    packed: Option<bool>,
    has_default: bool,
    dflt: DefaultValue,
) -> (r: Result<Kind, FieldError>)
    ensures
        view_kind_result(r) == spec_resolve_kind(numeric, label, packed, has_default, dflt@),
{
    if packed == Some(true) && label != Some(Label::Repeated) {
        Err(FieldError::PackedNotRepeated)
    } else if label == Some(Label::Repeated) && packed == Some(true) && !numeric {
        Err(FieldError::PackedNotNumeric)
    } else if label == Some(Label::Repeated) && has_default {
        Err(FieldError::RepeatedDefault)
    } else {
        match label {
            None => Ok(Kind::Plain(dflt)),
            Some(Label::Optional) => Ok(Kind::Optional(dflt)),
            Some(Label::Required) => Ok(Kind::Required(dflt)),
            Some(Label::Repeated) => {
                if packed == Some(true) || (packed.is_none() && numeric) {
                    Ok(Kind::Packed)
                } else {
                    Ok(Kind::Repeated)
                }
            },
        }
    }
}

/// The running state of the attribute scan.
pub struct Scan {
    pub ty: Option<TyV>,
    pub label: Option<Label>,
    pub packed: Option<bool>,
    pub tag: Option<u32>,
    pub dflt: Option<LitV>,
    pub unknown: Seq<Seq<char>>,
}

/// The empty scan state.
pub open spec fn scan_empty() -> Scan {
    Scan {
        ty: None,
        label: None,
        packed: None,
        tag: None,
        dflt: None,
        unknown: Seq::empty(),
    }
}

/// One pass over the attribute list.  Each attribute is routed to exactly
/// one resolver, in the order type, packed, tag, label, default; a second
/// attribute of the same class is a duplicate error, and an attribute
/// recognized by none is collected for the unknown-attribute report.
pub open spec fn spec_scan(attrs: Seq<Attr>, st: Scan) -> Result<Scan, ErrV>
    decreases attrs.len(),
{
    if attrs.len() == 0 {
        Ok(st)
    } else {
        let a = attrs[0]@;
        let rest = attrs.drop_first();
        match spec_ty_from_attr(a) {
            Err(e) => Err(e),
            Ok(Some(t)) => {
                if st.ty is Some {
                    Err(ErrV::DuplicateAttr(AttrClass::TypeAttr))
                } else {
                    spec_scan(rest, Scan { ty: Some(t), ..st })
                }
            },
            Ok(None) => {
                match spec_bool_attr("packed"@, a) {
                    Some(p) => {
                        if st.packed is Some {
                            Err(ErrV::DuplicateAttr(AttrClass::PackedAttr))
                        } else {
                            spec_scan(rest, Scan { packed: Some(p), ..st })
                        }
                    },
                    None => {
                        match spec_tag_attr(a) {
                            Some(tg) => {
                                if st.tag is Some {
                                    Err(ErrV::DuplicateAttr(AttrClass::TagAttr))
                                } else {
                                    spec_scan(rest, Scan { tag: Some(tg), ..st })
                                }
                            },
                            None => {
                                match spec_label_from_attr(a) {
                                    Some(l) => {
                                        if st.label is Some {
                                            Err(ErrV::DuplicateAttr(AttrClass::LabelAttr))
                                        } else {
                                            spec_scan(rest, Scan { label: Some(l), ..st })
                                        }
                                    },
                                    None => {
                                        match spec_default_attr(a) {
                                            Some(d) => {
                                                if st.dflt is Some {
                                                    Err(
                                                        ErrV::DuplicateAttr(
                                                            AttrClass::DefaultAttr,
                                                        ),
                                                    )
                                                } else {
                                                    spec_scan(rest, Scan { dflt: Some(d), ..st })
                                                }
                                            },
                                            None => {
                                                spec_scan(
                                                    rest,
                                                    Scan {
                                                        unknown: st.unknown.push(a.name),
                                                        ..st
                                                    },
                                                )
                                            },
                                        }
                                    },
                                }
                            },
                        }
                    },
                }
            },
        }
    }
}

/// Resolution of a whole attribute list into a field descriptor.  `Ok
/// (None)` reports that no type attribute is present, so the field is not
/// a scalar field at all; that takes precedence over the unknown-
/// attribute report.  The tag is the explicit one, or the positionally
/// inferred one, or missing.
pub open spec fn spec_field_new(attrs: Seq<Attr>, inferred_tag: Option<u32>) -> Result<
    Option<FieldV>,
    ErrV,
> {
    match spec_scan(attrs, scan_empty()) {
        Err(e) => Err(e),
        Ok(st) => {
            match st.ty {
                None => Ok(None),
                Some(ty) => {
                    if st.unknown.len() > 0 {
                        Err(ErrV::UnknownAttrs(st.unknown))
                    } else {
                        let tag = if st.tag is Some {
                            st.tag
                        } else {
                            inferred_tag
                        };
                        match tag {
                            None => Err(ErrV::MissingTag),
                            Some(tg) => {
                                let dres = match st.dflt {
                                    Some(l) => spec_from_lit(ty, l, 1),
                                    None => Ok(spec_new_default(ty)),
                                };
                                match dres {
                                    Err(e) => Err(e),
                                    Ok(d) => {
                                        match spec_resolve_kind(
                                            spec_is_numeric(ty),
                                            st.label,
                                            st.packed,
                                            st.dflt is Some,
                                            d,
                                        ) {
                                            Err(e) => Err(e),
                                            Ok(k) => Ok(
                                                Some(FieldV { ty: ty, kind: k, tag: tg }),
                                            ),
                                        }
                                    },
                                }
                            },
                        }
                    }
                },
            }
        },
    }
}

/// The view of a field-resolver result.
pub open spec fn view_field_result(r: Result<Option<Field>, FieldError>) -> Result<
    Option<FieldV>,
    ErrV,
> {
    match r {
        Ok(None) => Ok(None),
        Ok(Some(f)) => Ok(Some(f@)),
        Err(e) => Err(e@),
    }
}

/// The view of the exec scan state.
pub open spec fn scan_view(
    ty: Option<Ty>,
    label: Option<Label>,
    packed: Option<bool>,
    tag: Option<u32>,
    dflt: Option<Lit>,
    unknown: Seq<String>,
) -> Scan {
    Scan {
        ty: match ty {
            Some(t) => Some(t@),
            None => None,
        },
        label,
        packed,
        tag,
        dflt: match dflt {
            Some(l) => Some(l@),
            None => None,
        },
        unknown: unknown.map_values(|s: String| s@),
    }
}

impl Field {
    /// Resolves a field declaration's attributes into a scalar field
    /// descriptor, or reports that the declaration names no scalar type.
    pub fn new(attrs: &Vec<Attr>, inferred_tag: Option<u32>) -> (r: Result<
        Option<Field>,
        FieldError,
    >)
        ensures
            view_field_result(r) == spec_field_new(attrs@, inferred_tag),
    {
        let mut ty: Option<Ty> = None;
        let mut label: Option<Label> = None;
        let mut packed: Option<bool> = None;
        let mut tag: Option<u32> = None;
        let mut dflt: Option<Lit> = None;
        let mut unknown: Vec<String> = Vec::new();

        let n = attrs.len();
        proof {
            assert(unknown@.map_values(|s: String| s@) =~= Seq::<Seq<char>>::empty());
            assert(scan_view(ty, label, packed, tag, dflt, unknown@) == scan_empty());
            assert(attrs@.subrange(0, n as int) =~= attrs@);
        }
        let mut i: usize = 0;
        while i < n
            invariant
                n == attrs@.len(),
                0 <= i <= n,
                spec_scan(attrs@, scan_empty()) == spec_scan(
                    attrs@.subrange(i as int, n as int),
                    scan_view(ty, label, packed, tag, dflt, unknown@),
                ),
            decreases n - i,
        {
            let ghost pre = scan_view(ty, label, packed, tag, dflt, unknown@);
            let ghost rem = attrs@.subrange(i as int, n as int);
            proof {
                assert(rem[0] == attrs@[i as int]);
                assert(rem.drop_first() =~= attrs@.subrange(i + 1 as int, n as int));
            }
            let a = &attrs[i];
            match Ty::from_attr(a) {
                Err(e) => {
                    return Err(e);
                },
                Ok(Some(t)) => {
                    if ty.is_some() {
                        return Err(FieldError::DuplicateAttr(AttrClass::TypeAttr));
                    }
                    ty = Some(t);
                },
                Ok(None) => {
                    match bool_attr("packed", a) {
                        Some(p) => {
                            if packed.is_some() {
                                return Err(FieldError::DuplicateAttr(AttrClass::PackedAttr));
                            }
                            packed = Some(p);
                        },
                        None => {
                            match tag_attr(a) {
                                Some(tg) => {
                                    if tag.is_some() {
                                        return Err(
                                            FieldError::DuplicateAttr(AttrClass::TagAttr),
                                        );
                                    }
                                    tag = Some(tg);
                                },
                                None => {
                                    match Label::from_attr(a) {
                                        Some(l) => {
                                            if label.is_some() {
                                                return Err(
                                                    FieldError::DuplicateAttr(
                                                        AttrClass::LabelAttr,
                                                    ),
                                                );
                                            }
                                            label = Some(l);
                                        },
                                        None => {
                                            match DefaultValue::from_attr(a) {
                                                Some(d) => {
                                                    if dflt.is_some() {
                                                        return Err(
                                                            FieldError::DuplicateAttr(
                                                                AttrClass::DefaultAttr,
                                                            ),
                                                        );
                                                    }
                                                    dflt = Some(d);
                                                },
                                                None => {
                                                    unknown.push(a.name.clone());
                                                    proof {
                                                        assert(unknown@.map_values(
                                                            |s: String| s@,
                                                        ) =~= pre.unknown.push(a@.name));
                                                    }
                                                },
                                            }
                                        },
                                    }
                                },
                            }
                        },
                    }
                },
            }
            i = i + 1;
        }
        proof {
            assert(attrs@.subrange(n as int, n as int) =~= Seq::<Attr>::empty());
        }

        let ty = match ty {
            Some(t) => t,
            None => {
                return Ok(None);
            },
        };
        if unknown.len() > 0 {
            proof {
                assert(unknown.deep_view() =~= unknown@.map_values(|s: String| s@));
            }
            return Err(FieldError::UnknownAttrs(unknown));
        }
        let tag: u32 = match tag {
            Some(tg) => tg,
            None => {
                match inferred_tag {
                    Some(tg) => tg,
                    None => {
                        return Err(FieldError::MissingTag);
                    },
                }
            },
        };
        let has_default = dflt.is_some();
        let dres: Result<DefaultValue, FieldError> = match dflt {
            Some(l) => DefaultValue::from_lit(&ty, l),
            None => Ok(DefaultValue::new(&ty)),
        };
        let d = match dres {
            Ok(d) => d,
            Err(e) => {
                return Err(e);
            },
        };
        let numeric = ty.is_numeric();
        match resolve_kind(numeric, label, packed, has_default, d) {
            Ok(kind) => Ok(Some(Field { ty, kind, tag })),
            Err(e) => Err(e),
        }
    }

    /// Resolves a field declaration as a oneof member: a plain field is
    /// reinterpreted as required, and any cardinality marker is rejected.
    pub fn new_oneof(attrs: &Vec<Attr>) -> (r: Result<Option<Field>, FieldError>)
        ensures
            view_field_result(r) == spec_new_oneof(attrs@),
    {
        match Field::new(attrs, None) {
            Err(e) => Err(e),
            Ok(None) => Ok(None),
            Ok(Some(f)) => {
                let Field { ty, kind, tag } = f;
                match kind {
                    Kind::Plain(d) => Ok(Some(Field { ty, kind: Kind::Required(d), tag })),
                    Kind::Optional(_) => Err(FieldError::OneofOptional),
                    Kind::Required(_) => Err(FieldError::OneofRequired),
                    Kind::Repeated | Kind::Packed => Err(FieldError::OneofRepeated),
                }
            },
        }
    }
}

/// A structured code fragment for one field: a conditional form guarded
/// by inequality with the default (byte-wise for string and bytes
/// fields, native equality otherwise), or an unconditional form.
#[derive(Debug, PartialEq, Eq)]
pub enum CodeFragment {
    /// Emit only when the value's bytes differ from the default's bytes.
    GuardedBytes { accessor: String, tag: u32, default: DefaultValue },
    /// Emit only when the value differs from the default.
    GuardedEq { accessor: String, tag: u32, default: DefaultValue },
    /// Emit unconditionally.
    Always { accessor: String, tag: u32 },
}

/// The mathematical model of a code fragment.
pub enum CodeFragmentV {
    GuardedBytes { accessor: Seq<char>, tag: u32, default: DefaultV },
    GuardedEq { accessor: Seq<char>, tag: u32, default: DefaultV },
    Always { accessor: Seq<char>, tag: u32 },
}

impl View for CodeFragment {
    type V = CodeFragmentV;

    open spec fn view(&self) -> CodeFragmentV {
        match self {
            CodeFragment::GuardedBytes { accessor, tag, default } => CodeFragmentV::GuardedBytes {
                accessor: accessor@,
                tag: *tag,
                default: default@,
            },
            CodeFragment::GuardedEq { accessor, tag, default } => CodeFragmentV::GuardedEq {
                accessor: accessor@,
                tag: *tag,
                default: default@,
            },
            CodeFragment::Always { accessor, tag } => CodeFragmentV::Always {
                accessor: accessor@,
                tag: *tag,
            },
        }
    }
}

/// The fragment of a resolved field: plain fields are guarded by
/// inequality with their default, every other kind emits unconditionally.
pub open spec fn spec_fragment(f: FieldV, accessor: Seq<char>) -> CodeFragmentV {
    match f.kind {
        KindV::Plain(d) => {
            if f.ty is Str || f.ty is Bytes {
                CodeFragmentV::GuardedBytes { accessor, tag: f.tag, default: d }
            } else {
                CodeFragmentV::GuardedEq { accessor, tag: f.tag, default: d }
            }
        },
        _ => CodeFragmentV::Always { accessor, tag: f.tag },
    }
}

/// The rendered encode statement of a fragment.
pub open spec fn spec_encode_text(fr: CodeFragmentV) -> Seq<char> {
    match fr {
        CodeFragmentV::GuardedBytes { accessor, tag, default } => "if !"@ + accessor
            + ".is_default("@ + crate::default_value::spec_typed_for_cmp(default)
            + ") { NativeType::serialize(&"@ + accessor + ", "@ + crate::num::dec_str(tag as nat)
            + ", buf); }"@,
        CodeFragmentV::GuardedEq { accessor, tag, default } => "if "@ + accessor + " != "@
            + crate::default_value::spec_typed(default) + " { NativeType::serialize(&"@ + accessor
            + ", "@ + crate::num::dec_str(tag as nat) + ", buf); }"@,
        CodeFragmentV::Always { accessor, tag } => "NativeType::serialize(&"@ + accessor + ", "@
            + crate::num::dec_str(tag as nat) + ", buf)"@,
    }
}

/// The rendered encoded-length expression of a fragment: zero when a
/// guarded fragment's value equals its default, the field length
/// otherwise.
pub open spec fn spec_len_text(fr: CodeFragmentV) -> Seq<char> {
    match fr {
        CodeFragmentV::GuardedBytes { accessor, tag, default } => "if !"@ + accessor
            + ".is_default("@ + crate::default_value::spec_typed_for_cmp(default)
            + ") { NativeType::field_len(&"@ + accessor + ", "@ + crate::num::dec_str(tag as nat)
            + ") } else { 0 }"@,
        CodeFragmentV::GuardedEq { accessor, tag, default } => "if "@ + accessor + " != "@
            + crate::default_value::spec_typed(default) + " { NativeType::field_len(&"@ + accessor
            + ", "@ + crate::num::dec_str(tag as nat) + ") } else { 0 }"@,
        CodeFragmentV::Always { accessor, tag } => "NativeType::field_len(&"@ + accessor + ", "@
            + crate::num::dec_str(tag as nat) + ")"@,
    }
}

/// The default-value expression of a field: the owned default for plain
/// and required fields, a default-constructed container for optional
/// fields, and an empty vector for repeated and packed fields.
pub open spec fn spec_default_expr(k: KindV) -> Seq<char> {
    match k {
        KindV::Plain(d) => crate::default_value::spec_owned(d),
        KindV::Required(d) => crate::default_value::spec_owned(d),
        KindV::Optional(_) => "::core::default::Default::default()"@,
        KindV::Repeated => "::std::vec::Vec::new()"@,
        KindV::Packed => "::std::vec::Vec::new()"@,
    }
}

impl Field {
    /// The structured fragment of this field for the given storage
    /// accessor.
    pub fn fragment(&self, accessor: &str) -> (r: CodeFragment)
        ensures
            r@ == spec_fragment(self@, accessor@),
    {
        match &self.kind {
            Kind::Plain(d) => {
                if matches!(self.ty, Ty::Str | Ty::Bytes) {
                    CodeFragment::GuardedBytes {
                        accessor: String::from_str(accessor),
                        tag: self.tag,
                        default: d.clone(),
                    }
                } else {
                    CodeFragment::GuardedEq {
                        accessor: String::from_str(accessor),
                        tag: self.tag,
                        default: d.clone(),
                    }
                }
            },
            _ => CodeFragment::Always { accessor: String::from_str(accessor), tag: self.tag },
        }
    }

    /// The conditional encode statement for this field.
    pub fn encode(&self, accessor: &str) -> (r: String)
        ensures
            r@ == spec_encode_text(spec_fragment(self@, accessor@)),
    {
        let fr = self.fragment(accessor);
        render_encode(&fr)
    }

    /// The conditional encoded-length expression for this field.
    pub fn encoded_len(&self, accessor: &str) -> (r: String)
        ensures
            r@ == spec_len_text(spec_fragment(self@, accessor@)),
    {
        let fr = self.fragment(accessor);
        render_encoded_len(&fr)
    }

    /// The default-value expression assigned to this field's storage at
    /// construction time.
    pub fn default(&self) -> (r: String)
        ensures
            r@ == spec_default_expr(self@.kind),
    {
        match &self.kind {
            Kind::Plain(d) => d.owned(),
            Kind::Required(d) => d.owned(),
            Kind::Optional(_) => String::from_str("::core::default::Default::default()"),
            Kind::Repeated => String::from_str("::std::vec::Vec::new()"),
            Kind::Packed => String::from_str("::std::vec::Vec::new()"),
        }
    }
}

/// Renders a fragment as an encode statement.
pub fn render_encode(fr: &CodeFragment) -> (r: String)
    ensures
        r@ == spec_encode_text(fr@),
{
    match fr {
        CodeFragment::GuardedBytes { accessor, tag, default } => {
            let mut out = String::from_str("if !");
            out.append(accessor.as_str());
            out.append(".is_default(");
            out.append(default.typed_for_cmp().as_str());
            out.append(") { NativeType::serialize(&");
            out.append(accessor.as_str());
            out.append(", ");
            out.append(crate::num::u64_to_dec(*tag as u64).as_str());
            out.append(", buf); }");
            out
        },
        CodeFragment::GuardedEq { accessor, tag, default } => {
            let mut out = String::from_str("if ");
            out.append(accessor.as_str());
            out.append(" != ");
            out.append(default.typed().as_str());
            out.append(" { NativeType::serialize(&");
            out.append(accessor.as_str());
            out.append(", ");
            out.append(crate::num::u64_to_dec(*tag as u64).as_str());
            out.append(", buf); }");
            out
        },
        CodeFragment::Always { accessor, tag } => {
            let mut out = String::from_str("NativeType::serialize(&");
            out.append(accessor.as_str());
            out.append(", ");
            out.append(crate::num::u64_to_dec(*tag as u64).as_str());
            out.append(", buf)");
            out
        },
    }
}

/// Renders a fragment as an encoded-length expression.
pub fn render_encoded_len(fr: &CodeFragment) -> (r: String)
    ensures
        r@ == spec_len_text(fr@),
{
    match fr {
        CodeFragment::GuardedBytes { accessor, tag, default } => {
            let mut out = String::from_str("if !");
            out.append(accessor.as_str());
            out.append(".is_default(");
            out.append(default.typed_for_cmp().as_str());
            out.append(") { NativeType::field_len(&");
            out.append(accessor.as_str());
            out.append(", ");
            out.append(crate::num::u64_to_dec(*tag as u64).as_str());
            out.append(") } else { 0 }");
            out
        },
        CodeFragment::GuardedEq { accessor, tag, default } => {
            let mut out = String::from_str("if ");
            out.append(accessor.as_str());
            out.append(" != ");
            out.append(default.typed().as_str());
            out.append(" { NativeType::field_len(&");
            out.append(accessor.as_str());
            out.append(", ");
            out.append(crate::num::u64_to_dec(*tag as u64).as_str());
            out.append(") } else { 0 }");
            out
        },
        CodeFragment::Always { accessor, tag } => {
            let mut out = String::from_str("NativeType::field_len(&");
            out.append(accessor.as_str());
            out.append(", ");
            out.append(crate::num::u64_to_dec(*tag as u64).as_str());
            out.append(")");
            out
        },
    }
}

/// A runtime value a field's storage can hold, as the guard of a
/// conditional fragment sees it.
#[derive(Debug, PartialEq, Eq)]
pub enum FieldValue {
    I32(i32),
    I64(i64),
    U32(u32),
    U64(u64),
    Bool(bool),
    Str(String),
    Bytes(Vec<u8>),
}

/// The mathematical model of a runtime field value.
pub enum FieldValueV {
    I32(i32),
    I64(i64),
    U32(u32),
    U64(u64),
    Bool(bool),
    Str(Seq<char>),
    Bytes(Seq<u8>),
}

impl View for FieldValue {
    type V = FieldValueV;

    open spec fn view(&self) -> FieldValueV {
        match self {
            FieldValue::I32(v) => FieldValueV::I32(*v),
            FieldValue::I64(v) => FieldValueV::I64(*v),
            FieldValue::U32(v) => FieldValueV::U32(*v),
            FieldValue::U64(v) => FieldValueV::U64(*v),
            FieldValue::Bool(b) => FieldValueV::Bool(*b),
            FieldValue::Str(s) => FieldValueV::Str(s@),
            FieldValue::Bytes(b) => FieldValueV::Bytes(b@),
        }
    }
}

/// Whether a runtime value equals a resolved default, as the generated
/// guard compares them: strings by their character content, bytes by
/// their byte content, numerics and booleans by value.
pub open spec fn spec_matches_default(v: FieldValueV, d: DefaultV) -> bool {
    match (v, d) {
        (FieldValueV::I32(a), DefaultV::I32(b)) => a == b,
        (FieldValueV::I64(a), DefaultV::I64(b)) => a == b,
        (FieldValueV::U32(a), DefaultV::U32(b)) => a == b,
        (FieldValueV::U64(a), DefaultV::U64(b)) => a == b,
        (FieldValueV::Bool(a), DefaultV::Bool(b)) => a == b,
        (FieldValueV::Str(a), DefaultV::Str(b)) => a == b,
        (FieldValueV::Bytes(a), DefaultV::Bytes(b)) => a == b,
        _ => false,
    }
}

/// Whether a fragment emits output for a given runtime value: guarded
/// fragments emit exactly when the value differs from the default,
/// unconditional fragments always emit.
pub open spec fn spec_fragment_emits(fr: CodeFragmentV, v: FieldValueV) -> bool {
    match fr {
        CodeFragmentV::GuardedBytes { default, .. } => !spec_matches_default(v, default),
        CodeFragmentV::GuardedEq { default, .. } => !spec_matches_default(v, default),
        CodeFragmentV::Always { .. } => true,
    }
}

/// The encoded-length contribution of a fragment for a given runtime
/// value, where `field_len` is the field's true encoded length: zero when
/// the fragment does not emit.
pub open spec fn spec_len_contribution(fr: CodeFragmentV, v: FieldValueV, field_len: nat) -> nat {
    if spec_fragment_emits(fr, v) {
        field_len
    } else {
        0
    }
}

/// Evaluates a fragment's guard on a runtime value.
pub fn fragment_emits(fr: &CodeFragment, v: &FieldValue) -> (r: bool)
    ensures
        r == spec_fragment_emits(fr@, v@),
{
    match fr {
        CodeFragment::Always { .. } => true,
        CodeFragment::GuardedBytes { default, .. } => !value_matches_default(v, default),
        CodeFragment::GuardedEq { default, .. } => !value_matches_default(v, default),
    }
}

/// Evaluates the guard's equality comparison.
fn value_matches_default(v: &FieldValue, d: &DefaultValue) -> (r: bool)
    ensures
        r == spec_matches_default(v@, d@),
{
    match (v, d) {
        (FieldValue::I32(a), DefaultValue::I32(b)) => *a == *b,
        (FieldValue::I64(a), DefaultValue::I64(b)) => *a == *b,
        (FieldValue::U32(a), DefaultValue::U32(b)) => *a == *b,
        (FieldValue::U64(a), DefaultValue::U64(b)) => *a == *b,
        (FieldValue::Bool(a), DefaultValue::Bool(b)) => *a == *b,
        (FieldValue::Str(a), DefaultValue::Str(b)) => crate::text::str_eq(a.as_str(), b.as_str()),
        (FieldValue::Bytes(a), DefaultValue::Bytes(b)) => crate::text::bytes_eq(
            a.as_slice(),
            b.as_slice(),
        ),
        _ => false,
    }
}

/// Resolution of a oneof member: a plain attribute set resolves to
/// `Required`; explicit cardinality markers are invalid on oneof fields.
pub open spec fn spec_new_oneof(attrs: Seq<Attr>) -> Result<Option<FieldV>, ErrV> {
    match spec_field_new(attrs, None) {
        Err(e) => Err(e),
        Ok(None) => Ok(None),
        Ok(Some(f)) => {
            match f.kind {
                KindV::Plain(d) => Ok(
                    Some(FieldV { ty: f.ty, kind: KindV::Required(d), tag: f.tag }),
                ),
                KindV::Optional(_) => Err(ErrV::OneofOptional),
                KindV::Required(_) => Err(ErrV::OneofRequired),
                KindV::Repeated => Err(ErrV::OneofRepeated),
                KindV::Packed => Err(ErrV::OneofRepeated),
            }
        },
    }
}

} // verus!
