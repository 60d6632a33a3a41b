//! The library's laws: properties that relate several functions, stated
//! and proved over the spec-level models the contracts use.

use vstd::prelude::*;

use crate::attr::Label;
use crate::default_value::{spec_from_lit, spec_to_lit, DefaultV};
use crate::errors::ErrV;
use crate::field::{spec_fragment, spec_fragment_emits, spec_len_contribution, spec_resolve_kind,
    FieldV, FieldValueV, KindV};
use crate::lit::{lit_wf, LitV};
use crate::num::{all_digits, dec_val};
use crate::ty::TyV;

verus! {

/// The kind resolution table is total and deterministic over the
/// (label, packed, has-default) space: exactly the five invalid
/// combinations fail, each with its own error, and every other
/// combination yields exactly one kind.
pub proof fn lemma_resolve_kind_table(
    numeric: bool,
    label: Option<Label>,
    packed: Option<bool>,
    has_default: bool,
    dflt: DefaultV,
)
    ensures
        spec_resolve_kind(numeric, label, packed, has_default, dflt) is Err <==> ((packed == Some(
            true,
        ) && label != Some(Label::Repeated)) || (label == Some(Label::Repeated) && packed == Some(
            true,
        ) && !numeric) || (label == Some(Label::Repeated) && has_default)),
        packed == Some(true) && label != Some(Label::Repeated) ==> spec_resolve_kind(
            numeric,
            label,
            packed,
            has_default,
            dflt,
        ) == Err::<KindV, ErrV>(ErrV::PackedNotRepeated),
        label == Some(Label::Repeated) && packed == Some(true) && !numeric ==> spec_resolve_kind(
            numeric,
            label,
            packed,
            has_default,
            dflt,
        ) == Err::<KindV, ErrV>(ErrV::PackedNotNumeric),
        label == Some(Label::Repeated) && (packed != Some(true) || numeric) && has_default
            ==> spec_resolve_kind(numeric, label, packed, has_default, dflt) == Err::<
            KindV,
            ErrV,
        >(ErrV::RepeatedDefault),
        label is None && packed != Some(true) ==> spec_resolve_kind(
            numeric,
            label,
            packed,
            has_default,
            dflt,
        ) == Ok::<KindV, ErrV>(KindV::Plain(dflt)),
        label == Some(Label::Optional) && packed != Some(true) ==> spec_resolve_kind(
            numeric,
            label,
            packed,
            has_default,
            dflt,
        ) == Ok::<KindV, ErrV>(KindV::Optional(dflt)),
        label == Some(Label::Required) && packed != Some(true) ==> spec_resolve_kind(
            numeric,
            label,
            packed,
            has_default,
            dflt,
        ) == Ok::<KindV, ErrV>(KindV::Required(dflt)),
        label == Some(Label::Repeated) && !has_default && (packed == Some(true) && numeric
            || packed is None && numeric) ==> spec_resolve_kind(
            numeric,
            label,
            packed,
            has_default,
            dflt,
        ) == Ok::<KindV, ErrV>(KindV::Packed),
        label == Some(Label::Repeated) && !has_default && (packed == Some(false) || packed is None
            && !numeric) ==> spec_resolve_kind(numeric, label, packed, has_default, dflt) == Ok::<
            KindV,
            ErrV,
        >(KindV::Repeated),
{
}

/// `Packed` is only reachable for numeric scalar types: an explicit
/// `packed = true` on a non-numeric repeated field always fails, and an
/// absent or false flag never forces `Packed` on a non-numeric type.
pub proof fn lemma_packed_only_numeric(
    numeric: bool,
    label: Option<Label>,
    packed: Option<bool>,
    has_default: bool,
    dflt: DefaultV,
)
    ensures
        spec_resolve_kind(numeric, label, packed, has_default, dflt) == Ok::<KindV, ErrV>(
            KindV::Packed,
        ) ==> numeric,
        !numeric && label == Some(Label::Repeated) && packed == Some(true) ==> spec_resolve_kind(
            numeric,
            label,
            packed,
            has_default,
            dflt,
        ) == Err::<KindV, ErrV>(ErrV::PackedNotNumeric),
        !numeric && label == Some(Label::Repeated) && packed != Some(true) && !has_default
            ==> spec_resolve_kind(numeric, label, packed, has_default, dflt) == Ok::<KindV, ErrV>(
            KindV::Repeated,
        ),
{
}

/// Encode/length conditionality of a plain string field: the fragment
/// emits exactly when the held value differs from the default, and its
/// length contribution is zero exactly when they are equal.  In
/// particular, with the empty default, an empty value yields no output
/// and zero length, and any non-empty value emits.
pub proof fn lemma_plain_string_conditionality(
    f: FieldV,
    accessor: Seq<char>,
    ds: Seq<char>,
    v: Seq<char>,
    field_len: nat,
)
    requires
        f.ty is Str,
        f.kind == KindV::Plain(DefaultV::Str(ds)),
    ensures
        spec_fragment_emits(spec_fragment(f, accessor), FieldValueV::Str(v)) <==> v != ds,
        spec_len_contribution(spec_fragment(f, accessor), FieldValueV::Str(v), field_len) == if v
            == ds {
            0nat
        } else {
            field_len
        },
        ds.len() == 0 && v.len() == 0 ==> !spec_fragment_emits(
            spec_fragment(f, accessor),
            FieldValueV::Str(v),
        ),
        ds.len() == 0 && v.len() > 0 ==> spec_fragment_emits(
            spec_fragment(f, accessor),
            FieldValueV::Str(v),
        ),
{
    if ds.len() == 0 && v.len() == 0 {
        assert(v =~= ds);
    }
}

/// Negative-literal resolution of the signed 32-bit classes never
/// overflows: a negated digit string succeeds exactly up to the magnitude
/// of the minimum representable value, and yields that exact value.
pub proof fn lemma_negative_int32_exact(ty: TyV, digits: Seq<char>)
    requires
        ty is Int32 || ty is Sint32 || ty is Sfixed32,
        digits.len() >= 1,
        all_digits(digits),
    ensures
        spec_from_lit(ty, LitV::Str(seq!['-'] + digits), 1) is Ok <==> dec_val(digits)
            <= 2147483648,
        dec_val(digits) <= 2147483648 ==> spec_from_lit(ty, LitV::Str(seq!['-'] + digits), 1)
            == Ok::<DefaultV, ErrV>(DefaultV::I32((-(dec_val(digits) as int)) as i32)),
{
    let s = seq!['-'] + digits;
    assert(forall|i: int| 0 <= i < s.len() ==> !crate::text::is_space(#[trigger] s[i]));
    crate::text::lemma_trim_id(s);
    assert(s[0] == '-');
    assert(s.subrange(1, s.len() as int) =~= digits);
    crate::lit::lemma_parse_digits(digits);
}

/// The negative-literal analogue for the signed 64-bit classes.
pub proof fn lemma_negative_int64_exact(ty: TyV, digits: Seq<char>)
    requires
        ty is Int64 || ty is Sint64 || ty is Sfixed64,
        digits.len() >= 1,
        all_digits(digits),
    ensures
        spec_from_lit(ty, LitV::Str(seq!['-'] + digits), 1) is Ok <==> dec_val(digits)
            <= 9223372036854775808,
        dec_val(digits) <= 9223372036854775808 ==> spec_from_lit(
            ty,
            LitV::Str(seq!['-'] + digits),
            1,
        ) == Ok::<DefaultV, ErrV>(DefaultV::I64((-(dec_val(digits) as int)) as i64)),
{
    let s = seq!['-'] + digits;
    assert(forall|i: int| 0 <= i < s.len() ==> !crate::text::is_space(#[trigger] s[i]));
    crate::text::lemma_trim_id(s);
    assert(s[0] == '-');
    assert(s.subrange(1, s.len() as int) =~= digits);
    crate::lit::lemma_parse_digits(digits);
}

/// A string content that begins with a minus sign is not itself a
/// literal of the grammar.
proof fn lemma_parse_dash_none(v: Seq<char>)
    requires
        v.len() >= 1,
        v[0] == '-',
    ensures
        crate::lit::spec_parse_lit(v) is None,
{
    reveal_strlit("true");
    reveal_strlit("false");
    assert(v != "true"@) by {
        if v == "true"@ {
            assert(v[0] == 't');
        }
    }
    assert(v != "false"@) by {
        if v == "false"@ {
            assert(v[0] == 'f');
        }
    }
}

/// Round trip of a default resolved from an integer, float, boolean or
/// byte-string literal: its literal form exists and resolves back to the
/// same default, at any re-parse depth.
proof fn lemma_direct_round_trip(ty: TyV, lit: LitV, depth: nat)
    requires
        lit_wf(lit),
        !(lit is Str),
        spec_from_lit(ty, lit, depth) is Ok,
    ensures
        spec_from_lit(ty, lit, depth) matches Ok(d) ==> (spec_to_lit(d) matches Some(l2)
            && spec_from_lit(ty, l2, 1) == Ok::<DefaultV, ErrV>(d)),
{
    match lit {
        LitV::Int { digits, suffix } => {
            let m = dec_val(digits);
            if crate::ty::is_i32_class(ty) && (suffix.len() == 0 || suffix == "i32"@) {
                crate::num::lemma_dec_str_digits(m);
                crate::num::lemma_dec_round_trip(m);
            } else if crate::ty::is_i64_class(ty) && (suffix.len() == 0 || suffix == "i64"@) {
                crate::num::lemma_dec_str_digits(m);
                crate::num::lemma_dec_round_trip(m);
            } else if crate::ty::is_u32_class(ty) && (suffix.len() == 0 || suffix == "u32"@) {
                crate::num::lemma_dec_str_digits(m);
                crate::num::lemma_dec_round_trip(m);
            } else if crate::ty::is_u64_class(ty) && (suffix.len() == 0 || suffix == "u64"@) {
                crate::num::lemma_dec_str_digits(m);
                crate::num::lemma_dec_round_trip(m);
            } else if ty is Float || ty is Double {
                assert(crate::text::is_digit(digits[0]));
                assert(digits[0] != '-');
            }
        },
        LitV::Float { digits, suffix } => {
            crate::lit::lemma_float_text_chars(digits);
            assert(digits[0] != '-');
        },
        _ => {},
    }
}

/// Resolving a negated float digit text for a float or double field
/// yields the negated text back.
proof fn lemma_neg_float_reparse(ty: TyV, d2: Seq<char>)
    requires
        ty is Float || ty is Double,
        crate::lit::float_text_wf(d2),
    ensures
        ty is Float ==> spec_from_lit(ty, LitV::Str(seq!['-'] + d2), 1) == Ok::<DefaultV, ErrV>(
            DefaultV::F32(seq!['-'] + d2),
        ),
        ty is Double ==> spec_from_lit(ty, LitV::Str(seq!['-'] + d2), 1) == Ok::<DefaultV, ErrV>(
            DefaultV::F64(seq!['-'] + d2),
        ),
{
    crate::lit::lemma_float_text_chars(d2);
    let t = seq!['-'] + d2;
    assert(forall|i: int| 0 <= i < t.len() ==> !crate::text::is_space(#[trigger] t[i]));
    crate::text::lemma_trim_id(t);
    reveal_strlit("inf");
    reveal_strlit("-inf");
    reveal_strlit("nan");
    assert(t != "inf"@) by {
        if t == "inf"@ {
            assert(t[0] == 'i');
        }
    }
    assert(t != "-inf"@) by {
        if t == "-inf"@ {
            assert(t[1] == 'i');
            assert(crate::text::is_digit(d2[0]));
        }
    }
    assert(t != "nan"@) by {
        if t == "nan"@ {
            assert(t[0] == 'n');
        }
    }
    assert(t[0] == '-');
    assert(t.subrange(1, t.len() as int) =~= d2);
    let j = crate::lit::skip_digits(d2, 0);
    crate::lit::lemma_skip_digits(d2, 0);
    if j == d2.len() {
        crate::lit::lemma_parse_digits(d2);
    } else {
        crate::lit::lemma_parse_float_text(d2);
    }
}

/// Well-formed literal round trip: for every scalar type and every
/// well-formed literal it resolves, re-serializing the resolved default
/// to literal form and resolving it again yields the same default.
pub proof fn lemma_from_lit_round_trip(ty: TyV, lit: LitV)
    requires
        lit_wf(lit),
        spec_from_lit(ty, lit, 1) is Ok,
    ensures
        spec_from_lit(ty, lit, 1) matches Ok(d) ==> (spec_to_lit(d) matches Some(l2)
            && spec_from_lit(ty, l2, 1) == Ok::<DefaultV, ErrV>(d)),
{
    if !(lit is Str) {
        lemma_direct_round_trip(ty, lit, 1);
        return ;
    }
    let s = lit->Str_0;
    if ty is Str {
        return ;
    }
    let v = crate::text::trim_spec(s);
    if ty is Enumeration {
        let d = spec_from_lit(ty, lit, 1)->Ok_0;
        assert(crate::text::is_ident(v));
        assert(forall|i: int| 0 <= i < v.len() ==> !crate::text::is_space(#[trigger] v[i]));
        crate::text::lemma_trim_id(v);
        return ;
    }
    if (ty is Float || ty is Double) && (v == "inf"@ || v == "-inf"@ || v == "nan"@) {
        lemma_special_float_round_trip(ty, v);
        return ;
    }
    let neg = if v.len() >= 1 && v[0] == '-' {
        crate::lit::spec_parse_lit(v.subrange(1, v.len() as int))
    } else {
        None
    };
    let rest = v.subrange(1, v.len() as int);
    match neg {
        Some(LitV::Int { digits: d2, suffix: s2 }) => {
            crate::lit::lemma_parse_lit_int_wf(rest);
            let m = dec_val(d2);
            if crate::ty::is_i32_class(ty) && (s2.len() == 0 || s2 == "i32"@) {
                assert(m <= 2147483648);
                let w = (-(m as int)) as i32;
                if w >= 0 {
                    assert(m == 0);
                    crate::num::lemma_dec_str_digits(0);
                    crate::num::lemma_dec_round_trip(0);
                } else {
                    assert((-(w as int)) as nat == m);
                    crate::num::lemma_dec_str_digits(m);
                    crate::num::lemma_dec_round_trip(m);
                    lemma_negative_int32_exact(ty, crate::num::dec_str(m));
                }
            } else if crate::ty::is_i64_class(ty) && (s2.len() == 0 || s2 == "i64"@) {
                assert(m <= 9223372036854775808);
                let w = (-(m as int)) as i64;
                if w >= 0 {
                    assert(m == 0);
                    crate::num::lemma_dec_str_digits(0);
                    crate::num::lemma_dec_round_trip(0);
                } else {
                    assert((-(w as int)) as nat == m);
                    crate::num::lemma_dec_str_digits(m);
                    crate::num::lemma_dec_round_trip(m);
                    lemma_negative_int64_exact(ty, crate::num::dec_str(m));
                }
            } else if ty is Float && s2.len() == 0 {
                crate::lit::lemma_skip_digits_all(d2, 0);
                lemma_neg_float_reparse(ty, d2);
            } else if ty is Double && s2.len() == 0 {
                crate::lit::lemma_skip_digits_all(d2, 0);
                lemma_neg_float_reparse(ty, d2);
            } else {
                lemma_parse_dash_none(v);
            }
        },
        Some(LitV::Float { digits: d2, suffix: s2 }) => {
            crate::lit::lemma_parse_lit_wf(rest);
            if ty is Float && (s2.len() == 0 || s2 == "f32"@) {
                lemma_neg_float_reparse(ty, d2);
            } else if ty is Double && (s2.len() == 0 || s2 == "f64"@) {
                lemma_neg_float_reparse(ty, d2);
            } else {
                lemma_parse_dash_none(v);
            }
        },
        Some(_) => {
            lemma_parse_dash_none(v);
        },
        None => {
            match crate::lit::spec_parse_lit(v) {
                Some(LitV::Str(_)) => {},
                Some(l2) => {
                    crate::lit::lemma_parse_lit_wf(v);
                    lemma_direct_round_trip(ty, l2, 0);
                },
                None => {},
            }
        },
    }
}


/// Round trip of the special float strings: each resolves to its
/// symbolic constant, whose literal form is the same string again.
proof fn lemma_special_float_round_trip(ty: TyV, v: Seq<char>)
    requires
        ty is Float || ty is Double,
        v == "inf"@ || v == "-inf"@ || v == "nan"@,
    ensures
        spec_from_lit(ty, LitV::Str(v), 1) matches Ok(d) ==> (spec_to_lit(d) matches Some(l2)
            && spec_from_lit(ty, l2, 1) == Ok::<DefaultV, ErrV>(d)),
        spec_from_lit(ty, LitV::Str(v), 1) is Ok,
        forall|s: Seq<char>|
            crate::text::trim_spec(s) == v ==> spec_from_lit(ty, LitV::Str(s), 1)
                == spec_from_lit(ty, LitV::Str(v), 1),
{
    reveal_strlit("inf");
    reveal_strlit("-inf");
    reveal_strlit("nan");
    reveal_strlit("::core::f32::INFINITY");
    reveal_strlit("::core::f32::NEG_INFINITY");
    reveal_strlit("::core::f32::NAN");
    reveal_strlit("::core::f64::INFINITY");
    reveal_strlit("::core::f64::NEG_INFINITY");
    reveal_strlit("::core::f64::NAN");
    assert(forall|i: int| 0 <= i < v.len() ==> !crate::text::is_space(#[trigger] v[i]));
    crate::text::lemma_trim_id(v);
    assert("::core::f32::INFINITY"@.len() == 21);
    assert("::core::f32::NEG_INFINITY"@.len() == 25);
    assert("::core::f32::NAN"@.len() == 16);
    assert("::core::f64::INFINITY"@.len() == 21);
    assert("::core::f64::NEG_INFINITY"@.len() == 25);
    assert("::core::f64::NAN"@.len() == 16);
    assert("::core::f32::NEG_INFINITY"@ != "::core::f32::INFINITY"@);
    assert("::core::f32::NEG_INFINITY"@ != "::core::f64::INFINITY"@);
    assert("::core::f64::NEG_INFINITY"@ != "::core::f32::INFINITY"@);
    assert("::core::f64::NEG_INFINITY"@ != "::core::f64::INFINITY"@);
    assert("::core::f32::NAN"@ != "::core::f32::INFINITY"@);
    assert("::core::f32::NAN"@ != "::core::f64::INFINITY"@);
    assert("::core::f32::NAN"@ != "::core::f32::NEG_INFINITY"@);
    assert("::core::f32::NAN"@ != "::core::f64::NEG_INFINITY"@);
    assert("::core::f64::NAN"@ != "::core::f32::INFINITY"@);
    assert("::core::f64::NAN"@ != "::core::f64::INFINITY"@);
    assert("::core::f64::NAN"@ != "::core::f32::NEG_INFINITY"@);
    assert("::core::f64::NAN"@ != "::core::f64::NEG_INFINITY"@);
    let d = spec_from_lit(ty, LitV::Str(v), 1)->Ok_0;
    if ty is Float {
        if v == "inf"@ {
            assert(d == DefaultV::Path("::core::f32::INFINITY"@));
            assert(spec_to_lit(d) == Some(LitV::Str("inf"@)));
        } else if v == "-inf"@ {
            assert(d == DefaultV::Path("::core::f32::NEG_INFINITY"@));
            assert(spec_to_lit(d) == Some(LitV::Str("-inf"@)));
        } else {
            assert(d == DefaultV::Path("::core::f32::NAN"@));
            assert(spec_to_lit(d) == Some(LitV::Str("nan"@)));
        }
    } else {
        if v == "inf"@ {
            assert(d == DefaultV::Path("::core::f64::INFINITY"@));
            assert(spec_to_lit(d) == Some(LitV::Str("inf"@)));
        } else if v == "-inf"@ {
            assert(d == DefaultV::Path("::core::f64::NEG_INFINITY"@));
            assert(spec_to_lit(d) == Some(LitV::Str("-inf"@)));
        } else {
            assert(d == DefaultV::Path("::core::f64::NAN"@));
            assert(spec_to_lit(d) == Some(LitV::Str("nan"@)));
        }
    }
}

} // verus!
