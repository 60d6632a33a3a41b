use protogen::default_value::{DefaultValue, VariantRef};
use protogen::errors::FieldError;
use protogen::lit::Lit;
use protogen::ty::Ty;

fn int_lit(digits: &str, suffix: &str) -> Lit {
    Lit::Int { digits: String::from(digits), suffix: String::from(suffix) }
}

fn float_lit(digits: &str, suffix: &str) -> Lit {
    Lit::Float { digits: String::from(digits), suffix: String::from(suffix) }
}

fn str_lit(s: &str) -> Lit {
    Lit::Str(String::from(s))
}

#[test]
fn int32_literal_resolves() {
    let d = DefaultValue::from_lit(&Ty::Int32, int_lit("42", "")).unwrap();
    assert_eq!(d, DefaultValue::I32(42));
}

#[test]
fn int32_suffix_must_match() {
    let d = DefaultValue::from_lit(&Ty::Int32, int_lit("42", "i32")).unwrap();
    assert_eq!(d, DefaultValue::I32(42));
    assert!(DefaultValue::from_lit(&Ty::Int32, int_lit("42", "i64")).is_err());
}

#[test]
fn int32_round_trip_through_literal_form() {
    let d = DefaultValue::from_lit(&Ty::Int32, int_lit("42", "")).unwrap();
    let l = d.to_lit().unwrap();
    assert_eq!(l, int_lit("42", ""));
    let d2 = DefaultValue::from_lit(&Ty::Int32, l).unwrap();
    assert_eq!(d2, d);
}

#[test]
fn negative_round_trip_through_literal_form() {
    let d = DefaultValue::from_lit(&Ty::Sint32, str_lit("-7")).unwrap();
    assert_eq!(d, DefaultValue::I32(-7));
    let l = d.to_lit().unwrap();
    assert_eq!(l, str_lit("-7"));
    assert_eq!(DefaultValue::from_lit(&Ty::Sint32, l).unwrap(), d);
}

#[test]
fn int32_min_succeeds_without_overflow() {
    let d = DefaultValue::from_lit(&Ty::Int32, str_lit("-2147483648")).unwrap();
    assert_eq!(d, DefaultValue::I32(-2147483648));
}

#[test]
fn int32_below_min_fails() {
    let r = DefaultValue::from_lit(&Ty::Int32, str_lit("-2147483649"));
    assert!(matches!(r, Err(FieldError::InvalidDefault(_))));
}

#[test]
fn int64_min_succeeds_without_overflow() {
    let d = DefaultValue::from_lit(&Ty::Int64, str_lit("-9223372036854775808")).unwrap();
    assert_eq!(d, DefaultValue::I64(i64::MIN));
    let r = DefaultValue::from_lit(&Ty::Int64, str_lit("-9223372036854775809"));
    assert!(r.is_err());
}

#[test]
fn uint_literals_resolve() {
    assert_eq!(
        DefaultValue::from_lit(&Ty::Uint32, int_lit("4294967295", "")).unwrap(),
        DefaultValue::U32(u32::MAX)
    );
    assert!(DefaultValue::from_lit(&Ty::Uint32, int_lit("4294967296", "")).is_err());
    assert_eq!(
        DefaultValue::from_lit(&Ty::Uint64, int_lit("18446744073709551615", "u64")).unwrap(),
        DefaultValue::U64(u64::MAX)
    );
}

#[test]
fn float_special_values_are_symbolic_and_distinct() {
    let nan = DefaultValue::from_lit(&Ty::Float, str_lit("nan")).unwrap();
    let inf = DefaultValue::from_lit(&Ty::Float, str_lit("inf")).unwrap();
    let ninf = DefaultValue::from_lit(&Ty::Float, str_lit("-inf")).unwrap();
    assert_eq!(nan, DefaultValue::Path(String::from("::core::f32::NAN")));
    assert_eq!(inf, DefaultValue::Path(String::from("::core::f32::INFINITY")));
    assert_eq!(ninf, DefaultValue::Path(String::from("::core::f32::NEG_INFINITY")));
    assert_ne!(nan, inf);
    assert_ne!(nan, ninf);
    assert_ne!(inf, ninf);
    assert_ne!(nan, DefaultValue::new(&Ty::Float));
    assert_ne!(inf, DefaultValue::new(&Ty::Float));
    assert_ne!(ninf, DefaultValue::new(&Ty::Float));
}

#[test]
fn double_special_values_resolve() {
    let inf = DefaultValue::from_lit(&Ty::Double, str_lit("inf")).unwrap();
    assert_eq!(inf, DefaultValue::Path(String::from("::core::f64::INFINITY")));
}

#[test]
fn special_float_round_trip() {
    let nan = DefaultValue::from_lit(&Ty::Float, str_lit("nan")).unwrap();
    let l = nan.to_lit().unwrap();
    assert_eq!(l, str_lit("nan"));
    assert_eq!(DefaultValue::from_lit(&Ty::Float, l).unwrap(), nan);
}

#[test]
fn float_keeps_literal_text() {
    let d = DefaultValue::from_lit(&Ty::Float, float_lit("2.5", "")).unwrap();
    assert_eq!(d, DefaultValue::F32(String::from("2.5")));
    let d2 = DefaultValue::from_lit(&Ty::Float, int_lit("5", "")).unwrap();
    assert_eq!(d2, DefaultValue::F32(String::from("5")));
}

#[test]
fn negative_float_through_string() {
    let d = DefaultValue::from_lit(&Ty::Float, str_lit("-2.5")).unwrap();
    assert_eq!(d, DefaultValue::F32(String::from("-2.5")));
    let l = d.to_lit().unwrap();
    assert_eq!(l, str_lit("-2.5"));
    assert_eq!(DefaultValue::from_lit(&Ty::Float, l).unwrap(), d);
}

#[test]
fn bool_and_string_and_bytes_resolve() {
    assert_eq!(
        DefaultValue::from_lit(&Ty::Bool, Lit::Bool(true)).unwrap(),
        DefaultValue::Bool(true)
    );
    assert_eq!(
        DefaultValue::from_lit(&Ty::Str, str_lit("hello")).unwrap(),
        DefaultValue::Str(String::from("hello"))
    );
    assert_eq!(
        DefaultValue::from_lit(&Ty::Bytes, Lit::ByteStr(vec![1, 2, 3])).unwrap(),
        DefaultValue::Bytes(vec![1, 2, 3])
    );
}

#[test]
fn mismatched_literal_kind_fails() {
    assert!(matches!(
        DefaultValue::from_lit(&Ty::Int32, Lit::Bool(true)),
        Err(FieldError::InvalidDefault(_))
    ));
    assert!(DefaultValue::from_lit(&Ty::Bool, int_lit("1", "")).is_err());
}

#[test]
fn string_content_reparsed_once() {
    let d = DefaultValue::from_lit(&Ty::Bool, str_lit(" true ")).unwrap();
    assert_eq!(d, DefaultValue::Bool(true));
    let d2 = DefaultValue::from_lit(&Ty::Int32, str_lit("17")).unwrap();
    assert_eq!(d2, DefaultValue::I32(17));
}

#[test]
fn suffixed_content_reparsed() {
    let d = DefaultValue::from_lit(&Ty::Int32, str_lit(" 5i32 ")).unwrap();
    assert_eq!(d, DefaultValue::I32(5));
    let d2 = DefaultValue::from_lit(&Ty::Double, str_lit("2.5")).unwrap();
    assert_eq!(d2, DefaultValue::F64(String::from("2.5")));
}

#[test]
fn quoted_string_content_rejected() {
    let r = DefaultValue::from_lit(&Ty::Int32, str_lit("\"17\""));
    assert!(matches!(r, Err(FieldError::InvalidDefault(_))));
}

#[test]
fn enumeration_variant_resolves() {
    let ty = Ty::Enumeration(String::from("Color"));
    let d = DefaultValue::from_lit(&ty, str_lit("Red")).unwrap();
    assert_eq!(
        d,
        DefaultValue::Enumeration {
            path: String::from("Color"),
            variant: VariantRef::Named(String::from("Red"))
        }
    );
}

#[test]
fn enumeration_bad_variant_fails() {
    let ty = Ty::Enumeration(String::from("Color"));
    assert!(DefaultValue::from_lit(&ty, str_lit("Not A Variant")).is_err());
}

#[test]
fn implicit_defaults_per_type() {
    assert_eq!(DefaultValue::new(&Ty::Int32), DefaultValue::I32(0));
    assert_eq!(DefaultValue::new(&Ty::Uint64), DefaultValue::U64(0));
    assert_eq!(DefaultValue::new(&Ty::Bool), DefaultValue::Bool(false));
    assert_eq!(DefaultValue::new(&Ty::Str), DefaultValue::Str(String::new()));
    assert_eq!(DefaultValue::new(&Ty::Bytes), DefaultValue::Bytes(Vec::new()));
    assert_eq!(DefaultValue::new(&Ty::Float), DefaultValue::F32(String::from("0.0")));
    assert_eq!(
        DefaultValue::new(&Ty::Enumeration(String::from("Color"))),
        DefaultValue::Enumeration {
            path: String::from("Color"),
            variant: VariantRef::DefaultCtor
        }
    );
}

#[test]
fn rendered_forms() {
    assert_eq!(DefaultValue::I32(0).typed(), "0i32");
    assert_eq!(DefaultValue::I32(-5).typed(), "-5i32");
    assert_eq!(DefaultValue::U64(7).typed(), "7u64");
    assert_eq!(DefaultValue::F32(String::from("2.5")).typed(), "2.5f32");
    assert_eq!(DefaultValue::Bool(true).typed(), "true");
    assert_eq!(
        DefaultValue::Enumeration {
            path: String::from("Color"),
            variant: VariantRef::Named(String::from("Red"))
        }
        .typed(),
        "Color::Red as i32"
    );
}

#[test]
fn owned_collapses_empty_defaults() {
    assert_eq!(
        DefaultValue::Str(String::new()).owned(),
        "::core::default::Default::default()"
    );
    assert_eq!(DefaultValue::Bytes(Vec::new()).owned(), "::core::default::Default::default()");
    assert_eq!(DefaultValue::Str(String::from("ab")).owned(), "\"ab\".into()");
    assert_eq!(
        DefaultValue::Bytes(vec![0xab]).owned(),
        "b\"\\xab\".as_ref().into()"
    );
    assert_eq!(DefaultValue::I32(3).owned(), "3i32");
}

#[test]
fn typed_for_cmp_normalizes_strings_to_bytes() {
    assert_eq!(
        DefaultValue::Str(String::from("ab")).typed_for_cmp(),
        "b\"\\x61\\x62\" as &[u8]"
    );
    assert_eq!(DefaultValue::I32(3).typed_for_cmp(), "3i32");
    assert_eq!(
        DefaultValue::Enumeration {
            path: String::from("Color"),
            variant: VariantRef::DefaultCtor
        }
        .typed_for_cmp(),
        "Color::default() as i32"
    );
}
