use protogen::attr::{Attr, AttrInput, Label};
use protogen::default_value::DefaultValue;
use protogen::errors::{AttrClass, FieldError};
use protogen::field::{resolve_kind, Field, FieldValue, Kind};
use protogen::lit::Lit;
use protogen::ty::Ty;

fn bare(name: &str) -> Attr {
    Attr { name: String::from(name), input: AttrInput::Bare }
}

fn with_lit(name: &str, lit: Lit) -> Attr {
    Attr { name: String::from(name), input: AttrInput::Lit(lit) }
}

fn tag(n: &str) -> Attr {
    with_lit("tag", Lit::Int { digits: String::from(n), suffix: String::new() })
}

fn str_lit(s: &str) -> Lit {
    Lit::Str(String::from(s))
}

#[test]
fn plain_field_resolves() {
    let attrs = vec![bare("int32"), tag("3")];
    let f = Field::new(&attrs, None).unwrap().unwrap();
    assert_eq!(f.ty, Ty::Int32);
    assert_eq!(f.kind, Kind::Plain(DefaultValue::I32(0)));
    assert_eq!(f.tag, 3);
}

#[test]
fn no_type_attribute_means_not_scalar() {
    let attrs = vec![bare("message"), tag("3")];
    assert_eq!(Field::new(&attrs, None).unwrap(), None);
}

#[test]
fn inferred_tag_used_when_absent() {
    let attrs = vec![bare("string")];
    let f = Field::new(&attrs, Some(7)).unwrap().unwrap();
    assert_eq!(f.tag, 7);
    assert_eq!(f.ty, Ty::Str);
}

#[test]
fn missing_tag_reported() {
    let attrs = vec![bare("string")];
    assert_eq!(Field::new(&attrs, None), Err(FieldError::MissingTag));
}

#[test]
fn duplicate_type_attribute_reported() {
    let attrs = vec![bare("int32"), bare("uint32"), tag("1")];
    assert_eq!(
        Field::new(&attrs, None),
        Err(FieldError::DuplicateAttr(AttrClass::TypeAttr))
    );
}

#[test]
fn duplicate_label_attribute_reported() {
    let attrs = vec![bare("int32"), bare("optional"), bare("repeated"), tag("1")];
    assert_eq!(
        Field::new(&attrs, None),
        Err(FieldError::DuplicateAttr(AttrClass::LabelAttr))
    );
}

#[test]
fn unknown_attributes_reported_verbatim() {
    let attrs = vec![bare("int32"), bare("mystery"), tag("1")];
    assert_eq!(
        Field::new(&attrs, None),
        Err(FieldError::UnknownAttrs(vec![String::from("mystery")]))
    );
}

#[test]
fn labels_resolve_to_kinds() {
    let opt = vec![bare("int32"), bare("optional"), tag("1")];
    let f = Field::new(&opt, None).unwrap().unwrap();
    assert_eq!(f.kind, Kind::Optional(DefaultValue::I32(0)));

    let req = vec![bare("int32"), bare("required"), tag("1")];
    let f = Field::new(&req, None).unwrap().unwrap();
    assert_eq!(f.kind, Kind::Required(DefaultValue::I32(0)));
}

#[test]
fn repeated_numeric_defaults_to_packed() {
    let attrs = vec![bare("int32"), bare("repeated"), tag("1")];
    let f = Field::new(&attrs, None).unwrap().unwrap();
    assert_eq!(f.kind, Kind::Packed);
}

#[test]
fn repeated_string_stays_repeated() {
    let attrs = vec![bare("string"), bare("repeated"), tag("1")];
    let f = Field::new(&attrs, None).unwrap().unwrap();
    assert_eq!(f.kind, Kind::Repeated);
}

#[test]
fn packed_false_keeps_repeated() {
    let attrs = vec![
        bare("int32"),
        bare("repeated"),
        with_lit("packed", Lit::Bool(false)),
        tag("1"),
    ];
    let f = Field::new(&attrs, None).unwrap().unwrap();
    assert_eq!(f.kind, Kind::Repeated);
}

#[test]
fn packed_requires_repeated_label() {
    let attrs = vec![bare("int32"), bare("packed"), tag("1")];
    assert_eq!(Field::new(&attrs, None), Err(FieldError::PackedNotRepeated));
    let attrs = vec![bare("int32"), bare("optional"), bare("packed"), tag("1")];
    assert_eq!(Field::new(&attrs, None), Err(FieldError::PackedNotRepeated));
    let attrs = vec![bare("int32"), bare("required"), bare("packed"), tag("1")];
    assert_eq!(Field::new(&attrs, None), Err(FieldError::PackedNotRepeated));
}

#[test]
fn packed_requires_numeric_type() {
    let attrs = vec![bare("bytes"), bare("repeated"), bare("packed"), tag("1")];
    assert_eq!(Field::new(&attrs, None), Err(FieldError::PackedNotNumeric));
    let attrs = vec![bare("string"), bare("repeated"), bare("packed"), tag("1")];
    assert_eq!(Field::new(&attrs, None), Err(FieldError::PackedNotNumeric));
    let with_false = vec![
        bare("bytes"),
        bare("repeated"),
        with_lit("packed", Lit::Bool(false)),
        tag("1"),
    ];
    let f = Field::new(&with_false, None).unwrap().unwrap();
    assert_eq!(f.kind, Kind::Repeated);
}

#[test]
fn repeated_fields_may_not_have_defaults() {
    let attrs = vec![
        bare("int32"),
        bare("repeated"),
        with_lit("default", Lit::Int { digits: String::from("1"), suffix: String::new() }),
        tag("1"),
    ];
    assert_eq!(Field::new(&attrs, None), Err(FieldError::RepeatedDefault));
}

#[test]
fn declared_default_carried_into_kind() {
    let attrs = vec![
        bare("int32"),
        with_lit("default", Lit::Int { digits: String::from("5"), suffix: String::new() }),
        tag("2"),
    ];
    let f = Field::new(&attrs, None).unwrap().unwrap();
    assert_eq!(f.kind, Kind::Plain(DefaultValue::I32(5)));
}

#[test]
fn bad_declared_default_reported() {
    let attrs = vec![bare("int32"), with_lit("default", Lit::Bool(true)), tag("2")];
    assert!(matches!(
        Field::new(&attrs, None),
        Err(FieldError::InvalidDefault(_))
    ));
}

#[test]
fn enumeration_attribute_resolves() {
    let attrs = vec![with_lit("enumeration", str_lit("shape::Color")), tag("1")];
    let f = Field::new(&attrs, None).unwrap().unwrap();
    assert_eq!(f.ty, Ty::Enumeration(String::from("shape::Color")));
}

#[test]
fn enumeration_list_form_resolves() {
    let attrs = vec![
        Attr {
            name: String::from("enumeration"),
            input: AttrInput::Idents(vec![String::from("Color")]),
        },
        tag("1"),
    ];
    let f = Field::new(&attrs, None).unwrap().unwrap();
    assert_eq!(f.ty, Ty::Enumeration(String::from("Color")));
}

#[test]
fn enumeration_needs_exactly_one_identifier() {
    let attrs = vec![
        Attr {
            name: String::from("enumeration"),
            input: AttrInput::Idents(vec![String::from("A"), String::from("B")]),
        },
        tag("1"),
    ];
    assert_eq!(Field::new(&attrs, None), Err(FieldError::InvalidEnumeration));
    let empty = vec![
        Attr { name: String::from("enumeration"), input: AttrInput::Idents(Vec::new()) },
        tag("1"),
    ];
    assert_eq!(Field::new(&empty, None), Err(FieldError::InvalidEnumeration));
}

#[test]
fn oneof_plain_becomes_required() {
    let attrs = vec![bare("int32"), tag("1")];
    let f = Field::new_oneof(&attrs).unwrap().unwrap();
    assert_eq!(f.kind, Kind::Required(DefaultValue::I32(0)));
}

#[test]
fn oneof_rejects_optional() {
    let attrs = vec![bare("int32"), bare("optional"), tag("1")];
    assert_eq!(Field::new_oneof(&attrs), Err(FieldError::OneofOptional));
}

#[test]
fn oneof_rejects_required_and_repeated() {
    let req = vec![bare("int32"), bare("required"), tag("1")];
    assert_eq!(Field::new_oneof(&req), Err(FieldError::OneofRequired));
    let rep = vec![bare("int32"), bare("repeated"), tag("1")];
    assert_eq!(Field::new_oneof(&rep), Err(FieldError::OneofRepeated));
}

#[test]
fn resolve_kind_covers_the_table() {
    let d = DefaultValue::I32(0);
    assert_eq!(
        resolve_kind(true, None, None, false, d.clone()),
        Ok(Kind::Plain(DefaultValue::I32(0)))
    );
    assert_eq!(
        resolve_kind(true, Some(Label::Optional), None, false, d.clone()),
        Ok(Kind::Optional(DefaultValue::I32(0)))
    );
    assert_eq!(
        resolve_kind(true, Some(Label::Required), None, false, d.clone()),
        Ok(Kind::Required(DefaultValue::I32(0)))
    );
    assert_eq!(resolve_kind(true, Some(Label::Repeated), None, false, d.clone()), Ok(Kind::Packed));
    assert_eq!(
        resolve_kind(false, Some(Label::Repeated), None, false, d.clone()),
        Ok(Kind::Repeated)
    );
    assert_eq!(
        resolve_kind(true, Some(Label::Repeated), Some(false), false, d.clone()),
        Ok(Kind::Repeated)
    );
    assert_eq!(
        resolve_kind(true, None, Some(true), false, d.clone()),
        Err(FieldError::PackedNotRepeated)
    );
    assert_eq!(
        resolve_kind(false, Some(Label::Repeated), Some(true), false, d.clone()),
        Err(FieldError::PackedNotNumeric)
    );
    assert_eq!(
        resolve_kind(true, Some(Label::Repeated), None, true, d),
        Err(FieldError::RepeatedDefault)
    );
}

#[test]
fn plain_string_encode_is_conditional() {
    let attrs = vec![bare("string"), tag("1")];
    let f = Field::new(&attrs, None).unwrap().unwrap();
    let frag = f.fragment("self.name");
    assert!(!protogen::field::fragment_emits(
        &frag,
        &FieldValue::Str(String::new())
    ));
    assert!(protogen::field::fragment_emits(
        &frag,
        &FieldValue::Str(String::from("x"))
    ));
    assert_eq!(
        f.encode("self.name"),
        "if !self.name.is_default(b\"\" as &[u8]) { NativeType::serialize(&self.name, 1, buf); }"
    );
    assert_eq!(
        f.encoded_len("self.name"),
        "if !self.name.is_default(b\"\" as &[u8]) { NativeType::field_len(&self.name, 1) } else { 0 }"
    );
}

#[test]
fn plain_numeric_encode_compares_natively() {
    let attrs = vec![bare("int32"), tag("2")];
    let f = Field::new(&attrs, None).unwrap().unwrap();
    assert_eq!(
        f.encode("self.n"),
        "if self.n != 0i32 { NativeType::serialize(&self.n, 2, buf); }"
    );
    let frag = f.fragment("self.n");
    assert!(!protogen::field::fragment_emits(&frag, &FieldValue::I32(0)));
    assert!(protogen::field::fragment_emits(&frag, &FieldValue::I32(9)));
}

#[test]
fn non_plain_kinds_emit_unconditionally() {
    let attrs = vec![bare("string"), bare("required"), tag("9")];
    let f = Field::new(&attrs, None).unwrap().unwrap();
    assert_eq!(f.encode("self.s"), "NativeType::serialize(&self.s, 9, buf)");
    assert_eq!(f.encoded_len("self.s"), "NativeType::field_len(&self.s, 9)");
    let frag = f.fragment("self.s");
    assert!(protogen::field::fragment_emits(
        &frag,
        &FieldValue::Str(String::new())
    ));
}

#[test]
fn default_expressions_per_kind() {
    let plain = vec![bare("string"), tag("1")];
    let f = Field::new(&plain, None).unwrap().unwrap();
    assert_eq!(f.default(), "::core::default::Default::default()");

    let opt = vec![bare("int32"), bare("optional"), tag("1")];
    let f = Field::new(&opt, None).unwrap().unwrap();
    assert_eq!(f.default(), "::core::default::Default::default()");

    let rep = vec![bare("int32"), bare("repeated"), tag("1")];
    let f = Field::new(&rep, None).unwrap().unwrap();
    assert_eq!(f.default(), "::std::vec::Vec::new()");

    let with_default = vec![
        bare("string"),
        with_lit("default", str_lit("hi")),
        tag("1"),
    ];
    let f = Field::new(&with_default, None).unwrap().unwrap();
    assert_eq!(f.default(), "\"hi\".into()");
}

#[test]
fn tag_out_of_range_is_not_recognized() {
    let attrs = vec![bare("int32"), tag("4294967296")];
    assert_eq!(
        Field::new(&attrs, None),
        Err(FieldError::UnknownAttrs(vec![String::from("tag")]))
    );
}
