use weaver_semconv::attribute::{
    AttributeSpec, AttributeType, BasicRequirementLevelSpec, Examples, PrimitiveOrArrayTypeSpec,
    RequirementLevel, TemplateTypeSpec, ValueSpec,
};
use weaver_semconv::decode::{
    decode_attribute, decode_attribute_type, decode_examples, decode_requirement_level,
    decode_stability, decode_value,
};
use weaver_semconv::error::DecodeError;
use weaver_semconv::raw::{DoubleValue, RawEntry, RawValue};
use weaver_semconv::stability::Stability;

fn text(s: &str) -> RawValue {
    RawValue::Text(s.to_string())
}

fn double(v: f64) -> DoubleValue {
    DoubleValue::new(v.to_bits(), format!("{}", v))
}

fn mapping(entries: Vec<(&str, RawValue)>) -> RawValue {
    RawValue::Mapping(
        entries
            .into_iter()
            .map(|(key, value)| RawEntry {
                key: key.to_string(),
                value,
            })
            .collect(),
    )
}

#[test]
fn test_decode_value_shapes() {
    assert_eq!(decode_value(&RawValue::Int(42)), Ok(ValueSpec::Int(42)));
    assert_eq!(
        decode_value(&RawValue::Double(double(1.5))),
        Ok(ValueSpec::Double(double(1.5)))
    );
    assert_eq!(decode_value(&text("on")), Ok(ValueSpec::String("on".to_string())));
    assert_eq!(
        decode_value(&RawValue::Bool(true)),
        Err(DecodeError::ShapeMismatch {
            field: "value".to_string()
        })
    );
}

#[test]
fn test_decode_examples_scalars_before_lists() {
    assert_eq!(decode_examples(&RawValue::Bool(true)), Ok(Examples::Bool(true)));
    assert_eq!(decode_examples(&RawValue::Int(3)), Ok(Examples::Int(3)));
    assert_eq!(
        decode_examples(&text("one")),
        Ok(Examples::String("one".to_string()))
    );
    assert_eq!(
        decode_examples(&RawValue::List(vec![RawValue::Int(1), RawValue::Int(2)])),
        Ok(Examples::Ints(vec![1, 2]))
    );
    assert_eq!(
        decode_examples(&RawValue::List(vec![
            RawValue::Double(double(1.5)),
            RawValue::Double(double(2.5)),
        ])),
        Ok(Examples::Doubles(vec![double(1.5), double(2.5)]))
    );
    assert_eq!(
        decode_examples(&RawValue::List(vec![RawValue::Bool(false)])),
        Ok(Examples::Bools(vec![false]))
    );
    assert_eq!(
        decode_examples(&RawValue::List(vec![text("a"), text("b")])),
        Ok(Examples::Strings(vec!["a".to_string(), "b".to_string()]))
    );
    assert_eq!(decode_examples(&RawValue::List(vec![])), Ok(Examples::Ints(vec![])));
    assert_eq!(
        decode_examples(&RawValue::List(vec![RawValue::Int(1), text("b")])),
        Err(DecodeError::ShapeMismatch {
            field: "examples".to_string()
        })
    );
}

#[test]
fn test_decode_stability_names() {
    assert_eq!(decode_stability(&text("stable")), Ok(Stability::Stable));
    assert_eq!(decode_stability(&text("development")), Ok(Stability::Development));
    assert_eq!(decode_stability(&text("deprecated")), Ok(Stability::Deprecated));
    assert_eq!(
        decode_stability(&text("shiny")),
        Err(DecodeError::ShapeMismatch {
            field: "stability".to_string()
        })
    );
}

#[test]
fn test_decode_requirement_level_names() {
    assert_eq!(
        decode_requirement_level(&text("required")),
        Ok(RequirementLevel::Basic(BasicRequirementLevelSpec::Required))
    );
    assert_eq!(
        decode_requirement_level(&text("recommended")),
        Ok(RequirementLevel::Basic(BasicRequirementLevelSpec::Recommended))
    );
    assert_eq!(
        decode_requirement_level(&text("opt_in")),
        Ok(RequirementLevel::Basic(BasicRequirementLevelSpec::OptIn))
    );
    assert_eq!(
        decode_requirement_level(&text("mandatory")),
        Err(DecodeError::ShapeMismatch {
            field: "requirement_level".to_string()
        })
    );
}

#[test]
fn test_decode_requirement_level_objects() {
    assert_eq!(
        decode_requirement_level(&mapping(vec![("conditionally_required", text("if enabled"))])),
        Ok(RequirementLevel::ConditionallyRequired {
            text: "if enabled".to_string()
        })
    );
    assert_eq!(
        decode_requirement_level(&mapping(vec![("recommended", text("usually"))])),
        Ok(RequirementLevel::Recommended {
            text: "usually".to_string()
        })
    );
    assert_eq!(
        decode_requirement_level(&mapping(vec![
            ("conditionally_required", text("a")),
            ("recommended", text("b")),
        ])),
        Err(DecodeError::ConflictingKeys {
            first: "conditionally_required".to_string(),
            second: "recommended".to_string(),
        })
    );
    assert_eq!(
        decode_requirement_level(&mapping(vec![("sometimes", text("a"))])),
        Err(DecodeError::UnknownField {
            field: "sometimes".to_string()
        })
    );
}

#[test]
fn test_decode_attribute_type_names() {
    assert_eq!(
        decode_attribute_type(&text("string")),
        Ok(AttributeType::PrimitiveOrArray(PrimitiveOrArrayTypeSpec::String))
    );
    assert_eq!(
        decode_attribute_type(&text("boolean[]")),
        Ok(AttributeType::PrimitiveOrArray(PrimitiveOrArrayTypeSpec::Booleans))
    );
    assert_eq!(
        decode_attribute_type(&text("template[int[]]")),
        Ok(AttributeType::Template(TemplateTypeSpec::Ints))
    );
    assert_eq!(
        decode_attribute_type(&text("vector")),
        Err(DecodeError::ShapeMismatch {
            field: "type".to_string()
        })
    );
}

#[test]
fn test_decode_enum_type_defaults_allow_custom_values() {
    let t = mapping(vec![(
        "members",
        RawValue::List(vec![mapping(vec![("id", text("a")), ("value", RawValue::Int(1))])]),
    )]);
    match decode_attribute_type(&t) {
        Ok(AttributeType::Enum {
            allow_custom_values,
            members,
        }) => {
            assert!(allow_custom_values);
            assert_eq!(members.len(), 1);
            assert_eq!(members[0].id, "a");
            assert_eq!(members[0].value, ValueSpec::Int(1));
            assert_eq!(members[0].brief, None);
        }
        other => panic!("expected an enum type, got {:?}", other),
    }
    let explicit = mapping(vec![
        ("allow_custom_values", RawValue::Bool(false)),
        ("members", RawValue::List(vec![])),
    ]);
    match decode_attribute_type(&explicit) {
        Ok(AttributeType::Enum {
            allow_custom_values,
            ..
        }) => assert!(!allow_custom_values),
        other => panic!("expected an enum type, got {:?}", other),
    }
}

#[test]
fn test_decode_enum_type_errors() {
    assert_eq!(
        decode_attribute_type(&mapping(vec![("allow_custom_values", RawValue::Bool(true))])),
        Err(DecodeError::MissingField {
            field: "members".to_string()
        })
    );
    assert_eq!(
        decode_attribute_type(&mapping(vec![
            ("members", RawValue::List(vec![])),
            ("entries", RawValue::List(vec![])),
        ])),
        Err(DecodeError::UnknownField {
            field: "entries".to_string()
        })
    );
}

#[test]
fn test_decode_attribute_ref_shape() {
    let doc = mapping(vec![
        ("ref", text("http.method")),
        ("brief", text("referenced")),
        ("requirement_level", text("required")),
    ]);
    match decode_attribute(&doc) {
        Ok(a @ AttributeSpec::Ref { .. }) => {
            assert_eq!(a.id(), "http.method");
            assert_eq!(a.brief(), "referenced");
            assert_eq!(a.note(), "");
            assert!(a.is_required());
        }
        other => panic!("expected a reference, got {:?}", other),
    }
}

#[test]
fn test_decode_attribute_id_shape_defaults() {
    let doc = mapping(vec![("id", text("db.name")), ("type", text("string"))]);
    match decode_attribute(&doc) {
        Ok(AttributeSpec::Id {
            id,
            attr_type,
            requirement_level,
            note,
            brief,
            ..
        }) => {
            assert_eq!(id, "db.name");
            assert_eq!(
                attr_type,
                AttributeType::PrimitiveOrArray(PrimitiveOrArrayTypeSpec::String)
            );
            assert_eq!(
                requirement_level,
                RequirementLevel::Basic(BasicRequirementLevelSpec::Recommended)
            );
            assert_eq!(note, "");
            assert_eq!(brief, None);
        }
        other => panic!("expected a definition, got {:?}", other),
    }
}

#[test]
fn test_decode_attribute_both_ref_and_id_fails() {
    let doc = mapping(vec![("ref", text("a")), ("id", text("b")), ("type", text("string"))]);
    assert!(decode_attribute(&doc).is_err());
}

#[test]
fn test_decode_attribute_neither_ref_nor_id_fails() {
    let doc = mapping(vec![("brief", text("nothing to declare"))]);
    assert_eq!(
        decode_attribute(&doc),
        Err(DecodeError::MissingField {
            field: "id".to_string()
        })
    );
}

#[test]
fn test_decode_attribute_unknown_field_fails() {
    let doc = mapping(vec![("id", text("db.name")), ("type", text("string")), ("color", text("red"))]);
    assert_eq!(
        decode_attribute(&doc),
        Err(DecodeError::UnknownField {
            field: "color".to_string()
        })
    );
    assert_eq!(
        decode_attribute(&text("not an object")),
        Err(DecodeError::ShapeMismatch {
            field: "attribute".to_string()
        })
    );
}

#[test]
fn test_decode_attribute_id_missing_type_fails() {
    assert_eq!(
        decode_attribute(&mapping(vec![("id", text("db.name"))])),
        Err(DecodeError::MissingField {
            field: "type".to_string()
        })
    );
}
