use weaver_semconv::attribute::{
    AttributeSpec, AttributeType, BasicRequirementLevelSpec, EnumEntriesSpec,
    PrimitiveOrArrayTypeSpec, RequirementLevel, TemplateTypeSpec, ValueSpec,
};
use weaver_semconv::raw::DoubleValue;

fn double(v: f64) -> DoubleValue {
    DoubleValue::new(v.to_bits(), format!("{}", v))
}

#[test]
fn attribute_test_value_spec_display() {
    assert_eq!(ValueSpec::Int(42).display(), "42");
    assert_eq!(ValueSpec::Double(double(42.0)).display(), "42");
    assert_eq!(ValueSpec::String("42".to_string()).display(), "42");
}

#[test]
fn test_requirement_level_spec_display() {
    assert_eq!(
        RequirementLevel::Basic(BasicRequirementLevelSpec::Required).display(),
        "required"
    );
    assert_eq!(
        RequirementLevel::Basic(BasicRequirementLevelSpec::Recommended).display(),
        "recommended"
    );
    assert_eq!(
        RequirementLevel::Basic(BasicRequirementLevelSpec::OptIn).display(),
        "opt-in"
    );
    assert_eq!(
        RequirementLevel::ConditionallyRequired {
            text: "condition".to_string()
        }
        .display(),
        "conditionally required (condition: condition)"
    );
    assert_eq!(
        RequirementLevel::Recommended {
            text: "recommendation".to_string()
        }
        .display(),
        "recommended (recommendation)"
    );
}

#[test]
fn test_basic_requirement_level_spec_display() {
    assert_eq!(BasicRequirementLevelSpec::Required.display(), "required");
    assert_eq!(BasicRequirementLevelSpec::Recommended.display(), "recommended");
    assert_eq!(BasicRequirementLevelSpec::OptIn.display(), "opt-in");
}

#[test]
fn test_value_spec_display_negative_and_zero() {
    assert_eq!(ValueSpec::Int(0).display(), "0");
    assert_eq!(ValueSpec::Int(-7).display(), "-7");
    assert_eq!(ValueSpec::Int(i64::MIN).display(), "-9223372036854775808");
    assert_eq!(ValueSpec::Int(i64::MAX).display(), "9223372036854775807");
}

#[test]
fn test_requirement_level_default() {
    assert_eq!(
        RequirementLevel::default(),
        RequirementLevel::Basic(BasicRequirementLevelSpec::Recommended)
    );
}

#[test]
fn test_primitive_or_array_type_display() {
    assert_eq!(PrimitiveOrArrayTypeSpec::Boolean.display(), "boolean");
    assert_eq!(PrimitiveOrArrayTypeSpec::Int.display(), "int");
    assert_eq!(PrimitiveOrArrayTypeSpec::Double.display(), "double");
    assert_eq!(PrimitiveOrArrayTypeSpec::String.display(), "string");
    assert_eq!(PrimitiveOrArrayTypeSpec::Strings.display(), "string[]");
    assert_eq!(PrimitiveOrArrayTypeSpec::Ints.display(), "int[]");
    assert_eq!(PrimitiveOrArrayTypeSpec::Doubles.display(), "double[]");
    assert_eq!(PrimitiveOrArrayTypeSpec::Booleans.display(), "boolean[]");
}

#[test]
fn test_template_type_display() {
    assert_eq!(TemplateTypeSpec::Boolean.display(), "template[boolean]");
    assert_eq!(TemplateTypeSpec::Int.display(), "template[int]");
    assert_eq!(TemplateTypeSpec::Double.display(), "template[double]");
    assert_eq!(TemplateTypeSpec::String.display(), "template[string]");
    assert_eq!(TemplateTypeSpec::Strings.display(), "template[string[]]");
    assert_eq!(TemplateTypeSpec::Ints.display(), "template[int[]]");
    assert_eq!(TemplateTypeSpec::Doubles.display(), "template[double[]]");
    assert_eq!(TemplateTypeSpec::Booleans.display(), "template[boolean[]]");
}

fn member(id: &str, value: i64) -> EnumEntriesSpec {
    EnumEntriesSpec {
        id: id.to_string(),
        value: ValueSpec::Int(value),
        brief: None,
        note: None,
        stability: None,
    }
}

#[test]
fn test_enum_type_display() {
    let t = AttributeType::Enum {
        allow_custom_values: true,
        members: vec![member("a", 1), member("b", 2)],
    };
    assert_eq!(t.display(), "enum {a, b}");
    let single = AttributeType::Enum {
        allow_custom_values: false,
        members: vec![member("only", 1)],
    };
    assert_eq!(single.display(), "enum {only}");
    let empty = AttributeType::Enum {
        allow_custom_values: true,
        members: vec![],
    };
    assert_eq!(empty.display(), "enum {}");
}

#[test]
fn test_enum_entries_display() {
    assert_eq!(member("a", 42).display(), "id=a, type=42");
}

fn ref_attribute(level: Option<RequirementLevel>) -> AttributeSpec {
    AttributeSpec::Ref {
        reference: "http.method".to_string(),
        brief: Some("a brief".to_string()),
        examples: None,
        tag: Some("net".to_string()),
        requirement_level: level,
        sampling_relevant: None,
        note: None,
        stability: None,
        deprecated: None,
    }
}

fn id_attribute(level: RequirementLevel) -> AttributeSpec {
    AttributeSpec::Id {
        id: "http.status_code".to_string(),
        attr_type: AttributeType::PrimitiveOrArray(PrimitiveOrArrayTypeSpec::Int),
        brief: None,
        examples: None,
        tag: None,
        requirement_level: level,
        sampling_relevant: None,
        note: "a note".to_string(),
        stability: None,
        deprecated: None,
    }
}

#[test]
fn test_is_required_only_for_basic_required() {
    let required = RequirementLevel::Basic(BasicRequirementLevelSpec::Required);
    assert!(ref_attribute(Some(required.clone())).is_required());
    assert!(id_attribute(required).is_required());
    assert!(!ref_attribute(None).is_required());
    assert!(!ref_attribute(Some(RequirementLevel::Basic(BasicRequirementLevelSpec::Recommended)))
        .is_required());
    assert!(!ref_attribute(Some(RequirementLevel::ConditionallyRequired {
        text: "when it applies".to_string()
    }))
    .is_required());
    assert!(
        !id_attribute(RequirementLevel::Basic(BasicRequirementLevelSpec::OptIn)).is_required()
    );
}

#[test]
fn test_attribute_accessors() {
    let r = ref_attribute(None);
    assert_eq!(r.id(), "http.method");
    assert_eq!(r.brief(), "a brief");
    assert_eq!(r.note(), "");
    assert_eq!(r.tag(), Some("net".to_string()));
    let d = id_attribute(RequirementLevel::Basic(BasicRequirementLevelSpec::Recommended));
    assert_eq!(d.id(), "http.status_code");
    assert_eq!(d.brief(), "");
    assert_eq!(d.note(), "a note");
    assert_eq!(d.tag(), None);
}
