use weaver_semconv::attribute::AttributeSpec;
use weaver_semconv::error::DecodeError;
use weaver_semconv::group::{GroupSpec, GroupType, SpanKindSpec};
use weaver_semconv::raw::{RawEntry, RawValue};
use weaver_semconv::span::{decode_span, AttributeRef, CommonFields, Span, SpanName};
use weaver_semconv::stability::Stability;

fn text(s: &str) -> RawValue {
    RawValue::Text(s.to_string())
}

fn mapping(entries: Vec<(&str, RawValue)>) -> RawValue {
    RawValue::Mapping(
        entries
            .into_iter()
            .map(|(key, value)| RawEntry {
                key: key.to_string(),
                value,
            })
            .collect(),
    )
}

fn my_span_doc() -> RawValue {
    mapping(vec![
        ("type", text("my_span")),
        ("name", mapping(vec![("note", text("{some} {name}"))])),
        ("stability", text("stable")),
        ("kind", text("client")),
        ("brief", text("Test span")),
    ])
}

fn expected_my_span_group() -> GroupSpec {
    GroupSpec {
        id: "span.my_span".to_string(),
        group_type: GroupType::Span,
        brief: "Test span".to_string(),
        note: String::new(),
        prefix: String::new(),
        extends: None,
        include_groups: vec![],
        stability: Some(Stability::Stable),
        deprecated: None,
        attributes: vec![],
        span_kind: Some(SpanKindSpec::Client),
        events: vec![],
        metric_name: None,
        instrument: None,
        unit: None,
        name: None,
        display_name: None,
        body: None,
        annotations: None,
        entity_associations: vec![],
        visibility: None,
    }
}

#[test]
fn span_test_value_spec_display() {
    let span = decode_span(my_span_doc()).expect("the span document should decode");
    assert_eq!(expected_my_span_group(), span.into_v1_group());
}

#[test]
fn test_decode_span_fields() {
    let span = decode_span(my_span_doc()).expect("the span document should decode");
    assert_eq!(span.signal_type, "my_span");
    assert_eq!(span.kind, SpanKindSpec::Client);
    assert_eq!(span.name.note, "{some} {name}");
    assert_eq!(span.common.brief, "Test span");
    assert_eq!(span.common.note, "");
    assert_eq!(span.common.stability, Stability::Stable);
    assert!(span.attributes.is_empty());
    assert!(span.common.annotations.is_empty());
}

#[test]
fn test_decode_span_with_attributes_and_annotations() {
    let doc = mapping(vec![
        ("type", text("rpc_call")),
        ("kind", text("server")),
        ("name", mapping(vec![("note", text("{rpc.method}"))])),
        ("stability", text("development")),
        (
            "attributes",
            RawValue::List(vec![
                mapping(vec![("ref", text("rpc.method"))]),
                mapping(vec![("ref", text("rpc.service"))]),
            ]),
        ),
        ("entity_associations", RawValue::List(vec![text("host")])),
        ("annotations", mapping(vec![("priority", RawValue::Int(1))])),
    ]);
    let span = decode_span(doc).expect("the span document should decode");
    assert_eq!(
        span.attributes,
        vec![
            AttributeRef {
                reference: "rpc.method".to_string()
            },
            AttributeRef {
                reference: "rpc.service".to_string()
            },
        ]
    );
    assert_eq!(span.entity_associations, vec!["host".to_string()]);
    assert_eq!(span.common.annotations.len(), 1);
    assert_eq!(span.common.annotations[0].key, "priority");
    let group = span.into_v1_group();
    assert_eq!(group.id, "span.rpc_call");
    assert_eq!(group.attributes.len(), 2);
    match &group.attributes[0] {
        AttributeSpec::Ref {
            reference,
            requirement_level,
            ..
        } => {
            assert_eq!(reference, "rpc.method");
            assert_eq!(*requirement_level, None);
        }
        other => panic!("expected a reference, got {:?}", other),
    }
    assert_eq!(
        group.annotations,
        Some(vec![RawEntry {
            key: "priority".to_string(),
            value: RawValue::Int(1),
        }])
    );
}

#[test]
fn test_into_v1_group_by_hand() {
    let span = Span {
        signal_type: "checkout".to_string(),
        kind: SpanKindSpec::Internal,
        name: SpanName {
            note: "{cart.id}".to_string(),
        },
        attributes: vec![AttributeRef {
            reference: "cart.id".to_string(),
        }],
        entity_associations: vec!["service".to_string()],
        common: CommonFields {
            brief: "Checkout".to_string(),
            note: "A note".to_string(),
            stability: Stability::Development,
            deprecated: Some("use checkout.v2".to_string()),
            include_groups: vec!["registry.cart".to_string()],
            annotations: vec![],
        },
    };
    let group = span.into_v1_group();
    assert_eq!(group.id, "span.checkout");
    assert_eq!(group.group_type, GroupType::Span);
    assert_eq!(group.brief, "Checkout");
    assert_eq!(group.note, "A note");
    assert_eq!(group.prefix, "");
    assert_eq!(group.extends, None);
    assert_eq!(group.include_groups, vec!["registry.cart".to_string()]);
    assert_eq!(group.stability, Some(Stability::Development));
    assert_eq!(group.deprecated, Some("use checkout.v2".to_string()));
    assert_eq!(group.span_kind, Some(SpanKindSpec::Internal));
    assert_eq!(group.annotations, None);
    assert_eq!(group.entity_associations, vec!["service".to_string()]);
    assert_eq!(group.name, None);
    assert_eq!(group.visibility, None);
}

#[test]
fn test_decode_span_errors() {
    assert_eq!(
        decode_span(mapping(vec![
            ("type", text("a")),
            ("kind", text("client")),
            ("name", mapping(vec![("note", text("n"))])),
        ])),
        Err(DecodeError::MissingField {
            field: "stability".to_string()
        })
    );
    assert_eq!(
        decode_span(mapping(vec![
            ("type", text("a")),
            ("kind", text("sideways")),
            ("name", mapping(vec![("note", text("n"))])),
            ("stability", text("stable")),
        ])),
        Err(DecodeError::ShapeMismatch {
            field: "kind".to_string()
        })
    );
    assert_eq!(
        decode_span(mapping(vec![
            ("type", text("a")),
            ("kind", text("client")),
            ("name", mapping(vec![("pattern", text("n"))])),
            ("stability", text("stable")),
        ])),
        Err(DecodeError::UnknownField {
            field: "pattern".to_string()
        })
    );
    assert_eq!(
        decode_span(mapping(vec![
            ("type", text("a")),
            ("kind", text("client")),
            ("name", mapping(vec![("note", text("n"))])),
            ("stability", text("stable")),
            ("events", RawValue::List(vec![])),
        ])),
        Err(DecodeError::UnknownField {
            field: "events".to_string()
        })
    );
}
