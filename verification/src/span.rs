//! The newer way to declare spans.
//!
//! A span declaration names its shape, its kind, a name pattern and
//! its attributes by reference, and carries the common descriptive
//! fields. [`Span::into_v1_group`] translates it, deterministically
//! and losslessly, into the legacy group shape the rest of the
//! toolchain expects.

use vstd::prelude::*;

use crate::attribute::{AttributeSpec, AttributeSpecView};
use crate::error::{res_view, DecodeError, DecodeErrorView};
use crate::group::{spec_annotations_view, GroupSpec, GroupSpecView, GroupType, SpanKindSpec};
use crate::raw::{
    spec_first_unknown_key, spec_lookup, first_unknown_key, lookup, lookup_index, RawEntry,
    RawValue,
};
use crate::stability::Stability;

verus! {

/// Specification of the span name.
#[derive(Debug, Clone, PartialEq)]
pub struct SpanName {
    /// Required description of how a span name should be created.
    pub note: String,
}

/// The mathematical content of a [`SpanName`].
#[verifier::ext_equal]
pub struct SpanNameView {
    pub note: Seq<char>,
}

impl View for SpanName {
    type V = SpanNameView;

    open spec fn view(&self) -> SpanNameView {
        SpanNameView { note: self.note@ }
    }
}

impl DeepView for SpanName {
    type V = SpanNameView;

    open spec fn deep_view(&self) -> SpanNameView {
        self.view()
    }
}

/// A reference to an attribute defined elsewhere, as a span lists its
/// attributes.
#[derive(Debug, PartialEq)]
pub struct AttributeRef {
    /// The id of the referenced attribute.
    pub reference: String,
}

impl Clone for AttributeRef {
    /// Clones the reference; the copy equals the original.
    fn clone(&self) -> (res: Self)
        ensures
            res == *self,
    {
        AttributeRef { reference: self.reference.clone() }
    }
}

/// The mathematical content of an [`AttributeRef`].
#[verifier::ext_equal]
pub struct AttributeRefView {
    pub reference: Seq<char>,
}

impl View for AttributeRef {
    type V = AttributeRefView;

    open spec fn view(&self) -> AttributeRefView {
        AttributeRefView { reference: self.reference@ }
    }
}

impl DeepView for AttributeRef {
    type V = AttributeRefView;

    open spec fn deep_view(&self) -> AttributeRefView {
        self.view()
    }
}

/// The legacy attribute declaration an attribute reference becomes: a
/// reference-shaped attribute with every optional field absent.
pub open spec fn spec_attribute_ref_to_v1(a: AttributeRefView) -> AttributeSpecView {
    AttributeSpecView::Ref {
        reference: a.reference,
        brief: None,
        examples: None,
        tag: None,
        requirement_level: None,
        sampling_relevant: None,
        note: None,
        stability: None,
        deprecated: None,
    }
}

impl AttributeRef {
    /// Converts the reference into a legacy reference-shaped
    /// attribute declaration.
    pub fn into_v1_attribute(self) -> (a: AttributeSpec)
        ensures
            a@ == spec_attribute_ref_to_v1(self@),
    {
        AttributeSpec::Ref {
            reference: self.reference,
            brief: None,
            examples: None,
            tag: None,
            requirement_level: None,
            sampling_relevant: None,
            note: None,
            stability: None,
            deprecated: None,
        }
    }
}

/// The descriptive fields shared by every declaration of the newer
/// format.
#[derive(Debug, PartialEq)]
pub struct CommonFields {
    /// A brief description of the declaration.
    pub brief: String,
    /// A more elaborate description of the declaration.
    pub note: String,
    /// The stability of the declaration.
    pub stability: Stability,
    /// Why the declaration is deprecated, if it is.
    pub deprecated: Option<String>,
    /// Ids of groups whose attributes the declaration includes.
    pub include_groups: Vec<String>,
    /// Free-form annotations, kept in document order.
    pub annotations: Vec<RawEntry>,
}

/// The mathematical content of a [`CommonFields`].
#[verifier::ext_equal]
pub struct CommonFieldsView {
    pub brief: Seq<char>,
    pub note: Seq<char>,
    pub stability: Stability,
    pub deprecated: Option<Seq<char>>,
    pub include_groups: Seq<Seq<char>>,
    pub annotations: Seq<(Seq<char>, RawValue)>,
}

impl View for CommonFields {
    type V = CommonFieldsView;

    open spec fn view(&self) -> CommonFieldsView {
        CommonFieldsView {
            brief: self.brief@,
            note: self.note@,
            stability: self.stability,
            deprecated: self.deprecated.deep_view(),
            include_groups: self.include_groups.deep_view(),
            annotations: spec_annotations_view(self.annotations@),
        }
    }
}

impl DeepView for CommonFields {
    type V = CommonFieldsView;

    open spec fn deep_view(&self) -> CommonFieldsView {
        self.view()
    }
}

/// A span declaration of the newer format.
#[derive(Debug, PartialEq)]
pub struct Span {
    /// The type of the span: the identity of its shape, which must be
    /// unique.
    pub signal_type: String,
    /// The kind of the span.
    pub kind: SpanKindSpec,
    /// The name pattern for the span.
    pub name: SpanName,
    /// The attributes that belong to the span, by reference.
    pub attributes: Vec<AttributeRef>,
    /// Which entities the span should be associated with.
    pub entity_associations: Vec<String>,
    /// The common descriptive fields.
    pub common: CommonFields,
}

/// The mathematical content of a [`Span`].
#[verifier::ext_equal]
pub struct SpanView {
    pub signal_type: Seq<char>,
    pub kind: SpanKindSpec,
    pub name: SpanNameView,
    pub attributes: Seq<AttributeRefView>,
    pub entity_associations: Seq<Seq<char>>,
    pub common: CommonFieldsView,
}

impl View for Span {
    type V = SpanView;

    open spec fn view(&self) -> SpanView {
        SpanView {
            signal_type: self.signal_type@,
            kind: self.kind,
            name: self.name@,
            attributes: self.attributes.deep_view(),
            entity_associations: self.entity_associations.deep_view(),
            common: self.common@,
        }
    }
}

impl DeepView for Span {
    type V = SpanView;

    open spec fn deep_view(&self) -> SpanView {
        self.view()
    }
}

/// The legacy group a span declaration becomes: the id is `span.`
/// followed by the span's type, the group type is the span
/// discriminator, the common fields carry over verbatim, stability
/// and the span kind are wrapped as present, annotations are present
/// only when non-empty, each attribute reference converts to a legacy
/// reference-shaped attribute in order, and every legacy field with
/// no counterpart is explicitly empty or absent.
pub open spec fn spec_into_v1_group(s: SpanView) -> GroupSpecView {
    GroupSpecView {
        id: "span."@ + s.signal_type,
        group_type: GroupType::Span,
        brief: s.common.brief,
        note: s.common.note,
        prefix: Seq::empty(),
        extends: None,
        include_groups: s.common.include_groups,
        stability: Some(s.common.stability),
        deprecated: s.common.deprecated,
        attributes: s.attributes.map_values(|a: AttributeRefView| spec_attribute_ref_to_v1(a)),
        span_kind: Some(s.kind),
        events: Seq::empty(),
        metric_name: None,
        instrument: None,
        unit: None,
        name: None,
        display_name: None,
        body: None,
        annotations: if s.common.annotations.len() == 0 {
            None
        } else {
            Some(s.common.annotations)
        },
        entity_associations: s.entity_associations,
        visibility: None,
    }
}

impl Span {
    /// Converts a span declaration of the newer format into a legacy
    /// group declaration.
    pub fn into_v1_group(self) -> (g: GroupSpec)
        ensures
            g@ == spec_into_v1_group(self@),
    {
        let ghost s0 = self;
        let Span { signal_type, kind, name: _, attributes, entity_associations, common } = self;
        let CommonFields { brief, note, stability, deprecated, include_groups, annotations } =
            common;
        proof {
            reveal_strlit("span.");
        }
        let mut id = String::from_str("span.");
        id.append(signal_type.as_str());
        let mut converted: Vec<AttributeSpec> = Vec::new();
        let mut i: usize = 0;
        while i < attributes.len()
            invariant
                i <= attributes@.len(),
                attributes.deep_view() == s0.attributes.deep_view(),
                converted.deep_view() =~= attributes.deep_view().take(i as int).map_values(
                    |a: AttributeRefView| spec_attribute_ref_to_v1(a),
                ),
            decreases attributes@.len() - i,
        {
            let ghost prev = converted.deep_view();
            converted.push(attributes[i].clone().into_v1_attribute());
            proof {
                assert(converted.deep_view() =~= prev.push(
                    spec_attribute_ref_to_v1(attributes@[i as int]@),
                ));
                assert(attributes.deep_view().take(i as int + 1).drop_last() =~= attributes
                    .deep_view().take(i as int));
                assert(converted.deep_view() =~= attributes.deep_view().take(i as int
                    + 1).map_values(|a: AttributeRefView| spec_attribute_ref_to_v1(a)));
            }
            i = i + 1;
        }
        proof {
            assert(attributes.deep_view().take(attributes@.len() as int) =~= attributes
                .deep_view());
        }
        let has_annotations = annotations.len() > 0;
        let g = GroupSpec {
            id,
            group_type: GroupType::Span,
            brief,
            note,
            prefix: String::new(),
            extends: None,
            include_groups,
            stability: Some(stability),
            deprecated,
            attributes: converted,
            span_kind: Some(kind),
            events: Vec::new(),
            metric_name: None,
            instrument: None,
            unit: None,
            name: None,
            display_name: None,
            body: None,
            annotations: if has_annotations {
                Some(annotations)
            } else {
                None
            },
            entity_associations,
            visibility: None,
        };
        proof {
            assert(g@ =~= spec_into_v1_group(s0@));
        }
        g
    }
}

/// The recognized fields of a span declaration.
pub open spec fn spec_span_keys() -> Seq<Seq<char>> {
    seq![
        "type"@,
        "kind"@,
        "name"@,
        "attributes"@,
        "entity_associations"@,
        "brief"@,
        "note"@,
        "stability"@,
        "deprecated"@,
        "include_groups"@,
        "annotations"@,
    ]
}

/// Decodes a span kind from its serialized name.
pub open spec fn spec_decode_span_kind(v: RawValue) -> Result<SpanKindSpec, DecodeErrorView> {
    match v {
        RawValue::Text(s) => if s@ == "client"@ {
            Ok(SpanKindSpec::Client)
        } else if s@ == "server"@ {
            Ok(SpanKindSpec::Server)
        } else if s@ == "producer"@ {
            Ok(SpanKindSpec::Producer)
        } else if s@ == "consumer"@ {
            Ok(SpanKindSpec::Consumer)
        } else if s@ == "internal"@ {
            Ok(SpanKindSpec::Internal)
        } else {
            Err(DecodeErrorView::ShapeMismatch { field: "kind"@ })
        },
        _ => Err(DecodeErrorView::ShapeMismatch { field: "kind"@ }),
    }
}

/// Decodes a span kind name.
pub fn decode_span_kind(v: &RawValue) -> (r: Result<SpanKindSpec, DecodeError>)
    ensures
        res_view(r) == spec_decode_span_kind(*v),
{
    match v {
        RawValue::Text(s) => {
            if crate::decode::str_is(s, "client") {
                Ok(SpanKindSpec::Client)
            } else if crate::decode::str_is(s, "server") {
                Ok(SpanKindSpec::Server)
            } else if crate::decode::str_is(s, "producer") {
                Ok(SpanKindSpec::Producer)
            } else if crate::decode::str_is(s, "consumer") {
                Ok(SpanKindSpec::Consumer)
            } else if crate::decode::str_is(s, "internal") {
                Ok(SpanKindSpec::Internal)
            } else {
                Err(DecodeError::ShapeMismatch { field: String::from_str("kind") })
            }
        },
        _ => Err(DecodeError::ShapeMismatch { field: String::from_str("kind") }),
    }
}

/// Decodes a span name: a mapping whose only field is the required
/// `note`.
pub open spec fn spec_decode_span_name(v: RawValue) -> Result<SpanNameView, DecodeErrorView> {
    match v {
        RawValue::Mapping(entries) => match spec_first_unknown_key(entries@, seq!["note"@]) {
            Some(k) => Err(DecodeErrorView::UnknownField { field: k }),
            None => match crate::decode::spec_req_text_field(entries@, "note"@) {
                Err(e) => Err(e),
                Ok(note) => Ok(SpanNameView { note }),
            },
        },
        _ => Err(DecodeErrorView::ShapeMismatch { field: "name"@ }),
    }
}

/// Decodes the span name mapping.
pub fn decode_span_name(v: &RawValue) -> (r: Result<SpanName, DecodeError>)
    ensures
        res_view(r) == spec_decode_span_name(*v),
{
    match v {
        RawValue::Mapping(entries) => {
            let mut allowed: Vec<&str> = Vec::new();
            allowed.push("note");
            proof {
                assert(allowed.deep_view() =~= seq!["note"@]);
            }
            match first_unknown_key(entries, &allowed) {
                Some(k) => {
                    return Err(DecodeError::UnknownField { field: k });
                },
                None => {},
            }
            match lookup(entries, "note") {
                None => Err(DecodeError::MissingField { field: String::from_str("note") }),
                Some(RawValue::Text(note)) => Ok(SpanName { note: note.clone() }),
                Some(_) => Err(DecodeError::ShapeMismatch { field: String::from_str("note") }),
            }
        },
        _ => Err(DecodeError::ShapeMismatch { field: String::from_str("name") }),
    }
}

/// Decodes one attribute reference: a mapping whose only field is the
/// required `ref`.
pub open spec fn spec_decode_attribute_ref(v: RawValue) -> Result<
    AttributeRefView,
    DecodeErrorView,
> {
    match v {
        RawValue::Mapping(entries) => match spec_first_unknown_key(entries@, seq!["ref"@]) {
            Some(k) => Err(DecodeErrorView::UnknownField { field: k }),
            None => match crate::decode::spec_req_text_field(entries@, "ref"@) {
                Err(e) => Err(e),
                Ok(reference) => Ok(AttributeRefView { reference }),
            },
        },
        _ => Err(DecodeErrorView::ShapeMismatch { field: "attributes"@ }),
    }
}

/// Decodes one attribute reference of a span's attribute list.
pub fn decode_attribute_ref(v: &RawValue) -> (r: Result<AttributeRef, DecodeError>)
    ensures
        res_view(r) == spec_decode_attribute_ref(*v),
{
    match v {
        RawValue::Mapping(entries) => {
            let mut allowed: Vec<&str> = Vec::new();
            allowed.push("ref");
            proof {
                assert(allowed.deep_view() =~= seq!["ref"@]);
            }
            match first_unknown_key(entries, &allowed) {
                Some(k) => {
                    return Err(DecodeError::UnknownField { field: k });
                },
                None => {},
            }
            match lookup(entries, "ref") {
                None => Err(DecodeError::MissingField { field: String::from_str("ref") }),
                Some(RawValue::Text(reference)) => Ok(
                    AttributeRef { reference: reference.clone() },
                ),
                Some(_) => Err(DecodeError::ShapeMismatch { field: String::from_str("ref") }),
            }
        },
        _ => Err(DecodeError::ShapeMismatch { field: String::from_str("attributes") }),
    }
}

/// Decodes an attribute reference list, first entry first; the first
/// failing entry decides the error.
pub open spec fn spec_decode_attribute_refs(items: Seq<RawValue>) -> Result<
    Seq<AttributeRefView>,
    DecodeErrorView,
>
    decreases items.len(),
{
    if items.len() == 0 {
        Ok(Seq::empty())
    } else {
        match spec_decode_attribute_refs(items.drop_last()) {
            Err(e) => Err(e),
            Ok(rest) => match spec_decode_attribute_ref(items.last()) {
                Err(e) => Err(e),
                Ok(a) => Ok(rest.push(a)),
            },
        }
    }
}

proof fn lemma_decode_attribute_refs_err(items: Seq<RawValue>, i: int)
    requires
        0 <= i <= items.len(),
        spec_decode_attribute_refs(items.take(i)) is Err,
    ensures
        spec_decode_attribute_refs(items) == spec_decode_attribute_refs(items.take(i)),
    decreases items.len() - i,
{
    if i == items.len() {
        assert(items.take(i) =~= items);
    } else {
        assert(items.take(i + 1).drop_last() =~= items.take(i));
        lemma_decode_attribute_refs_err(items, i + 1);
    }
}

fn decode_attribute_refs(items: &Vec<RawValue>) -> (r: Result<Vec<AttributeRef>, DecodeError>)
    ensures
        res_view(r) == spec_decode_attribute_refs(items@),
{
    let mut out: Vec<AttributeRef> = Vec::new();
    proof {
        assert(items@.take(0) =~= Seq::<RawValue>::empty());
        assert(out.deep_view() =~= Seq::<AttributeRefView>::empty());
    }
    let mut i: usize = 0;
    while i < items.len()
        invariant
            i <= items@.len(),
            spec_decode_attribute_refs(items@.take(i as int)) == Ok::<_, DecodeErrorView>(
                out.deep_view(),
            ),
        decreases items@.len() - i,
    {
        proof {
            assert(items@.take(i as int + 1).drop_last() =~= items@.take(i as int));
            assert(items@.take(i as int + 1).last() == items@[i as int]);
        }
        match decode_attribute_ref(&items[i]) {
            Err(e) => {
                proof {
                    lemma_decode_attribute_refs_err(items@, i as int + 1);
                }
                return Err(e);
            },
            Ok(a) => {
                let ghost prev = out.deep_view();
                out.push(a);
                proof {
                    assert(out.deep_view() =~= prev.push(a@));
                }
            },
        }
        i = i + 1;
    }
    proof {
        assert(items@.take(items@.len() as int) =~= items@);
    }
    Ok(out)
}

/// Reads an optional list-of-text field: absent decodes to an empty
/// list.
pub open spec fn spec_opt_text_list_field(es: Seq<RawEntry>, key: Seq<char>) -> Result<
    Seq<Seq<char>>,
    DecodeErrorView,
> {
    match spec_lookup(es, key) {
        None => Ok(Seq::empty()),
        Some(RawValue::List(items)) => if forall|i: int|
            0 <= i < items@.len() ==> items@[i] is Text {
            Ok(items@.map_values(|x: RawValue| x->Text_0@))
        } else {
            Err(DecodeErrorView::ShapeMismatch { field: key })
        },
        Some(_) => Err(DecodeErrorView::ShapeMismatch { field: key }),
    }
}

fn opt_text_list_field(entries: &Vec<RawEntry>, key: &str) -> (r: Result<Vec<String>, DecodeError>)
    ensures
        res_view(r) == spec_opt_text_list_field(entries@, key@),
{
    match lookup(entries, key) {
        None => {
            let out: Vec<String> = Vec::new();
            proof {
                assert(out.deep_view() =~= Seq::<Seq<char>>::empty());
            }
            Ok(out)
        },
        Some(RawValue::List(items)) => match crate::decode::try_texts(items) {
            Some(out) => Ok(out),
            None => Err(DecodeError::ShapeMismatch { field: String::from_str(key) }),
        },
        Some(_) => Err(DecodeError::ShapeMismatch { field: String::from_str(key) }),
    }
}

/// Decodes a span declaration: `type`, `kind`, `name` and `stability`
/// are required; `attributes`, `entity_associations`, `brief`,
/// `note`, `include_groups` and `annotations` default to empty;
/// `deprecated` stays absent when omitted; anything else is an
/// unknown field.
pub open spec fn spec_decode_span(v: RawValue) -> Result<SpanView, DecodeErrorView> {
    match v {
        RawValue::Mapping(entries) => {
            let es = entries@;
            match spec_first_unknown_key(es, spec_span_keys()) {
                Some(k) => Err(DecodeErrorView::UnknownField { field: k }),
                None => match crate::decode::spec_req_text_field(es, "type"@) {
                    Err(e) => Err(e),
                    Ok(signal_type) => match spec_lookup(es, "kind"@) {
                        None => Err(DecodeErrorView::MissingField { field: "kind"@ }),
                        Some(kv) => match spec_decode_span_kind(kv) {
                            Err(e) => Err(e),
                            Ok(kind) => match spec_lookup(es, "name"@) {
                                None => Err(DecodeErrorView::MissingField { field: "name"@ }),
                                Some(nv) => match spec_decode_span_name(nv) {
                                    Err(e) => Err(e),
                                    Ok(name) => match spec_opt_attribute_refs_field(es) {
                                        Err(e) => Err(e),
                                        Ok(attributes) => match spec_opt_text_list_field(
                                            es,
                                            "entity_associations"@,
                                        ) {
                                            Err(e) => Err(e),
                                            Ok(entity_associations) => match crate::decode::spec_opt_text_field(
                                                es,
                                                "brief"@,
                                            ) {
                                                Err(e) => Err(e),
                                                Ok(brief_opt) => match crate::decode::spec_opt_text_field(
                                                    es,
                                                    "note"@,
                                                ) {
                                                    Err(e) => Err(e),
                                                    Ok(note_opt) => match spec_lookup(
                                                        es,
                                                        "stability"@,
                                                    ) {
                                                        None => Err(
                                                            DecodeErrorView::MissingField {
                                                                field: "stability"@,
                                                            },
                                                        ),
                                                        Some(sv) => match crate::decode::spec_decode_stability(
                                                            sv,
                                                        ) {
                                                            Err(e) => Err(e),
                                                            Ok(stability) => match crate::decode::spec_opt_text_field(
                                                                es,
                                                                "deprecated"@,
                                                            ) {
                                                                Err(e) => Err(e),
                                                                Ok(deprecated) => match spec_opt_text_list_field(
                                                                    es,
                                                                    "include_groups"@,
                                                                ) {
                                                                    Err(e) => Err(e),
                                                                    Ok(include_groups) => match spec_opt_annotations_field(
                                                                        es,
                                                                    ) {
                                                                        Err(e) => Err(e),
                                                                        Ok(annotations) => Ok(
                                                                            SpanView {
                                                                                signal_type,
                                                                                kind,
                                                                                name,
                                                                                attributes,
                                                                                entity_associations,
                                                                                common: CommonFieldsView {
                                                                                    brief: match brief_opt {
                                                                                        Some(b) => b,
                                                                                        None => Seq::empty(),
                                                                                    },
                                                                                    note: match note_opt {
                                                                                        Some(n) => n,
                                                                                        None => Seq::empty(),
                                                                                    },
                                                                                    stability,
                                                                                    deprecated,
                                                                                    include_groups,
                                                                                    annotations,
                                                                                },
                                                                            },
                                                                        ),
                                                                    },
                                                                },
                                                            },
                                                        },
                                                    },
                                                },
                                            },
                                        },
                                    },
                                },
                            },
                        },
                    },
                },
            }
        },
        _ => Err(DecodeErrorView::ShapeMismatch { field: "span"@ }),
    }
}

/// Reads the optional attribute list of a span.
pub open spec fn spec_opt_attribute_refs_field(es: Seq<RawEntry>) -> Result<
    Seq<AttributeRefView>,
    DecodeErrorView,
> {
    match spec_lookup(es, "attributes"@) {
        None => Ok(Seq::empty()),
        Some(RawValue::List(items)) => spec_decode_attribute_refs(items@),
        Some(_) => Err(DecodeErrorView::ShapeMismatch { field: "attributes"@ }),
    }
}

/// Reads the optional annotations mapping of a declaration.
pub open spec fn spec_opt_annotations_field(es: Seq<RawEntry>) -> Result<
    Seq<(Seq<char>, RawValue)>,
    DecodeErrorView,
> {
    match spec_lookup(es, "annotations"@) {
        None => Ok(Seq::empty()),
        Some(RawValue::Mapping(aes)) => Ok(spec_annotations_view(aes@)),
        Some(_) => Err(DecodeErrorView::ShapeMismatch { field: "annotations"@ }),
    }
}

/// Decodes a span declaration from a document mapping.
pub fn decode_span(v: RawValue) -> (r: Result<Span, DecodeError>)
    ensures
        res_view(r) == spec_decode_span(v),
{
    let mut entries = match v {
        RawValue::Mapping(entries) => entries,
        _ => {
            return Err(DecodeError::ShapeMismatch { field: String::from_str("span") });
        },
    };
    let mut allowed: Vec<&str> = Vec::new();
    allowed.push("type");
    allowed.push("kind");
    allowed.push("name");
    allowed.push("attributes");
    allowed.push("entity_associations");
    allowed.push("brief");
    allowed.push("note");
    allowed.push("stability");
    allowed.push("deprecated");
    allowed.push("include_groups");
    allowed.push("annotations");
    proof {
        assert(allowed.deep_view() =~= spec_span_keys());
    }
    match first_unknown_key(&entries, &allowed) {
        Some(k) => {
            return Err(DecodeError::UnknownField { field: k });
        },
        None => {},
    }
    let signal_type = match crate::decode::req_text_field(&entries, "type") {
        Ok(x) => x,
        Err(e) => {
            return Err(e);
        },
    };
    let kind = match lookup(&entries, "kind") {
        None => {
            return Err(DecodeError::MissingField { field: String::from_str("kind") });
        },
        Some(kv) => match decode_span_kind(kv) {
            Ok(k) => k,
            Err(e) => {
                return Err(e);
            },
        },
    };
    let name = match lookup(&entries, "name") {
        None => {
            return Err(DecodeError::MissingField { field: String::from_str("name") });
        },
        Some(nv) => match decode_span_name(nv) {
            Ok(n) => n,
            Err(e) => {
                return Err(e);
            },
        },
    };
    let attributes = match lookup(&entries, "attributes") {
        None => {
            let out: Vec<AttributeRef> = Vec::new();
            proof {
                assert(out.deep_view() =~= Seq::<AttributeRefView>::empty());
            }
            out
        },
        Some(RawValue::List(items)) => match decode_attribute_refs(items) {
            Ok(a) => a,
            Err(e) => {
                return Err(e);
            },
        },
        Some(_) => {
            return Err(DecodeError::ShapeMismatch { field: String::from_str("attributes") });
        },
    };
    let entity_associations = match opt_text_list_field(&entries, "entity_associations") {
        Ok(x) => x,
        Err(e) => {
            return Err(e);
        },
    };
    let brief_opt = match crate::decode::opt_text_field(&entries, "brief") {
        Ok(x) => x,
        Err(e) => {
            return Err(e);
        },
    };
    let note_opt = match crate::decode::opt_text_field(&entries, "note") {
        Ok(x) => x,
        Err(e) => {
            return Err(e);
        },
    };
    let stability = match lookup(&entries, "stability") {
        None => {
            return Err(DecodeError::MissingField { field: String::from_str("stability") });
        },
        Some(sv) => match crate::decode::decode_stability(sv) {
            Ok(st) => st,
            Err(e) => {
                return Err(e);
            },
        },
    };
    let deprecated = match crate::decode::opt_text_field(&entries, "deprecated") {
        Ok(x) => x,
        Err(e) => {
            return Err(e);
        },
    };
    let include_groups = match opt_text_list_field(&entries, "include_groups") {
        Ok(x) => x,
        Err(e) => {
            return Err(e);
        },
    };
    let annotations = match lookup_index(&entries, "annotations") {
        None => Vec::new(),
        Some(ix) => {
            let entry = entries.remove(ix);
            match entry.value {
                RawValue::Mapping(aes) => aes,
                _ => {
                    return Err(DecodeError::ShapeMismatch {
                        field: String::from_str("annotations"),
                    });
                },
            }
        },
    };
    let brief = match brief_opt {
        Some(b) => b,
        None => String::new(),
    };
    let note = match note_opt {
        Some(n) => n,
        None => String::new(),
    };
    proof {
        assert(spec_annotations_view(Seq::<RawEntry>::empty()) =~= Seq::<(
            Seq<char>,
            RawValue,
        )>::empty());
    }
    Ok(
        Span {
            signal_type,
            kind,
            name,
            attributes,
            entity_associations,
            common: CommonFields {
                brief,
                note,
                stability,
                deprecated,
                include_groups,
                annotations,
            },
        },
    )
}

} // verus!
