//! The legacy group shape.
//!
//! A group is the umbrella declaration for any signal kind plus its
//! attributes. This crate only produces a group, as the target of the
//! span conversion; it never consumes one.

use vstd::prelude::*;

use crate::attribute::{AttributeSpec, AttributeSpecView};
use crate::raw::RawEntry;
use crate::raw::RawValue;
use crate::stability::Stability;

verus! {

/// The type of a group: which signal kind it declares.
#[derive(Debug, Clone, Copy, PartialEq, Eq, Hash, Structural)]
pub enum GroupType {
    /// A group of attributes shared by other groups.
    AttributeGroup,
    /// A span declaration.
    Span,
    /// An event declaration.
    Event,
    /// A metric declaration.
    Metric,
    /// An entity (formerly resource) declaration.
    Entity,
    /// A scope declaration.
    Scope,
}

/// The kind of a span.
#[derive(Debug, Clone, Copy, PartialEq, Eq, Hash, Structural)]
pub enum SpanKindSpec {
    /// A span covering an outgoing request.
    Client,
    /// A span covering the handling of a request.
    Server,
    /// A span describing a message sent to a broker.
    Producer,
    /// A span describing a message received from a broker.
    Consumer,
    /// A span internal to an application.
    Internal,
}

impl View for SpanKindSpec {
    type V = SpanKindSpec;

    open spec fn view(&self) -> SpanKindSpec {
        *self
    }
}

impl DeepView for SpanKindSpec {
    type V = SpanKindSpec;

    open spec fn deep_view(&self) -> SpanKindSpec {
        *self
    }
}

/// The content of an annotation mapping: its keys and their values,
/// in document order.
pub open spec fn spec_annotations_view(es: Seq<RawEntry>) -> Seq<(Seq<char>, RawValue)> {
    es.map_values(|e: RawEntry| (e.key@, e.value))
}

/// A legacy group declaration. The group shape carries fields for
/// every signal kind, so a producer must explicitly null out the
/// fields that do not apply rather than leave them uninitialized.
#[derive(Debug, PartialEq)]
pub struct GroupSpec {
    /// The unique id of the group.
    pub id: String,
    /// The signal kind the group declares.
    pub group_type: GroupType,
    /// A brief description of the group.
    pub brief: String,
    /// A more elaborate description of the group.
    pub note: String,
    /// A prefix once prepended to attribute names; empty when unused.
    pub prefix: String,
    /// The id of a group this group extends, if any.
    pub extends: Option<String>,
    /// Ids of groups whose attributes this group includes.
    pub include_groups: Vec<String>,
    /// The stability of the group.
    pub stability: Option<Stability>,
    /// Why the group is deprecated, if it is.
    pub deprecated: Option<String>,
    /// The attributes of the group.
    pub attributes: Vec<AttributeSpec>,
    /// The span kind, present only on span groups.
    pub span_kind: Option<SpanKindSpec>,
    /// Event names, present only on span groups that list them.
    pub events: Vec<String>,
    /// The metric name, present only on metric groups.
    pub metric_name: Option<String>,
    /// The instrument, present only on metric groups.
    pub instrument: Option<String>,
    /// The unit, present only on metric groups.
    pub unit: Option<String>,
    /// The free-form name of the group, if any.
    pub name: Option<String>,
    /// The display name of the group, if any.
    pub display_name: Option<String>,
    /// The body, present only on event groups.
    pub body: Option<String>,
    /// Free-form annotations, present only when non-empty.
    pub annotations: Option<Vec<RawEntry>>,
    /// Which entities the group's signal should be associated with.
    pub entity_associations: Vec<String>,
    /// The visibility of the group, if any.
    pub visibility: Option<String>,
}

/// The mathematical content of a [`GroupSpec`].
#[verifier::ext_equal]
pub struct GroupSpecView {
    pub id: Seq<char>,
    pub group_type: GroupType,
    pub brief: Seq<char>,
    pub note: Seq<char>,
    pub prefix: Seq<char>,
    pub extends: Option<Seq<char>>,
    pub include_groups: Seq<Seq<char>>,
    pub stability: Option<Stability>,
    pub deprecated: Option<Seq<char>>,
    pub attributes: Seq<AttributeSpecView>,
    pub span_kind: Option<SpanKindSpec>,
    pub events: Seq<Seq<char>>,
    pub metric_name: Option<Seq<char>>,
    pub instrument: Option<Seq<char>>,
    pub unit: Option<Seq<char>>,
    pub name: Option<Seq<char>>,
    pub display_name: Option<Seq<char>>,
    pub body: Option<Seq<char>>,
    pub annotations: Option<Seq<(Seq<char>, RawValue)>>,
    pub entity_associations: Seq<Seq<char>>,
    pub visibility: Option<Seq<char>>,
}

impl View for GroupSpec {
    type V = GroupSpecView;

    open spec fn view(&self) -> GroupSpecView {
        GroupSpecView {
            id: self.id@,
            group_type: self.group_type,
            brief: self.brief@,
            note: self.note@,
            prefix: self.prefix@,
            extends: self.extends.deep_view(),
            include_groups: self.include_groups.deep_view(),
            stability: self.stability,
            deprecated: self.deprecated.deep_view(),
            attributes: self.attributes.deep_view(),
            span_kind: self.span_kind,
            events: self.events.deep_view(),
            metric_name: self.metric_name.deep_view(),
            instrument: self.instrument.deep_view(),
            unit: self.unit.deep_view(),
            name: self.name.deep_view(),
            display_name: self.display_name.deep_view(),
            body: self.body.deep_view(),
            annotations: match self.annotations {
                Some(es) => Some(spec_annotations_view(es@)),
                None => None,
            },
            entity_associations: self.entity_associations.deep_view(),
            visibility: self.visibility.deep_view(),
        }
    }
}

impl DeepView for GroupSpec {
    type V = GroupSpecView;

    open spec fn deep_view(&self) -> GroupSpecView {
        self.view()
    }
}

} // verus!
