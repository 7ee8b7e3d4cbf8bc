//! Attribute specification.
//!
//! An attribute is declared either by reference to a definition that
//! lives elsewhere or by a full inline definition; the two shapes are
//! told apart by which keys the declaring object carries. This module
//! holds the declaration model, its display renderings, and the
//! accessors that erase the shape distinction for downstream
//! consumers.

use vstd::prelude::*;

use crate::raw::{DoubleValue, DoubleValueView};
use crate::stability::Stability;
use crate::text::{spec_int_text, spec_join_comma, int_text};

verus! {

/// The different types of basic requirement levels.
#[derive(Debug, Clone, Copy, PartialEq, Eq, Hash, Structural)]
pub enum BasicRequirementLevelSpec {
    /// A required requirement level.
    Required,
    /// An optional requirement level.
    Recommended,
    /// An opt-in requirement level.
    OptIn,
}

/// The different requirement level specifications.
#[derive(Debug, Clone, PartialEq, Eq, Hash)]
pub enum RequirementLevel {
    /// A basic requirement level.
    Basic(BasicRequirementLevelSpec),
    /// A conditional requirement level.
    ConditionallyRequired {
        /// The description of the condition.
        text: String,
    },
    /// A recommended requirement level.
    Recommended {
        /// The description of the recommendation.
        text: String,
    },
}

/// The mathematical content of a [`RequirementLevel`].
#[verifier::ext_equal]
pub enum RequirementLevelView {
    /// A basic requirement level.
    Basic(BasicRequirementLevelSpec),
    /// A conditional requirement level.
    ConditionallyRequired { text: Seq<char> },
    /// A recommended requirement level.
    Recommended { text: Seq<char> },
}

impl View for RequirementLevel {
    type V = RequirementLevelView;

    open spec fn view(&self) -> RequirementLevelView {
        match self {
            RequirementLevel::Basic(b) => RequirementLevelView::Basic(*b),
            RequirementLevel::ConditionallyRequired { text } => {
                RequirementLevelView::ConditionallyRequired { text: text@ }
            },
            RequirementLevel::Recommended { text } => RequirementLevelView::Recommended {
                text: text@,
            },
        }
    }
}

impl DeepView for RequirementLevel {
    type V = RequirementLevelView;

    open spec fn deep_view(&self) -> RequirementLevelView {
        self.view()
    }
}

/// The display text of a basic requirement level.
pub open spec fn spec_basic_requirement_level_display(b: BasicRequirementLevelSpec) -> Seq<char> {
    match b {
        BasicRequirementLevelSpec::Required => "required"@,
        BasicRequirementLevelSpec::Recommended => "recommended"@,
        BasicRequirementLevelSpec::OptIn => "opt-in"@,
    }
}

/// The display text of a requirement level.
pub open spec fn spec_requirement_level_display(l: RequirementLevelView) -> Seq<char> {
    match l {
        RequirementLevelView::Basic(b) => spec_basic_requirement_level_display(b),
        RequirementLevelView::ConditionallyRequired { text } => "conditionally required (condition: "@
            + text + ")"@,
        RequirementLevelView::Recommended { text } => "recommended ("@ + text + ")"@,
    }
}

impl BasicRequirementLevelSpec {
    /// Renders the level as human readable text.
    pub fn display(&self) -> (s: String)
        ensures
            s@ == spec_basic_requirement_level_display(*self),
    {
        match self {
            BasicRequirementLevelSpec::Required => String::from_str("required"),
            BasicRequirementLevelSpec::Recommended => String::from_str("recommended"),
            BasicRequirementLevelSpec::OptIn => String::from_str("opt-in"),
        }
    }
}

impl RequirementLevel {
    /// Renders the level as human readable text.
    pub fn display(&self) -> (s: String)
        ensures
            s@ == spec_requirement_level_display(self@),
    {
        match self {
            RequirementLevel::Basic(b) => b.display(),
            RequirementLevel::ConditionallyRequired { text } => {
                let mut s = String::from_str("conditionally required (condition: ");
                s.append(text.as_str());
                s.append(")");
                s
            },
            RequirementLevel::Recommended { text } => {
                let mut s = String::from_str("recommended (");
                s.append(text.as_str());
                s.append(")");
                s
            },
        }
    }
}

impl Default for RequirementLevel {
    /// The requirement level assumed when a definition omits one.
    fn default() -> (r: Self)
        ensures
            r == RequirementLevel::Basic(BasicRequirementLevelSpec::Recommended),
    {
        RequirementLevel::Basic(BasicRequirementLevelSpec::Recommended)
    }
}

/// The different types of values.
#[derive(Debug, Clone, PartialEq, Eq, Hash)]
pub enum ValueSpec {
    /// An integer value.
    Int(i64),
    /// A double value.
    Double(DoubleValue),
    /// A string value.
    String(String),
}

/// The mathematical content of a [`ValueSpec`].
#[verifier::ext_equal]
pub enum ValueSpecView {
    /// An integer value.
    Int(i64),
    /// A double value.
    Double(DoubleValueView),
    /// A string value.
    String(Seq<char>),
}

impl View for ValueSpec {
    type V = ValueSpecView;

    open spec fn view(&self) -> ValueSpecView {
        match self {
            ValueSpec::Int(v) => ValueSpecView::Int(*v),
            ValueSpec::Double(d) => ValueSpecView::Double(d@),
            ValueSpec::String(s) => ValueSpecView::String(s@),
        }
    }
}

impl DeepView for ValueSpec {
    type V = ValueSpecView;

    open spec fn deep_view(&self) -> ValueSpecView {
        self.view()
    }
}

/// The display text of a value: integers render as decimal digits,
/// doubles as their rendered text, strings as their own characters.
pub open spec fn spec_value_display(v: ValueSpecView) -> Seq<char> {
    match v {
        ValueSpecView::Int(n) => spec_int_text(n as int),
        ValueSpecView::Double(d) => d.text,
        ValueSpecView::String(s) => s,
    }
}

impl ValueSpec {
    /// Renders the value as human readable text.
    pub fn display(&self) -> (s: String)
        ensures
            s@ == spec_value_display(self@),
    {
        match self {
            ValueSpec::Int(v) => int_text(*v),
            ValueSpec::Double(d) => d.text.clone(),
            ValueSpec::String(s) => s.clone(),
        }
    }
}

/// The different types of examples.
#[derive(Debug, Clone, PartialEq, Eq, Hash)]
pub enum Examples {
    /// A boolean example.
    Bool(bool),
    /// An integer example.
    Int(i64),
    /// A double example.
    Double(DoubleValue),
    /// A string example.
    String(String),
    /// An array of integers example.
    Ints(Vec<i64>),
    /// An array of doubles example.
    Doubles(Vec<DoubleValue>),
    /// An array of booleans example.
    Bools(Vec<bool>),
    /// An array of strings example.
    Strings(Vec<String>),
}

/// The mathematical content of an [`Examples`].
#[verifier::ext_equal]
pub enum ExamplesView {
    /// A boolean example.
    Bool(bool),
    /// An integer example.
    Int(i64),
    /// A double example.
    Double(DoubleValueView),
    /// A string example.
    String(Seq<char>),
    /// An array of integers example.
    Ints(Seq<i64>),
    /// An array of doubles example.
    Doubles(Seq<DoubleValueView>),
    /// An array of booleans example.
    Bools(Seq<bool>),
    /// An array of strings example.
    Strings(Seq<Seq<char>>),
}

impl View for Examples {
    type V = ExamplesView;

    open spec fn view(&self) -> ExamplesView {
        match self {
            Examples::Bool(b) => ExamplesView::Bool(*b),
            Examples::Int(v) => ExamplesView::Int(*v),
            Examples::Double(d) => ExamplesView::Double(d@),
            Examples::String(s) => ExamplesView::String(s@),
            Examples::Ints(vs) => ExamplesView::Ints(vs@),
            Examples::Doubles(ds) => ExamplesView::Doubles(ds.deep_view()),
            Examples::Bools(bs) => ExamplesView::Bools(bs@),
            Examples::Strings(ss) => ExamplesView::Strings(ss.deep_view()),
        }
    }
}

impl DeepView for Examples {
    type V = ExamplesView;

    open spec fn deep_view(&self) -> ExamplesView {
        self.view()
    }
}

/// Primitive or array types.
#[derive(Debug, Clone, Copy, PartialEq, Eq, Hash, Structural)]
pub enum PrimitiveOrArrayTypeSpec {
    /// A boolean attribute.
    Boolean,
    /// An integer attribute (signed 64 bit integer).
    Int,
    /// A double attribute (double precision floating point).
    Double,
    /// A string attribute.
    String,
    /// An array of strings attribute.
    Strings,
    /// An array of integers attribute.
    Ints,
    /// An array of doubles attribute.
    Doubles,
    /// An array of booleans attribute.
    Booleans,
}

/// The serialized name of a primitive or array type.
pub open spec fn spec_primitive_display(p: PrimitiveOrArrayTypeSpec) -> Seq<char> {
    match p {
        PrimitiveOrArrayTypeSpec::Boolean => "boolean"@,
        PrimitiveOrArrayTypeSpec::Int => "int"@,
        PrimitiveOrArrayTypeSpec::Double => "double"@,
        PrimitiveOrArrayTypeSpec::String => "string"@,
        PrimitiveOrArrayTypeSpec::Strings => "string[]"@,
        PrimitiveOrArrayTypeSpec::Ints => "int[]"@,
        PrimitiveOrArrayTypeSpec::Doubles => "double[]"@,
        PrimitiveOrArrayTypeSpec::Booleans => "boolean[]"@,
    }
}

impl PrimitiveOrArrayTypeSpec {
    /// Renders the type as its serialized name.
    pub fn display(&self) -> (s: String)
        ensures
            s@ == spec_primitive_display(*self),
    {
        match self {
            PrimitiveOrArrayTypeSpec::Boolean => String::from_str("boolean"),
            PrimitiveOrArrayTypeSpec::Int => String::from_str("int"),
            PrimitiveOrArrayTypeSpec::Double => String::from_str("double"),
            PrimitiveOrArrayTypeSpec::String => String::from_str("string"),
            PrimitiveOrArrayTypeSpec::Strings => String::from_str("string[]"),
            PrimitiveOrArrayTypeSpec::Ints => String::from_str("int[]"),
            PrimitiveOrArrayTypeSpec::Doubles => String::from_str("double[]"),
            PrimitiveOrArrayTypeSpec::Booleans => String::from_str("boolean[]"),
        }
    }
}

/// Template types: the declared attribute name is a prefix, and the
/// emitting code supplies the remainder of the name.
#[derive(Debug, Clone, Copy, PartialEq, Eq, Hash, Structural)]
pub enum TemplateTypeSpec {
    /// A boolean attribute.
    Boolean,
    /// An integer attribute.
    Int,
    /// A double attribute.
    Double,
    /// A string attribute.
    String,
    /// An array of strings attribute.
    Strings,
    /// An array of integers attribute.
    Ints,
    /// An array of doubles attribute.
    Doubles,
    /// An array of booleans attribute.
    Booleans,
}

/// The serialized name of a template type.
pub open spec fn spec_template_display(t: TemplateTypeSpec) -> Seq<char> {
    match t {
        TemplateTypeSpec::Boolean => "template[boolean]"@,
        TemplateTypeSpec::Int => "template[int]"@,
        TemplateTypeSpec::Double => "template[double]"@,
        TemplateTypeSpec::String => "template[string]"@,
        TemplateTypeSpec::Strings => "template[string[]]"@,
        TemplateTypeSpec::Ints => "template[int[]]"@,
        TemplateTypeSpec::Doubles => "template[double[]]"@,
        TemplateTypeSpec::Booleans => "template[boolean[]]"@,
    }
}

impl TemplateTypeSpec {
    /// Renders the type as its serialized name.
    pub fn display(&self) -> (s: String)
        ensures
            s@ == spec_template_display(*self),
    {
        match self {
            TemplateTypeSpec::Boolean => String::from_str("template[boolean]"),
            TemplateTypeSpec::Int => String::from_str("template[int]"),
            TemplateTypeSpec::Double => String::from_str("template[double]"),
            TemplateTypeSpec::String => String::from_str("template[string]"),
            TemplateTypeSpec::Strings => String::from_str("template[string[]]"),
            TemplateTypeSpec::Ints => String::from_str("template[int[]]"),
            TemplateTypeSpec::Doubles => String::from_str("template[double[]]"),
            TemplateTypeSpec::Booleans => String::from_str("template[boolean[]]"),
        }
    }
}

/// Possible enum entries.
#[derive(Debug, Clone, PartialEq, Eq, Hash)]
pub struct EnumEntriesSpec {
    /// String that uniquely identifies the enum entry.
    pub id: String,
    /// Value of the enum entry.
    pub value: ValueSpec,
    /// Brief description of the enum entry value.
    /// It defaults to the value of id downstream.
    pub brief: Option<String>,
    /// Longer description.
    /// It defaults to an empty string downstream.
    pub note: Option<String>,
    /// Stability of this enum value.
    pub stability: Option<Stability>,
}

/// The mathematical content of an [`EnumEntriesSpec`].
#[verifier::ext_equal]
pub struct EnumEntriesSpecView {
    pub id: Seq<char>,
    pub value: ValueSpecView,
    pub brief: Option<Seq<char>>,
    pub note: Option<Seq<char>>,
    pub stability: Option<Stability>,
}

impl View for EnumEntriesSpec {
    type V = EnumEntriesSpecView;

    open spec fn view(&self) -> EnumEntriesSpecView {
        EnumEntriesSpecView {
            id: self.id@,
            value: self.value@,
            brief: self.brief.deep_view(),
            note: self.note.deep_view(),
            stability: self.stability,
        }
    }
}

impl DeepView for EnumEntriesSpec {
    type V = EnumEntriesSpecView;

    open spec fn deep_view(&self) -> EnumEntriesSpecView {
        self.view()
    }
}

/// The display text of an enum entry.
pub open spec fn spec_enum_entries_display(e: EnumEntriesSpecView) -> Seq<char> {
    "id="@ + e.id + ", type="@ + spec_value_display(e.value)
}

impl EnumEntriesSpec {
    /// Renders the entry as human readable text.
    pub fn display(&self) -> (s: String)
        ensures
            s@ == spec_enum_entries_display(self@),
    {
        let mut s = String::from_str("id=");
        s.append(self.id.as_str());
        s.append(", type=");
        let value_text = self.value.display();
        s.append(value_text.as_str());
        s
    }
}

/// The different types of attributes.
#[derive(Debug, Clone, PartialEq, Eq, Hash)]
pub enum AttributeType {
    /// Primitive or array type.
    PrimitiveOrArray(PrimitiveOrArrayTypeSpec),
    /// A template type.
    Template(TemplateTypeSpec),
    /// An enum definition type.
    Enum {
        /// Set to false to not accept values other than the specified
        /// members. It defaults to true.
        allow_custom_values: bool,
        /// List of enum entries.
        members: Vec<EnumEntriesSpec>,
    },
}

/// The mathematical content of an [`AttributeType`].
#[verifier::ext_equal]
pub enum AttributeTypeView {
    /// Primitive or array type.
    PrimitiveOrArray(PrimitiveOrArrayTypeSpec),
    /// A template type.
    Template(TemplateTypeSpec),
    /// An enum definition type.
    Enum { allow_custom_values: bool, members: Seq<EnumEntriesSpecView> },
}

impl View for AttributeType {
    type V = AttributeTypeView;

    open spec fn view(&self) -> AttributeTypeView {
        match self {
            AttributeType::PrimitiveOrArray(p) => AttributeTypeView::PrimitiveOrArray(*p),
            AttributeType::Template(t) => AttributeTypeView::Template(*t),
            AttributeType::Enum { allow_custom_values, members } => AttributeTypeView::Enum {
                allow_custom_values: *allow_custom_values,
                members: members.deep_view(),
            },
        }
    }
}

impl DeepView for AttributeType {
    type V = AttributeTypeView;

    open spec fn deep_view(&self) -> AttributeTypeView {
        self.view()
    }
}

/// The ids of the members of an enum type, in declaration order.
pub open spec fn spec_member_ids(members: Seq<EnumEntriesSpecView>) -> Seq<Seq<char>> {
    members.map_values(|m: EnumEntriesSpecView| m.id)
}

/// The display text of an attribute type. Primitive, array and
/// template types render as their serialized name; an enum type
/// renders its member ids, comma separated, in one pair of braces.
pub open spec fn spec_attribute_type_display(t: AttributeTypeView) -> Seq<char> {
    match t {
        AttributeTypeView::PrimitiveOrArray(p) => spec_primitive_display(p),
        AttributeTypeView::Template(tt) => spec_template_display(tt),
        AttributeTypeView::Enum { members, .. } => "enum {"@ + spec_join_comma(
            spec_member_ids(members),
        ) + "}"@,
    }
}

impl AttributeType {
    /// Renders the type as human readable text.
    pub fn display(&self) -> (s: String)
        ensures
            s@ == spec_attribute_type_display(self@),
    {
        match self {
            AttributeType::PrimitiveOrArray(p) => p.display(),
            AttributeType::Template(t) => t.display(),
            AttributeType::Enum { members, .. } => {
                let ghost ids = spec_member_ids(members.deep_view());
                let mut s = String::from_str("enum {");
                let mut i: usize = 0;
                while i < members.len()
                    invariant
                        i <= members@.len(),
                        ids == spec_member_ids(members.deep_view()),
                        ids.len() == members@.len(),
                        s@ == "enum {"@ + spec_join_comma(ids.take(i as int)),
                    decreases members@.len() - i,
                {
                    if i > 0 {
                        s.append(", ");
                    }
                    s.append(members[i].id.as_str());
                    proof {
                        assert(ids[i as int] == members@[i as int]@.id);
                        assert(ids.take(i as int + 1).drop_last() =~= ids.take(i as int));
                        assert(ids.take(i as int + 1).last() == ids[i as int]);
                        if i == 0 {
                            assert(spec_join_comma(ids.take(1)) == ids[0]);
                        }
                    }
                    i = i + 1;
                }
                s.append("}");
                proof {
                    assert(ids.take(members@.len() as int) =~= ids);
                }
                s
            },
        }
    }
}

/// An attribute specification: a reference to an attribute defined
/// elsewhere, or a full inline definition.
#[derive(Debug, Clone, PartialEq)]
pub enum AttributeSpec {
    /// Reference to another attribute.
    ///
    /// The reference must name the id of an existing attribute
    /// definition; resolving it is the job of an external
    /// collaborator.
    Ref {
        /// The id of the referenced attribute.
        reference: String,
        /// A brief description of the attribute.
        brief: Option<String>,
        /// Example values for the attribute, a single one or a list.
        examples: Option<Examples>,
        /// Associates a tag, a sub-group label, to the attribute.
        tag: Option<String>,
        /// Specifies if the attribute is mandatory. A reference that
        /// omits it inherits the referenced attribute's level, so no
        /// default is injected here.
        requirement_level: Option<RequirementLevel>,
        /// Specifies if the attribute is especially relevant for
        /// sampling and thus should be set at span start.
        sampling_relevant: Option<bool>,
        /// A more elaborate description of the attribute.
        note: Option<String>,
        /// Specifies the stability of the attribute.
        stability: Option<Stability>,
        /// Specifies if the attribute is deprecated, and why.
        deprecated: Option<String>,
    },
    /// Attribute definition.
    Id {
        /// String that uniquely identifies the attribute.
        id: String,
        /// The type of the attribute.
        attr_type: AttributeType,
        /// A brief description of the attribute.
        brief: Option<String>,
        /// Example values for the attribute, a single one or a list.
        examples: Option<Examples>,
        /// Associates a tag, a sub-group label, to the attribute.
        tag: Option<String>,
        /// Specifies if the attribute is mandatory. When omitted, the
        /// attribute is recommended.
        requirement_level: RequirementLevel,
        /// Specifies if the attribute is especially relevant for
        /// sampling and thus should be set at span start.
        sampling_relevant: Option<bool>,
        /// A more elaborate description of the attribute.
        /// It defaults to an empty string.
        note: String,
        /// Specifies the stability of the attribute.
        stability: Option<Stability>,
        /// Specifies if the attribute is deprecated, and why.
        deprecated: Option<String>,
    },
}

/// The mathematical content of an [`AttributeSpec`].
#[verifier::ext_equal]
pub enum AttributeSpecView {
    /// Reference to another attribute.
    Ref {
        reference: Seq<char>,
        brief: Option<Seq<char>>,
        examples: Option<ExamplesView>,
        tag: Option<Seq<char>>,
        requirement_level: Option<RequirementLevelView>,
        sampling_relevant: Option<bool>,
        note: Option<Seq<char>>,
        stability: Option<Stability>,
        deprecated: Option<Seq<char>>,
    },
    /// Attribute definition.
    Id {
        id: Seq<char>,
        attr_type: AttributeTypeView,
        brief: Option<Seq<char>>,
        examples: Option<ExamplesView>,
        tag: Option<Seq<char>>,
        requirement_level: RequirementLevelView,
        sampling_relevant: Option<bool>,
        note: Seq<char>,
        stability: Option<Stability>,
        deprecated: Option<Seq<char>>,
    },
}

impl View for AttributeSpec {
    type V = AttributeSpecView;

    open spec fn view(&self) -> AttributeSpecView {
        match self {
            AttributeSpec::Ref {
                reference,
                brief,
                examples,
                tag,
                requirement_level,
                sampling_relevant,
                note,
                stability,
                deprecated,
            } => AttributeSpecView::Ref {
                reference: reference@,
                brief: brief.deep_view(),
                examples: examples.deep_view(),
                tag: tag.deep_view(),
                requirement_level: requirement_level.deep_view(),
                sampling_relevant: *sampling_relevant,
                note: note.deep_view(),
                stability: *stability,
                deprecated: deprecated.deep_view(),
            },
            AttributeSpec::Id {
                id,
                attr_type,
                brief,
                examples,
                tag,
                requirement_level,
                sampling_relevant,
                note,
                stability,
                deprecated,
            } => AttributeSpecView::Id {
                id: id@,
                attr_type: attr_type@,
                brief: brief.deep_view(),
                examples: examples.deep_view(),
                tag: tag.deep_view(),
                requirement_level: requirement_level@,
                sampling_relevant: *sampling_relevant,
                note: note@,
                stability: *stability,
                deprecated: deprecated.deep_view(),
            },
        }
    }
}

impl DeepView for AttributeSpec {
    type V = AttributeSpecView;

    open spec fn deep_view(&self) -> AttributeSpecView {
        self.view()
    }
}

/// Whether an attribute is required: true exactly when its
/// requirement level is present and is the basic `Required` level.
pub open spec fn spec_is_required(a: AttributeSpecView) -> bool {
    match a {
        AttributeSpecView::Ref { requirement_level, .. } => requirement_level matches Some(
            RequirementLevelView::Basic(BasicRequirementLevelSpec::Required),
        ),
        AttributeSpecView::Id { requirement_level, .. } => requirement_level
            == RequirementLevelView::Basic(BasicRequirementLevelSpec::Required),
    }
}

/// The id of an attribute: the reference id of a reference, the
/// definition id of a definition.
pub open spec fn spec_attribute_id(a: AttributeSpecView) -> Seq<char> {
    match a {
        AttributeSpecView::Ref { reference, .. } => reference,
        AttributeSpecView::Id { id, .. } => id,
    }
}

/// The brief of an attribute, or empty text when absent.
pub open spec fn spec_attribute_brief(a: AttributeSpecView) -> Seq<char> {
    match a {
        AttributeSpecView::Ref { brief, .. } => match brief {
            Some(b) => b,
            None => Seq::empty(),
        },
        AttributeSpecView::Id { brief, .. } => match brief {
            Some(b) => b,
            None => Seq::empty(),
        },
    }
}

/// The note of an attribute, or empty text when absent.
pub open spec fn spec_attribute_note(a: AttributeSpecView) -> Seq<char> {
    match a {
        AttributeSpecView::Ref { note, .. } => match note {
            Some(n) => n,
            None => Seq::empty(),
        },
        AttributeSpecView::Id { note, .. } => note,
    }
}

/// The tag of an attribute, if any.
pub open spec fn spec_attribute_tag(a: AttributeSpecView) -> Option<Seq<char>> {
    match a {
        AttributeSpecView::Ref { tag, .. } => tag,
        AttributeSpecView::Id { tag, .. } => tag,
    }
}

impl AttributeSpec {
    /// Returns true if the attribute is required: its requirement
    /// level is present and is exactly the basic `Required` level. An
    /// absent level, possible only on a reference, is not required.
    pub fn is_required(&self) -> (b: bool)
        ensures
            b == spec_is_required(self@),
    {
        match self {
            AttributeSpec::Ref { requirement_level, .. } => match requirement_level {
                Some(RequirementLevel::Basic(BasicRequirementLevelSpec::Required)) => true,
                _ => false,
            },
            AttributeSpec::Id { requirement_level, .. } => match requirement_level {
                RequirementLevel::Basic(BasicRequirementLevelSpec::Required) => true,
                _ => false,
            },
        }
    }

    /// Returns the id of the attribute.
    pub fn id(&self) -> (r: String)
        ensures
            r@ == spec_attribute_id(self@),
    {
        match self {
            AttributeSpec::Ref { reference, .. } => reference.clone(),
            AttributeSpec::Id { id, .. } => id.clone(),
        }
    }

    /// Returns the brief of the attribute, or empty text when absent.
    pub fn brief(&self) -> (r: String)
        ensures
            r@ == spec_attribute_brief(self@),
    {
        match self {
            AttributeSpec::Ref { brief, .. } => match brief {
                Some(b) => b.clone(),
                None => String::new(),
            },
            AttributeSpec::Id { brief, .. } => match brief {
                Some(b) => b.clone(),
                None => String::new(),
            },
        }
    }

    /// Returns the note of the attribute. A definition holds its note
    /// directly; a reference defaults an absent note to empty text
    /// here, at read time.
    pub fn note(&self) -> (r: String)
        ensures
            r@ == spec_attribute_note(self@),
    {
        match self {
            AttributeSpec::Ref { note, .. } => match note {
                Some(n) => n.clone(),
                None => String::new(),
            },
            AttributeSpec::Id { note, .. } => note.clone(),
        }
    }

    /// Returns the tag of the attribute, if any.
    pub fn tag(&self) -> (r: Option<String>)
        ensures
            r.deep_view() == spec_attribute_tag(self@),
    {
        match self {
            AttributeSpec::Ref { tag, .. } => match tag {
                Some(t) => Some(t.clone()),
                None => None,
            },
            AttributeSpec::Id { tag, .. } => match tag {
                Some(t) => Some(t.clone()),
                None => None,
            },
        }
    }
}

/// The default for `allow_custom_values` on an enum type: an enum
/// that does not say otherwise accepts values beyond its members.
pub fn default_as_true() -> (b: bool)
    ensures
        b,
{
    true
}

} // verus!
