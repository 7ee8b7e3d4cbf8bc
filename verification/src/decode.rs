//! Decoding of document values into the attribute model.
//!
//! Several sibling shapes share one untyped input: an attribute is a
//! reference or a definition, a type is a fixed name or an inline
//! enum, a requirement level is a bare name or an object, an example
//! is a scalar or a list. The decoder commits to a shape from field
//! presence and scalar kind alone, in a fixed order, rejects unknown
//! fields, and injects the version-specific defaults, so that every
//! consumer observes the default value and never a mere absence.

use vstd::prelude::*;

use crate::attribute::{
    AttributeSpec, AttributeSpecView, AttributeType, AttributeTypeView, BasicRequirementLevelSpec,
    EnumEntriesSpec, EnumEntriesSpecView, Examples, ExamplesView, PrimitiveOrArrayTypeSpec,
    RequirementLevel, RequirementLevelView, TemplateTypeSpec, ValueSpec, ValueSpecView,
    default_as_true,
};
use crate::error::{res_view, DecodeError, DecodeErrorView};
use crate::raw::{
    spec_first_unknown_key, spec_has_key, spec_key_allowed, spec_lookup, first_unknown_key,
    lookup, RawEntry, RawValue,
};
use crate::stability::Stability;

verus! {

/// Whether the characters of `s` read as the literal `lit`.
pub(crate) fn str_is(s: &String, lit: &str) -> (r: bool)
    ensures
        r == (s@ == lit@),
{
    let l = String::from_str(lit);
    *s == l
}

/// Decodes a value that may appear as an integer literal, a floating
/// literal, or a quoted string: the first shape that matches wins.
pub open spec fn spec_decode_value(v: RawValue) -> Result<ValueSpecView, DecodeErrorView> {
    match v {
        RawValue::Int(n) => Ok(ValueSpecView::Int(n)),
        RawValue::Double(d) => Ok(ValueSpecView::Double(d@)),
        RawValue::Text(s) => Ok(ValueSpecView::String(s@)),
        _ => Err(DecodeErrorView::ShapeMismatch { field: "value"@ }),
    }
}

/// Decodes an enum entry value: an integer, a double, or a string.
pub fn decode_value(v: &RawValue) -> (r: Result<ValueSpec, DecodeError>)
    ensures
        res_view(r) == spec_decode_value(*v),
{
    match v {
        RawValue::Int(n) => Ok(ValueSpec::Int(*n)),
        RawValue::Double(d) => Ok(ValueSpec::Double(d.clone())),
        RawValue::Text(s) => Ok(ValueSpec::String(s.clone())),
        _ => Err(DecodeError::ShapeMismatch { field: String::from_str("value") }),
    }
}

/// Decodes an example set: a scalar shape is preferred, and a list
/// must be homogeneous, trying integers, doubles, booleans and
/// strings in that order.
pub open spec fn spec_decode_examples(v: RawValue) -> Result<ExamplesView, DecodeErrorView> {
    match v {
        RawValue::Bool(b) => Ok(ExamplesView::Bool(b)),
        RawValue::Int(n) => Ok(ExamplesView::Int(n)),
        RawValue::Double(d) => Ok(ExamplesView::Double(d@)),
        RawValue::Text(s) => Ok(ExamplesView::String(s@)),
        RawValue::List(items) => {
            let s = items@;
            if forall|i: int| 0 <= i < s.len() ==> s[i] is Int {
                Ok(ExamplesView::Ints(s.map_values(|x: RawValue| x->Int_0)))
            } else if forall|i: int| 0 <= i < s.len() ==> s[i] is Double {
                Ok(ExamplesView::Doubles(s.map_values(|x: RawValue| x->Double_0@)))
            } else if forall|i: int| 0 <= i < s.len() ==> s[i] is Bool {
                Ok(ExamplesView::Bools(s.map_values(|x: RawValue| x->Bool_0)))
            } else if forall|i: int| 0 <= i < s.len() ==> s[i] is Text {
                Ok(ExamplesView::Strings(s.map_values(|x: RawValue| x->Text_0@)))
            } else {
                Err(DecodeErrorView::ShapeMismatch { field: "examples"@ })
            }
        },
        RawValue::Mapping(_) => Err(DecodeErrorView::ShapeMismatch { field: "examples"@ }),
    }
}

/// Collects the integers of a homogeneous integer list.
fn try_ints(items: &Vec<RawValue>) -> (r: Option<Vec<i64>>)
    ensures
        match r {
            Some(out) => (forall|i: int| 0 <= i < items@.len() ==> items@[i] is Int) && out@
                == items@.map_values(|x: RawValue| x->Int_0),
            None => !(forall|i: int| 0 <= i < items@.len() ==> items@[i] is Int),
        },
{
    let mut out: Vec<i64> = Vec::new();
    let mut i: usize = 0;
    while i < items.len()
        invariant
            i <= items@.len(),
            out@.len() == i,
            forall|j: int| 0 <= j < i ==> #[trigger] items@[j] is Int && out@[j] == items@[j]->Int_0,
        decreases items@.len() - i,
    {
        match &items[i] {
            RawValue::Int(n) => {
                out.push(*n);
            },
            _ => {
                return None;
            },
        }
        i = i + 1;
    }
    proof {
        assert(out@ =~= items@.map_values(|x: RawValue| x->Int_0));
    }
    Some(out)
}

/// Collects the doubles of a homogeneous double list.
fn try_doubles(items: &Vec<RawValue>) -> (r: Option<Vec<crate::raw::DoubleValue>>)
    ensures
        match r {
            Some(out) => (forall|i: int| 0 <= i < items@.len() ==> items@[i] is Double)
                && out.deep_view() == items@.map_values(|x: RawValue| x->Double_0@),
            None => !(forall|i: int| 0 <= i < items@.len() ==> items@[i] is Double),
        },
{
    let mut out: Vec<crate::raw::DoubleValue> = Vec::new();
    let mut i: usize = 0;
    while i < items.len()
        invariant
            i <= items@.len(),
            out@.len() == i,
            forall|j: int| 0 <= j < i ==> #[trigger] items@[j] is Double && out@[j] == items@[j]->Double_0,
        decreases items@.len() - i,
    {
        match &items[i] {
            RawValue::Double(d) => {
                out.push(d.clone());
            },
            _ => {
                return None;
            },
        }
        i = i + 1;
    }
    proof {
        assert(out.deep_view() =~= items@.map_values(|x: RawValue| x->Double_0@));
    }
    Some(out)
}

/// Collects the booleans of a homogeneous boolean list.
fn try_bools(items: &Vec<RawValue>) -> (r: Option<Vec<bool>>)
    ensures
        match r {
            Some(out) => (forall|i: int| 0 <= i < items@.len() ==> items@[i] is Bool) && out@
                == items@.map_values(|x: RawValue| x->Bool_0),
            None => !(forall|i: int| 0 <= i < items@.len() ==> items@[i] is Bool),
        },
{
    let mut out: Vec<bool> = Vec::new();
    let mut i: usize = 0;
    while i < items.len()
        invariant
            i <= items@.len(),
            out@.len() == i,
            forall|j: int| 0 <= j < i ==> #[trigger] items@[j] is Bool && out@[j] == items@[j]->Bool_0,
        decreases items@.len() - i,
    {
        match &items[i] {
            RawValue::Bool(b) => {
                out.push(*b);
            },
            _ => {
                return None;
            },
        }
        i = i + 1;
    }
    proof {
        assert(out@ =~= items@.map_values(|x: RawValue| x->Bool_0));
    }
    Some(out)
}

/// Collects the strings of a homogeneous string list.
pub(crate) fn try_texts(items: &Vec<RawValue>) -> (r: Option<Vec<String>>)
    ensures
        match r {
            Some(out) => (forall|i: int| 0 <= i < items@.len() ==> items@[i] is Text)
                && out.deep_view() == items@.map_values(|x: RawValue| x->Text_0@),
            None => !(forall|i: int| 0 <= i < items@.len() ==> items@[i] is Text),
        },
{
    let mut out: Vec<String> = Vec::new();
    let mut i: usize = 0;
    while i < items.len()
        invariant
            i <= items@.len(),
            out@.len() == i,
            forall|j: int| 0 <= j < i ==> #[trigger] items@[j] is Text && out@[j]@ == items@[j]->Text_0@,
        decreases items@.len() - i,
    {
        match &items[i] {
            RawValue::Text(s) => {
                out.push(s.clone());
            },
            _ => {
                return None;
            },
        }
        i = i + 1;
    }
    proof {
        assert(out.deep_view() =~= items@.map_values(|x: RawValue| x->Text_0@));
    }
    Some(out)
}

/// Decodes an example set: a single scalar example need not be
/// wrapped in a list; a list must hold one scalar kind throughout.
pub fn decode_examples(v: &RawValue) -> (r: Result<Examples, DecodeError>)
    ensures
        res_view(r) == spec_decode_examples(*v),
{
    match v {
        RawValue::Bool(b) => Ok(Examples::Bool(*b)),
        RawValue::Int(n) => Ok(Examples::Int(*n)),
        RawValue::Double(d) => Ok(Examples::Double(d.clone())),
        RawValue::Text(s) => Ok(Examples::String(s.clone())),
        RawValue::List(items) => {
            match try_ints(items) {
                Some(out) => {
                    return Ok(Examples::Ints(out));
                },
                None => {},
            }
            match try_doubles(items) {
                Some(out) => {
                    return Ok(Examples::Doubles(out));
                },
                None => {},
            }
            match try_bools(items) {
                Some(out) => {
                    return Ok(Examples::Bools(out));
                },
                None => {},
            }
            match try_texts(items) {
                Some(out) => {
                    return Ok(Examples::Strings(out));
                },
                None => {},
            }
            Err(DecodeError::ShapeMismatch { field: String::from_str("examples") })
        },
        RawValue::Mapping(_) => Err(
            DecodeError::ShapeMismatch { field: String::from_str("examples") },
        ),
    }
}

/// Decodes a stability name.
pub open spec fn spec_decode_stability(v: RawValue) -> Result<Stability, DecodeErrorView> {
    match v {
        RawValue::Text(s) => if s@ == "stable"@ {
            Ok(Stability::Stable)
        } else if s@ == "development"@ {
            Ok(Stability::Development)
        } else if s@ == "alpha"@ {
            Ok(Stability::Alpha)
        } else if s@ == "beta"@ {
            Ok(Stability::Beta)
        } else if s@ == "release_candidate"@ {
            Ok(Stability::ReleaseCandidate)
        } else if s@ == "deprecated"@ {
            Ok(Stability::Deprecated)
        } else {
            Err(DecodeErrorView::ShapeMismatch { field: "stability"@ })
        },
        _ => Err(DecodeErrorView::ShapeMismatch { field: "stability"@ }),
    }
}

/// Decodes a stability classification from its serialized name.
pub fn decode_stability(v: &RawValue) -> (r: Result<Stability, DecodeError>)
    ensures
        res_view(r) == spec_decode_stability(*v),
{
    match v {
        RawValue::Text(s) => {
            if str_is(s, "stable") {
                Ok(Stability::Stable)
            } else if str_is(s, "development") {
                Ok(Stability::Development)
            } else if str_is(s, "alpha") {
                Ok(Stability::Alpha)
            } else if str_is(s, "beta") {
                Ok(Stability::Beta)
            } else if str_is(s, "release_candidate") {
                Ok(Stability::ReleaseCandidate)
            } else if str_is(s, "deprecated") {
                Ok(Stability::Deprecated)
            } else {
                Err(DecodeError::ShapeMismatch { field: String::from_str("stability") })
            }
        },
        _ => Err(DecodeError::ShapeMismatch { field: String::from_str("stability") }),
    }
}

/// Decodes a requirement level: a bare name decodes to a basic level;
/// an object must carry exactly one of the keys
/// `conditionally_required` or `recommended`, with text under it.
pub open spec fn spec_decode_requirement_level(v: RawValue) -> Result<
    RequirementLevelView,
    DecodeErrorView,
> {
    match v {
        RawValue::Text(s) => if s@ == "required"@ {
            Ok(RequirementLevelView::Basic(BasicRequirementLevelSpec::Required))
        } else if s@ == "recommended"@ {
            Ok(RequirementLevelView::Basic(BasicRequirementLevelSpec::Recommended))
        } else if s@ == "opt_in"@ {
            Ok(RequirementLevelView::Basic(BasicRequirementLevelSpec::OptIn))
        } else {
            Err(DecodeErrorView::ShapeMismatch { field: "requirement_level"@ })
        },
        RawValue::Mapping(entries) => {
            let es = entries@;
            if spec_has_key(es, "conditionally_required"@) && spec_has_key(es, "recommended"@) {
                Err(DecodeErrorView::ConflictingKeys {
                    first: "conditionally_required"@,
                    second: "recommended"@,
                })
            } else if spec_has_key(es, "conditionally_required"@) {
                match spec_first_unknown_key(es, seq!["conditionally_required"@]) {
                    Some(k) => Err(DecodeErrorView::UnknownField { field: k }),
                    None => match spec_lookup(es, "conditionally_required"@) {
                        Some(RawValue::Text(t)) => Ok(
                            RequirementLevelView::ConditionallyRequired { text: t@ },
                        ),
                        _ => Err(
                            DecodeErrorView::ShapeMismatch { field: "conditionally_required"@ },
                        ),
                    },
                }
            } else if spec_has_key(es, "recommended"@) {
                match spec_first_unknown_key(es, seq!["recommended"@]) {
                    Some(k) => Err(DecodeErrorView::UnknownField { field: k }),
                    None => match spec_lookup(es, "recommended"@) {
                        Some(RawValue::Text(t)) => Ok(
                            RequirementLevelView::Recommended { text: t@ },
                        ),
                        _ => Err(DecodeErrorView::ShapeMismatch { field: "recommended"@ }),
                    },
                }
            } else if es.len() > 0 {
                Err(DecodeErrorView::UnknownField { field: es[0].key@ })
            } else {
                Err(DecodeErrorView::ShapeMismatch { field: "requirement_level"@ })
            }
        },
        _ => Err(DecodeErrorView::ShapeMismatch { field: "requirement_level"@ }),
    }
}

/// Decodes a requirement level from a bare name or a one-key object.
pub fn decode_requirement_level(v: &RawValue) -> (r: Result<RequirementLevel, DecodeError>)
    ensures
        res_view(r) == spec_decode_requirement_level(*v),
{
    match v {
        RawValue::Text(s) => {
            if str_is(s, "required") {
                Ok(RequirementLevel::Basic(BasicRequirementLevelSpec::Required))
            } else if str_is(s, "recommended") {
                Ok(RequirementLevel::Basic(BasicRequirementLevelSpec::Recommended))
            } else if str_is(s, "opt_in") {
                Ok(RequirementLevel::Basic(BasicRequirementLevelSpec::OptIn))
            } else {
                Err(DecodeError::ShapeMismatch { field: String::from_str("requirement_level") })
            }
        },
        RawValue::Mapping(entries) => {
            let cond = lookup(entries, "conditionally_required");
            let rec = lookup(entries, "recommended");
            match (cond, rec) {
                (Some(_), Some(_)) => Err(DecodeError::ConflictingKeys {
                    first: String::from_str("conditionally_required"),
                    second: String::from_str("recommended"),
                }),
                (Some(cv), None) => {
                    let mut allowed: Vec<&str> = Vec::new();
                    allowed.push("conditionally_required");
                    proof {
                        assert(allowed.deep_view() =~= seq!["conditionally_required"@]);
                    }
                    match first_unknown_key(entries, &allowed) {
                        Some(k) => Err(DecodeError::UnknownField { field: k }),
                        None => match cv {
                            RawValue::Text(t) => Ok(
                                RequirementLevel::ConditionallyRequired { text: t.clone() },
                            ),
                            _ => Err(DecodeError::ShapeMismatch {
                                field: String::from_str("conditionally_required"),
                            }),
                        },
                    }
                },
                (None, Some(rv)) => {
                    let mut allowed: Vec<&str> = Vec::new();
                    allowed.push("recommended");
                    proof {
                        assert(allowed.deep_view() =~= seq!["recommended"@]);
                    }
                    match first_unknown_key(entries, &allowed) {
                        Some(k) => Err(DecodeError::UnknownField { field: k }),
                        None => match rv {
                            RawValue::Text(t) => Ok(RequirementLevel::Recommended {
                                text: t.clone(),
                            }),
                            _ => Err(DecodeError::ShapeMismatch {
                                field: String::from_str("recommended"),
                            }),
                        },
                    }
                },
                (None, None) => {
                    if entries.len() > 0 {
                        Err(DecodeError::UnknownField { field: entries[0].key.clone() })
                    } else {
                        Err(DecodeError::ShapeMismatch {
                            field: String::from_str("requirement_level"),
                        })
                    }
                },
            }
        },
        _ => Err(DecodeError::ShapeMismatch { field: String::from_str("requirement_level") }),
    }
}

/// Reads an optional text field: absent decodes to nothing, text to
/// its characters, and any other shape fails naming the field.
pub open spec fn spec_opt_text_field(es: Seq<RawEntry>, key: Seq<char>) -> Result<
    Option<Seq<char>>,
    DecodeErrorView,
> {
    match spec_lookup(es, key) {
        None => Ok(None),
        Some(RawValue::Text(s)) => Ok(Some(s@)),
        Some(_) => Err(DecodeErrorView::ShapeMismatch { field: key }),
    }
}

pub(crate) fn opt_text_field(entries: &Vec<RawEntry>, key: &str) -> (r: Result<Option<String>, DecodeError>)
    ensures
        res_view(r) == spec_opt_text_field(entries@, key@),
{
    match lookup(entries, key) {
        None => Ok(None),
        Some(RawValue::Text(s)) => Ok(Some(s.clone())),
        Some(_) => Err(DecodeError::ShapeMismatch { field: String::from_str(key) }),
    }
}

/// Reads a required text field: absence fails naming the field.
pub open spec fn spec_req_text_field(es: Seq<RawEntry>, key: Seq<char>) -> Result<
    Seq<char>,
    DecodeErrorView,
> {
    match spec_lookup(es, key) {
        None => Err(DecodeErrorView::MissingField { field: key }),
        Some(RawValue::Text(s)) => Ok(s@),
        Some(_) => Err(DecodeErrorView::ShapeMismatch { field: key }),
    }
}

pub(crate) fn req_text_field(entries: &Vec<RawEntry>, key: &str) -> (r: Result<String, DecodeError>)
    ensures
        res_view(r) == spec_req_text_field(entries@, key@),
{
    match lookup(entries, key) {
        None => Err(DecodeError::MissingField { field: String::from_str(key) }),
        Some(RawValue::Text(s)) => Ok(s.clone()),
        Some(_) => Err(DecodeError::ShapeMismatch { field: String::from_str(key) }),
    }
}

/// Reads an optional boolean field.
pub open spec fn spec_opt_bool_field(es: Seq<RawEntry>, key: Seq<char>) -> Result<
    Option<bool>,
    DecodeErrorView,
> {
    match spec_lookup(es, key) {
        None => Ok(None),
        Some(RawValue::Bool(b)) => Ok(Some(b)),
        Some(_) => Err(DecodeErrorView::ShapeMismatch { field: key }),
    }
}

fn opt_bool_field(entries: &Vec<RawEntry>, key: &str) -> (r: Result<Option<bool>, DecodeError>)
    ensures
        res_view(r) == spec_opt_bool_field(entries@, key@),
{
    match lookup(entries, key) {
        None => Ok(None),
        Some(RawValue::Bool(b)) => Ok(Some(*b)),
        Some(_) => Err(DecodeError::ShapeMismatch { field: String::from_str(key) }),
    }
}

/// Reads an optional stability field.
pub open spec fn spec_opt_stability_field(es: Seq<RawEntry>, key: Seq<char>) -> Result<
    Option<Stability>,
    DecodeErrorView,
> {
    match spec_lookup(es, key) {
        None => Ok(None),
        Some(x) => match spec_decode_stability(x) {
            Ok(st) => Ok(Some(st)),
            Err(e) => Err(e),
        },
    }
}

fn opt_stability_field(entries: &Vec<RawEntry>, key: &str) -> (r: Result<
    Option<Stability>,
    DecodeError,
>)
    ensures
        res_view(r) == spec_opt_stability_field(entries@, key@),
{
    match lookup(entries, key) {
        None => Ok(None),
        Some(x) => match decode_stability(x) {
            Ok(st) => Ok(Some(st)),
            Err(e) => Err(e),
        },
    }
}

/// Reads an optional requirement level field.
pub open spec fn spec_opt_requirement_level_field(es: Seq<RawEntry>, key: Seq<char>) -> Result<
    Option<RequirementLevelView>,
    DecodeErrorView,
> {
    match spec_lookup(es, key) {
        None => Ok(None),
        Some(x) => match spec_decode_requirement_level(x) {
            Ok(l) => Ok(Some(l)),
            Err(e) => Err(e),
        },
    }
}

fn opt_requirement_level_field(entries: &Vec<RawEntry>, key: &str) -> (r: Result<
    Option<RequirementLevel>,
    DecodeError,
>)
    ensures
        res_view(r) == spec_opt_requirement_level_field(entries@, key@),
{
    match lookup(entries, key) {
        None => Ok(None),
        Some(x) => match decode_requirement_level(x) {
            Ok(l) => Ok(Some(l)),
            Err(e) => Err(e),
        },
    }
}

/// Reads an optional examples field.
pub open spec fn spec_opt_examples_field(es: Seq<RawEntry>, key: Seq<char>) -> Result<
    Option<ExamplesView>,
    DecodeErrorView,
> {
    match spec_lookup(es, key) {
        None => Ok(None),
        Some(x) => match spec_decode_examples(x) {
            Ok(ex) => Ok(Some(ex)),
            Err(e) => Err(e),
        },
    }
}

fn opt_examples_field(entries: &Vec<RawEntry>, key: &str) -> (r: Result<
    Option<Examples>,
    DecodeError,
>)
    ensures
        res_view(r) == spec_opt_examples_field(entries@, key@),
{
    match lookup(entries, key) {
        None => Ok(None),
        Some(x) => match decode_examples(x) {
            Ok(ex) => Ok(Some(ex)),
            Err(e) => Err(e),
        },
    }
}

/// The recognized fields of an enum entry.
pub open spec fn spec_enum_entry_keys() -> Seq<Seq<char>> {
    seq!["id"@, "value"@, "brief"@, "note"@, "stability"@]
}

/// Decodes one enum entry: a mapping with a required `id` and
/// `value`, optional `brief`, `note` and `stability`, and nothing
/// else.
pub open spec fn spec_decode_enum_entry(v: RawValue) -> Result<
    EnumEntriesSpecView,
    DecodeErrorView,
> {
    match v {
        RawValue::Mapping(entries) => {
            let es = entries@;
            match spec_first_unknown_key(es, spec_enum_entry_keys()) {
                Some(k) => Err(DecodeErrorView::UnknownField { field: k }),
                None => match spec_req_text_field(es, "id"@) {
                    Err(e) => Err(e),
                    Ok(id) => match spec_lookup(es, "value"@) {
                        None => Err(DecodeErrorView::MissingField { field: "value"@ }),
                        Some(x) => match spec_decode_value(x) {
                            Err(e) => Err(e),
                            Ok(value) => match spec_opt_text_field(es, "brief"@) {
                                Err(e) => Err(e),
                                Ok(brief) => match spec_opt_text_field(es, "note"@) {
                                    Err(e) => Err(e),
                                    Ok(note) => match spec_opt_stability_field(es, "stability"@) {
                                        Err(e) => Err(e),
                                        Ok(stability) => Ok(
                                            EnumEntriesSpecView {
                                                id,
                                                value,
                                                brief,
                                                note,
                                                stability,
                                            },
                                        ),
                                    },
                                },
                            },
                        },
                    },
                },
            }
        },
        _ => Err(DecodeErrorView::ShapeMismatch { field: "members"@ }),
    }
}

/// Decodes one enum entry of an inline enum type.
pub fn decode_enum_entry(v: &RawValue) -> (r: Result<EnumEntriesSpec, DecodeError>)
    ensures
        res_view(r) == spec_decode_enum_entry(*v),
{
    let entries = match v {
        RawValue::Mapping(entries) => entries,
        _ => {
            return Err(DecodeError::ShapeMismatch { field: String::from_str("members") });
        },
    };
    let mut allowed: Vec<&str> = Vec::new();
    allowed.push("id");
    allowed.push("value");
    allowed.push("brief");
    allowed.push("note");
    allowed.push("stability");
    proof {
        assert(allowed.deep_view() =~= spec_enum_entry_keys());
    }
    match first_unknown_key(entries, &allowed) {
        Some(k) => {
            return Err(DecodeError::UnknownField { field: k });
        },
        None => {},
    }
    let id = match req_text_field(entries, "id") {
        Ok(id) => id,
        Err(e) => {
            return Err(e);
        },
    };
    let value = match lookup(entries, "value") {
        None => {
            return Err(DecodeError::MissingField { field: String::from_str("value") });
        },
        Some(x) => match decode_value(x) {
            Ok(value) => value,
            Err(e) => {
                return Err(e);
            },
        },
    };
    let brief = match opt_text_field(entries, "brief") {
        Ok(brief) => brief,
        Err(e) => {
            return Err(e);
        },
    };
    let note = match opt_text_field(entries, "note") {
        Ok(note) => note,
        Err(e) => {
            return Err(e);
        },
    };
    let stability = match opt_stability_field(entries, "stability") {
        Ok(stability) => stability,
        Err(e) => {
            return Err(e);
        },
    };
    Ok(EnumEntriesSpec { id, value, brief, note, stability })
}

/// Decodes a member list, first entry first; the first failing entry
/// decides the error.
pub open spec fn spec_decode_members(items: Seq<RawValue>) -> Result<
    Seq<EnumEntriesSpecView>,
    DecodeErrorView,
>
    decreases items.len(),
{
    if items.len() == 0 {
        Ok(Seq::empty())
    } else {
        match spec_decode_members(items.drop_last()) {
            Err(e) => Err(e),
            Ok(rest) => match spec_decode_enum_entry(items.last()) {
                Err(e) => Err(e),
                Ok(m) => Ok(rest.push(m)),
            },
        }
    }
}

proof fn lemma_decode_members_err(items: Seq<RawValue>, i: int)
    requires
        0 <= i <= items.len(),
        spec_decode_members(items.take(i)) is Err,
    ensures
        spec_decode_members(items) == spec_decode_members(items.take(i)),
    decreases items.len() - i,
{
    if i == items.len() {
        assert(items.take(i) =~= items);
    } else {
        assert(items.take(i + 1).drop_last() =~= items.take(i));
        lemma_decode_members_err(items, i + 1);
    }
}

fn decode_members(items: &Vec<RawValue>) -> (r: Result<Vec<EnumEntriesSpec>, DecodeError>)
    ensures
        res_view(r) == spec_decode_members(items@),
{
    let mut out: Vec<EnumEntriesSpec> = Vec::new();
    proof {
        assert(items@.take(0) =~= Seq::<RawValue>::empty());
        assert(out.deep_view() =~= Seq::<EnumEntriesSpecView>::empty());
    }
    let mut i: usize = 0;
    while i < items.len()
        invariant
            i <= items@.len(),
            spec_decode_members(items@.take(i as int)) == Ok::<_, DecodeErrorView>(
                out.deep_view(),
            ),
        decreases items@.len() - i,
    {
        proof {
            assert(items@.take(i as int + 1).drop_last() =~= items@.take(i as int));
            assert(items@.take(i as int + 1).last() == items@[i as int]);
        }
        match decode_enum_entry(&items[i]) {
            Err(e) => {
                proof {
                    lemma_decode_members_err(items@, i as int + 1);
                }
                return Err(e);
            },
            Ok(m) => {
                let ghost prev = out.deep_view();
                out.push(m);
                proof {
                    assert(out.deep_view() =~= prev.push(m@));
                }
            },
        }
        i = i + 1;
    }
    proof {
        assert(items@.take(items@.len() as int) =~= items@);
    }
    Ok(out)
}

/// The recognized fields of an inline enum type.
pub open spec fn spec_enum_type_keys() -> Seq<Seq<char>> {
    seq!["allow_custom_values"@, "members"@]
}

/// Decodes an attribute type: one of the sixteen fixed primitive,
/// array or template names, or else an inline enum object with a
/// required `members` list and an optional `allow_custom_values` flag
/// that defaults to true.
pub open spec fn spec_decode_attribute_type(v: RawValue) -> Result<
    AttributeTypeView,
    DecodeErrorView,
> {
    match v {
        RawValue::Text(s) => spec_type_from_name(s@),
        RawValue::Mapping(entries) => {
            let es = entries@;
            match spec_first_unknown_key(es, spec_enum_type_keys()) {
                Some(k) => Err(DecodeErrorView::UnknownField { field: k }),
                None => {
                    let acv_r = match spec_lookup(es, "allow_custom_values"@) {
                        None => Ok(true),
                        Some(RawValue::Bool(b)) => Ok(b),
                        Some(_) => Err(
                            DecodeErrorView::ShapeMismatch { field: "allow_custom_values"@ },
                        ),
                    };
                    match acv_r {
                        Err(e) => Err(e),
                        Ok(acv) => match spec_lookup(es, "members"@) {
                            None => Err(DecodeErrorView::MissingField { field: "members"@ }),
                            Some(RawValue::List(items)) => match spec_decode_members(items@) {
                                Err(e) => Err(e),
                                Ok(ms) => Ok(
                                    AttributeTypeView::Enum {
                                        allow_custom_values: acv,
                                        members: ms,
                                    },
                                ),
                            },
                            Some(_) => Err(DecodeErrorView::ShapeMismatch { field: "members"@ }),
                        },
                    }
                },
            }
        },
        _ => Err(DecodeErrorView::ShapeMismatch { field: "type"@ }),
    }
}

/// The attribute type named by one of the sixteen fixed strings.
pub open spec fn spec_type_from_name(s: Seq<char>) -> Result<AttributeTypeView, DecodeErrorView> {
    if s == "boolean"@ {
        Ok(AttributeTypeView::PrimitiveOrArray(PrimitiveOrArrayTypeSpec::Boolean))
    } else if s == "int"@ {
        Ok(AttributeTypeView::PrimitiveOrArray(PrimitiveOrArrayTypeSpec::Int))
    } else if s == "double"@ {
        Ok(AttributeTypeView::PrimitiveOrArray(PrimitiveOrArrayTypeSpec::Double))
    } else if s == "string"@ {
        Ok(AttributeTypeView::PrimitiveOrArray(PrimitiveOrArrayTypeSpec::String))
    } else if s == "string[]"@ {
        Ok(AttributeTypeView::PrimitiveOrArray(PrimitiveOrArrayTypeSpec::Strings))
    } else if s == "int[]"@ {
        Ok(AttributeTypeView::PrimitiveOrArray(PrimitiveOrArrayTypeSpec::Ints))
    } else if s == "double[]"@ {
        Ok(AttributeTypeView::PrimitiveOrArray(PrimitiveOrArrayTypeSpec::Doubles))
    } else if s == "boolean[]"@ {
        Ok(AttributeTypeView::PrimitiveOrArray(PrimitiveOrArrayTypeSpec::Booleans))
    } else if s == "template[boolean]"@ {
        Ok(AttributeTypeView::Template(TemplateTypeSpec::Boolean))
    } else if s == "template[int]"@ {
        Ok(AttributeTypeView::Template(TemplateTypeSpec::Int))
    } else if s == "template[double]"@ {
        Ok(AttributeTypeView::Template(TemplateTypeSpec::Double))
    } else if s == "template[string]"@ {
        Ok(AttributeTypeView::Template(TemplateTypeSpec::String))
    } else if s == "template[string[]]"@ {
        Ok(AttributeTypeView::Template(TemplateTypeSpec::Strings))
    } else if s == "template[int[]]"@ {
        Ok(AttributeTypeView::Template(TemplateTypeSpec::Ints))
    } else if s == "template[double[]]"@ {
        Ok(AttributeTypeView::Template(TemplateTypeSpec::Doubles))
    } else if s == "template[boolean[]]"@ {
        Ok(AttributeTypeView::Template(TemplateTypeSpec::Booleans))
    } else {
        Err(DecodeErrorView::ShapeMismatch { field: "type"@ })
    }
}

/// Decodes an attribute type from a fixed name or an inline enum
/// object.
pub fn decode_attribute_type(v: &RawValue) -> (r: Result<AttributeType, DecodeError>)
    ensures
        res_view(r) == spec_decode_attribute_type(*v),
{
    match v {
        RawValue::Text(s) => {
            if str_is(s, "boolean") {
                Ok(AttributeType::PrimitiveOrArray(PrimitiveOrArrayTypeSpec::Boolean))
            } else if str_is(s, "int") {
                Ok(AttributeType::PrimitiveOrArray(PrimitiveOrArrayTypeSpec::Int))
            } else if str_is(s, "double") {
                Ok(AttributeType::PrimitiveOrArray(PrimitiveOrArrayTypeSpec::Double))
            } else if str_is(s, "string") {
                Ok(AttributeType::PrimitiveOrArray(PrimitiveOrArrayTypeSpec::String))
            } else if str_is(s, "string[]") {
                Ok(AttributeType::PrimitiveOrArray(PrimitiveOrArrayTypeSpec::Strings))
            } else if str_is(s, "int[]") {
                Ok(AttributeType::PrimitiveOrArray(PrimitiveOrArrayTypeSpec::Ints))
            } else if str_is(s, "double[]") {
                Ok(AttributeType::PrimitiveOrArray(PrimitiveOrArrayTypeSpec::Doubles))
            } else if str_is(s, "boolean[]") {
                Ok(AttributeType::PrimitiveOrArray(PrimitiveOrArrayTypeSpec::Booleans))
            } else if str_is(s, "template[boolean]") {
                Ok(AttributeType::Template(TemplateTypeSpec::Boolean))
            } else if str_is(s, "template[int]") {
                Ok(AttributeType::Template(TemplateTypeSpec::Int))
            } else if str_is(s, "template[double]") {
                Ok(AttributeType::Template(TemplateTypeSpec::Double))
            } else if str_is(s, "template[string]") {
                Ok(AttributeType::Template(TemplateTypeSpec::String))
            } else if str_is(s, "template[string[]]") {
                Ok(AttributeType::Template(TemplateTypeSpec::Strings))
            } else if str_is(s, "template[int[]]") {
                Ok(AttributeType::Template(TemplateTypeSpec::Ints))
            } else if str_is(s, "template[double[]]") {
                Ok(AttributeType::Template(TemplateTypeSpec::Doubles))
            } else if str_is(s, "template[boolean[]]") {
                Ok(AttributeType::Template(TemplateTypeSpec::Booleans))
            } else {
                Err(DecodeError::ShapeMismatch { field: String::from_str("type") })
            }
        },
        RawValue::Mapping(entries) => {
            let mut allowed: Vec<&str> = Vec::new();
            allowed.push("allow_custom_values");
            allowed.push("members");
            proof {
                assert(allowed.deep_view() =~= spec_enum_type_keys());
            }
            match first_unknown_key(entries, &allowed) {
                Some(k) => {
                    return Err(DecodeError::UnknownField { field: k });
                },
                None => {},
            }
            let allow_custom_values = match lookup(entries, "allow_custom_values") {
                None => default_as_true(),
                Some(RawValue::Bool(b)) => *b,
                Some(_) => {
                    return Err(DecodeError::ShapeMismatch {
                        field: String::from_str("allow_custom_values"),
                    });
                },
            };
            match lookup(entries, "members") {
                None => Err(DecodeError::MissingField { field: String::from_str("members") }),
                Some(RawValue::List(items)) => match decode_members(items) {
                    Err(e) => Err(e),
                    Ok(members) => Ok(AttributeType::Enum { allow_custom_values, members }),
                },
                Some(_) => Err(DecodeError::ShapeMismatch { field: String::from_str("members") }),
            }
        },
        _ => Err(DecodeError::ShapeMismatch { field: String::from_str("type") }),
    }
}

/// The recognized fields of a reference-shaped attribute.
pub open spec fn spec_ref_keys() -> Seq<Seq<char>> {
    seq![
        "ref"@,
        "brief"@,
        "examples"@,
        "tag"@,
        "requirement_level"@,
        "sampling_relevant"@,
        "note"@,
        "stability"@,
        "deprecated"@,
    ]
}

/// The recognized fields of a definition-shaped attribute.
pub open spec fn spec_id_keys() -> Seq<Seq<char>> {
    seq![
        "id"@,
        "type"@,
        "brief"@,
        "examples"@,
        "tag"@,
        "requirement_level"@,
        "sampling_relevant"@,
        "note"@,
        "stability"@,
        "deprecated"@,
    ]
}

/// Decodes a reference-shaped attribute: `ref` is required, every
/// other recognized field optional, and no default is injected for an
/// absent requirement level or note.
pub open spec fn spec_decode_ref_shape(es: Seq<RawEntry>) -> Result<
    AttributeSpecView,
    DecodeErrorView,
> {
    match spec_first_unknown_key(es, spec_ref_keys()) {
        Some(k) => Err(DecodeErrorView::UnknownField { field: k }),
        None => match spec_req_text_field(es, "ref"@) {
            Err(e) => Err(e),
            Ok(reference) => match spec_opt_text_field(es, "brief"@) {
                Err(e) => Err(e),
                Ok(brief) => match spec_opt_examples_field(es, "examples"@) {
                    Err(e) => Err(e),
                    Ok(examples) => match spec_opt_text_field(es, "tag"@) {
                        Err(e) => Err(e),
                        Ok(tag) => match spec_opt_requirement_level_field(
                            es,
                            "requirement_level"@,
                        ) {
                            Err(e) => Err(e),
                            Ok(requirement_level) => match spec_opt_bool_field(
                                es,
                                "sampling_relevant"@,
                            ) {
                                Err(e) => Err(e),
                                Ok(sampling_relevant) => match spec_opt_text_field(es, "note"@) {
                                    Err(e) => Err(e),
                                    Ok(note) => match spec_opt_stability_field(es, "stability"@) {
                                        Err(e) => Err(e),
                                        Ok(stability) => match spec_opt_text_field(
                                            es,
                                            "deprecated"@,
                                        ) {
                                            Err(e) => Err(e),
                                            Ok(deprecated) => Ok(
                                                AttributeSpecView::Ref {
                                                    reference,
                                                    brief,
                                                    examples,
                                                    tag,
                                                    requirement_level,
                                                    sampling_relevant,
                                                    note,
                                                    stability,
                                                    deprecated,
                                                },
                                            ),
                                        },
                                    },
                                },
                            },
                        },
                    },
                },
            },
        },
    }
}

/// Decodes a definition-shaped attribute: `id` and `type` are
/// required; an absent requirement level defaults to the basic
/// recommended level, and an absent note defaults to empty text.
pub open spec fn spec_decode_id_shape(es: Seq<RawEntry>) -> Result<
    AttributeSpecView,
    DecodeErrorView,
> {
    match spec_first_unknown_key(es, spec_id_keys()) {
        Some(k) => Err(DecodeErrorView::UnknownField { field: k }),
        None => match spec_req_text_field(es, "id"@) {
            Err(e) => Err(e),
            Ok(id) => match spec_lookup(es, "type"@) {
                None => Err(DecodeErrorView::MissingField { field: "type"@ }),
                Some(tv) => match spec_decode_attribute_type(tv) {
                    Err(e) => Err(e),
                    Ok(attr_type) => match spec_opt_text_field(es, "brief"@) {
                        Err(e) => Err(e),
                        Ok(brief) => match spec_opt_examples_field(es, "examples"@) {
                            Err(e) => Err(e),
                            Ok(examples) => match spec_opt_text_field(es, "tag"@) {
                                Err(e) => Err(e),
                                Ok(tag) => match spec_opt_requirement_level_field(
                                    es,
                                    "requirement_level"@,
                                ) {
                                    Err(e) => Err(e),
                                    Ok(level_opt) => match spec_opt_bool_field(
                                        es,
                                        "sampling_relevant"@,
                                    ) {
                                        Err(e) => Err(e),
                                        Ok(sampling_relevant) => match spec_opt_text_field(
                                            es,
                                            "note"@,
                                        ) {
                                            Err(e) => Err(e),
                                            Ok(note_opt) => match spec_opt_stability_field(
                                                es,
                                                "stability"@,
                                            ) {
                                                Err(e) => Err(e),
                                                Ok(stability) => match spec_opt_text_field(
                                                    es,
                                                    "deprecated"@,
                                                ) {
                                                    Err(e) => Err(e),
                                                    Ok(deprecated) => Ok(
                                                        AttributeSpecView::Id {
                                                            id,
                                                            attr_type,
                                                            brief,
                                                            examples,
                                                            tag,
                                                            requirement_level: match level_opt {
                                                                Some(l) => l,
                                                                None => RequirementLevelView::Basic(
                                                                    BasicRequirementLevelSpec::Recommended,
                                                                ),
                                                            },
                                                            sampling_relevant,
                                                            note: match note_opt {
                                                                Some(n) => n,
                                                                None => Seq::empty(),
                                                            },
                                                            stability,
                                                            deprecated,
                                                        },
                                                    ),
                                                },
                                            },
                                        },
                                    },
                                },
                            },
                        },
                    },
                },
            },
        },
    }
}

/// Decodes an attribute declaration. A mapping that carries a `ref`
/// key decodes as a reference, whatever else it carries; one that
/// carries `id` but no `ref` decodes as a definition; one that
/// carries neither fails. Unknown fields on either shape fail.
pub open spec fn spec_decode_attribute(v: RawValue) -> Result<AttributeSpecView, DecodeErrorView> {
    match v {
        RawValue::Mapping(entries) => {
            let es = entries@;
            if spec_has_key(es, "ref"@) {
                spec_decode_ref_shape(es)
            } else if spec_has_key(es, "id"@) {
                spec_decode_id_shape(es)
            } else {
                Err(DecodeErrorView::MissingField { field: "id"@ })
            }
        },
        _ => Err(DecodeErrorView::ShapeMismatch { field: "attribute"@ }),
    }
}

fn decode_ref_shape(entries: &Vec<RawEntry>) -> (r: Result<AttributeSpec, DecodeError>)
    ensures
        res_view(r) == spec_decode_ref_shape(entries@),
{
    let mut allowed: Vec<&str> = Vec::new();
    allowed.push("ref");
    allowed.push("brief");
    allowed.push("examples");
    allowed.push("tag");
    allowed.push("requirement_level");
    allowed.push("sampling_relevant");
    allowed.push("note");
    allowed.push("stability");
    allowed.push("deprecated");
    proof {
        assert(allowed.deep_view() =~= spec_ref_keys());
    }
    match first_unknown_key(entries, &allowed) {
        Some(k) => {
            return Err(DecodeError::UnknownField { field: k });
        },
        None => {},
    }
    let reference = match req_text_field(entries, "ref") {
        Ok(x) => x,
        Err(e) => {
            return Err(e);
        },
    };
    let brief = match opt_text_field(entries, "brief") {
        Ok(x) => x,
        Err(e) => {
            return Err(e);
        },
    };
    let examples = match opt_examples_field(entries, "examples") {
        Ok(x) => x,
        Err(e) => {
            return Err(e);
        },
    };
    let tag = match opt_text_field(entries, "tag") {
        Ok(x) => x,
        Err(e) => {
            return Err(e);
        },
    };
    let requirement_level = match opt_requirement_level_field(entries, "requirement_level") {
        Ok(x) => x,
        Err(e) => {
            return Err(e);
        },
    };
    let sampling_relevant = match opt_bool_field(entries, "sampling_relevant") {
        Ok(x) => x,
        Err(e) => {
            return Err(e);
        },
    };
    let note = match opt_text_field(entries, "note") {
        Ok(x) => x,
        Err(e) => {
            return Err(e);
        },
    };
    let stability = match opt_stability_field(entries, "stability") {
        Ok(x) => x,
        Err(e) => {
            return Err(e);
        },
    };
    let deprecated = match opt_text_field(entries, "deprecated") {
        Ok(x) => x,
        Err(e) => {
            return Err(e);
        },
    };
    Ok(
        AttributeSpec::Ref {
            reference,
            brief,
            examples,
            tag,
            requirement_level,
            sampling_relevant,
            note,
            stability,
            deprecated,
        },
    )
}

fn decode_id_shape(entries: &Vec<RawEntry>) -> (r: Result<AttributeSpec, DecodeError>)
    ensures
        res_view(r) == spec_decode_id_shape(entries@),
{
    let mut allowed: Vec<&str> = Vec::new();
    allowed.push("id");
    allowed.push("type");
    allowed.push("brief");
    allowed.push("examples");
    allowed.push("tag");
    allowed.push("requirement_level");
    allowed.push("sampling_relevant");
    allowed.push("note");
    allowed.push("stability");
    allowed.push("deprecated");
    proof {
        assert(allowed.deep_view() =~= spec_id_keys());
    }
    match first_unknown_key(entries, &allowed) {
        Some(k) => {
            return Err(DecodeError::UnknownField { field: k });
        },
        None => {},
    }
    let id = match req_text_field(entries, "id") {
        Ok(x) => x,
        Err(e) => {
            return Err(e);
        },
    };
    let attr_type = match lookup(entries, "type") {
        None => {
            return Err(DecodeError::MissingField { field: String::from_str("type") });
        },
        Some(tv) => match decode_attribute_type(tv) {
            Ok(t) => t,
            Err(e) => {
                return Err(e);
            },
        },
    };
    let brief = match opt_text_field(entries, "brief") {
        Ok(x) => x,
        Err(e) => {
            return Err(e);
        },
    };
    let examples = match opt_examples_field(entries, "examples") {
        Ok(x) => x,
        Err(e) => {
            return Err(e);
        },
    };
    let tag = match opt_text_field(entries, "tag") {
        Ok(x) => x,
        Err(e) => {
            return Err(e);
        },
    };
    let level_opt = match opt_requirement_level_field(entries, "requirement_level") {
        Ok(x) => x,
        Err(e) => {
            return Err(e);
        },
    };
    let sampling_relevant = match opt_bool_field(entries, "sampling_relevant") {
        Ok(x) => x,
        Err(e) => {
            return Err(e);
        },
    };
    let note_opt = match opt_text_field(entries, "note") {
        Ok(x) => x,
        Err(e) => {
            return Err(e);
        },
    };
    let stability = match opt_stability_field(entries, "stability") {
        Ok(x) => x,
        Err(e) => {
            return Err(e);
        },
    };
    let deprecated = match opt_text_field(entries, "deprecated") {
        Ok(x) => x,
        Err(e) => {
            return Err(e);
        },
    };
    let requirement_level = match level_opt {
        Some(l) => l,
        None => RequirementLevel::Basic(BasicRequirementLevelSpec::Recommended),
    };
    let note = match note_opt {
        Some(n) => n,
        None => String::new(),
    };
    Ok(
        AttributeSpec::Id {
            id,
            attr_type,
            brief,
            examples,
            tag,
            requirement_level,
            sampling_relevant,
            note,
            stability,
            deprecated,
        },
    )
}

/// Decodes an attribute declaration: a reference when a `ref` key is
/// present, a definition when an `id` key is, a failure otherwise.
pub fn decode_attribute(v: &RawValue) -> (r: Result<AttributeSpec, DecodeError>)
    ensures
        res_view(r) == spec_decode_attribute(*v),
{
    let entries = match v {
        RawValue::Mapping(entries) => entries,
        _ => {
            return Err(DecodeError::ShapeMismatch { field: String::from_str("attribute") });
        },
    };
    if lookup(entries, "ref").is_some() {
        decode_ref_shape(entries)
    } else if lookup(entries, "id").is_some() {
        decode_id_shape(entries)
    } else {
        Err(DecodeError::MissingField { field: String::from_str("id") })
    }
}

proof fn lemma_key_forces_unknown(es: Seq<RawEntry>, allowed: Seq<Seq<char>>, key: Seq<char>)
    requires
        spec_has_key(es, key),
        forall|m: int| 0 <= m < allowed.len() ==> allowed[m] != key,
    ensures
        spec_first_unknown_key(es, allowed) is Some,
    decreases es.len(),
{
    if es.len() > 0 {
        if es[0].key@ == key {
            assert(!spec_key_allowed(es[0], allowed));
        } else if spec_key_allowed(es[0], allowed) {
            lemma_key_forces_unknown(es.drop_first(), allowed, key);
        }
    }
}

/// A declaring object that carries both a `ref` and an `id` key fails
/// to decode: the `ref` key selects the reference shape, for which
/// `id` is unknown.
pub proof fn lemma_ref_and_id_rejected(v: RawValue)
    requires
        v is Mapping,
        spec_has_key(v->Mapping_0@, "ref"@),
        spec_has_key(v->Mapping_0@, "id"@),
    ensures
        spec_decode_attribute(v) is Err,
{
    let es = v->Mapping_0@;
    reveal_strlit("id");
    reveal_strlit("ref");
    reveal_strlit("brief");
    reveal_strlit("examples");
    reveal_strlit("tag");
    reveal_strlit("requirement_level");
    reveal_strlit("sampling_relevant");
    reveal_strlit("note");
    reveal_strlit("stability");
    reveal_strlit("deprecated");
    assert forall|m: int| 0 <= m < spec_ref_keys().len() implies spec_ref_keys()[m] != "id"@ by {
        assert(spec_ref_keys()[0] == "ref"@);
        assert(spec_ref_keys()[1] == "brief"@);
        assert(spec_ref_keys()[2] == "examples"@);
        assert(spec_ref_keys()[3] == "tag"@);
        assert(spec_ref_keys()[4] == "requirement_level"@);
        assert(spec_ref_keys()[5] == "sampling_relevant"@);
        assert(spec_ref_keys()[6] == "note"@);
        assert(spec_ref_keys()[7] == "stability"@);
        assert(spec_ref_keys()[8] == "deprecated"@);
        assert("ref"@.len() == 3 && "brief"@.len() == 5 && "examples"@.len() == 8 && "tag"@.len()
            == 3 && "requirement_level"@.len() == 17 && "sampling_relevant"@.len() == 17
            && "note"@.len() == 4 && "stability"@.len() == 9 && "deprecated"@.len() == 10);
        assert("id"@.len() == 2);
    }
    lemma_key_forces_unknown(es, spec_ref_keys(), "id"@);
}

/// A declaring object that carries neither a `ref` nor an `id` key
/// fails to decode: it matches neither attribute shape.
pub proof fn lemma_neither_ref_nor_id_rejected(v: RawValue)
    requires
        v is Mapping,
        !spec_has_key(v->Mapping_0@, "ref"@),
        !spec_has_key(v->Mapping_0@, "id"@),
    ensures
        spec_decode_attribute(v) == Err::<AttributeSpecView, _>(
            DecodeErrorView::MissingField { field: "id"@ },
        ),
{
}

/// An enum type that omits `allow_custom_values` decodes it as true.
pub proof fn lemma_allow_custom_values_defaults_true(v: RawValue)
    requires
        v is Mapping,
        !spec_has_key(v->Mapping_0@, "allow_custom_values"@),
    ensures
        match spec_decode_attribute_type(v) {
            Ok(t) => t matches AttributeTypeView::Enum { allow_custom_values: true, .. },
            Err(_) => true,
        },
{
}

/// A definition-shaped attribute that omits `requirement_level`
/// decodes it as the basic recommended level.
pub proof fn lemma_requirement_level_defaults_recommended(v: RawValue)
    requires
        v is Mapping,
        !spec_has_key(v->Mapping_0@, "requirement_level"@),
    ensures
        match spec_decode_attribute(v) {
            Ok(a) => a matches AttributeSpecView::Id { requirement_level, .. }
                ==> requirement_level == RequirementLevelView::Basic(
                BasicRequirementLevelSpec::Recommended,
            ),
            Err(_) => true,
        },
{
}

/// A definition-shaped attribute that omits `note` decodes it as
/// empty text.
pub proof fn lemma_note_defaults_empty(v: RawValue)
    requires
        v is Mapping,
        !spec_has_key(v->Mapping_0@, "note"@),
    ensures
        match spec_decode_attribute(v) {
            Ok(a) => a matches AttributeSpecView::Id { note, .. } ==> note == Seq::<char>::empty(),
            Err(_) => true,
        },
{
}

} // verus!
