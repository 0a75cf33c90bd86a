//! The structured text in which a record is written before it is encrypted:
//! one JSON object, keyed by the record's kind, that holds the record's fields.
//! Writing and reading the JSON text itself is `serde_json`'s work.
use serde_json::{Number, Value};
use std::collections::BTreeMap;
use vstd::prelude::*;

verus! {

/// What one field holds.
#[derive(Debug)]
pub enum FieldValue {
    /// A JSON string.
    Text(String),
    /// A JSON number that is a non-negative integer below 2^64.
    Number(u64),
    /// Any other JSON value.
    Other,
}

/// A field's value, as a mathematical value.
pub enum ValueView {
    Text(Seq<char>),
    Number(u64),
    Other,
}

impl View for FieldValue {
    type V = ValueView;

    open spec fn view(&self) -> ValueView {
        match self {
            FieldValue::Text(s) => ValueView::Text(s@),
            FieldValue::Number(n) => ValueView::Number(*n),
            FieldValue::Other => ValueView::Other,
        }
    }
}

/// A named field.
#[derive(Debug)]
pub struct JsonField {
    pub name: String,
    pub value: FieldValue,
}

/// A named field, as a mathematical value.
pub struct FieldView {
    pub name: Seq<char>,
    pub value: ValueView,
}

impl View for JsonField {
    type V = FieldView;

    open spec fn view(&self) -> FieldView {
        FieldView { name: self.name@, value: self.value@ }
    }
}

/// A tagged object: a tag and the fields that stand under it, in order.
#[derive(Debug)]
pub struct JsonObject {
    pub tag: String,
    pub fields: Vec<JsonField>,
}

/// A tagged object, as a mathematical value.
pub struct ObjectView {
    pub tag: Seq<char>,
    pub fields: Seq<FieldView>,
}

/// The fields of a list, each by its view.
pub open spec fn fields_view(fields: Seq<JsonField>) -> Seq<FieldView> {
    Seq::new(fields.len(), |i: int| fields[i]@)
}

impl View for JsonObject {
    type V = ObjectView;

    open spec fn view(&self) -> ObjectView {
        ObjectView { tag: self.tag@, fields: fields_view(self.fields@) }
    }
}

/// The objects of a list, each by its view.
pub open spec fn objects_view(objects: Seq<JsonObject>) -> Seq<ObjectView> {
    Seq::new(objects.len(), |i: int| objects[i]@)
}

/// True when no two fields share a name.
pub open spec fn distinct_names(fields: Seq<FieldView>) -> bool {
    forall|i: int, j: int|
        0 <= i < j < fields.len() ==> (#[trigger] fields[i]).name != (#[trigger] fields[j]).name
}

/// The JSON text that `serde_json` writes for the object
/// `{ tag: { name: value, .. } }`, fields in the order given.
pub uninterp spec fn json_text(object: ObjectView) -> Seq<char>;

/// What `serde_json` reads from a text as a JSON object whose members are all
/// objects themselves: the members in the order of their keys, each with its
/// fields in the order of the text; `None` for any other text.
pub uninterp spec fn json_objects(text: Seq<char>) -> Option<Seq<ObjectView>>;

/// Calls `serde_json::to_string` on the JSON object with the one member
/// `object.tag`, whose value is the object made of `object.fields`: a text for
/// `Text`, an integer for `Number`, `null` for `Other`.
///
/// Trusted: a text is always written (the keys are strings and the values
/// strings, integers or `null`, which `serde_json` never refuses); it is the
/// named text `json_text`; and, where no two fields share a name, `serde_json`
/// reads that text back as the same single object.
#[verifier::external_body]
pub(crate) fn write_json(object: &JsonObject) -> (r: Option<String>)
    ensures
        match r {
            Some(text) => text@ == json_text(object@) && (distinct_names(object@.fields)
                ==> json_objects(text@) == Some(seq![object@])),
            None => false,
        },
{
    let mut inner = serde_json::Map::new();
    for field in object.fields.iter() {
        inner.insert(field.name.clone(), match &field.value {
            FieldValue::Text(s) => Value::String(s.clone()),
            FieldValue::Number(n) => Value::Number(Number::from(*n)),
            FieldValue::Other => Value::Null,
        });
    }
    let mut outer = serde_json::Map::new();
    outer.insert(object.tag.clone(), Value::Object(inner));
    serde_json::to_string(&Value::Object(outer)).ok()
}

/// Calls `serde_json::from_str` for a map of JSON objects and hands each out
/// as a tag with its fields: `Text` for a string, `Number` for a non-negative
/// integer below 2^64, `Other` for anything else.
///
/// Trusted: the result is the named value `json_objects`.
#[verifier::external_body]
pub(crate) fn read_json(text: &str) -> (r: Option<Vec<JsonObject>>)
    ensures
        match r {
            Some(objects) => json_objects(text@) == Some(objects_view(objects@)),
            None => json_objects(text@) is None,
        },
{
    let parsed: BTreeMap<String, serde_json::Map<String, Value>> = serde_json::from_str(text).ok()?;
    Some(parsed.into_iter().map(|(tag, members)| JsonObject {
        tag,
        fields: members.into_iter().map(|(name, value)| JsonField {
            name,
            value: match value {
                Value::String(s) => FieldValue::Text(s),
                Value::Number(n) => n.as_u64().map_or(FieldValue::Other, FieldValue::Number),
                _ => FieldValue::Other,
            },
        }).collect(),
    }).collect())
}

} // verus!
