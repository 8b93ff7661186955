//! JSON payloads: what a contract reads of a `serde_json::Value`.
use vstd::prelude::*;
use serde_json::Value;
use crate::text::{is_blank, str_is_blank};

verus! {

#[verifier::external_type_specification]
#[verifier::external_body]
pub struct ExJsonValue(serde_json::Value);

#[verifier::external_type_specification]
#[verifier::external_body]
pub struct ExJsonError(serde_json::Error);

/// The kind of a JSON value, with the text of a string and the size of an
/// array or object.
#[derive(Debug, Clone)]
pub enum JsonShape {
    Null,
    Bool,
    Number,
    Text(String),
    Array(usize),
    Object(usize),
}

/// The view of a shape: a string's text as characters.
pub enum JsonShapeView {
    Null,
    Bool,
    Number,
    Text(Seq<char>),
    Array(usize),
    Object(usize),
}

impl View for JsonShape {
    type V = JsonShapeView;

    open spec fn view(&self) -> JsonShapeView {
        match self {
            JsonShape::Null => JsonShapeView::Null,
            JsonShape::Bool => JsonShapeView::Bool,
            JsonShape::Number => JsonShapeView::Number,
            JsonShape::Text(s) => JsonShapeView::Text(s@),
            JsonShape::Array(n) => JsonShapeView::Array(*n),
            JsonShape::Object(n) => JsonShapeView::Object(*n),
        }
    }
}

/// A scalar member of a JSON object: a string, a number (in its JSON text),
/// or anything else.
#[derive(Debug, Clone)]
pub enum JsonScalar {
    Text(String),
    Number(String),
    Other,
}

/// The view of a scalar: texts as characters.
pub enum JsonScalarView {
    Text(Seq<char>),
    Number(Seq<char>),
    Other,
}

impl View for JsonScalar {
    type V = JsonScalarView;

    open spec fn view(&self) -> JsonScalarView {
        match self {
            JsonScalar::Text(s) => JsonScalarView::Text(s@),
            JsonScalar::Number(s) => JsonScalarView::Number(s@),
            JsonScalar::Other => JsonScalarView::Other,
        }
    }
}

/// A JSON payload: its kind and its compact serialization (absent when it
/// could not be serialized).
#[derive(Debug, Clone)]
pub struct JsonPayload {
    pub shape: JsonShape,
    pub text: Option<String>,
}

/// The variant of a JSON value, with a string's text and the length of an
/// array or object, as `serde_json::Value` holds them.
pub uninterp spec fn json_shape(v: serde_json::Value) -> JsonShapeView;

/// The compact JSON text that `serde_json::to_string` gives of a value.
pub uninterp spec fn json_text(v: serde_json::Value) -> Seq<char>;

/// The member named `key` of a JSON value, as `serde_json::Value::get` finds
/// it: absent when the value is no object or has no such member.
pub uninterp spec fn json_member(v: serde_json::Value, key: Seq<char>) -> Option<serde_json::Value>;

/// Matching on the variants of `serde_json::Value`
/// (serde_json/src/value/mod.rs): the variant of `v`, with a string's text
/// and the length of an array or object.
#[verifier::external_body]
fn value_shape(v: &Value) -> (r: JsonShape)
    ensures
        r@ == json_shape(*v),
{
    match v {
        Value::Null => JsonShape::Null,
        Value::Bool(_) => JsonShape::Bool,
        Value::Number(_) => JsonShape::Number,
        Value::String(s) => JsonShape::Text(s.clone()),
        Value::Array(a) => JsonShape::Array(a.len()),
        Value::Object(m) => JsonShape::Object(m.len()),
    }
}

/// `serde_json::to_string` on a `Value`: its compact JSON text.  Serializing
/// a `Value` into memory does not fail (object keys are strings and the
/// writer is a `Vec`), so the result is always `Ok`.
#[verifier::external_body]
pub(crate) fn value_to_string(v: &Value) -> (r: Result<String, serde_json::Error>)
    ensures
        r is Ok,
        r->Ok_0@ == json_text(*v),
{
    serde_json::to_string(v)
}

/// `Value::get` with a string key: a copy of the object member named `key`,
/// absent when `v` is no object or has no such member.
#[verifier::external_body]
pub(crate) fn value_member(v: &Value, key: &str) -> (r: Option<Value>)
    ensures
        r == json_member(*v, key@),
{
    v.get(key).cloned()
}

/// What a scalar member reads as: a string as its text, a number as its JSON
/// text, anything else as `Other`.
pub open spec fn scalar_of(v: serde_json::Value) -> JsonScalarView {
    match json_shape(v) {
        JsonShapeView::Text(s) => JsonScalarView::Text(s),
        JsonShapeView::Number => JsonScalarView::Number(json_text(v)),
        _ => JsonScalarView::Other,
    }
}

/// Whether a payload is an empty string, an empty array or an empty object.
pub open spec fn shape_is_empty(shape: JsonShape) -> bool {
    match shape {
        JsonShape::Text(s) => s@.len() == 0,
        JsonShape::Array(n) => n == 0,
        JsonShape::Object(n) => n == 0,
        _ => false,
    }
}

/// Whether a payload is a blank string, an empty array or an empty object.
pub open spec fn shape_is_blank(shape: JsonShape) -> bool {
    match shape {
        JsonShape::Text(s) => is_blank(s@),
        JsonShape::Array(n) => n == 0,
        JsonShape::Object(n) => n == 0,
        _ => false,
    }
}

/// The serialized text of a payload that is neither an empty string, array
/// or object nor unserializable.
pub open spec fn nonempty_text(p: JsonPayload) -> Option<String> {
    if shape_is_empty(p.shape) {
        None
    } else {
        p.text
    }
}

/// The serialized text of a payload that is neither a blank string, an empty
/// array or object, nor unserializable.
pub open spec fn nonblank_text(p: JsonPayload) -> Option<String> {
    if shape_is_blank(p.shape) {
        None
    } else {
        p.text
    }
}

impl JsonScalar {
    /// A string as its text, a number as its JSON text, anything else as `Other`.
    pub fn from_value(v: &Value) -> (r: JsonScalar)
        ensures
            r@ == scalar_of(*v),
    {
        match value_shape(v) {
            JsonShape::Text(s) => JsonScalar::Text(s),
            JsonShape::Number => match value_to_string(v) {
                Ok(t) => JsonScalar::Number(t),
                Err(_) => JsonScalar::Other,
            },
            _ => JsonScalar::Other,
        }
    }
}

impl JsonPayload {
    /// The shape and the serialization of `v`.
    pub fn from_value(v: &Value) -> (r: JsonPayload)
        ensures
            r.shape@ == json_shape(*v),
            r.text matches Some(t) && t@ == json_text(*v),
    {
        let shape = value_shape(v);
        let text = match value_to_string(v) {
            Ok(t) => Some(t),
            Err(_) => None,
        };
        JsonPayload { shape, text }
    }

    /// The text of a payload that is not an empty string, array or object.
    pub fn nonempty(&self) -> (r: Option<String>)
        ensures
            r == nonempty_text(*self),
    {
        let empty = match &self.shape {
            JsonShape::Text(s) => s.as_str().unicode_len() == 0,
            JsonShape::Array(n) => *n == 0,
            JsonShape::Object(n) => *n == 0,
            _ => false,
        };
        if empty {
            None
        } else {
            match &self.text {
                Some(t) => Some(t.clone()),
                None => None,
            }
        }
    }

    /// The text of a payload that is not a blank string or an empty array or object.
    pub fn nonblank(&self) -> (r: Option<String>)
        ensures
            r == nonblank_text(*self),
    {
        let blank = match &self.shape {
            JsonShape::Text(s) => str_is_blank(s.as_str()),
            JsonShape::Array(n) => *n == 0,
            JsonShape::Object(n) => *n == 0,
            _ => false,
        };
        if blank {
            None
        } else {
            match &self.text {
                Some(t) => Some(t.clone()),
                None => None,
            }
        }
    }
}

} // verus!
