//! A plain model of JSON values, and parsing of JSON text into it.
use vstd::prelude::*;

verus! {

/// A JSON number, as far as this library reads it.
#[derive(Clone, Copy, Debug, PartialEq, Eq, Structural)]
pub enum JsonNumber {
    /// A non-negative integer.
    Unsigned(u64),
    /// A negative integer.
    Negative(i64),
    /// A number with a fraction or an exponent.
    Fractional,
}

/// A JSON value. Object members keep the order the parser hands them out in.
#[derive(Debug, PartialEq)]
pub enum JsonValue {
    Null,
    Bool(bool),
    Number(JsonNumber),
    Str(String),
    Array(Vec<JsonValue>),
    Object(Vec<(String, JsonValue)>),
}

/// The kind of a JSON value, as reported in diagnostics.
#[derive(Clone, Copy, Debug, PartialEq, Eq, Structural)]
pub enum JsonKind {
    Null,
    Str,
    Number,
    Boolean,
    Object,
    Array,
}

/// Why a JSON text could not be parsed.
#[derive(Clone, Copy, Debug, PartialEq, Eq, Structural)]
pub enum ParseCategory {
    Io,
    Syntax,
    Data,
    Eof,
}

/// A failed parse: 1-based position within the parsed text, and the category.
#[derive(Clone, Copy, Debug, PartialEq, Eq, Structural)]
pub struct JsonSyntaxError {
    pub line: usize,
    pub column: usize,
    pub category: ParseCategory,
}

pub open spec fn kind_of(v: JsonValue) -> JsonKind {
    match v {
        JsonValue::Null => JsonKind::Null,
        JsonValue::Bool(_) => JsonKind::Boolean,
        JsonValue::Number(_) => JsonKind::Number,
        JsonValue::Str(_) => JsonKind::Str,
        JsonValue::Array(_) => JsonKind::Array,
        JsonValue::Object(_) => JsonKind::Object,
    }
}

/// The kind of a value.
pub fn json_kind(v: &JsonValue) -> (r: JsonKind)
    ensures
        r == kind_of(*v),
{
    match v {
        JsonValue::Null => JsonKind::Null,
        JsonValue::Bool(_) => JsonKind::Boolean,
        JsonValue::Number(_) => JsonKind::Number,
        JsonValue::Str(_) => JsonKind::Str,
        JsonValue::Array(_) => JsonKind::Array,
        JsonValue::Object(_) => JsonKind::Object,
    }
}

/// The value of the first member named `key`, if any.
pub open spec fn lookup(fields: Seq<(String, JsonValue)>, key: Seq<char>) -> Option<JsonValue>
    decreases fields.len(),
{
    if fields.len() == 0 {
        None
    } else if fields[0].0@ == key {
        Some(fields[0].1)
    } else {
        lookup(fields.drop_first(), key)
    }
}

/// The member named `key` of an object; `None` for a value that is no object.
pub open spec fn member(v: JsonValue, key: Seq<char>) -> Option<JsonValue> {
    match v {
        JsonValue::Object(fields) => lookup(fields@, key),
        _ => None,
    }
}

/// Position of the first member named `key`.
pub fn find_member(fields: &Vec<(String, JsonValue)>, key: &str) -> (r: Option<usize>)
    ensures
        match r {
            Some(i) => i < fields@.len() && lookup(fields@, key@) == Some(fields@[i as int].1),
            None => lookup(fields@, key@) is None,
        },
{
    let wanted = String::from_str(key);
    let mut i: usize = 0;
    assert(fields@.subrange(0, fields@.len() as int) =~= fields@);
    while i < fields.len()
        invariant
            i <= fields@.len(),
            wanted@ == key@,
            lookup(fields@, key@) == lookup(fields@.subrange(i as int, fields@.len() as int), key@),
        decreases fields@.len() - i,
    {
        let rest = Ghost(fields@.subrange(i as int, fields@.len() as int));
        assert(rest@.drop_first() =~= fields@.subrange(i + 1, fields@.len() as int));
        if fields[i].0 == wanted {
            return Some(i);
        }
        i += 1;
    }
    assert(fields@.subrange(i as int, fields@.len() as int).len() == 0);
    None
}

/// The unsigned 32-bit integer a value holds, if it holds one.
pub open spec fn as_u32(v: JsonValue) -> Option<u32> {
    match v {
        JsonValue::Number(JsonNumber::Unsigned(n)) => if n <= u32::MAX {
            Some(n as u32)
        } else {
            None
        },
        _ => None,
    }
}

/// What serde_json makes of a text, in this library's model.
pub uninterp spec fn json_parse(text: Seq<char>) -> Result<JsonValue, JsonSyntaxError>;

#[verifier::external_type_specification]
#[verifier::external_body]
pub struct ExSerdeJsonValue(serde_json::Value);

/// Relies on serde_json::from_str::<serde_json::Value>, whose outcome depends on the
/// text alone, and on serde_json's line, column and classify of a failure.
#[verifier::external_body]
pub fn parse_json(text: &str) -> (r: Result<JsonValue, JsonSyntaxError>)
    ensures
        r == json_parse(text@),
{
    match serde_json::from_str::<serde_json::Value>(text) {
        Ok(v) => Ok(from_serde(v)),
        Err(e) => Err(JsonSyntaxError {
            line: e.line(),
            column: e.column(),
            category: match e.classify() {
                serde_json::error::Category::Io => ParseCategory::Io,
                serde_json::error::Category::Syntax => ParseCategory::Syntax,
                serde_json::error::Category::Data => ParseCategory::Data,
                serde_json::error::Category::Eof => ParseCategory::Eof,
            },
        }),
    }
}

/// Moves a serde_json value into this library's model, variant by variant; relies on
/// serde_json::Number::as_u64 and as_i64 to tell the number representations apart.
/// Only `parse_json` uses it.
#[verifier::external_body]
fn from_serde(v: serde_json::Value) -> JsonValue {
    match v {
        serde_json::Value::Null => JsonValue::Null,
        serde_json::Value::Bool(b) => JsonValue::Bool(b),
        serde_json::Value::Number(n) => JsonValue::Number(match (n.as_u64(), n.as_i64()) {
            (Some(u), _) => JsonNumber::Unsigned(u),
            (None, Some(i)) => JsonNumber::Negative(i),
            (None, None) => JsonNumber::Fractional,
        }),
        serde_json::Value::String(s) => JsonValue::Str(s),
        serde_json::Value::Array(a) => JsonValue::Array(a.into_iter().map(from_serde).collect()),
        serde_json::Value::Object(m) => JsonValue::Object(m.into_iter().map(|(k, x)| (k, from_serde(x))).collect()),
    }
}

} // verus!
