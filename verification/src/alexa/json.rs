//! JSON documents as plain values, read by `serde_json`, and lookups in them.
use vstd::prelude::*;
use crate::alexa::text::str_eq;

verus! {

/// A JSON value together with its text as `serde_json` writes it out.
pub struct Json {
    pub value: JsonValue,
    pub text: String,
}

/// The kinds of JSON value; a number is known by its text.
pub enum JsonValue {
    Null,
    Bool(bool),
    Number,
    Str(String),
    Array(Vec<Json>),
    Object(Vec<JsonField>),
}

/// A member of a JSON object.
pub struct JsonField {
    pub key: String,
    pub value: Json,
}

#[verifier::external_type_specification]
#[verifier::external_body]
pub struct ExJsonValue(serde_json::Value);

/// What `serde_json::from_str::<serde_json::Value>` yields for `body`, as plain
/// values: the document, each value with its text as `Value::to_string` writes it,
/// or the parser's error message.
pub uninterp spec fn json_parse(body: Seq<char>) -> Result<Json, Seq<char>>;

/// A parse result with its message as a view.
pub open spec fn parsed_view(r: Result<Json, String>) -> Result<Json, Seq<char>> {
    match r {
        Ok(j) => Ok(j),
        Err(m) => Err(m@),
    }
}

/// Writes a `serde_json::Value` as a [`Json`], one variant for one variant, with
/// the text that `Value::to_string` gives for each value. Only [`parse_json`] uses it.
#[verifier::external_body]
fn json_from_value(v: &serde_json::Value) -> Json {
    let value = match v {
        serde_json::Value::Null => JsonValue::Null,
        serde_json::Value::Bool(b) => JsonValue::Bool(*b),
        serde_json::Value::Number(_) => JsonValue::Number,
        serde_json::Value::String(s) => JsonValue::Str(s.clone()),
        serde_json::Value::Array(xs) => JsonValue::Array(xs.iter().map(json_from_value).collect()),
        serde_json::Value::Object(m) => JsonValue::Object(
            m.iter().map(|(k, x)| JsonField { key: k.clone(), value: json_from_value(x) }).collect(),
        ),
    };
    Json { value, text: v.to_string() }
}

/// Calls `serde_json::from_str::<serde_json::Value>` on `body` and writes the value
/// out as a [`Json`], or the error as its message. The contract claims only that the
/// result is [`json_parse`] of the body, a function of the body alone; what the
/// parser accepts and how values are written out are left unsaid.
#[verifier::external_body]
pub(crate) fn parse_json(body: &str) -> (r: Result<Json, String>)
    ensures
        parsed_view(r) == json_parse(body@),
{
    match serde_json::from_str::<serde_json::Value>(body) {
        Ok(v) => Ok(json_from_value(&v)),
        Err(e) => Err(e.to_string()),
    }
}

/// The value of the first member named `key`.
pub open spec fn field_named(fields: Seq<JsonField>, key: Seq<char>) -> Option<Json>
    decreases fields.len(),
{
    if fields.len() == 0 {
        None
    } else if fields[0].key@ == key {
        Some(fields[0].value)
    } else {
        field_named(fields.drop_first(), key)
    }
}

/// The member `key` of an object; nothing for other values.
pub open spec fn json_get(j: Json, key: Seq<char>) -> Option<Json> {
    match j.value {
        JsonValue::Object(fields) => field_named(fields@, key),
        _ => None,
    }
}

/// The element at position `i` of an array; nothing for other values.
pub open spec fn json_index(j: Json, i: int) -> Option<Json> {
    match j.value {
        JsonValue::Array(xs) => if 0 <= i < xs@.len() {
            Some(xs@[i])
        } else {
            None
        },
        _ => None,
    }
}

/// The member `key` of an object; nothing for other values.
pub fn get<'a>(j: &'a Json, key: &str) -> (r: Option<&'a Json>)
    ensures
        match r {
            Some(x) => json_get(*j, key@) == Some(*x),
            None => json_get(*j, key@) is None,
        },
{
    match &j.value {
        JsonValue::Object(fields) => {
            let n = fields.len();
            let mut i: usize = 0;
            assert(fields@.skip(0) =~= fields@);
            while i < n
                invariant
                    n == fields@.len(),
                    i <= n,
                    json_get(*j, key@) == field_named(fields@, key@),
                    field_named(fields@, key@) == field_named(fields@.skip(i as int), key@),
                decreases n - i,
            {
                let ghost rest = fields@.skip(i as int);
                assert(rest[0] == fields@[i as int]);
                assert(rest.drop_first() =~= fields@.skip(i + 1));
                if str_eq(fields[i].key.as_str(), key) {
                    return Some(&fields[i].value);
                }
                i = i + 1;
            }
            assert(fields@.skip(n as int).len() == 0);
            None
        },
        _ => None,
    }
}

/// The element at position `i` of an array; nothing for other values.
pub fn get_index<'a>(j: &'a Json, i: usize) -> (r: Option<&'a Json>)
    ensures
        match r {
            Some(x) => json_index(*j, i as int) == Some(*x),
            None => json_index(*j, i as int) is None,
        },
{
    match &j.value {
        JsonValue::Array(xs) => if i < xs.len() {
            Some(&xs[i])
        } else {
            None
        },
        _ => None,
    }
}

} // verus!
