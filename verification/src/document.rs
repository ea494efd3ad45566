//! JSON documents: a mathematical model of what `serde_json` holds, and the
//! calls into `serde_json` that the pipeline makes, each with the contract
//! that the rest of the library relies on.

use vstd::prelude::*;

verus! {

#[verifier::external_type_specification]
#[verifier::external_body]
pub struct ExValue(serde_json::Value);

#[verifier::external_type_specification]
#[verifier::external_body]
pub struct ExError(serde_json::Error);

#[verifier::external_type_specification]
#[verifier::external_body]
#[verifier::reject_recursive_types(K)]
#[verifier::reject_recursive_types(V)]
pub struct ExMap<K, V>(serde_json::Map<K, V>);

/// A JSON number: a non-negative integer, a negative integer, or a finite
/// binary64 float given by its IEEE 754 bit pattern.
pub enum JsonNumber {
    Unsigned(u64),
    Negative(i64),
    Float(u64),
}

/// A JSON document as a mathematical value.
pub enum Json {
    Null,
    Bool(bool),
    Number(JsonNumber),
    Text(Seq<char>),
    List(Seq<Json>),
    Object(Map<Seq<char>, Json>),
}

impl Json {
    /// The member stored under `key`, where the document is an object that has one.
    pub open spec fn field(self, key: Seq<char>) -> Option<Json> {
        match self {
            Json::Object(fields) if fields.contains_key(key) => Some(fields[key]),
            _ => None,
        }
    }

    /// The text, where the document is a string.
    pub open spec fn text(self) -> Option<Seq<char>> {
        match self {
            Json::Text(s) => Some(s),
            _ => None,
        }
    }

    /// The bit pattern of the number read as a binary64 float, where the
    /// document is a number.
    pub open spec fn float_bits(self) -> Option<u64> {
        match self {
            Json::Number(JsonNumber::Float(bits)) => Some(bits),
            Json::Number(JsonNumber::Unsigned(n)) => Some(int_as_float(n as int)),
            Json::Number(JsonNumber::Negative(n)) => Some(int_as_float(n as int)),
            _ => None,
        }
    }

    /// The number read as a float, or null where the document is not a number.
    pub open spec fn float_or_null(self) -> Json {
        match self.float_bits() {
            Some(bits) => Json::Number(JsonNumber::Float(bits)),
            None => Json::Null,
        }
    }
}

/// What a `serde_json::Value` holds.
pub uninterp spec fn json_of(v: serde_json::Value) -> Json;

/// What a `serde_json::Map` holds: its members by key.
pub uninterp spec fn fields_of(m: serde_json::Map<String, serde_json::Value>) -> Map<
    Seq<char>,
    Json,
>;

/// The message that a `serde_json::Error` displays.
pub uninterp spec fn message_of(e: serde_json::Error) -> Seq<char>;

/// What `serde_json::from_str` makes of a text: the document, or the message
/// of the error it reports.
pub uninterp spec fn json_document(text: Seq<char>) -> Result<Json, Seq<char>>;

/// The bit pattern of the binary64 float that Rust's `as` cast gives for an
/// integer.
pub uninterp spec fn int_as_float(i: int) -> u64;

/// `serde_json::from_str` for a `Value`. The contract names the result: the
/// same text always gives the same document or the same error.
#[verifier::external_body]
pub(crate) fn parse(text: &str) -> (res: Result<serde_json::Value, serde_json::Error>)
    ensures
        match res {
            Ok(v) => json_document(text@) == Ok::<Json, Seq<char>>(json_of(v)),
            Err(e) => json_document(text@) == Err::<Json, Seq<char>>(message_of(e)),
        },
{
    serde_json::from_str(text)
}

/// The `Display` text of a `serde_json::Error`.
#[verifier::external_body]
pub(crate) fn error_text(e: &serde_json::Error) -> (res: String)
    ensures
        res@ == message_of(*e),
{
    e.to_string()
}

/// `Value::get` with a string key: the member under that key where the value
/// is an object that has it, and nothing otherwise.
#[verifier::external_body]
pub(crate) fn member<'a>(doc: &'a serde_json::Value, key: &str) -> (res: Option<
    &'a serde_json::Value,
>)
    ensures
        match res {
            Some(v) => json_of(*doc).field(key@) == Some(json_of(*v)),
            None => json_of(*doc).field(key@) is None,
        },
{
    doc.get(key)
}

/// `Value::as_str`: the text where the value is a string, and nothing otherwise.
#[verifier::external_body]
pub(crate) fn as_text<'a>(v: &'a serde_json::Value) -> (res: Option<&'a str>)
    ensures
        match res {
            Some(s) => json_of(*v).text() == Some(s@),
            None => json_of(*v).text() is None,
        },
{
    v.as_str()
}

/// `Value::as_f64`, the float handed out as its bit pattern: a float as it
/// is, an integer cast to a float, and nothing where the value is no number.
#[verifier::external_body]
pub(crate) fn as_float_bits(v: &serde_json::Value) -> (res: Option<u64>)
    ensures
        res == match json_of(*v) {
            Json::Number(JsonNumber::Float(bits)) => Some(bits),
            Json::Number(JsonNumber::Unsigned(n)) => Some(int_as_float(n as int)),
            Json::Number(JsonNumber::Negative(n)) => Some(int_as_float(n as int)),
            _ => None,
        },
{
    v.as_f64().map(|x| x.to_bits())
}

/// `Value::as_f64` on a member that may be missing, and `Value::from` on the
/// outcome: a float number where the member is a number, null otherwise. The
/// floats that `as_f64` gives are finite, so `from` keeps each as a number.
#[verifier::external_body]
pub(crate) fn float_or_null(found: Option<&serde_json::Value>) -> (res: serde_json::Value)
    ensures
        json_of(res) == match found {
            Some(v) => json_of(*v).float_or_null(),
            None => Json::Null,
        },
{
    serde_json::Value::from(found.and_then(|v| v.as_f64()))
}

/// `Value::from` for a string slice: a JSON string with the same text.
#[verifier::external_body]
pub(crate) fn text_value(s: &str) -> (res: serde_json::Value)
    ensures
        json_of(res) == Json::Text(s@),
{
    serde_json::Value::from(s)
}

/// `Value::from` for a `u64`: a JSON number that holds the integer.
#[verifier::external_body]
pub(crate) fn unsigned_value(n: u64) -> (res: serde_json::Value)
    ensures
        json_of(res) == Json::Number(JsonNumber::Unsigned(n)),
{
    serde_json::Value::from(n)
}

/// `Map::new`: a map without members.
#[verifier::external_body]
pub(crate) fn no_fields() -> (res: serde_json::Map<String, serde_json::Value>)
    ensures
        fields_of(res) =~= Map::empty(),
{
    serde_json::Map::new()
}

/// `Map::insert`: the member is stored under the key, replacing what was there.
#[verifier::external_body]
pub(crate) fn put_field(
    fields: &mut serde_json::Map<String, serde_json::Value>,
    key: &str,
    value: serde_json::Value,
)
    ensures
        fields_of(*final(fields)) == fields_of(*old(fields)).insert(key@, json_of(value)),
{
    fields.insert(key.to_string(), value);
}

/// `Value::Object`: the object with the members of the map.
#[verifier::external_body]
pub(crate) fn object_value(fields: serde_json::Map<String, serde_json::Value>) -> (res:
    serde_json::Value)
    ensures
        json_of(res) == Json::Object(fields_of(fields)),
{
    serde_json::Value::Object(fields)
}

} // verus!
