//! JSON values as plain data, and the bridge to the JSON text codec.
use serde_json::Value;
use vstd::prelude::*;

verus! {

/// The error type of the JSON text codec.
#[verifier::external_type_specification]
#[verifier::external_body]
pub struct ExJsonTextError(serde_json::Error);

/// The JSON text codec's own value type, carried only between the codec and
/// the conversions below.
#[verifier::external_type_specification]
#[verifier::external_body]
pub struct ExCodecValue(serde_json::Value);

/// The JSON text codec's own number type.
#[verifier::external_type_specification]
#[verifier::external_body]
pub struct ExCodecNumber(serde_json::Number);

/// A JSON number: a non-negative integer, a negative integer, or the decimal
/// text of any other number.
#[derive(Debug, PartialEq)]
pub enum JsonNumber {
    Unsigned(u64),
    Negative(i64),
    Decimal(String),
}

/// A JSON value. An object is the list of its members; where a key occurs
/// more than once, the last member with that key is the one that counts.
#[derive(Debug, PartialEq)]
pub enum JsonValue {
    Null,
    Bool(bool),
    Number(JsonNumber),
    Str(String),
    Array(Vec<JsonValue>),
    Object(Vec<(String, JsonValue)>),
}

/// The value that a member list gives to `key`: that of the last member
/// named `key`, if there is one.
pub open spec fn member(fields: Seq<(String, JsonValue)>, key: Seq<char>) -> Option<JsonValue>
    decreases fields.len(),
{
    if fields.len() == 0 {
        None
    } else if fields.last().0@ == key {
        Some(fields.last().1)
    } else {
        member(fields.drop_last(), key)
    }
}

/// What `serde_json::from_str` reads from `text`, as a value of this
/// library: the value, or `None` where the text is not one JSON value.
pub uninterp spec fn json_text_value(text: Seq<char>) -> Option<JsonValue>;

/// The compact JSON text that `serde_json::to_string` writes for `value`.
/// On the way a decimal number's text is read with `serde_json::from_str`,
/// and is written as `null` where it is no JSON number.
pub uninterp spec fn json_value_text(value: JsonValue) -> Seq<char>;

/// `str`'s `==`: whether two string slices hold the same characters.
#[verifier::external_body]
pub(crate) fn same_text(a: &str, b: &str) -> (r: bool)
    ensures
        r == (a@ == b@),
{
    a == b
}

/// Maps a `serde_json::Number` to this library's: what `as_u64` gives, else
/// what `as_i64` gives, else the number's `to_string` text. Nothing is
/// claimed of the result; `read_json_text` names what comes of it.
#[verifier::external_body]
fn number_from_codec(n: serde_json::Number) -> JsonNumber {
    match (n.as_u64(), n.as_i64()) {
        (Some(u), _) => JsonNumber::Unsigned(u),
        (_, Some(i)) => JsonNumber::Negative(i),
        _ => JsonNumber::Decimal(n.to_string()),
    }
}

/// Maps a number of this library to a `serde_json::Value`, through
/// `Value::from` for the integers and `serde_json::from_str` for a decimal
/// text; a text that is no JSON number becomes `null`. Nothing is claimed of
/// the result; `write_json_text` names what comes of it.
#[verifier::external_body]
fn number_to_codec(n: &JsonNumber) -> Value {
    match n {
        JsonNumber::Unsigned(u) => Value::from(*u),
        JsonNumber::Negative(i) => Value::from(*i),
        JsonNumber::Decimal(t) => serde_json::from_str::<serde_json::Number>(t).map_or(
            Value::Null,
            Value::Number,
        ),
    }
}

/// Maps a `serde_json::Value` to this library's, variant by variant, the
/// members of an object in the order in which the codec holds them. Nothing
/// is claimed of the result; `read_json_text` names what comes of it.
#[verifier::external_body]
fn from_codec(value: Value) -> JsonValue {
    match value {
        Value::Null => JsonValue::Null,
        Value::Bool(b) => JsonValue::Bool(b),
        Value::Number(n) => JsonValue::Number(number_from_codec(n)),
        Value::String(s) => JsonValue::Str(s),
        Value::Array(a) => JsonValue::Array(a.into_iter().map(from_codec).collect()),
        Value::Object(m) => JsonValue::Object(
            m.into_iter().map(|(k, v)| (k, from_codec(v))).collect(),
        ),
    }
}

/// Maps a value of this library to a `serde_json::Value`, variant by
/// variant. Of the members of an object that share a key the last one
/// stays. Nothing is claimed of the result; `write_json_text` names what
/// comes of it.
#[verifier::external_body]
fn to_codec(value: &JsonValue) -> Value {
    match value {
        JsonValue::Null => Value::Null,
        JsonValue::Bool(b) => Value::Bool(*b),
        JsonValue::Number(n) => number_to_codec(n),
        JsonValue::Str(s) => Value::String(s.clone()),
        JsonValue::Array(a) => Value::Array(a.iter().map(to_codec).collect()),
        JsonValue::Object(m) => Value::Object(
            m.iter().map(|(k, v)| (k.clone(), to_codec(v))).collect(),
        ),
    }
}

/// `serde_json::from_str`, read as a `serde_json::Value` and mapped to this
/// library's value. The contract claims only that the result depends on the
/// text alone: it is `json_text_value` of the text, and an error exactly
/// where that is `None`.
#[verifier::external_body]
pub(crate) fn read_json_text(text: &str) -> (r: Result<JsonValue, serde_json::Error>)
    ensures
        match r {
            Ok(v) => json_text_value(text@) == Some(v),
            Err(_) => json_text_value(text@) is None,
        },
{
    match serde_json::from_str::<Value>(text) {
        Ok(v) => Ok(from_codec(v)),
        Err(e) => Err(e),
    }
}

/// `serde_json::to_string` on the value, mapped to a `serde_json::Value`.
/// The mapping makes a second outside call: it reads the text of a decimal
/// number with `serde_json::from_str`. The contract claims only that the
/// text depends on the value alone: it is `json_value_text` of the value.
#[verifier::external_body]
pub(crate) fn write_json_text(value: &JsonValue) -> (r: String)
    ensures
        r@ == json_value_text(*value),
{
    serde_json::to_string(&to_codec(value)).unwrap_or_default()
}

/// `serde_json::Error`'s `to_string`: the error in words. Nothing is claimed
/// of the text.
#[verifier::external_body]
pub(crate) fn json_error_text(e: &serde_json::Error) -> (r: String) {
    e.to_string()
}

impl JsonValue {
    /// The member named `key`, where this value is an object that has one.
    pub open spec fn spec_get(self, key: Seq<char>) -> Option<JsonValue> {
        match self {
            JsonValue::Object(fields) => member(fields@, key),
            _ => None,
        }
    }

    /// The text, where this value is a string.
    pub open spec fn spec_str(self) -> Option<Seq<char>> {
        match self {
            JsonValue::Str(s) => Some(s@),
            _ => None,
        }
    }

    /// The number, where this value is a non-negative integer.
    pub open spec fn spec_u64(self) -> Option<u64> {
        match self {
            JsonValue::Number(JsonNumber::Unsigned(n)) => Some(n),
            _ => None,
        }
    }

    /// The text of the string member named `key`, where there is one.
    pub open spec fn str_member(self, key: Seq<char>) -> Option<Seq<char>> {
        match self.spec_get(key) {
            Some(v) => v.spec_str(),
            None => None,
        }
    }

    /// The non-negative integer member named `key`, where there is one.
    pub open spec fn u64_member(self, key: Seq<char>) -> Option<u64> {
        match self.spec_get(key) {
            Some(v) => v.spec_u64(),
            None => None,
        }
    }

    /// Looks up a member of an object by its key. Any other value has no
    /// members.
    pub fn get(&self, key: &str) -> (r: Option<&JsonValue>)
        ensures
            match r {
                Some(v) => self.spec_get(key@) == Some(*v),
                None => self.spec_get(key@) is None,
            },
    {
        match self {
            JsonValue::Object(fields) => {
                let mut i: usize = fields.len();
                assert(fields@.subrange(0, i as int) =~= fields@);
                while i > 0
                    invariant
                        i <= fields@.len(),
                        self.spec_get(key@) == member(fields@, key@),
                        member(fields@, key@) == member(fields@.subrange(0, i as int), key@),
                    decreases i,
                {
                    i = i - 1;
                    proof {
                        let head = fields@.subrange(0, i + 1);
                        assert(head.drop_last() =~= fields@.subrange(0, i as int));
                        assert(head.last() == fields@[i as int]);
                    }
                    if same_text(fields[i].0.as_str(), key) {
                        return Some(&fields[i].1);
                    }
                }
                assert(fields@.subrange(0, 0).len() == 0);
                None
            },
            _ => None,
        }
    }

    /// The text of a string value.
    pub fn as_str(&self) -> (r: Option<&str>)
        ensures
            match r {
                Some(s) => self.spec_str() == Some(s@),
                None => self.spec_str() is None,
            },
    {
        match self {
            JsonValue::Str(s) => Some(s.as_str()),
            _ => None,
        }
    }

    /// The number of a non-negative integer value.
    pub fn as_u64(&self) -> (r: Option<u64>)
        ensures
            r == self.spec_u64(),
    {
        match self {
            JsonValue::Number(JsonNumber::Unsigned(n)) => Some(*n),
            _ => None,
        }
    }

    /// Whether this value is an object.
    pub fn is_object(&self) -> (r: bool)
        ensures
            r == (self is Object),
    {
        match self {
            JsonValue::Object(_) => true,
            _ => false,
        }
    }
}

} // verus!
