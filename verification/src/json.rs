//! JSON documents: what a `serde_json::Value` says, and how it is read and
//! built.
//!
//! A value is opaque to the proofs; [`json_of`] names the document that it
//! holds, and the functions below that call into `serde_json` say over that
//! name what each call does.

use crate::double;
use crate::text;
use serde_json::Value;
use vstd::prelude::*;

verus! {

#[verifier::external_type_specification]
#[verifier::external_body]
pub struct ExValue(Value);

#[verifier::external_type_specification]
#[verifier::external_body]
#[verifier::reject_recursive_types(K)]
#[verifier::reject_recursive_types(V)]
pub struct ExObjectMap<K, V>(serde_json::Map<K, V>);

#[verifier::external_type_specification]
#[verifier::external_body]
pub struct ExJsonError(serde_json::Error);

// ---------------------------------------------------------------------------
// documents
// ---------------------------------------------------------------------------

/// A JSON number: an integer of the range of `i64` and `u64` together, or a
/// finite double, given by its bit pattern.
pub enum JsonNumber {
    Int(int),
    Float(u64),
}

/// A JSON document.
pub enum Json {
    Null,
    Bool(bool),
    Number(JsonNumber),
    Text(Seq<char>),
    Array(Seq<Json>),
    Object(Map<Seq<char>, Json>),
}

/// The document that a value holds.
pub uninterp spec fn json_of(v: Value) -> Json;

/// The members that an object map holds.
pub uninterp spec fn members_of(m: serde_json::Map<String, Value>) -> Map<Seq<char>, Json>;

pub open spec fn no_members() -> Map<Seq<char>, Json> {
    Map::empty()
}

/// The documents that a list of values holds.
pub open spec fn json_all(v: Seq<Value>) -> Seq<Json> {
    v.map_values(|x: Value| json_of(x))
}

pub open spec fn json_option(v: Option<&Value>) -> Option<Json> {
    match v {
        Some(x) => Some(json_of(*x)),
        None => None,
    }
}

pub open spec fn whole(n: int) -> Json {
    Json::Number(JsonNumber::Int(n))
}

/// The member `key` of an object. Other documents have no members.
pub open spec fn member(j: Json, key: Seq<char>) -> Option<Json> {
    match j {
        Json::Object(m) => if m.contains_key(key) {
            Some(m[key])
        } else {
            None
        },
        _ => None,
    }
}

pub open spec fn member_of(j: Option<Json>, key: Seq<char>) -> Option<Json> {
    match j {
        Some(x) => member(x, key),
        None => None,
    }
}

/// The integer that a number is, where it fits an `i64`.
pub open spec fn as_int(j: Json) -> Option<i64> {
    match j {
        Json::Number(JsonNumber::Int(n)) => if i64::MIN <= n <= i64::MAX {
            Some(n as i64)
        } else {
            None
        },
        _ => None,
    }
}

/// The bit pattern of a number as a double.
pub open spec fn as_bits(j: Json) -> Option<u64> {
    match j {
        Json::Number(JsonNumber::Int(n)) => Some(double::integer_pattern(n)),
        Json::Number(JsonNumber::Float(b)) => Some(b),
        _ => None,
    }
}

pub open spec fn as_text(j: Json) -> Option<Seq<char>> {
    match j {
        Json::Text(s) => Some(s),
        _ => None,
    }
}

pub open spec fn as_list(j: Json) -> Option<Seq<Json>> {
    match j {
        Json::Array(a) => Some(a),
        _ => None,
    }
}

// ---------------------------------------------------------------------------
// reading values
// ---------------------------------------------------------------------------

/// `Value::get` with a string: the member of an object, `None` where there is
/// none and for every other kind of value.
#[verifier::external_body]
pub(crate) fn get<'a>(v: &'a Value, key: &str) -> (r: Option<&'a Value>)
    ensures
        json_option(r) == member(json_of(*v), key@),
{
    v.get(key)
}

/// `Value::is_null`.
#[verifier::external_body]
pub(crate) fn is_null(v: &Value) -> (r: bool)
    ensures
        r == (json_of(*v) == Json::Null),
{
    v.is_null()
}

/// `Value::as_i64`: the integer, where the value is one and fits.
#[verifier::external_body]
pub(crate) fn to_int(v: &Value) -> (r: Option<i64>)
    ensures
        r == as_int(json_of(*v)),
{
    v.as_i64()
}

/// `Value::as_bool`.
#[verifier::external_body]
pub(crate) fn to_bool(v: &Value) -> (r: Option<bool>)
    ensures
        r == (match json_of(*v) {
            Json::Bool(b) => Some(b),
            _ => None,
        }),
{
    v.as_bool()
}

/// `Value::as_str`.
#[verifier::external_body]
pub(crate) fn to_text<'a>(v: &'a Value) -> (r: Option<&'a str>)
    ensures
        (match r {
            Some(s) => Some(s@),
            None => None,
        }) == as_text(json_of(*v)),
{
    v.as_str()
}

/// `Value::as_array`.
#[verifier::external_body]
pub(crate) fn to_list<'a>(v: &'a Value) -> (r: Option<&'a Vec<Value>>)
    ensures
        (match r {
            Some(a) => Some(json_all(a@)),
            None => None,
        }) == as_list(json_of(*v)),
{
    v.as_array()
}

/// `Value::as_f64`, given as a bit pattern: an integer as the double nearest to
/// it, a double as it is. The doubles of a value are finite.
#[verifier::external_body]
pub(crate) fn to_bits(v: &Value) -> (r: Option<u64>)
    ensures
        r == as_bits(json_of(*v)),
        r matches Some(b) ==> double::finite(b),
{
    v.as_f64().map(|x| x.to_bits())
}

/// `Clone` of a value: the same document.
#[verifier::external_body]
pub(crate) fn copy(v: &Value) -> (r: Value)
    ensures
        json_of(r) == json_of(*v),
{
    v.clone()
}

// ---------------------------------------------------------------------------
// building values
// ---------------------------------------------------------------------------

/// `Value::Null`.
#[verifier::external_body]
pub(crate) fn null() -> (r: Value)
    ensures
        json_of(r) == Json::Null,
{
    Value::Null
}

/// `Value::from` an `i64`.
#[verifier::external_body]
pub(crate) fn from_int(n: i64) -> (r: Value)
    ensures
        json_of(r) == whole(n as int),
{
    Value::from(n)
}

/// `Value::from` a `bool`.
#[verifier::external_body]
pub(crate) fn from_bool(b: bool) -> (r: Value)
    ensures
        json_of(r) == Json::Bool(b),
{
    Value::from(b)
}

/// `Value::from` a string.
#[verifier::external_body]
pub(crate) fn from_text(s: &str) -> (r: Value)
    ensures
        json_of(r) == Json::Text(s@),
{
    Value::from(s)
}

/// `Value::from` a list of values.
#[verifier::external_body]
pub(crate) fn from_list(v: Vec<Value>) -> (r: Value)
    ensures
        json_of(r) == Json::Array(json_all(v@)),
{
    Value::from(v)
}

/// `Value::from` what `Value::as_f64` gives: the number as a double.
#[verifier::external_body]
pub(crate) fn to_float(v: &Value) -> (r: Option<Value>)
    ensures
        (match r {
            Some(x) => Some(json_of(x)),
            None => None,
        }) == (match as_bits(json_of(*v)) {
            Some(b) => Some(Json::Number(JsonNumber::Float(b))),
            None => None,
        }),
{
    v.as_f64().map(|x| Value::from(x))
}

/// `serde_json::Map::new`: an object map without members.
#[verifier::external_body]
pub(crate) fn members() -> (r: serde_json::Map<String, Value>)
    ensures
        members_of(r) == no_members(),
{
    serde_json::Map::new()
}

/// `serde_json::Map::insert`: sets one member, in place of one with the same
/// key.
#[verifier::external_body]
pub(crate) fn put(m: &mut serde_json::Map<String, Value>, key: &str, v: Value)
    ensures
        members_of(*final(m)) == members_of(*old(m)).insert(key@, json_of(v)),
{
    m.insert(key.to_owned(), v);
}

/// `Value::Object` of an object map.
#[verifier::external_body]
pub(crate) fn object(m: serde_json::Map<String, Value>) -> (r: Value)
    ensures
        json_of(r) == Json::Object(members_of(m)),
{
    Value::Object(m)
}

/// An integer, or null.
pub open spec fn int_or_null(n: Option<i64>) -> Json {
    match n {
        Some(x) => whole(x as int),
        None => Json::Null,
    }
}

pub fn from_int_option(n: Option<i64>) -> (r: Value)
    ensures
        json_of(r) == int_or_null(n),
{
    match n {
        Some(x) => from_int(x),
        None => null(),
    }
}

// ---------------------------------------------------------------------------
// text
// ---------------------------------------------------------------------------

/// The document that `serde_json::from_str` reads in a text, if it accepts it.
pub uninterp spec fn json_parsed(s: Seq<char>) -> Option<Json>;

/// `serde_json::from_str` into a value.
#[verifier::external_body]
pub(crate) fn parse(s: &str) -> (r: Result<Value, serde_json::Error>)
    ensures
        (match r {
            Ok(v) => Some(json_of(v)),
            Err(_) => None,
        }) == json_parsed(s@),
{
    serde_json::from_str(s)
}

/// The document that `serde_json::from_slice` reads in bytes, if it accepts
/// them.
pub uninterp spec fn json_parsed_bytes(s: Seq<u8>) -> Option<Json>;

/// `serde_json::from_slice` into a value.
#[verifier::external_body]
pub(crate) fn parse_bytes(s: &[u8]) -> (r: Result<Value, serde_json::Error>)
    ensures
        (match r {
            Ok(v) => Some(json_of(v)),
            Err(_) => None,
        }) == json_parsed_bytes(s@),
{
    serde_json::from_slice(s)
}

/// The compact text of a document.
pub uninterp spec fn json_text(j: Json) -> Seq<char>;

/// `Display` of a value: its compact text. Object members come in the order of
/// their keys, so the text is a function of the document.
#[verifier::external_body]
pub(crate) fn print(v: &Value) -> (r: String)
    ensures
        r@ == json_text(json_of(*v)),
{
    v.to_string()
}

/// The indented text of a document.
pub uninterp spec fn json_pretty(j: Json) -> Seq<char>;

/// `serde_json::to_string_pretty` of a value. It fails only where a `Serialize`
/// implementation does, or on a map with keys that are not strings, so not on a
/// value.
#[verifier::external_body]
pub(crate) fn print_pretty(v: &Value) -> (r: Result<String, serde_json::Error>)
    ensures
        r is Ok,
        r matches Ok(s) ==> s@ == json_pretty(json_of(*v)),
{
    serde_json::to_string_pretty(v)
}

/// The compact text of a document, in bytes.
pub uninterp spec fn json_bytes(j: Json) -> Seq<u8>;

/// `serde_json::to_vec` of a value. It fails only where a `Serialize`
/// implementation does, or on a map with keys that are not strings, so not on a
/// value.
#[verifier::external_body]
pub(crate) fn print_bytes(v: &Value) -> (r: Result<Vec<u8>, serde_json::Error>)
    ensures
        r is Ok,
        r matches Ok(b) ==> b@ == json_bytes(json_of(*v)),
{
    serde_json::to_vec(v)
}

// ---------------------------------------------------------------------------
// lenient numbers
// ---------------------------------------------------------------------------

/// The double that `str::parse` reads in a text, as a bit pattern.
pub uninterp spec fn parsed_double(s: Seq<char>) -> Option<u64>;

/// `str::parse` into the number type of `Value::as_f64`, given as a bit
/// pattern. Which pattern stands for a text that is not a number, such as `NaN`,
/// is not stated, only that it is one of those.
#[verifier::external_body]
pub(crate) fn parse_double(s: &str) -> (r: Option<u64>)
    ensures
        double::same_double(r, parsed_double(s@)),
{
    Value::Null.as_f64().or_else(|| s.parse().ok()).map(|x| x.to_bits())
}

/// The JSON form of a double: a number where it is finite, else null.
pub open spec fn double_json(b: u64) -> Json {
    if double::finite(b) {
        Json::Number(JsonNumber::Float(b))
    } else {
        Json::Null
    }
}

/// `Value::from` the double that `str::parse` reads in a text: a number where
/// it is finite, else null.
#[verifier::external_body]
pub(crate) fn parse_float(s: &str) -> (r: Option<Value>)
    ensures
        (match r {
            Some(x) => Some(json_of(x)),
            None => None,
        }) == (match parsed_double(s@) {
            Some(b) => Some(double_json(b)),
            None => None,
        }),
{
    Value::Null.as_f64().or_else(|| s.parse().ok()).map(|x| Value::from(x))
}

/// An integer read leniently: an integer as it is, another number without its
/// fraction, `true` as 1 and `false` as 0, a text that is an integer.
pub open spec fn number_i(j: Json) -> Option<i64> {
    match as_int(j) {
        Some(n) => Some(n),
        None => match as_bits(j) {
            Some(b) => Some(double::truncated_of(b)),
            None => match j {
                Json::Bool(b) => Some(
                    if b {
                        1
                    } else {
                        0
                    },
                ),
                Json::Text(s) => text::parsed_i64(s),
                _ => None,
            },
        },
    }
}

pub fn num_i(v: &Value) -> (r: Option<i64>)
    ensures
        r == number_i(json_of(*v)),
{
    if let Some(n) = to_int(v) {
        return Some(n);
    }
    if let Some(b) = to_bits(v) {
        return Some(double::truncated(b));
    }
    if let Some(b) = to_bool(v) {
        return Some(
            if b {
                1
            } else {
                0
            },
        );
    }
    match to_text(v) {
        Some(s) => text::parse_i64(s),
        None => None,
    }
}

/// A double read leniently: a number, or a text that is one.
pub open spec fn number_f(j: Json) -> Option<u64> {
    match as_bits(j) {
        Some(b) => Some(b),
        None => match j {
            Json::Text(s) => double::settled(parsed_double(s)),
            _ => None,
        },
    }
}

/// A reading of the device: a double, with its JSON form.
pub struct Reading {
    bits: u64,
    json: Value,
}

impl Reading {
    #[verifier::type_invariant]
    spec fn consistent(self) -> bool {
        json_of(self.json) == double_json(self.bits)
    }

    /// The bit pattern of the double.
    pub closed spec fn view(self) -> u64 {
        self.bits
    }

    pub fn bits(&self) -> (r: u64)
        ensures
            r == self@,
    {
        self.bits
    }

    pub fn to_json(&self) -> (r: Value)
        ensures
            json_of(r) == double_json(self@),
    {
        proof {
            use_type_invariant(self);
        }
        copy(&self.json)
    }

    /// The reading that a number is.
    pub fn of_number(v: &Value) -> (r: Option<Reading>)
        ensures
            reading_bits(r) == as_bits(json_of(*v)),
    {
        match to_bits(v) {
            Some(b) => match to_float(v) {
                Some(x) => Some(Reading { bits: b, json: x }),
                None => None,
            },
            None => None,
        }
    }

    /// The reading that a number is, or a text that is one.
    pub fn of(v: &Value) -> (r: Option<Reading>)
        ensures
            reading_bits(r) == number_f(json_of(*v)),
    {
        match Reading::of_number(v) {
            Some(x) => Some(x),
            None => match to_text(v) {
                Some(s) => match double::settle(parse_double(s)) {
                    Some(b) => match parse_float(s) {
                        Some(x) => Some(Reading { bits: b, json: x }),
                        None => None,
                    },
                    None => None,
                },
                None => None,
            },
        }
    }
}

pub open spec fn reading_bits(r: Option<Reading>) -> Option<u64> {
    match r {
        Some(x) => Some(x@),
        None => None,
    }
}

/// The JSON form of an optional reading.
pub open spec fn reading_json(b: Option<u64>) -> Json {
    match b {
        Some(x) => double_json(x),
        None => Json::Null,
    }
}

pub fn from_reading_option(x: &Option<Reading>) -> (r: Value)
    ensures
        json_of(r) == reading_json(reading_bits(*x)),
{
    match x {
        Some(y) => y.to_json(),
        None => null(),
    }
}

} // verus!
