//! Decoding the time-service JSON body into a [`TimeRecord`].
//!
//! The body is decoded through serde_json's dynamic value. Each call made
//! here — the decode, the key lookup, the typed reads — is a function of its
//! arguments alone, so its result carries a name, and the stage's contracts
//! are exact over the names: every required field must be present with its
//! type and range, every deviation is `MalformedJson`, success is owed
//! exactly when the named reads all succeed, and the record's fields are the
//! named values verbatim.

use vstd::prelude::*;

use crate::datetime::DateTimeParts;
use crate::datetime::decompose_datetime;
use crate::datetime::decompose_spec;
use crate::datetime::lemma_missing_t_is_malformed;
use crate::errors::ParseError;
use crate::record::TimeRecord;

verus! {

/// serde_json's dynamic JSON value, carried through opaquely.
#[verifier::external_type_specification]
#[verifier::external_body]
pub struct ExValue(serde_json::Value);

/// What `serde_json::from_str::<Value>` yields on a body: the decoded
/// document, if the body is well-formed JSON.
pub uninterp spec fn json_doc(body: Seq<char>) -> Option<serde_json::Value>;

/// What `serde_json::Value::get` yields: the value at the key, if the value
/// is an object that has it.
pub uninterp spec fn json_field(v: serde_json::Value, key: Seq<char>) -> Option<serde_json::Value>;

/// What `serde_json::Value::as_str` yields: the characters, if the value is
/// a JSON string.
pub uninterp spec fn json_str(v: serde_json::Value) -> Option<Seq<char>>;

/// What `serde_json::Value::as_u64` yields: the number, if the value is an
/// unsigned integer.
pub uninterp spec fn json_u64(v: serde_json::Value) -> Option<u64>;

/// What `serde_json::Value::as_i64` yields: the number, if the value is an
/// integer that fits.
pub uninterp spec fn json_i64(v: serde_json::Value) -> Option<i64>;

/// Relies on `serde_json::from_str::<Value>`: decodes the body as one JSON
/// document, or fails; the outcome is a function of the body alone.
#[verifier::external_body]
fn decode_json(body: &str) -> (r: Option<serde_json::Value>)
    ensures
        r == json_doc(body@),
{
    serde_json::from_str::<serde_json::Value>(body).ok()
}

/// Relies on `serde_json::Value::get` with a string key: the value at that
/// key, if this value is an object that has the key.
#[verifier::external_body]
fn get_field<'a>(v: &'a serde_json::Value, key: &str) -> (r: Option<&'a serde_json::Value>)
    ensures
        r matches Some(f) ==> json_field(*v, key@) == Some(*f),
        r is None ==> json_field(*v, key@) is None,
{
    v.get(key)
}

/// Relies on `serde_json::Value::as_str`: the value as a string, if it is one.
#[verifier::external_body]
fn field_as_string(v: &serde_json::Value) -> (r: Option<String>)
    ensures
        r matches Some(s) ==> json_str(*v) == Some(s@),
        r is None ==> json_str(*v) is None,
{
    v.as_str().map(|s| s.to_owned())
}

/// Relies on `serde_json::Value::as_u64`: the value as a `u64`, if it is an
/// unsigned integer.
#[verifier::external_body]
fn field_as_u64(v: &serde_json::Value) -> (r: Option<u64>)
    ensures
        r == json_u64(*v),
{
    v.as_u64()
}

/// Relies on `serde_json::Value::as_i64`: the value as an `i64`, if it is an
/// integer that fits.
#[verifier::external_body]
fn field_as_i64(v: &serde_json::Value) -> (r: Option<i64>)
    ensures
        r == json_i64(*v),
{
    v.as_i64()
}

/// The string at `key` of the document `v`, if `v` has the key with a string.
pub open spec fn value_str(v: serde_json::Value, key: Seq<char>) -> Option<Seq<char>> {
    match json_field(v, key) {
        Some(f) => json_str(f),
        None => None,
    }
}

/// The unsigned number at `key` of the document `v`, if it fits in `u8`.
pub open spec fn value_u8(v: serde_json::Value, key: Seq<char>) -> Option<u8> {
    match json_field(v, key) {
        Some(f) => match json_u64(f) {
            Some(n) => if n <= 255 {
                Some(n as u8)
            } else {
                None
            },
            None => None,
        },
        None => None,
    }
}

/// The unsigned number at `key` of the document `v`, if it fits in `u32`.
pub open spec fn value_u32(v: serde_json::Value, key: Seq<char>) -> Option<u32> {
    match json_field(v, key) {
        Some(f) => match json_u64(f) {
            Some(n) => if n <= 0xffff_ffff {
                Some(n as u32)
            } else {
                None
            },
            None => None,
        },
        None => None,
    }
}

/// The signed number at `key` of the document `v`, if any.
pub open spec fn value_i64(v: serde_json::Value, key: Seq<char>) -> Option<i64> {
    match json_field(v, key) {
        Some(f) => json_i64(f),
        None => None,
    }
}

/// The string at `key` in the document `body` decodes to, if any.
pub open spec fn str_field_spec(body: Seq<char>, key: Seq<char>) -> Option<Seq<char>> {
    match json_doc(body) {
        Some(v) => value_str(v, key),
        None => None,
    }
}

/// The `u8` at `key` in the document `body` decodes to, if any.
pub open spec fn u8_field_spec(body: Seq<char>, key: Seq<char>) -> Option<u8> {
    match json_doc(body) {
        Some(v) => value_u8(v, key),
        None => None,
    }
}

/// The `u32` at `key` in the document `body` decodes to, if any.
pub open spec fn u32_field_spec(body: Seq<char>, key: Seq<char>) -> Option<u32> {
    match json_doc(body) {
        Some(v) => value_u32(v, key),
        None => None,
    }
}

/// The `i64` at `key` in the document `body` decodes to, if any.
pub open spec fn i64_field_spec(body: Seq<char>, key: Seq<char>) -> Option<i64> {
    match json_doc(body) {
        Some(v) => value_i64(v, key),
        None => None,
    }
}

/// Whether `body` decodes to a document holding every `TimeRecord` field
/// with its type and range.
pub open spec fn record_ok(body: Seq<char>) -> bool {
    &&& str_field_spec(body, "datetime"@) is Some
    &&& u8_field_spec(body, "day_of_week"@) is Some
    &&& u32_field_spec(body, "day_of_year"@) is Some
    &&& str_field_spec(body, "timezone"@) is Some
    &&& i64_field_spec(body, "unixtime"@) is Some
    &&& str_field_spec(body, "utc_datetime"@) is Some
    &&& str_field_spec(body, "utc_offset"@) is Some
    &&& u8_field_spec(body, "week_number"@) is Some
}

/// The `datetime` string a decodable body carries.
pub open spec fn datetime_field(body: Seq<char>) -> Seq<char> {
    str_field_spec(body, "datetime"@).unwrap()
}

/// Reads a required string field; anything else is `MalformedJson`.
fn string_field(v: &serde_json::Value, key: &str) -> (r: Result<String, ParseError>)
    ensures
        r matches Ok(s) ==> value_str(*v, key@) == Some(s@),
        r is Err <==> value_str(*v, key@) is None,
        r matches Err(e) ==> e == ParseError::MalformedJson,
{
    match get_field(v, key) {
        Some(f) => match field_as_string(f) {
            Some(s) => Ok(s),
            None => Err(ParseError::MalformedJson),
        },
        None => Err(ParseError::MalformedJson),
    }
}

/// Reads a required unsigned field that must fit in `u8`.
fn u8_field(v: &serde_json::Value, key: &str) -> (r: Result<u8, ParseError>)
    ensures
        r matches Ok(n) ==> value_u8(*v, key@) == Some(n),
        r is Err <==> value_u8(*v, key@) is None,
        r matches Err(e) ==> e == ParseError::MalformedJson,
{
    match get_field(v, key) {
        Some(f) => match field_as_u64(f) {
            Some(n) => if n <= 255 {
                Ok(n as u8)
            } else {
                Err(ParseError::MalformedJson)
            },
            None => Err(ParseError::MalformedJson),
        },
        None => Err(ParseError::MalformedJson),
    }
}

/// Reads a required unsigned field that must fit in `u32`.
fn u32_field(v: &serde_json::Value, key: &str) -> (r: Result<u32, ParseError>)
    ensures
        r matches Ok(n) ==> value_u32(*v, key@) == Some(n),
        r is Err <==> value_u32(*v, key@) is None,
        r matches Err(e) ==> e == ParseError::MalformedJson,
{
    match get_field(v, key) {
        Some(f) => match field_as_u64(f) {
            Some(n) => if n <= 0xffff_ffff {
                Ok(n as u32)
            } else {
                Err(ParseError::MalformedJson)
            },
            None => Err(ParseError::MalformedJson),
        },
        None => Err(ParseError::MalformedJson),
    }
}

/// Reads a required signed 64-bit integer field.
fn i64_field(v: &serde_json::Value, key: &str) -> (r: Result<i64, ParseError>)
    ensures
        r matches Ok(n) ==> value_i64(*v, key@) == Some(n),
        r is Err <==> value_i64(*v, key@) is None,
        r matches Err(e) ==> e == ParseError::MalformedJson,
{
    match get_field(v, key) {
        Some(f) => match field_as_i64(f) {
            Some(n) => Ok(n),
            None => Err(ParseError::MalformedJson),
        },
        None => Err(ParseError::MalformedJson),
    }
}

/// Decodes the JSON body into a `TimeRecord`. Success comes exactly when
/// the body decodes to a document holding all eight fields, each with its
/// type and range, and then every record field is the document's value
/// verbatim; any deviation is `MalformedJson`.
pub fn parse_record(body: &str) -> (r: Result<TimeRecord, ParseError>)
    ensures
        r is Ok <==> record_ok(body@),
        r matches Err(e) ==> e == ParseError::MalformedJson,
        r matches Ok(rec) ==> {
            &&& str_field_spec(body@, "datetime"@) == Some(rec.datetime@)
            &&& u8_field_spec(body@, "day_of_week"@) == Some(rec.day_of_week)
            &&& u32_field_spec(body@, "day_of_year"@) == Some(rec.day_of_year)
            &&& str_field_spec(body@, "timezone"@) == Some(rec.timezone@)
            &&& i64_field_spec(body@, "unixtime"@) == Some(rec.unixtime)
            &&& str_field_spec(body@, "utc_datetime"@) == Some(rec.utc_datetime@)
            &&& str_field_spec(body@, "utc_offset"@) == Some(rec.utc_offset@)
            &&& u8_field_spec(body@, "week_number"@) == Some(rec.week_number)
        },
{
    let v = match decode_json(body) {
        Some(v) => v,
        None => return Err(ParseError::MalformedJson),
    };
    let datetime = match string_field(&v, "datetime") {
        Ok(s) => s,
        Err(e) => return Err(e),
    };
    let day_of_week = match u8_field(&v, "day_of_week") {
        Ok(n) => n,
        Err(e) => return Err(e),
    };
    let day_of_year = match u32_field(&v, "day_of_year") {
        Ok(n) => n,
        Err(e) => return Err(e),
    };
    let timezone = match string_field(&v, "timezone") {
        Ok(s) => s,
        Err(e) => return Err(e),
    };
    let unixtime = match i64_field(&v, "unixtime") {
        Ok(n) => n,
        Err(e) => return Err(e),
    };
    let utc_datetime = match string_field(&v, "utc_datetime") {
        Ok(s) => s,
        Err(e) => return Err(e),
    };
    let utc_offset = match string_field(&v, "utc_offset") {
        Ok(s) => s,
        Err(e) => return Err(e),
    };
    let week_number = match u8_field(&v, "week_number") {
        Ok(n) => n,
        Err(e) => return Err(e),
    };
    Ok(
        (TimeRecord {
            datetime,
            day_of_week,
            day_of_year,
            timezone,
            unixtime,
            utc_datetime,
            utc_offset,
            week_number,
        }),
    )
}

/// Parses the response body: decodes it into a `TimeRecord` and requires its
/// `datetime` to decompose. Success comes exactly when the record decodes
/// and its named `datetime` decomposes; a JSON failure is `MalformedJson`,
/// and a `datetime` failure is the decomposition's own error.
pub fn parse(body: &str) -> (r: Result<TimeRecord, ParseError>)
    ensures
        r is Ok <==> (record_ok(body@) && decompose_spec(datetime_field(body@)) is Ok),
        !record_ok(body@) ==> r == Err::<TimeRecord, ParseError>(ParseError::MalformedJson),
        record_ok(body@) ==> (match decompose_spec(datetime_field(body@)) {
            Ok(_) => r is Ok,
            Err(e) => r == Err::<TimeRecord, ParseError>(e),
        }),
        r matches Ok(rec) ==> {
            &&& str_field_spec(body@, "datetime"@) == Some(rec.datetime@)
            &&& u8_field_spec(body@, "day_of_week"@) == Some(rec.day_of_week)
            &&& u32_field_spec(body@, "day_of_year"@) == Some(rec.day_of_year)
            &&& str_field_spec(body@, "timezone"@) == Some(rec.timezone@)
            &&& i64_field_spec(body@, "unixtime"@) == Some(rec.unixtime)
            &&& str_field_spec(body@, "utc_datetime"@) == Some(rec.utc_datetime@)
            &&& str_field_spec(body@, "utc_offset"@) == Some(rec.utc_offset@)
            &&& u8_field_spec(body@, "week_number"@) == Some(rec.week_number)
            &&& decompose_spec(rec.datetime@) is Ok
        },
{
    let rec = match parse_record(body) {
        Ok(rec) => rec,
        Err(e) => return Err(e),
    };
    match decompose_datetime(rec.datetime.as_str()) {
        Ok(_) => Ok(rec),
        Err(e) => Err(e),
    }
}

/// A body that does not decode to a document with a `datetime` string — in
/// particular a document that lacks the field — never yields a record.
pub proof fn lemma_missing_datetime_is_malformed(body: Seq<char>)
    ensures
        (match json_doc(body) {
            Some(v) => json_field(v, "datetime"@) is None,
            None => true,
        }) ==> !record_ok(body),
{
}

/// A body that decodes to a record whose `datetime` lacks the `"T"`
/// separator fails with `MalformedDateTime`: the pipeline hands back the
/// error value, never a panic.
pub proof fn lemma_datetime_without_t_fails(body: Seq<char>)
    ensures
        (record_ok(body) && !datetime_field(body).contains('T')) ==> decompose_spec(
            datetime_field(body),
        ) == Err::<DateTimeParts, ParseError>(ParseError::MalformedDateTime),
{
    if record_ok(body) && !datetime_field(body).contains('T') {
        lemma_missing_t_is_malformed(datetime_field(body));
    }
}

} // verus!
