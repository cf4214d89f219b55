//! The boundary to the outside crates that the decoder leans on: serde_json
//! for parsing the response body into JSON values and reading them, and
//! chrono for validating the epoch timestamp. Each item here is believed,
//! not verified; everything that follows from them is.

use vstd::prelude::*;

verus! {

#[verifier::external_type_specification]
#[verifier::external_body]
pub struct ExValue(serde_json::Value);

/// The JSON values of the top-level array that `s` parses as, in array
/// order, where `s` parses as a JSON array; nothing where it does not.
pub uninterp spec fn json_elems(s: Seq<char>) -> Option<Seq<serde_json::Value>>;

/// Relies on serde_json::from_str::<Vec<Value>>: a text that is a JSON array
/// parses to its elements in order, and any other text is rejected.
#[verifier::external_body]
pub(crate) fn parse_json_array(body: &str) -> (r: Option<Vec<serde_json::Value>>)
    ensures
        match r {
            Some(vs) => json_elems(body@) == Some(vs@),
            None => json_elems(body@) is None,
        },
{
    serde_json::from_str::<Vec<serde_json::Value>>(body).ok()
}

/// The member of the JSON object `v` under `key`, where `v` is an object
/// with such a member; nothing where `v` is no object or has no such member.
pub uninterp spec fn field_of(v: serde_json::Value, key: Seq<char>) -> Option<serde_json::Value>;

/// Relies on serde_json::Value::get: indexing an object value by a string
/// key returns the member under that key, and nothing otherwise.
#[verifier::external_body]
pub(crate) fn get_field<'a>(v: &'a serde_json::Value, key: &str) -> (r: Option<
    &'a serde_json::Value,
>)
    ensures
        match r {
            Some(f) => field_of(*v, key@) == Some(*f),
            None => field_of(*v, key@) is None,
        },
{
    v.get(key)
}

/// The characters of the JSON string `v`, where `v` is a string value;
/// nothing where it is of any other kind.
pub uninterp spec fn str_of(v: serde_json::Value) -> Option<Seq<char>>;

/// Relies on serde_json::Value::as_str: a string value yields its
/// characters, and a value of any other kind yields nothing.
#[verifier::external_body]
pub(crate) fn value_as_string(v: &serde_json::Value) -> (r: Option<String>)
    ensures
        match r {
            Some(s) => str_of(*v) == Some(s@),
            None => str_of(*v) is None,
        },
{
    v.as_str().map(|s| s.to_owned())
}

/// Whether the JSON value `v` is the null value.
pub uninterp spec fn is_null_of(v: serde_json::Value) -> bool;

/// Relies on serde_json::Value::is_null: true exactly of the null value.
#[verifier::external_body]
pub(crate) fn value_is_null(v: &serde_json::Value) -> (r: bool)
    ensures
        r == is_null_of(*v),
{
    v.is_null()
}

/// Whether `s` is a well-formed epoch timestamp: a calendar date and a time
/// of day, `T`-separated, with optional fractional seconds and no timezone
/// offset.
pub uninterp spec fn is_datetime(s: Seq<char>) -> bool;

/// Relies on chrono's NaiveDateTime FromStr: it accepts exactly the
/// `year-month-dayThour:minute:second[.fraction]` texts that name a valid
/// calendar date and time, and its verdict depends on the text alone.
#[verifier::external_body]
pub(crate) fn datetime_parses(s: &str) -> (r: bool)
    ensures
        r == is_datetime(s@),
{
    s.parse::<chrono::NaiveDateTime>().is_ok()
}

} // verus!
