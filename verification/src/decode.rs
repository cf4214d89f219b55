//! Decodes the provider's JSON response body into records.
//!
//! The body must be a JSON array; each element must be an object carrying
//! the required string members `NORAD_CAT_ID`, `EPOCH`, `REV_AT_EPOCH`,
//! `TLE_LINE1` and `TLE_LINE2`, with `EPOCH` a well-formed timestamp, while
//! `OBJECT_NAME` and `OBJECT_ID` may be absent or null. Decoding is strict
//! and all-or-nothing: one ill-formed element fails the whole batch.

use vstd::prelude::*;
use crate::record::STResponse;
use crate::trusted::{
    field_of, get_field, is_datetime, is_null_of, json_elems, parse_json_array, str_of,
    value_as_string, value_is_null, datetime_parses,
};

verus! {

/// Why a response body was rejected.
#[derive(Debug, PartialEq, Eq, Structural, Clone, Copy)]
pub enum DecodeError {
    /// The body is not a JSON array.
    Syntax,
    /// An element of the array lacks a required member, or a member has the
    /// wrong kind of value.
    BadElement,
}

/// The characters of the string member of `v` under `key`: nothing where the
/// member is absent or not a string.
pub open spec fn str_field(v: serde_json::Value, key: Seq<char>) -> Option<Seq<char>> {
    match field_of(v, key) {
        Some(f) => str_of(f),
        None => None,
    }
}

/// An optional member is acceptable when it is absent, null, or a string.
pub open spec fn opt_field_ok(v: serde_json::Value, key: Seq<char>) -> bool {
    match field_of(v, key) {
        Some(f) => str_of(f) is Some || is_null_of(f),
        None => true,
    }
}

/// A response element is well-formed when every required member is present
/// as a string, its epoch is a well-formed timestamp, and its optional
/// members are absent, null or strings.
pub open spec fn elem_wf(v: serde_json::Value) -> bool {
    &&& str_field(v, "NORAD_CAT_ID"@) is Some
    &&& (match str_field(v, "EPOCH"@) {
        Some(e) => is_datetime(e),
        None => false,
    })
    &&& str_field(v, "REV_AT_EPOCH"@) is Some
    &&& str_field(v, "TLE_LINE1"@) is Some
    &&& str_field(v, "TLE_LINE2"@) is Some
    &&& opt_field_ok(v, "OBJECT_NAME"@)
    &&& opt_field_ok(v, "OBJECT_ID"@)
}

/// The record `r` carries exactly the members of the element `v`: required
/// members verbatim, optional members verbatim where present as strings and
/// absent where the element has them absent or null.
pub open spec fn rec_matches(r: STResponse, v: serde_json::Value) -> bool {
    &&& (match r.object_name {
        Some(n) => str_field(v, "OBJECT_NAME"@) == Some(n@),
        None => str_field(v, "OBJECT_NAME"@) is None,
    })
    &&& (match r.international_designator {
        Some(d) => str_field(v, "OBJECT_ID"@) == Some(d@),
        None => str_field(v, "OBJECT_ID"@) is None,
    })
    &&& Some(r.norad_id@) == str_field(v, "NORAD_CAT_ID"@)
    &&& Some(r.datetime@) == str_field(v, "EPOCH"@)
    &&& Some(r.revolution_number@) == str_field(v, "REV_AT_EPOCH"@)
    &&& Some(r.line_1@) == str_field(v, "TLE_LINE1"@)
    &&& Some(r.line_2@) == str_field(v, "TLE_LINE2"@)
}

/// Reads a required string member: the member's characters, or nothing
/// where it is absent or not a string.
fn required_field(v: &serde_json::Value, key: &str) -> (r: Option<String>)
    ensures
        match r {
            Some(s) => str_field(*v, key@) == Some(s@),
            None => str_field(*v, key@) is None,
        },
{
    match get_field(v, key) {
        Some(f) => value_as_string(f),
        None => None,
    }
}

/// Reads an optional string member: its characters where it is a string,
/// nothing where it is absent or null, and an error where it is present
/// with any other kind of value.
fn optional_field(v: &serde_json::Value, key: &str) -> (r: Result<Option<String>, DecodeError>)
    ensures
        match r {
            Ok(Some(s)) => opt_field_ok(*v, key@) && str_field(*v, key@) == Some(s@),
            Ok(None) => opt_field_ok(*v, key@) && str_field(*v, key@) is None,
            Err(e) => !opt_field_ok(*v, key@) && e == DecodeError::BadElement,
        },
{
    match get_field(v, key) {
        Some(f) => match value_as_string(f) {
            Some(s) => Ok(Some(s)),
            None => {
                if value_is_null(f) {
                    Ok(None)
                } else {
                    Err(DecodeError::BadElement)
                }
            },
        },
        None => Ok(None),
    }
}

/// Decodes one response element into a record, verbatim, or rejects it
/// exactly where it is not well-formed.
pub fn decode_element(v: &serde_json::Value) -> (r: Result<STResponse, DecodeError>)
    ensures
        match r {
            Ok(rec) => elem_wf(*v) && rec_matches(rec, *v),
            Err(e) => !elem_wf(*v) && e == DecodeError::BadElement,
        },
{
    let object_name = match optional_field(v, "OBJECT_NAME") {
        Ok(o) => o,
        Err(e) => {
            return Err(e);
        },
    };
    let international_designator = match optional_field(v, "OBJECT_ID") {
        Ok(o) => o,
        Err(e) => {
            return Err(e);
        },
    };
    let norad_id = match required_field(v, "NORAD_CAT_ID") {
        Some(s) => s,
        None => {
            return Err(DecodeError::BadElement);
        },
    };
    let datetime = match required_field(v, "EPOCH") {
        Some(s) => s,
        None => {
            return Err(DecodeError::BadElement);
        },
    };
    if !datetime_parses(datetime.as_str()) {
        return Err(DecodeError::BadElement);
    }
    let revolution_number = match required_field(v, "REV_AT_EPOCH") {
        Some(s) => s,
        None => {
            return Err(DecodeError::BadElement);
        },
    };
    let line_1 = match required_field(v, "TLE_LINE1") {
        Some(s) => s,
        None => {
            return Err(DecodeError::BadElement);
        },
    };
    let line_2 = match required_field(v, "TLE_LINE2") {
        Some(s) => s,
        None => {
            return Err(DecodeError::BadElement);
        },
    };
    Ok(
        STResponse {
            object_name,
            international_designator,
            norad_id,
            datetime,
            revolution_number,
            line_1,
            line_2,
        },
    )
}

/// Decodes a sequence of response elements into records, one for one and in
/// order, or fails on the whole batch where any element is ill-formed.
pub fn decode_elements(elems: &Vec<serde_json::Value>) -> (r: Result<Vec<STResponse>, DecodeError>)
    ensures
        match r {
            Ok(recs) => {
                &&& recs@.len() == elems@.len()
                &&& forall|i: int| 0 <= i < elems@.len() ==> elem_wf(elems@[i])
                &&& forall|i: int| 0 <= i < elems@.len() ==> rec_matches(recs@[i], elems@[i])
            },
            Err(e) => {
                &&& e == DecodeError::BadElement
                &&& exists|i: int| 0 <= i < elems@.len() && !elem_wf(elems@[i])
            },
        },
{
    let mut out: Vec<STResponse> = Vec::new();
    let mut i: usize = 0;
    while i < elems.len()
        invariant
            i <= elems@.len(),
            out@.len() == i,
            forall|j: int| 0 <= j < i ==> elem_wf(elems@[j]),
            forall|j: int| 0 <= j < i ==> rec_matches(out@[j], elems@[j]),
        decreases elems@.len() - i,
    {
        match decode_element(&elems[i]) {
            Ok(rec) => out.push(rec),
            Err(e) => {
                proof {
                    assert(0 <= i < elems@.len() && !elem_wf(elems@[i as int]));
                }
                return Err(e);
            },
        }
        i += 1;
    }
    Ok(out)
}

/// Decodes a whole response body: a JSON array of well-formed elements
/// yields their records, one for one and in order; any other body is
/// rejected, with the error saying whether the array itself or one of its
/// elements was at fault.
pub fn decode_response(body: &str) -> (r: Result<Vec<STResponse>, DecodeError>)
    ensures
        match r {
            Ok(recs) => json_elems(body@) matches Some(es) && recs@.len() == es.len() && (forall|
                i: int,
            | 0 <= i < es.len() ==> elem_wf(es[i])) && (forall|i: int|
                0 <= i < es.len() ==> rec_matches(recs@[i], es[i])),
            Err(DecodeError::Syntax) => json_elems(body@) is None,
            Err(DecodeError::BadElement) => json_elems(body@) matches Some(es) && exists|i: int|
                0 <= i < es.len() && !elem_wf(es[i]),
        },
{
    match parse_json_array(body) {
        Some(elems) => {
            let r = decode_elements(&elems);
            proof {
                assert(json_elems(body@) matches Some(es) && es == elems@);
            }
            r
        },
        None => Err(DecodeError::Syntax),
    }
}

} // verus!
