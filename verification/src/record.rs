//! The typed record for one object returned by the provider.

use vstd::prelude::*;

verus! {

/// One decoded response element: the object's optional display name and
/// designator, its catalog identifier, epoch, revolution number, and the two
/// TLE text lines. The provider's wire format carries the numeric fields as
/// strings, and so does the record; the epoch is kept as the wire text of a
/// date and time with no timezone offset.
#[derive(Debug)]
pub struct STResponse {
    pub object_name: Option<String>,
    pub international_designator: Option<String>,
    pub norad_id: String,
    pub datetime: String,
    pub revolution_number: String,
    pub line_1: String,
    pub line_2: String,
}

impl STResponse {
    /// The record's fields hold at most one line each: none of the parts that
    /// the output writer emits contains a line terminator of its own.
    pub open spec fn single_line_fields(self) -> bool {
        &&& (match self.object_name {
            Some(n) => has_no_newline(n@),
            None => true,
        })
        &&& has_no_newline(self.line_1@)
        &&& has_no_newline(self.line_2@)
    }
}

/// No character of `s` is a line terminator.
pub open spec fn has_no_newline(s: Seq<char>) -> bool {
    forall|i: int| 0 <= i < s.len() ==> s[i] != '\n'
}

} // verus!
