//! The validated configuration for one run: credentials, the catalog
//! identifiers to fetch, connection parameters, and the output location.

use vstd::prelude::*;

verus! {

/// One run's settings, created once from configuration and never mutated
/// after load. The output path is the directory and filename joined; the
/// connection values are handed opaquely to the network client.
#[derive(Debug, Clone)]
pub struct Settings {
    pub username: String,
    pub password: String,
    pub norad_ids: Vec<u32>,
    pub connection_timeout: u32,
    pub connection_read_timeout: u32,
    pub connection_retries: u8,
    pub output_filename: String,
    pub output_directory: String,
}

impl Settings {
    /// Settings are well-formed when they name at least one catalog
    /// identifier and every identifier is positive.
    pub open spec fn wf(&self) -> bool {
        &&& self.norad_ids@.len() > 0
        &&& forall|i: int| 0 <= i < self.norad_ids@.len() ==> self.norad_ids@[i] > 0
    }

    /// Whether the settings are well-formed.
    pub fn is_valid(&self) -> (r: bool)
        ensures
            r == self.wf(),
    {
        if self.norad_ids.len() == 0 {
            return false;
        }
        let mut i: usize = 0;
        while i < self.norad_ids.len()
            invariant
                i <= self.norad_ids@.len(),
                forall|j: int| 0 <= j < i ==> self.norad_ids@[j] > 0,
            decreases self.norad_ids@.len() - i,
        {
            if self.norad_ids[i] == 0 {
                return false;
            }
            i += 1;
        }
        true
    }
}

} // verus!
