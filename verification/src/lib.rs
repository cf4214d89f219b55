//! Retrieval pipeline for Two-Line Element (TLE) orbital data.
//!
//! The library holds the verified core of the pipeline: building the
//! authenticated query for a list of catalog identifiers, decoding the
//! provider's JSON response into typed records, and rendering those
//! records into the fixed three-line-per-object output text.

pub mod decode;
pub mod loglevel;
pub mod query;
pub mod record;
pub mod render;
pub mod settings;
pub mod trusted;
