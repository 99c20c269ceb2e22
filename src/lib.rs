//! Decoding of an already parsed EDID record into a line-oriented,
//! human-readable report.

pub mod base;
pub mod cea;
pub mod fields;
pub mod laws;
pub mod lines;
pub mod record;
pub mod report;
pub mod text;
