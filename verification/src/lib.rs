//! A small code-review worker.
//!
//! The library scans a block of source text line by line for the fixed
//! markers `TODO` and `FIXME` and for lines longer than a hundred
//! characters, and builds an ordered list of textual findings together
//! with a one-line summary.  It also resolves the worker identifier that
//! every response carries and provides the body of the health endpoint.
//! All of it is a pure function of its inputs: the surrounding HTTP
//! server lives outside this crate and hands it plain strings.

pub mod analysis;
pub mod laws;
pub mod lines;
pub mod numbers;
pub mod scan;
