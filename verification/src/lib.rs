//! A pull-based, chunked adapter that exposes a sequential record-oriented
//! file format (one metadata line, sequence and quality string per record) as
//! a stream of fixed-width text rows for a host query engine.
//!
//! The lifecycle has three phases: [`schema::bind`] validates the scan
//! parameter and fixes the output shape, [`scan::init`] opens the file as a
//! record source, and [`scan::produce`] is invoked repeatedly to drain the
//! source into bounded batches until it reports an empty one.

pub mod errors;
pub mod schema;
pub mod laws;
pub mod model;
pub mod scan;
pub mod source;
