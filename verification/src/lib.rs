//! Structural-metadata inference for delimited-text (CSV-like) datasets.
//!
//! The crate infers a dataset's dialect (delimiter, quoting, header presence,
//! preamble rows), a per-column schema, and an exact or estimated record
//! count, from a bounded local sample of the data.  It covers three layers:
//! acquisition planning (how much of a local, remote or piped source to
//! examine, and the normalization of a partial download into a well-formed
//! sample), the shaping of the inference engine's whole-sample findings
//! into the schema model, and record-count estimation that reconciles the
//! sampled evidence with known totals.

pub mod download;
pub mod error;
pub mod estimate;
pub mod records;
pub mod sample;
pub mod sniff;
pub mod source;
pub mod synth;
