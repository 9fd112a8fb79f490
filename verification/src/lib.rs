//! Extracts structured progress and curriculum data from JSON snapshots of
//! an online learning platform's API and flattens them into one CSV report.
//!
//! The pipeline is a one-shot batch job: pick the captured documents out of
//! a directory listing (`file_operations`), walk the curriculum tree into an
//! ordered, parent-linked flat table (`json_operations`), persist it as CSV
//! (`csv_utils`), then merge the independently shaped progress documents
//! into the table by derived keys (`csv_operations`), decoding the opaque
//! position tokens that hide each attempt's parent id (`decode`).
//!
//! Every function here carries a contract; the guarantees that span several
//! functions — determinism of the created table, the sibling order values,
//! the parent linkage of every non-root row, and the isolation of cell
//! updates — are stated and proved in `laws`. Only the thin wrappers around
//! the `serde_json`, `base64` and `csv` crates are trusted.

pub mod args;
pub mod error;
pub mod models;
pub mod numfmt;
pub mod strutil;
pub mod json_utils;
pub mod decode;
pub mod extractors;
pub mod json_operations;
pub mod laws;
pub mod csv_utils;
pub mod csv_operations;
pub mod file_utils;
pub mod file_operations;

use vstd::prelude::*;

verus! {

} // verus!
