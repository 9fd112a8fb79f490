//! The failures a run can end in.
//!
//! Every error aborts the whole run: the tool is a one-shot batch job with no
//! partial-success mode. File-system failures are reported by the surrounding
//! binary; the library itself only ever fails for the reasons below.

use vstd::prelude::*;

verus! {

/// Why an extraction or update pass failed.
#[derive(Debug, Clone, PartialEq, Eq)]
pub enum AppError {
    /// A document was not well-formed JSON, or a field did not hold a value of
    /// the shape the extractor needs; the payload names the document or field.
    Parse(String),
    /// A required field was absent from a source document; the payload names
    /// the field.
    MissingField(String),
    /// No file of the expected name was found; the payload names the logical
    /// file that is missing.
    MissingFile(String),
    /// An opaque position token could not be decoded into a parent reference;
    /// the payload says which step of the decoding gave out.
    Decode(String),
    /// A column update referenced a column beyond the row's width; the payload
    /// is the offending column index.
    ColumnIndex(usize),
}

/// Mathematical value of an `AppError`: the same cases with the message
/// strings replaced by their character sequences, so that specifications can
/// construct the exact error a function must return.
pub enum ErrModel {
    Parse(Seq<char>),
    MissingField(Seq<char>),
    MissingFile(Seq<char>),
    Decode(Seq<char>),
    ColumnIndex(int),
}

impl View for AppError {
    type V = ErrModel;

    open spec fn view(&self) -> ErrModel {
        match self {
            AppError::Parse(m) => ErrModel::Parse(m@),
            AppError::MissingField(m) => ErrModel::MissingField(m@),
            AppError::MissingFile(m) => ErrModel::MissingFile(m@),
            AppError::Decode(m) => ErrModel::Decode(m@),
            AppError::ColumnIndex(i) => ErrModel::ColumnIndex(*i as int),
        }
    }
}

} // verus!
