//! The run's two parameters, as plain values; the surrounding binary parses
//! the command line into them.

use vstd::prelude::*;

verus! {

/// Where the captured documents live and how their names begin.
#[derive(Debug, PartialEq, Eq)]
pub struct Args {
    /// Directory path.
    pub path: String,
    /// File prefix.
    pub prefix: String,
}

} // verus!
