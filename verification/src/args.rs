//! The command line, once parsed.

use vstd::prelude::*;

verus! {

/// The two file names given on the command line.
#[derive(Clone, Debug, PartialEq, Eq)]
pub struct Args {
    pub input_file: String,
    pub output_file: String,
}

} // verus!
