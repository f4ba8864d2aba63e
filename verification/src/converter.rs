//! The converter and its one setting.

use vstd::prelude::*;

verus! {

/// Runs conversions. A quiet converter leaves out the lines that only tell
/// of progress; warnings, errors and summaries are always given.
#[derive(Clone, Copy, Debug)]
pub struct Converter {
    pub quiet: bool,
}

impl Converter {
    /// A converter that is quiet or not.
    pub fn new(quiet: bool) -> (converter: Self)
        ensures
            converter.quiet == quiet,
    {
        Self { quiet }
    }
}

} // verus!
