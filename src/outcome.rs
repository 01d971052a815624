//! What the replay of one fixture reports.

use vstd::prelude::*;

use crate::format::DataFormat;

verus! {

/// A fixture that was read back and checked successfully.
#[derive(Clone, Debug, PartialEq, Eq)]
pub struct TestSuccess {
    pub module: String,
    pub target_type: String,
    pub test_filename: String,
    pub format: DataFormat,
}

/// A fixture that could not be read back or did not check out.
#[derive(Clone, Debug, PartialEq, Eq)]
pub struct TestFailure {
    pub module: String,
    pub target_type: String,
    pub test_filename: String,
    pub source_error: String,
    pub format: DataFormat,
}

/// A fixture that was not replayed, because the library version under test
/// is older than the one it requires.
#[derive(Clone, Debug, PartialEq, Eq)]
pub struct TestSkipped {
    pub module: String,
    pub test_name: String,
}

} // verus!
