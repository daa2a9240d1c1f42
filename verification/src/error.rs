//! Failures of generation and of finalization.

use vstd::prelude::*;
use vstd::string::StringExecFns;

verus! {

/// The one way in which generation fails: the input is not a record with
/// named fields. Nothing is generated for such an input.
#[derive(Clone, Copy, Debug, PartialEq, Eq, Structural)]
pub enum GenerationError {
    /// The definition is a tuple struct, a unit struct, an enum or a union.
    UnsupportedShape,
}

/// The one way in which finalizing a builder fails.
#[derive(Clone, Copy, Debug, PartialEq, Eq, Structural)]
pub enum BuildError {
    /// A required slot was still empty. Which one is not recorded.
    MissingField,
}

impl BuildError {
    /// The text that every finalization failure carries.
    pub open spec fn spec_message(self) -> Seq<char> {
        "missing field"@
    }

    /// The human-readable message of the failure.
    pub fn message(&self) -> (text: String)
        ensures
            text@ == self.spec_message(),
    {
        String::from_str("missing field")
    }
}

} // verus!
