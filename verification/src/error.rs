//! The errors of taking a container file apart.

use vstd::prelude::*;

verus! {

/// Why a byte buffer is not a JPNG container.
#[derive(Debug, Clone, Copy, PartialEq, Eq)]
pub enum JpngError {
    /// The buffer is too short to hold a footer and data, the footer's magic
    /// number is wrong, or the sizes it declares do not fit in the buffer.
    InvalidImage,
    /// The bytes handed to the footer parser are not exactly one footer long.
    InvalidFooterLen,
}

impl JpngError {
    /// The sentence shown to a user for this error.
    pub open spec fn spec_message(self) -> Seq<char> {
        match self {
            JpngError::InvalidImage => "Input is not a valid JPNG image."@,
            JpngError::InvalidFooterLen => "Invalid footer length given."@,
        }
    }

    /// The sentence shown to a user for this error.
    pub fn message(&self) -> (text: &'static str)
        ensures
            text@ == self.spec_message(),
    {
        match self {
            JpngError::InvalidImage => "Input is not a valid JPNG image.",
            JpngError::InvalidFooterLen => "Invalid footer length given.",
        }
    }
}

} // verus!
