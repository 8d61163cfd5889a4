//! What can go wrong when a prompt is confirmed, and how it is worded.

use vstd::prelude::*;
use vstd::string::*;

verus! {

/// A failed attempt to save or open a file. The editor never hands one to
/// its caller: it records the wording as a status message and goes on.
#[derive(Debug, PartialEq, Eq)]
pub enum EditorError {
    /// A prompt was confirmed with no file name in it.
    NoFileSpecified,
    /// The file system refused; the string is its description of why.
    IoError(String),
}

/// The wording for a prompt confirmed without a file name.
pub open spec fn no_file_specified_text() -> Seq<char> {
    "No file specified"@
}

/// The wording for a failed file operation with the given description.
pub open spec fn io_error_text(description: Seq<char>) -> Seq<char> {
    "IO error: "@ + description
}

impl EditorError {
    /// The wording of this error.
    pub open spec fn text(&self) -> Seq<char> {
        match self {
            EditorError::NoFileSpecified => no_file_specified_text(),
            EditorError::IoError(description) => io_error_text(description@),
        }
    }

    /// Words this error for the status line.
    pub fn message(&self) -> (text: String)
        ensures
            text@ == self.text(),
    {
        match self {
            EditorError::NoFileSpecified => String::from_str("No file specified"),
            EditorError::IoError(description) => String::from_str("IO error: ").concat(
                description.as_str(),
            ),
        }
    }
}

} // verus!
