//! The failures that a dispatch can end in.

use vstd::prelude::*;

verus! {

/// `std::io::Error`, which the dispatcher carries and never looks into.
#[verifier::external_type_specification]
#[verifier::external_body]
pub struct ExIoError(std::io::Error);

/// Why no response could be built for a file that was found.
#[derive(Debug, Clone, PartialEq, Eq)]
pub struct ConstructionError {
    pub message: String,
}

impl View for ConstructionError {
    type V = Seq<char>;

    open spec fn view(&self) -> Seq<char> {
        self.message@
    }
}

/// The one shape of failure that leaves the dispatcher.
#[derive(Debug)]
pub enum DispatchError {
    /// Resolving the request failed; the failure is kept as it came.
    Resolution(std::io::Error),
    /// A file was found, and building its response failed.
    Construction(ConstructionError),
}

/// The text of an I/O error: `ToString::to_string` of std on a
/// `std::io::Error`. Nothing is claimed of the text.
#[verifier::external_body]
fn io_error_text(error: &std::io::Error) -> String {
    error.to_string()
}

impl DispatchError {
    /// The message of the failure. For a construction failure it is the
    /// message that the failure came with, letter for letter.
    pub fn message(&self) -> (text: String)
        ensures
            self matches DispatchError::Construction(failure) ==> text@ == failure@,
    {
        match self {
            DispatchError::Resolution(error) => io_error_text(error),
            DispatchError::Construction(failure) => failure.message.clone(),
        }
    }
}

} // verus!
