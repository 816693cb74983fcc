//! The failures that a caller is expected to handle.

use vstd::prelude::*;

verus! {

/// What went wrong inside the library.
#[derive(Clone, Copy, Debug, PartialEq, Eq, Structural)]
pub enum FltkErrorKind {
    /// The image does not have the format that the operation needs.
    ImageFormatError,
}

/// An error returned to the caller. Misuse of a wrapper is not among them: it
/// is ruled out by the preconditions of the operations.
#[derive(Clone, Copy, Debug, PartialEq, Eq, Structural)]
pub enum FltkError {
    /// A failure of the library's own making, with its kind.
    Internal(FltkErrorKind),
}

} // verus!
