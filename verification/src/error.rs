//! The error type shared by the import surface and the I/O bridges.

use vstd::prelude::*;

verus! {

/// Errors surfaced by the library.
///
/// The native engine reports a failed import only as a null scene pointer, so
/// the user-visible error is the single coarse `InvalidScene`.  `NulError`
/// marks a string that cannot cross the C boundary because it holds an
/// interior NUL byte.  `Io` carries a caller-supplied message from a handler
/// that refused to open a path.
#[derive(Debug, PartialEq, Eq)]
pub enum AiError {
    InvalidScene,
    NulError,
    Io(String),
}

pub type AiResult<T> = Result<T, AiError>;

impl AiError {
    /// A short human-readable label for the error.
    pub fn message(&self) -> (r: &'static str)
        ensures
            (*self matches AiError::InvalidScene) ==> r@ == "scene is invalid or failed to import"@,
            (*self matches AiError::NulError) ==> r@ == "string holds an interior NUL byte"@,
            (*self matches AiError::Io(_)) ==> r@ == "handler failed to open the path"@,
    {
        match self {
            AiError::InvalidScene => "scene is invalid or failed to import",
            AiError::NulError => "string holds an interior NUL byte",
            AiError::Io(_) => "handler failed to open the path",
        }
    }
}

} // verus!
