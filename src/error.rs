//! Errors of the library.

use vstd::prelude::*;

verus! {

/// Kind of an input/output failure.
#[derive(Debug, Clone, Copy, PartialEq, Eq, Structural)]
pub enum IoErrorKind {
    /// The file does not exist.
    NotFound,
    /// The file may not be accessed.
    PermissionDenied,
    /// Any other failure.
    Other,
}

/// Errors returned by the library.
#[derive(Debug, Clone, Copy, PartialEq, Eq, Structural)]
pub enum Error {
    /// An underlying read, stat or open failed.
    IOError(IoErrorKind),
    /// The requested region of an input is not fully available.
    ShortRead,
    /// The model runtime failed.
    RuntimeError,
    /// A lock on the model runtime was poisoned.
    LockError,
    /// A tensor did not have the expected shape.
    ShapeError,
    /// The catalog or the model configuration breaks its invariants.
    ConfigError,
    /// An internal check failed.
    InvariantError,
}

/// Result type of the library.
pub type Result<T> = core::result::Result<T, Error>;

} // verus!
