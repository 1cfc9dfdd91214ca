//! Why a directory operation was rejected.

use vstd::prelude::*;

verus! {

/// Errors of the directory operations.
#[derive(Debug, PartialEq, Eq, Copy, Clone, Structural)]
pub enum Error {
    /// An input is invalid.
    InvalidInput,
    /// There is an arithmetic overflow.
    Overflow,
    /// The service is not found.
    ServiceNotFound,
    /// The caller is not authorized to update the service.
    Unauthorized,
}

} // verus!
