//! The error taxonomy of the library.

use vstd::prelude::*;

verus! {

/// Why an operation failed.
///
/// `NotFound` covers an unknown identifier, an absent key, and an offset past
/// the end of a value. `StoreError` stands for a failure reported by the
/// key-value store. `Internal` marks an invariant violation. At the protocol
/// boundary all of these collapse to a single "no such entry" code.
#[derive(Clone, Copy, Debug, PartialEq, Eq, Structural)]
pub enum FsError {
    NotFound,
    StoreError,
    Internal,
}

} // verus!
