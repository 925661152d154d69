//! The error taxonomy of the harness.

use vstd::prelude::*;

verus! {

/// An error from a single backend operation.
#[derive(Clone, Copy, Debug, PartialEq, Eq, Structural)]
pub enum StoreError {
    /// An underlying storage or filesystem failure (open, put, get).
    Io,
    /// `get` was asked for a key that was never written.
    NotFound,
    /// A fetched value does not decode to exactly 8 bytes.
    DecodeError,
}

/// A backend error wrapped with the benchmark phase it aborted.
#[derive(Clone, Copy, Debug, PartialEq, Eq, Structural)]
pub enum BenchmarkError {
    /// The write phase (or opening the store for it) failed.
    WriteFailed(StoreError),
    /// The read-side traversal failed.
    ReadFailed(StoreError),
}

}
