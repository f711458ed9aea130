//! The ways in which work on the cache can fail.

use vstd::prelude::*;

verus! {

/// Why an operation on the cache was given up.
#[derive(Clone, Copy, Debug, PartialEq, Eq, Structural)]
pub enum CacheError {
    /// Reading or writing a file, or the network, failed.
    Io,
    /// Stored or downloaded data was malformed.
    Deserialize,
    /// The cache directory is absent where an operation needs it.
    NotFound,
    /// The cache path exists but is no directory, and is left alone.
    AlreadyExists,
    /// The server answered with a status that is neither success nor "not modified".
    InvalidResponse,
}

} // verus!
