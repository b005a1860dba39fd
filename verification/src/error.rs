//! The ways in which a renewal run ends without a new key on disk.

use vstd::prelude::*;

verus! {

/// Why a renewal run stopped. Every one of them ends the run: nothing is
/// tried again.
#[derive(Clone, Copy, Debug, PartialEq, Eq, Structural)]
pub enum RenewalError {
    /// The key file is missing or cannot be read.
    StorageUnreadable,
    /// The key file was read and holds nothing.
    EmptyStoredKey,
    /// The stored text is not base64, or what it decodes to is not UTF-8.
    InvalidStoredKey,
    /// The service answered with a status outside 200..=299.
    RemoteRejected,
    /// The request could not be completed.
    RemoteUnreachable,
    /// The service answered with success, but the body holds no issued key.
    ResponseMalformed,
    /// The new stored text could not be written.
    StorageWriteFailed,
}

} // verus!
