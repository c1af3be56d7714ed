//! The ways in which an operation of the registry can fail.

use vstd::prelude::*;

verus! {

/// Why an operation was refused. A refused operation changes nothing.
#[derive(Clone, Copy, Debug, PartialEq, Eq, Structural)]
pub enum LinkError {
    /// The destination URL is empty, or a caller-supplied key is empty or
    /// longer than 64 bytes.
    InvalidInput,
    /// The key already stands for a link.
    KeyConflict,
    /// No link is filed under the key.
    NotFound,
    /// The caller is not the owner of the link.
    Unauthorized,
    /// The host could not confirm that the call comes from the identity it
    /// claims.
    AuthenticationFailed,
}

} // verus!
