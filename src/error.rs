use vstd::prelude::*;

verus! {

/// Why an authentication or session operation failed.
#[derive(Clone, Copy, Debug, PartialEq, Eq, Structural)]
pub enum ErrorCode {
    /// The credential is missing or invalid, or the token is unknown or revoked.
    NotAuthenticated,
    /// A store refused or could not carry out the operation.
    DataStoreError,
}

} // verus!
