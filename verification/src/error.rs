//! Errors of the password store's library code.
use vstd::prelude::*;

verus! {

/// Error raised by the store's library code.
#[derive(Debug)]
pub enum KeyringError {
    /// Encoded or encrypted data could not be read.
    Crypto { context: String },
    /// Reading or writing a file failed.
    IoError(String),
    /// The user refused or failed to authenticate.
    AuthenticationFailed { reason: String },
    /// An argument or a stored value is malformed.
    InvalidInput { context: String },
    /// An internal inconsistency.
    Internal { context: String },
}

} // verus!
