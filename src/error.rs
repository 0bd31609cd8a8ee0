//! The library's error type.

use vstd::prelude::*;

verus! {

/// Why a vault operation failed.
#[derive(Debug, Clone, Copy, PartialEq, Eq, Structural)]
pub enum VaultError {
    /// The key derivation does not accept the passphrase or the salt.
    Configuration,
    /// The passphrase does not unlock the vault; no further detail is given.
    AuthenticationFailed,
    /// A stored field does not decrypt under the session's key.
    DecryptionFailed,
    /// A plaintext is too long to be encrypted.
    EncryptionFailed,
}

} // verus!
