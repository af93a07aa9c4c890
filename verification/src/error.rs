//! The error taxonomy shared by every operation.

use vstd::prelude::*;

verus! {

/// Why an operation was refused. Every failure is reported synchronously as
/// one of these; no operation panics on caller-supplied values.
#[derive(Clone, Copy, Debug, PartialEq, Eq, Structural)]
pub enum CryptoError {
    /// A fixed-size argument (key, nonce, public key, signature, key-pair
    /// encoding) does not match its required byte length.
    InvalidInputLength,
    /// A key has the right length but is structurally invalid (for example,
    /// not a decodable curve point).
    InvalidKeyEncoding,
    /// A signature has the right length but is structurally invalid.
    InvalidSignatureEncoding,
    /// The AEAD primitive refused to encrypt (the plaintext or the associated
    /// data exceeds the construction's ceiling).
    EncryptionFailed,
    /// The AEAD primitive refused to decrypt: the authentication tag does not
    /// match, or the ciphertext is malformed. No partial plaintext is returned.
    AuthenticationFailed,
    /// The requested derivation output length exceeds the construction's
    /// safe ceiling.
    DerivationLengthExceeded,
    /// A zero iteration count was requested for key stretching.
    InvalidIterationCount,
    /// The secure random source could not be read.
    EntropyUnavailable,
}

} // verus!
