//! The closed set of failure kinds that every operation of the library reports.

use vstd::prelude::*;

verus! {

/// Why an operation failed.
#[derive(Clone, Copy, Debug, PartialEq, Eq, Structural)]
pub enum CryptoError {
    /// The input is shorter than the format's minimum, or a length field in
    /// it points past the end of the buffer.
    MalformedEnvelope,
    /// A key has the wrong length, is not a point of the curve, or is a
    /// scalar outside the valid range.
    InvalidKey,
    /// The authentication tag does not match. A wrong passphrase or key and a
    /// corrupted envelope are reported alike.
    AuthenticationFailure,
    /// The key-derivation primitive rejected its input.
    KeyDerivationFailure,
    /// The plaintext is longer than the cipher can seal under one nonce.
    PlaintextTooLong,
    /// The name of the cipher suite is not one the library knows.
    UnknownAlgorithm,
    /// The operating system's random generator reported a failure.
    RandomSourceFailure,
}

impl CryptoError {
    /// The text of the message that belongs to each kind.
    pub open spec fn message_text(self) -> Seq<char> {
        match self {
            CryptoError::MalformedEnvelope => "Encrypted data too short or malformed"@,
            CryptoError::InvalidKey => "Invalid key"@,
            CryptoError::AuthenticationFailure =>
                "Decryption failed (wrong password or key, or corrupted data)"@,
            CryptoError::KeyDerivationFailure => "Key derivation failed"@,
            CryptoError::PlaintextTooLong => "Encryption failed: plaintext too long"@,
            CryptoError::UnknownAlgorithm => "Invalid algorithm (use 'aes' or 'chacha')"@,
            CryptoError::RandomSourceFailure => "Random generator failed"@,
        }
    }

    /// A human-readable description, for front ends that report errors as text.
    pub fn message(&self) -> (text: String)
        ensures
            text@ == self.message_text(),
    {
        let text: &str = match self {
            CryptoError::MalformedEnvelope => "Encrypted data too short or malformed",
            CryptoError::InvalidKey => "Invalid key",
            CryptoError::AuthenticationFailure =>
                "Decryption failed (wrong password or key, or corrupted data)",
            CryptoError::KeyDerivationFailure => "Key derivation failed",
            CryptoError::PlaintextTooLong => "Encryption failed: plaintext too long",
            CryptoError::UnknownAlgorithm => "Invalid algorithm (use 'aes' or 'chacha')",
            CryptoError::RandomSourceFailure => "Random generator failed",
        };
        text.to_owned()
    }
}

} // verus!
