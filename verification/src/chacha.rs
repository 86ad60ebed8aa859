//! ChaCha20-Poly1305 envelopes under a passphrase, and XChaCha20-Poly1305
//! under a raw key.

use crate::aead::{
    xchacha20_poly1305_encrypt, xchacha20_poly1305_seal, CipherSuite, EXTENDED_NONCE_LEN,
    MAX_PLAINTEXT_LEN, NONCE_LEN, TAG_LEN,
};
use crate::error::CryptoError;
use crate::random::{draw_bytes, SALT_LEN};
use crate::bytes::append_bytes;
use crate::symmetric::{
    opened_envelope, refusal_or_random_failure, refused_input, seals, MIN_ENVELOPE_LEN,
};
use vstd::prelude::*;
use vstd::string::StringSliceAdditionalSpecFns;

verus! {

/// ChaCha20-Poly1305 with Argon2id key derivation. The envelope has the
/// shape of the AES one; only the AEAD differs.
pub struct ChaChaEncryption;

impl ChaChaEncryption {
    /// Encrypts `plaintext` under `password` with a fresh salt and nonce.
    ///
    /// A password longer than Argon2 accepts, or else a plaintext longer
    /// than one nonce may seal, is refused. After that only the random
    /// generator can fail. The envelope is 51 bytes longer than the
    /// plaintext, and [`Self::decrypt`] under the same password returns the
    /// plaintext.
    pub fn encrypt(plaintext: &[u8], password: &str) -> (envelope: Result<Vec<u8>, CryptoError>)
        ensures
            envelope is Ok ==> refused_input(plaintext@, password.spec_bytes()) is None,
            envelope matches Err(e) ==> e == refusal_or_random_failure(
                refused_input(plaintext@, password.spec_bytes()),
            ),
            envelope matches Ok(bytes) ==> {
                &&& seals(CipherSuite::ChaCha20Poly1305, bytes@, plaintext@, password.spec_bytes())
                &&& bytes@.len() == 1 + SALT_LEN + NONCE_LEN + plaintext@.len() + TAG_LEN
                &&& opened_envelope(CipherSuite::ChaCha20Poly1305, bytes@, password.spec_bytes())
                    == Ok::<Seq<u8>, CryptoError>(plaintext@)
            },
    {
        crate::symmetric::encrypt(CipherSuite::ChaCha20Poly1305, plaintext, password)
    }

    /// Decrypts `encrypted_data` under `password`.
    ///
    /// The result is exactly what [`opened_envelope`] says: malformed input,
    /// a rejected salt, and a tag that does not match each have their error.
    pub fn decrypt(encrypted_data: &[u8], password: &str) -> (plaintext: Result<
        Vec<u8>,
        CryptoError,
    >)
        ensures
            match plaintext {
                Ok(bytes) => opened_envelope(
                    CipherSuite::ChaCha20Poly1305,
                    encrypted_data@,
                    password.spec_bytes(),
                ) == Ok::<Seq<u8>, CryptoError>(bytes@),
                Err(e) => opened_envelope(
                    CipherSuite::ChaCha20Poly1305,
                    encrypted_data@,
                    password.spec_bytes(),
                ) == Err::<Seq<u8>, CryptoError>(e),
            },
            encrypted_data@.len() < MIN_ENVELOPE_LEN ==> plaintext == Err::<Vec<u8>, CryptoError>(
                CryptoError::MalformedEnvelope,
            ),
    {
        crate::symmetric::decrypt(CipherSuite::ChaCha20Poly1305, encrypted_data, password)
    }
}

/// What sealing `data` under the raw key `key` with the extended nonce
/// yields: the nonce, then ciphertext and tag.
pub open spec fn sealed_extended(data: Seq<u8>, key: Seq<u8>, nonce: Seq<u8>) -> Result<
    Seq<u8>,
    CryptoError,
> {
    if key.len() != 32 {
        Err(CryptoError::InvalidKey)
    } else if data.len() > MAX_PLAINTEXT_LEN {
        Err(CryptoError::PlaintextTooLong)
    } else {
        Ok(nonce + xchacha20_poly1305_seal(key, nonce, data))
    }
}

/// Seals `data` with XChaCha20-Poly1305 under `key` and the 24-byte nonce
/// given.
pub fn seal_extended(data: &[u8], key: &[u8], nonce: &[u8]) -> (envelope: Result<
    Vec<u8>,
    CryptoError,
>)
    requires
        nonce@.len() == EXTENDED_NONCE_LEN,
    ensures
        match envelope {
            Ok(bytes) => sealed_extended(data@, key@, nonce@) == Ok::<Seq<u8>, CryptoError>(
                bytes@,
            ) && bytes@.len() == EXTENDED_NONCE_LEN + data@.len() + TAG_LEN,
            Err(e) => sealed_extended(data@, key@, nonce@) == Err::<Seq<u8>, CryptoError>(e),
        },
{
    if key.len() != 32 {
        return Err(CryptoError::InvalidKey);
    }
    if data.len() as u64 > MAX_PLAINTEXT_LEN {
        return Err(CryptoError::PlaintextTooLong);
    }
    match xchacha20_poly1305_encrypt(key, nonce, data) {
        Ok(sealed) => {
            let mut envelope: Vec<u8> = Vec::new();
            append_bytes(&mut envelope, nonce);
            append_bytes(&mut envelope, sealed.as_slice());
            Ok(envelope)
        },
        Err(_) => Err(CryptoError::PlaintextTooLong),
    }
}

/// Encrypts `data` with XChaCha20-Poly1305 under a raw key and a fresh
/// random 24-byte nonce, which leads the result.
///
/// A key that is not 32 bytes long is refused as invalid, and data of more
/// than [`MAX_PLAINTEXT_LEN`] bytes as too long. After that only the random
/// generator can fail.
pub fn encrypt(data: &[u8], key: &[u8]) -> (envelope: Result<Vec<u8>, CryptoError>)
    ensures
        envelope is Ok ==> key@.len() == 32 && data@.len() <= MAX_PLAINTEXT_LEN,
        envelope matches Err(e) ==> e == (if key@.len() != 32 {
            CryptoError::InvalidKey
        } else if data@.len() > MAX_PLAINTEXT_LEN {
            CryptoError::PlaintextTooLong
        } else {
            CryptoError::RandomSourceFailure
        }),
        envelope matches Ok(bytes) ==> {
            &&& bytes@.len() == EXTENDED_NONCE_LEN + data@.len() + TAG_LEN
            &&& sealed_extended(data@, key@, bytes@.subrange(0, EXTENDED_NONCE_LEN as int))
                == Ok::<Seq<u8>, CryptoError>(bytes@)
        },
{
    if key.len() != 32 {
        return Err(CryptoError::InvalidKey);
    }
    if data.len() as u64 > MAX_PLAINTEXT_LEN {
        return Err(CryptoError::PlaintextTooLong);
    }
    let nonce = match draw_bytes(EXTENDED_NONCE_LEN) {
        Ok(nonce) => nonce,
        Err(e) => {
            return Err(e);
        },
    };
    let envelope = seal_extended(data, key, nonce.as_slice());
    proof {
        if envelope is Ok {
            assert(envelope->Ok_0@.subrange(0, EXTENDED_NONCE_LEN as int) =~= nonce@);
        }
    }
    envelope
}

} // verus!
