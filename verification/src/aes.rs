//! AES-256-GCM envelopes, under a passphrase or under a raw key.

use crate::aead::{CipherSuite, MAX_PLAINTEXT_LEN, NONCE_LEN, TAG_LEN};
use crate::bytes::array_from_slice;
use crate::error::CryptoError;
use crate::random::SALT_LEN;
use crate::secret::wipe_key;
use crate::symmetric::{
    opened_envelope, opened_with_key, refusal_or_random_failure, refused_input, seals,
    sealed_with_key, MIN_ENVELOPE_LEN,
};
use vstd::prelude::*;
use vstd::string::StringSliceAdditionalSpecFns;

verus! {

/// AES-256-GCM with Argon2id key derivation.
pub struct AESEncryption;

impl AESEncryption {
    /// Encrypts `plaintext` under `password` with a fresh salt and nonce.
    ///
    /// A password longer than Argon2 accepts, or else a plaintext longer
    /// than one nonce may seal, is refused. After that only the random
    /// generator can fail. The envelope is 51 bytes longer than the
    /// plaintext, and [`Self::decrypt`] under the same password returns the
    /// plaintext.
    pub fn encrypt(plaintext: &[u8], password: &str) -> (envelope: Result<Vec<u8>, CryptoError>)
        ensures
            envelope is Ok ==> refused_input(plaintext@, password.spec_bytes()) is None,
            envelope matches Err(e) ==> e == refusal_or_random_failure(
                refused_input(plaintext@, password.spec_bytes()),
            ),
            envelope matches Ok(bytes) ==> {
                &&& seals(CipherSuite::Aes256Gcm, bytes@, plaintext@, password.spec_bytes())
                &&& bytes@.len() == 1 + SALT_LEN + NONCE_LEN + plaintext@.len() + TAG_LEN
                &&& opened_envelope(CipherSuite::Aes256Gcm, bytes@, password.spec_bytes()) == Ok::<
                    Seq<u8>,
                    CryptoError,
                >(plaintext@)
            },
    {
        crate::symmetric::encrypt(CipherSuite::Aes256Gcm, plaintext, password)
    }

    /// Decrypts `encrypted_data` under `password`.
    ///
    /// The result is exactly what [`opened_envelope`] says: malformed input,
    /// a rejected salt, and a tag that does not match each have their error.
    pub fn decrypt(encrypted_data: &[u8], password: &str) -> (plaintext: Result<
        Vec<u8>,
        CryptoError,
    >)
        ensures
            match plaintext {
                Ok(bytes) => opened_envelope(
                    CipherSuite::Aes256Gcm,
                    encrypted_data@,
                    password.spec_bytes(),
                ) == Ok::<Seq<u8>, CryptoError>(bytes@),
                Err(e) => opened_envelope(
                    CipherSuite::Aes256Gcm,
                    encrypted_data@,
                    password.spec_bytes(),
                ) == Err::<Seq<u8>, CryptoError>(e),
            },
            encrypted_data@.len() < MIN_ENVELOPE_LEN ==> plaintext == Err::<Vec<u8>, CryptoError>(
                CryptoError::MalformedEnvelope,
            ),
    {
        crate::symmetric::decrypt(CipherSuite::Aes256Gcm, encrypted_data, password)
    }

    /// A fresh random key for [`Self::encrypt_with_key`].
    ///
    /// Fails only where the random generator fails.
    pub fn generate_random_key() -> (key: Result<[u8; 32], CryptoError>)
        ensures
            key matches Err(e) ==> e == CryptoError::RandomSourceFailure,
    {
        crate::symmetric::generate_random_key()
    }

    /// Encrypts `plaintext` under the raw key `key` with a fresh nonce; the
    /// result is the nonce followed by ciphertext and tag.
    ///
    /// A plaintext longer than one nonce may seal is refused. After that
    /// only the random generator can fail.
    pub fn encrypt_with_key(plaintext: &[u8], key: &[u8; 32]) -> (envelope: Result<
        Vec<u8>,
        CryptoError,
    >)
        ensures
            envelope is Ok ==> plaintext@.len() <= MAX_PLAINTEXT_LEN,
            envelope matches Err(e) ==> e == (if plaintext@.len() > MAX_PLAINTEXT_LEN {
                CryptoError::PlaintextTooLong
            } else {
                CryptoError::RandomSourceFailure
            }),
            envelope matches Ok(bytes) ==> {
                &&& bytes@.len() == NONCE_LEN + plaintext@.len() + TAG_LEN
                &&& sealed_with_key(
                    CipherSuite::Aes256Gcm,
                    plaintext@,
                    key@,
                    bytes@.subrange(0, NONCE_LEN as int),
                ) == Ok::<Seq<u8>, CryptoError>(bytes@)
                &&& opened_with_key(CipherSuite::Aes256Gcm, bytes@, key@) == Ok::<
                    Seq<u8>,
                    CryptoError,
                >(plaintext@)
            },
    {
        crate::symmetric::encrypt_with_key(CipherSuite::Aes256Gcm, plaintext, key)
    }

    /// Decrypts a raw-key envelope under `key`.
    pub fn decrypt_with_key(encrypted_data: &[u8], key: &[u8; 32]) -> (plaintext: Result<
        Vec<u8>,
        CryptoError,
    >)
        ensures
            match plaintext {
                Ok(bytes) => opened_with_key(CipherSuite::Aes256Gcm, encrypted_data@, key@) == Ok::<
                    Seq<u8>,
                    CryptoError,
                >(bytes@),
                Err(e) => opened_with_key(CipherSuite::Aes256Gcm, encrypted_data@, key@) == Err::<
                    Seq<u8>,
                    CryptoError,
                >(e),
            },
    {
        crate::symmetric::decrypt_with_key(CipherSuite::Aes256Gcm, encrypted_data, key)
    }
}

/// Encrypts `data` under a raw key given as a slice.
///
/// A key that is not 32 bytes long is refused as invalid. Otherwise this is
/// [`AESEncryption::encrypt_with_key`].
pub fn encrypt(data: &[u8], key: &[u8]) -> (envelope: Result<Vec<u8>, CryptoError>)
    ensures
        envelope is Ok ==> key@.len() == 32 && data@.len() <= MAX_PLAINTEXT_LEN,
        envelope matches Err(e) ==> e == (if key@.len() != 32 {
            CryptoError::InvalidKey
        } else if data@.len() > MAX_PLAINTEXT_LEN {
            CryptoError::PlaintextTooLong
        } else {
            CryptoError::RandomSourceFailure
        }),
        envelope matches Ok(bytes) ==> {
            &&& bytes@.len() == NONCE_LEN + data@.len() + TAG_LEN
            &&& sealed_with_key(
                CipherSuite::Aes256Gcm,
                data@,
                key@,
                bytes@.subrange(0, NONCE_LEN as int),
            ) == Ok::<Seq<u8>, CryptoError>(bytes@)
            &&& opened_with_key(CipherSuite::Aes256Gcm, bytes@, key@) == Ok::<
                Seq<u8>,
                CryptoError,
            >(data@)
        },
{
    if key.len() != 32 {
        return Err(CryptoError::InvalidKey);
    }
    let mut key = array_from_slice(key);
    let envelope = AESEncryption::encrypt_with_key(data, &key);
    wipe_key(&mut key);
    envelope
}

} // verus!
