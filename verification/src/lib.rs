//! Envelope encryption for files bound for a blob store: password-based
//! authenticated encryption and elliptic-curve hybrid encryption, with the
//! wire formats of both.
//!
//! The functions of this file work on the contents of files. Reading and
//! writing the files is the caller's part.

pub mod aead;
pub mod aes;
pub mod bindings;
pub mod blob;
mod bytes;
pub mod chacha;
pub mod credentials;
pub mod curve;
pub mod digest;
pub mod ecc;
pub mod enclave;
pub mod encoding;
pub mod error;
pub mod kdf;
pub mod mac;
pub mod random;
pub mod sealed_box;
mod secret;
pub mod stream;
pub mod symmetric;
pub mod text;
pub mod walrus;

use crate::aead::{suite_named, CipherSuite, NONCE_LEN, TAG_LEN};
use crate::bytes::array_from_slice;
use crate::curve::{p256_decode_point, p256_public_key, PRIVATE_KEY_LEN};
use crate::ecc::{
    hybrid_parts, is_public_key, opened_hybrid, split_hybrid_envelope, ECCEncryption,
    EccPublicKey, HYBRID_OVERHEAD,
};
use crate::error::CryptoError;
use crate::random::SALT_LEN;
use crate::secret::wipe_key;
use crate::symmetric::{opened_envelope, refusal_or_random_failure, refused_input, seals};
use vstd::prelude::*;
use vstd::string::StringSliceAdditionalSpecFns;

verus! {

/// Encrypts the contents of a file under `password` with the suite that
/// `algorithm` names (`aes` or `chacha`).
///
/// An unknown name is refused before anything else is looked at, then a
/// password longer than Argon2 accepts, then contents longer than one nonce
/// may seal. After that only the random generator can fail, and
/// [`decrypt_file`] with the same password and name returns the contents.
pub fn encrypt_file(contents: &[u8], password: &str, algorithm: &str) -> (envelope: Result<
    Vec<u8>,
    CryptoError,
>)
    ensures
        envelope is Ok ==> suite_named(algorithm@) is Some && refused_input(
            contents@,
            password.spec_bytes(),
        ) is None,
        envelope matches Err(e) ==> e == (if suite_named(algorithm@) is None {
            CryptoError::UnknownAlgorithm
        } else {
            refusal_or_random_failure(refused_input(contents@, password.spec_bytes()))
        }),
        envelope matches Ok(bytes) ==> {
            &&& seals(suite_named(algorithm@)->0, bytes@, contents@, password.spec_bytes())
            &&& bytes@.len() == 1 + SALT_LEN + NONCE_LEN + contents@.len() + TAG_LEN
            &&& opened_envelope(suite_named(algorithm@)->0, bytes@, password.spec_bytes()) == Ok::<
                Seq<u8>,
                CryptoError,
            >(contents@)
        },
{
    match CipherSuite::from_name(algorithm) {
        Some(suite) => crate::symmetric::encrypt(suite, contents, password),
        None => Err(CryptoError::UnknownAlgorithm),
    }
}

/// What [`decrypt_file`] yields.
pub open spec fn decrypted_file(contents: Seq<u8>, password: Seq<u8>, algorithm: Seq<char>)
    -> Result<Seq<u8>, CryptoError> {
    match suite_named(algorithm) {
        Some(suite) => opened_envelope(suite, contents, password),
        None => Err(CryptoError::UnknownAlgorithm),
    }
}

/// Decrypts the contents of a file under `password` with the suite that
/// `algorithm` names (`aes` or `chacha`).
pub fn decrypt_file(contents: &[u8], password: &str, algorithm: &str) -> (plaintext: Result<
    Vec<u8>,
    CryptoError,
>)
    ensures
        match plaintext {
            Ok(bytes) => decrypted_file(contents@, password.spec_bytes(), algorithm@) == Ok::<
                Seq<u8>,
                CryptoError,
            >(bytes@),
            Err(e) => decrypted_file(contents@, password.spec_bytes(), algorithm@) == Err::<
                Seq<u8>,
                CryptoError,
            >(e),
        },
{
    match CipherSuite::from_name(algorithm) {
        Some(suite) => crate::symmetric::decrypt(suite, contents, password),
        None => Err(CryptoError::UnknownAlgorithm),
    }
}

/// Encrypts the contents of a file for the holder of a public key, given as
/// the contents of a key file: a SEC1 point. The sender stays anonymous.
///
/// A key that denotes no point of the curve is refused as invalid. After
/// that only the random generator can fail. Whoever holds the scalar of
/// that point gets the contents back from [`decrypt_file_ecc`].
pub fn encrypt_file_ecc(contents: &[u8], public_key: &[u8]) -> (envelope: Result<
    Vec<u8>,
    CryptoError,
>)
    ensures
        envelope is Ok ==> p256_decode_point(public_key@) is Some,
        envelope matches Err(e) ==> e == (if p256_decode_point(public_key@) is None {
            CryptoError::InvalidKey
        } else {
            CryptoError::RandomSourceFailure
        }),
        envelope matches Ok(bytes) ==> {
            &&& bytes@.len() == contents@.len() + HYBRID_OVERHEAD
            &&& hybrid_parts(bytes@) is Some
            &&& is_public_key(hybrid_parts(bytes@)->0.sender_public_key)
            &&& forall|recipient_private_key: Seq<u8>|
                recipient_private_key.len() == PRIVATE_KEY_LEN && #[trigger] p256_public_key(
                    recipient_private_key,
                ) == p256_decode_point(public_key@) ==> opened_hybrid(
                    bytes@,
                    recipient_private_key,
                ) == Ok::<Seq<u8>, CryptoError>(contents@)
        },
{
    match EccPublicKey::from_sec1_bytes(public_key) {
        Ok(recipient) => ECCEncryption::encrypt(contents, &recipient),
        Err(e) => Err(e),
    }
}

/// Decrypts the contents of a file with a private key, given as the
/// contents of a key file: a raw scalar of 32 bytes.
pub fn decrypt_file_ecc(contents: &[u8], private_key: &[u8]) -> (plaintext: Result<
    Vec<u8>,
    CryptoError,
>)
    ensures
        match plaintext {
            Ok(bytes) => opened_hybrid(contents@, private_key@) == Ok::<Seq<u8>, CryptoError>(
                bytes@,
            ),
            Err(e) => opened_hybrid(contents@, private_key@) == Err::<Seq<u8>, CryptoError>(e),
        },
{
    if private_key.len() != PRIVATE_KEY_LEN {
        return match split_hybrid_envelope(contents) {
            Ok(_) => Err(CryptoError::InvalidKey),
            Err(e) => Err(e),
        };
    }
    let mut private_key = array_from_slice(private_key);
    let plaintext = ECCEncryption::decrypt(contents, &private_key);
    wipe_key(&mut private_key);
    plaintext
}

} // verus!
