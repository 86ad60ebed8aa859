//! Fresh randomness from the operating system's generator.
//!
//! Nothing is claimed of a random value but its length: two calls on the same
//! arguments differ. Where the generator fails, the failure is reported and
//! nothing aborts.

use crate::error::CryptoError;
use rand::RngCore;
use vstd::prelude::*;

verus! {

/// Number of random bytes that a salt is made of.
pub const SALT_SEED_LEN: usize = 16;

/// Length in bytes of a salt: the text of [`SALT_SEED_LEN`] random bytes in
/// unpadded base 64.
pub const SALT_LEN: usize = 22;

/// The text that the `password-hash` crate writes for the salt made of the
/// bytes `seed`: their unpadded base-64 encoding.
pub uninterp spec fn salt_text(seed: Seq<u8>) -> Seq<u8>;

#[verifier::external_type_specification]
#[verifier::external_body]
pub struct ExRandError(rand::Error);

#[verifier::external_type_specification]
#[verifier::external_body]
pub struct ExPasswordHashError(argon2::password_hash::Error);

/// `RngCore::try_fill_bytes` of `rand::rngs::OsRng`, on a buffer of `len`
/// bytes. Trusted: where the call succeeds, the result has `len` bytes.
/// Whether it succeeds is the operating system's to decide.
#[verifier::external_body]
pub(crate) fn random_bytes(len: usize) -> (bytes: Result<Vec<u8>, rand::Error>)
    ensures
        bytes matches Ok(buffer) ==> buffer@.len() == len,
{
    let mut buffer = vec![0u8; len];
    rand::rngs::OsRng.try_fill_bytes(&mut buffer)?;
    Ok(buffer)
}

/// `SaltString::encode_b64` of the `password-hash` crate, turned into bytes.
/// Trusted: 16 bytes are encoded without fail, into the 22 characters named
/// by [`salt_text`].
#[verifier::external_body]
pub(crate) fn encode_salt(seed: &[u8]) -> (salt: Result<Vec<u8>, argon2::password_hash::Error>)
    requires
        seed@.len() == SALT_SEED_LEN,
    ensures
        salt is Ok,
        salt matches Ok(text) ==> text@ == salt_text(seed@) && text@.len() == SALT_LEN,
{
    let salt = argon2::password_hash::SaltString::encode_b64(seed)?;
    Ok(salt.as_str().as_bytes().to_vec())
}

/// Draws `len` random bytes.
pub(crate) fn draw_bytes(len: usize) -> (bytes: Result<Vec<u8>, CryptoError>)
    ensures
        match bytes {
            Ok(buffer) => buffer@.len() == len,
            Err(e) => e == CryptoError::RandomSourceFailure,
        },
{
    match random_bytes(len) {
        Ok(buffer) => Ok(buffer),
        Err(_) => Err(CryptoError::RandomSourceFailure),
    }
}

/// Draws a fresh salt: 16 random bytes, written as text.
pub(crate) fn draw_salt() -> (salt: Result<Vec<u8>, CryptoError>)
    ensures
        match salt {
            Ok(text) => text@.len() == SALT_LEN,
            Err(e) => e == CryptoError::RandomSourceFailure,
        },
{
    let seed = match draw_bytes(SALT_SEED_LEN) {
        Ok(seed) => seed,
        Err(e) => {
            return Err(e);
        },
    };
    match encode_salt(seed.as_slice()) {
        Ok(text) => Ok(text),
        Err(_) => Err(CryptoError::RandomSourceFailure),
    }
}

} // verus!
