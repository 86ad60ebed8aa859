//! Key derivation: Argon2id for passphrases, HKDF-SHA256 for shared secrets.
//!
//! Both algorithms are taken from their crates. What they compute is named
//! here by functions without a body; nothing in this crate proves anything
//! about the algorithms themselves.

use vstd::prelude::*;

verus! {

/// Shortest salt that Argon2 accepts.
pub const ARGON2_MIN_SALT_LEN: usize = 8;

/// Longest password and longest salt that Argon2 accepts.
pub const ARGON2_MAX_INPUT_LEN: u64 = 0xFFFF_FFFF;

/// Longest output that one HKDF-SHA256 expansion yields: 255 blocks of 32 bytes.
pub const HKDF_MAX_OUTPUT_LEN: usize = 8160;

/// The 32-byte key that Argon2id, version 0x13, with the default work
/// parameters (19 MiB of memory, two passes, one lane) derives from
/// `password` and `salt`.
pub uninterp spec fn argon2id_key(password: Seq<u8>, salt: Seq<u8>) -> [u8; 32];

/// The first `len` bytes that HKDF-SHA256 expands from the input key
/// material `ikm`, extracted without a salt, under the label `info`.
pub uninterp spec fn hkdf_sha256(ikm: Seq<u8>, info: Seq<u8>, len: nat) -> Seq<u8>;

/// Whether Argon2 accepts a password and a salt of these lengths.
pub open spec fn argon2_accepts(password: Seq<u8>, salt: Seq<u8>) -> bool {
    &&& password.len() <= ARGON2_MAX_INPUT_LEN
    &&& ARGON2_MIN_SALT_LEN <= salt.len() <= ARGON2_MAX_INPUT_LEN
}

#[verifier::external_type_specification]
#[verifier::external_body]
pub struct ExArgon2Error(argon2::Error);

#[verifier::external_type_specification]
#[verifier::external_body]
pub struct ExHkdfInvalidLength(hkdf::InvalidLength);

/// `argon2::Argon2::hash_password_into` on the default instance, with a
/// 32-byte output buffer. Trusted: the call fails exactly when the password
/// is longer than 2^32 - 1 bytes or the salt is not between 8 and 2^32 - 1
/// bytes long, and otherwise yields the key named by [`argon2id_key`].
#[verifier::external_body]
pub(crate) fn argon2_derive_key(password: &[u8], salt: &[u8]) -> (derived: Result<
    Vec<u8>,
    argon2::Error,
>)
    ensures
        derived is Ok <==> argon2_accepts(password@, salt@),
        derived matches Ok(key) ==> key@ == argon2id_key(password@, salt@)@,
{
    let mut key = [0u8; 32];
    argon2::Argon2::default().hash_password_into(password, salt, &mut key)?;
    Ok(key.to_vec())
}

/// `hkdf::Hkdf::<Sha256>::new` without a salt, followed by `expand` into a
/// buffer of `len` bytes. Trusted: an expansion to at most 255 * 32 bytes
/// succeeds and yields the bytes named by [`hkdf_sha256`].
#[verifier::external_body]
pub(crate) fn hkdf_sha256_expand(ikm: &[u8], info: &[u8], len: usize) -> (expanded: Result<
    Vec<u8>,
    hkdf::InvalidLength,
>)
    requires
        len <= HKDF_MAX_OUTPUT_LEN,
    ensures
        expanded is Ok,
        expanded matches Ok(okm) ==> okm@ == hkdf_sha256(ikm@, info@, len as nat) && okm@.len()
            == len,
{
    let mut okm = vec![0u8; len];
    hkdf::Hkdf::<sha2::Sha256>::new(None, ikm).expand(info, &mut okm)?;
    Ok(okm)
}

} // verus!
