//! HMAC-SHA256, computed and checked by the `hmac` crate.

use hmac::Mac;
use vstd::prelude::*;

verus! {

/// Length in bytes of an HMAC-SHA256 tag.
pub const MAC_LEN: usize = 32;

/// The HMAC-SHA256 tag of `message` under `key`.
pub uninterp spec fn hmac_sha256(key: Seq<u8>, message: Seq<u8>) -> [u8; 32];

#[verifier::external_type_specification]
#[verifier::external_body]
pub struct ExInvalidLength(hmac::digest::InvalidLength);

/// `Mac::new_from_slice`, `update` and `finalize` of `hmac::Hmac<Sha256>`.
/// Trusted: HMAC takes a key of any length, so the call succeeds, and it
/// yields the 32 bytes named by [`hmac_sha256`].
#[verifier::external_body]
pub(crate) fn hmac_sha256_tag(key: &[u8], message: &[u8]) -> (tag: Result<
    Vec<u8>,
    hmac::digest::InvalidLength,
>)
    ensures
        tag is Ok,
        tag matches Ok(bytes) ==> bytes@ == hmac_sha256(key@, message@)@,
{
    let mut mac = hmac::Hmac::<sha2::Sha256>::new_from_slice(key)?;
    mac.update(message);
    Ok(mac.finalize().into_bytes().to_vec())
}

/// `Mac::verify_slice` of `hmac::Hmac<Sha256>`, which compares in constant
/// time. Trusted: the check passes exactly where `tag` is the tag named by
/// [`hmac_sha256`].
#[verifier::external_body]
pub(crate) fn hmac_sha256_verify(key: &[u8], message: &[u8], tag: &[u8]) -> (matches: bool)
    ensures
        matches == (tag@ == hmac_sha256(key@, message@)@),
{
    match hmac::Hmac::<sha2::Sha256>::new_from_slice(key) {
        Ok(mut mac) => {
            mac.update(message);
            mac.verify_slice(tag).is_ok()
        },
        Err(_) => false,
    }
}

} // verus!
