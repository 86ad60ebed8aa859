//! The NIST P-256 curve: key pairs and Diffie-Hellman agreement.
//!
//! Private keys are 32-byte big-endian scalars. Public keys are SEC1 point
//! encodings; the library itself always writes the uncompressed form of 65
//! bytes. The curve arithmetic is the `p256` crate's and is only named here.

use crate::bytes::array_from_slice;
use crate::error::CryptoError;
use crate::random::draw_bytes;
use crate::secret::wipe;
use p256::elliptic_curve::sec1::ToEncodedPoint;
use vstd::prelude::*;

verus! {

/// Length in bytes of a private scalar.
pub const PRIVATE_KEY_LEN: usize = 32;

/// Length in bytes of an uncompressed SEC1 point.
pub const PUBLIC_KEY_LEN: usize = 65;

/// The first byte of an uncompressed SEC1 point, before its two coordinates.
pub const UNCOMPRESSED_TAG: u8 = 0x04;

/// How often a scalar is drawn before the generator is given up. A draw is
/// outside the valid range about once in 2^32 times.
pub const MAX_SCALAR_DRAWS: usize = 64;

/// The uncompressed SEC1 encoding of the public point that belongs to the
/// 32-byte scalar `private_key`, or `None` where the scalar is zero or not
/// below the order of the curve.
pub uninterp spec fn p256_public_key(private_key: Seq<u8>) -> Option<Seq<u8>>;

/// The uncompressed SEC1 encoding of the point that `encoded` denotes, in
/// compressed or uncompressed form, or `None` where `encoded` denotes no
/// point of the curve other than the identity.
pub uninterp spec fn p256_decode_point(encoded: Seq<u8>) -> Option<Seq<u8>>;

/// The secret that the holders of the two public keys in `parties` agree
/// on: the x-coordinate of the point that each of them computes from the
/// own scalar and the other's key. The keys are uncompressed encodings; a
/// party that agrees with itself makes a set of one.
pub uninterp spec fn p256_agreement(parties: Set<Seq<u8>>) -> [u8; 32];

/// The secret that the holder of the scalar `private_key` shares with the
/// holder of `public_key`, or `None` where either is invalid.
pub open spec fn p256_shared_secret(private_key: Seq<u8>, public_key: Seq<u8>) -> Option<
    Seq<u8>,
> {
    match (p256_public_key(private_key), p256_decode_point(public_key)) {
        (Some(own), Some(other)) => Some(p256_agreement(set![own, other])@),
        _ => None,
    }
}

/// The agreement is symmetric: two parties with valid key pairs, each using
/// the own scalar and the other's public key, arrive at the same secret.
/// This holds because the secret is named by the two public keys as a set,
/// which has no order.
pub proof fn lemma_agreement_is_symmetric(
    private_a: Seq<u8>,
    public_a: Seq<u8>,
    private_b: Seq<u8>,
    public_b: Seq<u8>,
)
    requires
        p256_public_key(private_a) == Some(public_a),
        p256_public_key(private_b) == Some(public_b),
        p256_decode_point(public_a) == Some(public_a),
        p256_decode_point(public_b) == Some(public_b),
    ensures
        p256_shared_secret(private_a, public_b) == p256_shared_secret(private_b, public_a),
        p256_shared_secret(private_a, public_b) is Some,
{
    assert(set![public_a, public_b] =~= set![public_b, public_a]);
}

#[verifier::external_type_specification]
#[verifier::external_body]
pub struct ExCurveError(p256::elliptic_curve::Error);

/// `p256::SecretKey::from_slice` followed by `public_key`, encoded without
/// compression. Trusted: the call yields the 65 bytes named by
/// [`p256_public_key`], which begin with `0x04` and decode to themselves,
/// and fails where that name is `None`.
#[verifier::external_body]
pub(crate) fn p256_public_key_of(private_key: &[u8]) -> (public_key: Result<
    Vec<u8>,
    p256::elliptic_curve::Error,
>)
    requires
        private_key@.len() == PRIVATE_KEY_LEN,
    ensures
        match public_key {
            Ok(encoded) => {
                &&& p256_public_key(private_key@) == Some(encoded@)
                &&& encoded@.len() == PUBLIC_KEY_LEN
                &&& encoded@[0] == UNCOMPRESSED_TAG
                &&& p256_decode_point(encoded@) == Some(encoded@)
            },
            Err(_) => p256_public_key(private_key@) is None,
        },
{
    let secret = p256::SecretKey::from_slice(private_key)?;
    Ok(secret.public_key().to_encoded_point(false).as_bytes().to_vec())
}

/// `p256::PublicKey::from_sec1_bytes`, encoded again without compression.
/// Trusted: the call yields the 65 bytes named by [`p256_decode_point`],
/// which begin with `0x04` and decode to themselves, and fails where that
/// name is `None`.
#[verifier::external_body]
pub(crate) fn p256_parse_public_key(encoded: &[u8]) -> (public_key: Result<
    Vec<u8>,
    p256::elliptic_curve::Error,
>)
    ensures
        match public_key {
            Ok(point) => {
                &&& p256_decode_point(encoded@) == Some(point@)
                &&& point@.len() == PUBLIC_KEY_LEN
                &&& point@[0] == UNCOMPRESSED_TAG
                &&& p256_decode_point(point@) == Some(point@)
            },
            Err(_) => p256_decode_point(encoded@) is None,
        },
{
    let public = p256::PublicKey::from_sec1_bytes(encoded)?;
    Ok(public.to_encoded_point(false).as_bytes().to_vec())
}

/// `p256::ecdh::diffie_hellman` on a private scalar and a public point given
/// as bytes. Trusted: the call succeeds exactly where the scalar has a public
/// key and the bytes decode to a point, and then yields the 32 bytes named by
/// [`p256_agreement`] for these two keys, in whichever order.
#[verifier::external_body]
pub(crate) fn p256_diffie_hellman(private_key: &[u8], public_key: &[u8]) -> (shared: Result<
    Vec<u8>,
    p256::elliptic_curve::Error,
>)
    requires
        private_key@.len() == PRIVATE_KEY_LEN,
    ensures
        shared is Ok <==> (p256_public_key(private_key@) is Some && p256_decode_point(
            public_key@,
        ) is Some),
        shared matches Ok(secret) ==> secret@ == p256_agreement(
            set![p256_public_key(private_key@)->0, p256_decode_point(public_key@)->0],
        )@,
{
    let secret = p256::SecretKey::from_slice(private_key)?;
    let public = p256::PublicKey::from_sec1_bytes(public_key)?;
    let shared = p256::ecdh::diffie_hellman(secret.to_nonzero_scalar(), public.as_affine());
    Ok(shared.raw_secret_bytes().to_vec())
}

/// Draws a fresh key pair: a private scalar and the uncompressed encoding
/// of its public key.
///
/// A draw that is no valid scalar is rejected and drawn again. Fails only
/// where the generator fails, or yields nothing valid in
/// [`MAX_SCALAR_DRAWS`] draws.
pub(crate) fn draw_key_pair() -> (pair: Result<([u8; 32], Vec<u8>), CryptoError>)
    ensures
        match pair {
            Ok(keys) => {
                &&& p256_public_key(keys.0@) == Some(keys.1@)
                &&& keys.1@.len() == PUBLIC_KEY_LEN
                &&& keys.1@[0] == UNCOMPRESSED_TAG
                &&& p256_decode_point(keys.1@) == Some(keys.1@)
            },
            Err(e) => e == CryptoError::RandomSourceFailure,
        },
{
    let mut draws: usize = 0;
    while draws < MAX_SCALAR_DRAWS
        invariant
            draws <= MAX_SCALAR_DRAWS,
        decreases MAX_SCALAR_DRAWS - draws,
    {
        let mut drawn = match draw_bytes(PRIVATE_KEY_LEN) {
            Ok(bytes) => bytes,
            Err(e) => {
                return Err(e);
            },
        };
        let public_key = p256_public_key_of(drawn.as_slice());
        let private_key: [u8; 32] = array_from_slice(drawn.as_slice());
        wipe(&mut drawn);
        match public_key {
            Ok(encoded) => {
                return Ok((private_key, encoded));
            },
            Err(_) => {},
        }
        draws += 1;
    }
    Err(CryptoError::RandomSourceFailure)
}

} // verus!
