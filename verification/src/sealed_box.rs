//! A one-way hybrid format for senders that never decrypt: a one-time key
//! agreement on P-256, HKDF, and AES-256-GCM, laid out as
//! `[one-time public key: 65][nonce: 12][ciphertext and tag]`.

use crate::aead::{
    lemma_open_undoes_seal, opened_text, seal, sealed_text, CipherSuite, AEAD_KEY_LEN,
    MAX_PLAINTEXT_LEN, NONCE_LEN,
};
use crate::curve::{
    draw_key_pair, lemma_agreement_is_symmetric, p256_decode_point, p256_diffie_hellman,
    p256_public_key, p256_public_key_of, p256_shared_secret, PUBLIC_KEY_LEN,
};
use crate::ecc::{is_public_key, EccPublicKey};
use crate::encoding::{hex_decode, hex_decoded};
use crate::error::CryptoError;
use crate::kdf::{hkdf_sha256, hkdf_sha256_expand};
use crate::random::draw_bytes;
use crate::secret::{wipe, wipe_key};
use crate::bytes::append_bytes;
use vstd::prelude::*;
use vstd::string::StringSliceAdditionalSpecFns;

verus! {

/// What the fixed part of a box adds to the data's length.
pub const BOX_OVERHEAD: usize = 93;

/// The label that separates this derivation from every other use of HKDF.
pub open spec fn box_label() -> Seq<u8> {
    "mothrbox-ecies".spec_bytes()
}

/// The AEAD key derived from a shared secret.
pub open spec fn box_key(shared_secret: Seq<u8>) -> Seq<u8> {
    hkdf_sha256(shared_secret, box_label(), AEAD_KEY_LEN as nat)
}

/// What sealing `data` for the holder of `recipient_public_key` yields, when
/// the one-time scalar is `one_time_private_key` and the nonce is `nonce`.
pub open spec fn sealed_box(
    data: Seq<u8>,
    recipient_public_key: Seq<u8>,
    one_time_private_key: Seq<u8>,
    nonce: Seq<u8>,
) -> Result<Seq<u8>, CryptoError> {
    match (
        p256_public_key(one_time_private_key),
        p256_shared_secret(one_time_private_key, recipient_public_key),
    ) {
        (Some(one_time_public_key), Some(shared_secret)) => if data.len() > MAX_PLAINTEXT_LEN {
            Err(CryptoError::PlaintextTooLong)
        } else {
            Ok(
                one_time_public_key + nonce + sealed_text(
                    CipherSuite::Aes256Gcm,
                    box_key(shared_secret),
                    nonce,
                    data,
                ),
            )
        },
        _ => Err(CryptoError::InvalidKey),
    }
}

/// What the holder of the scalar `private_key` recovers from `sealed`: the
/// first 65 bytes are the sender's one-time key, the next 12 the nonce.
pub open spec fn opened_box(sealed: Seq<u8>, private_key: Seq<u8>) -> Option<Seq<u8>> {
    if sealed.len() < BOX_OVERHEAD {
        None
    } else {
        match p256_shared_secret(private_key, sealed.subrange(0, PUBLIC_KEY_LEN as int)) {
            Some(shared_secret) => opened_text(
                CipherSuite::Aes256Gcm,
                box_key(shared_secret),
                sealed.subrange(PUBLIC_KEY_LEN as int, PUBLIC_KEY_LEN + NONCE_LEN),
                sealed.subrange(PUBLIC_KEY_LEN + NONCE_LEN, sealed.len() as int),
            ),
            None => None,
        }
    }
}

/// The round trip: a box sealed for the holder of a key pair, with a valid
/// one-time pair, opens to the data under the recipient's scalar.
pub proof fn lemma_sealed_box_opens(
    data: Seq<u8>,
    recipient_public_key: Seq<u8>,
    recipient_private_key: Seq<u8>,
    one_time_private_key: Seq<u8>,
    nonce: Seq<u8>,
)
    requires
        nonce.len() == NONCE_LEN,
        data.len() <= MAX_PLAINTEXT_LEN,
        is_public_key(recipient_public_key),
        p256_public_key(recipient_private_key) == Some(recipient_public_key),
        p256_public_key(one_time_private_key) is Some,
        is_public_key(p256_public_key(one_time_private_key)->0),
    ensures
        sealed_box(data, recipient_public_key, one_time_private_key, nonce) is Ok,
        opened_box(
            sealed_box(data, recipient_public_key, one_time_private_key, nonce)->Ok_0,
            recipient_private_key,
        ) == Some(data),
{
    let one_time_public_key = p256_public_key(one_time_private_key)->0;
    lemma_agreement_is_symmetric(
        one_time_private_key,
        one_time_public_key,
        recipient_private_key,
        recipient_public_key,
    );
    let key = box_key(p256_shared_secret(one_time_private_key, recipient_public_key)->0);
    let text = sealed_text(CipherSuite::Aes256Gcm, key, nonce, data);
    lemma_open_undoes_seal(CipherSuite::Aes256Gcm, key, nonce, data);
    let sealed = one_time_public_key + nonce + text;
    assert(sealed.subrange(0, PUBLIC_KEY_LEN as int) =~= one_time_public_key);
    assert(sealed.subrange(PUBLIC_KEY_LEN as int, PUBLIC_KEY_LEN + NONCE_LEN) =~= nonce);
    assert(sealed.subrange(PUBLIC_KEY_LEN + NONCE_LEN, sealed.len() as int) =~= text);
}

/// Seals `data` for `recipient` with the one-time scalar and the nonce
/// given. The caller answers for both being fresh.
pub fn seal_box(
    data: &[u8],
    recipient: &EccPublicKey,
    one_time_private_key: &[u8; 32],
    nonce: &[u8],
) -> (sealed: Result<Vec<u8>, CryptoError>)
    requires
        nonce@.len() == NONCE_LEN,
    ensures
        match sealed {
            Ok(bytes) => sealed_box(data@, recipient@, one_time_private_key@, nonce@) == Ok::<
                Seq<u8>,
                CryptoError,
            >(bytes@),
            Err(e) => sealed_box(data@, recipient@, one_time_private_key@, nonce@) == Err::<
                Seq<u8>,
                CryptoError,
            >(e),
        },
        sealed is Ok <==> p256_public_key(one_time_private_key@) is Some && data@.len()
            <= MAX_PLAINTEXT_LEN,
        sealed matches Err(e) ==> e == (if p256_public_key(one_time_private_key@) is None {
            CryptoError::InvalidKey
        } else {
            CryptoError::PlaintextTooLong
        }),
        sealed matches Ok(bytes) ==> {
            &&& bytes@.len() == data@.len() + BOX_OVERHEAD
            &&& is_public_key(bytes@.subrange(0, PUBLIC_KEY_LEN as int))
            &&& forall|recipient_private_key: Seq<u8>| #[trigger]
                p256_public_key(recipient_private_key) == Some(recipient@) ==> opened_box(
                    bytes@,
                    recipient_private_key,
                ) == Some(data@)
        },
{
    let one_time_public_key = match p256_public_key_of(one_time_private_key.as_slice()) {
        Ok(key) => key,
        Err(_) => {
            return Err(CryptoError::InvalidKey);
        },
    };
    let mut shared_secret = match p256_diffie_hellman(
        one_time_private_key.as_slice(),
        recipient.as_bytes(),
    ) {
        Ok(secret) => secret,
        Err(_) => {
            return Err(CryptoError::InvalidKey);
        },
    };
    let key = hkdf_sha256_expand(
        shared_secret.as_slice(),
        "mothrbox-ecies".as_bytes(),
        AEAD_KEY_LEN,
    );
    wipe(&mut shared_secret);
    let mut key = match key {
        Ok(key) => key,
        Err(_) => {
            return Err(CryptoError::KeyDerivationFailure);
        },
    };
    let text = seal(CipherSuite::Aes256Gcm, key.as_slice(), nonce, data);
    wipe(&mut key);
    let text = match text {
        Ok(text) => text,
        Err(e) => {
            return Err(e);
        },
    };
    let mut sealed: Vec<u8> = Vec::new();
    append_bytes(&mut sealed, one_time_public_key.as_slice());
    append_bytes(&mut sealed, nonce);
    append_bytes(&mut sealed, text.as_slice());
    proof {
        assert forall|recipient_private_key: Seq<u8>| #[trigger]
            p256_public_key(recipient_private_key) == Some(
                recipient@,
            ) implies p256_shared_secret(recipient_private_key, one_time_public_key@)
            == p256_shared_secret(one_time_private_key@, recipient@) by {
            lemma_agreement_is_symmetric(
                one_time_private_key@,
                one_time_public_key@,
                recipient_private_key,
                recipient@,
            );
        }
        assert(sealed@.subrange(0, PUBLIC_KEY_LEN as int) =~= one_time_public_key@);
        assert(sealed@.subrange(PUBLIC_KEY_LEN as int, PUBLIC_KEY_LEN + NONCE_LEN) =~= nonce@);
        assert(sealed@.subrange(PUBLIC_KEY_LEN + NONCE_LEN, sealed@.len() as int) =~= text@);
    }
    Ok(sealed)
}

/// Encrypts `data` to a public key given in hexadecimal, with a fresh
/// one-time key and a fresh nonce.
///
/// A key that is not hexadecimal, or that denotes no point of the curve, is
/// refused as invalid, and data of more than [`MAX_PLAINTEXT_LEN`] bytes as
/// too long. After that only the random generator can fail. The result is
/// 93 bytes longer than the data, starts with a valid public key, and opens
/// to the data for whoever holds the scalar of the recipient's key.
pub fn encrypt_to_public_key(data: &[u8], recipient_pub_hex: &str) -> (sealed: Result<
    Vec<u8>,
    CryptoError,
>)
    ensures
        sealed is Ok ==> {
            &&& hex_decoded(recipient_pub_hex.spec_bytes()) is Some
            &&& p256_decode_point(hex_decoded(recipient_pub_hex.spec_bytes())->0) is Some
            &&& data@.len() <= MAX_PLAINTEXT_LEN
        },
        sealed matches Err(e) ==> e == (if !(hex_decoded(recipient_pub_hex.spec_bytes()) is Some
            && p256_decode_point(hex_decoded(recipient_pub_hex.spec_bytes())->0) is Some) {
            CryptoError::InvalidKey
        } else if data@.len() > MAX_PLAINTEXT_LEN {
            CryptoError::PlaintextTooLong
        } else {
            CryptoError::RandomSourceFailure
        }),
        sealed matches Ok(bytes) ==> {
            &&& bytes@.len() == data@.len() + BOX_OVERHEAD
            &&& is_public_key(bytes@.subrange(0, PUBLIC_KEY_LEN as int))
            &&& forall|recipient_private_key: Seq<u8>| #[trigger]
                p256_public_key(recipient_private_key) == p256_decode_point(
                    hex_decoded(recipient_pub_hex.spec_bytes())->0,
                ) ==> opened_box(bytes@, recipient_private_key) == Some(data@)
        },
{
    let recipient_bytes = match hex_decode(recipient_pub_hex.as_bytes()) {
        Some(bytes) => bytes,
        None => {
            return Err(CryptoError::InvalidKey);
        },
    };
    let recipient = match EccPublicKey::from_sec1_bytes(recipient_bytes.as_slice()) {
        Ok(key) => key,
        Err(e) => {
            return Err(e);
        },
    };
    if data.len() as u64 > MAX_PLAINTEXT_LEN {
        return Err(CryptoError::PlaintextTooLong);
    }
    let (mut one_time_key, _) = match draw_key_pair() {
        Ok(pair) => pair,
        Err(e) => {
            return Err(e);
        },
    };
    let sealed = match draw_bytes(NONCE_LEN) {
        Ok(nonce) => seal_box(data, &recipient, &one_time_key, nonce.as_slice()),
        Err(e) => Err(e),
    };
    wipe_key(&mut one_time_key);
    sealed
}

} // verus!
