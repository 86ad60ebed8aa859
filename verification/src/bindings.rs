//! Entry points for front ends that hold keys as plain byte buffers.

use crate::curve::{
    p256_decode_point, p256_public_key, PRIVATE_KEY_LEN, PUBLIC_KEY_LEN,
};
use crate::ecc::{
    hybrid_parts, is_public_key, opened_hybrid, sealed_hybrid, ECCEncryption, EccPublicKey,
    HYBRID_OVERHEAD,
};
use crate::error::CryptoError;
use crate::secret::wipe_key;
use crate::bytes::{append_bytes, array_from_slice};
use vstd::prelude::*;

verus! {

/// A key pair as two byte buffers.
pub struct KeyPairResult {
    private: Vec<u8>,
    public: Vec<u8>,
}

impl KeyPairResult {
    /// The bytes of the private scalar.
    pub closed spec fn private_bytes(&self) -> Seq<u8> {
        self.private@
    }

    /// The bytes of the public key.
    pub closed spec fn public_bytes(&self) -> Seq<u8> {
        self.public@
    }

    /// A copy of the private scalar.
    pub fn private_key(&self) -> (bytes: Vec<u8>)
        ensures
            bytes@ == self.private_bytes(),
    {
        let mut bytes: Vec<u8> = Vec::new();
        append_bytes(&mut bytes, self.private.as_slice());
        bytes
    }

    /// A copy of the public key.
    pub fn public_key(&self) -> (bytes: Vec<u8>)
        ensures
            bytes@ == self.public_bytes(),
    {
        let mut bytes: Vec<u8> = Vec::new();
        append_bytes(&mut bytes, self.public.as_slice());
        bytes
    }
}

/// Draws a fresh key pair: a scalar of 32 bytes and its public key as an
/// uncompressed point of 65 bytes, which begins with `0x04`.
///
/// Fails only where the random generator fails.
pub fn ecc_generate_key() -> (pair: Result<KeyPairResult, CryptoError>)
    ensures
        match pair {
            Ok(keys) => {
                &&& keys.private_bytes().len() == PRIVATE_KEY_LEN
                &&& keys.public_bytes().len() == PUBLIC_KEY_LEN
                &&& p256_public_key(keys.private_bytes()) == Some(keys.public_bytes())
                &&& is_public_key(keys.public_bytes())
            },
            Err(e) => e == CryptoError::RandomSourceFailure,
        },
{
    let (mut private_key, public_key) = match ECCEncryption::generate_keypair() {
        Ok(keys) => keys,
        Err(e) => {
            return Err(e);
        },
    };
    let mut private: Vec<u8> = Vec::new();
    append_bytes(&mut private, private_key.as_slice());
    wipe_key(&mut private_key);
    Ok(KeyPairResult { private, public: public_key.to_sec1_bytes() })
}

/// Whether the recipient's key denotes a point of the curve and the
/// sender's key is a valid scalar of 32 bytes.
pub open spec fn valid_keys(recipient_public_key: Seq<u8>, sender_private_key: Seq<u8>) -> bool {
    &&& p256_decode_point(recipient_public_key) is Some
    &&& sender_private_key.len() == PRIVATE_KEY_LEN
    &&& p256_public_key(sender_private_key) is Some
}

/// Encrypts `plaintext` for a recipient in the sender's name, with both keys
/// given as bytes.
///
/// A recipient's key that denotes no point of the curve, and a sender's key
/// that is no valid scalar of 32 bytes, are refused as invalid. After that
/// only the random generator can fail. The envelope holds the sender's
/// public key, and the recipient's scalar opens it to the plaintext.
pub fn ecc_encrypt(
    plaintext: &[u8],
    recipient_public_key_bytes: &[u8],
    sender_private_key_bytes: &[u8],
) -> (envelope: Result<Vec<u8>, CryptoError>)
    ensures
        envelope is Ok ==> valid_keys(recipient_public_key_bytes@, sender_private_key_bytes@),
        envelope matches Err(e) ==> e == (if valid_keys(
            recipient_public_key_bytes@,
            sender_private_key_bytes@,
        ) {
            CryptoError::RandomSourceFailure
        } else {
            CryptoError::InvalidKey
        }),
        envelope matches Ok(bytes) ==> {
            &&& bytes@.len() == plaintext@.len() + HYBRID_OVERHEAD
            &&& hybrid_parts(bytes@) is Some
            &&& Some(hybrid_parts(bytes@)->0.sender_public_key) == p256_public_key(
                sender_private_key_bytes@,
            )
            &&& sealed_hybrid(
                plaintext@,
                p256_decode_point(recipient_public_key_bytes@)->0,
                sender_private_key_bytes@,
                hybrid_parts(bytes@)->0.iv,
            ) == Ok::<Seq<u8>, CryptoError>(bytes@)
            &&& forall|recipient_private_key: Seq<u8>|
                recipient_private_key.len() == PRIVATE_KEY_LEN && #[trigger] p256_public_key(
                    recipient_private_key,
                ) == p256_decode_point(recipient_public_key_bytes@) ==> opened_hybrid(
                    bytes@,
                    recipient_private_key,
                ) == Ok::<Seq<u8>, CryptoError>(plaintext@)
        },
{
    let recipient = match EccPublicKey::from_sec1_bytes(recipient_public_key_bytes) {
        Ok(key) => key,
        Err(e) => {
            return Err(e);
        },
    };
    if sender_private_key_bytes.len() != PRIVATE_KEY_LEN {
        return Err(CryptoError::InvalidKey);
    }
    let mut sender_private_key = array_from_slice(sender_private_key_bytes);
    let envelope = ECCEncryption::encrypt_authenticated(plaintext, &recipient, &sender_private_key);
    wipe_key(&mut sender_private_key);
    envelope
}

/// What [`ecc_decrypt`] yields: the length of the key is looked at before
/// the envelope is.
pub open spec fn opened_with_key_bytes(envelope: Seq<u8>, private_key: Seq<u8>) -> Result<
    Seq<u8>,
    CryptoError,
> {
    if private_key.len() != PRIVATE_KEY_LEN {
        Err(CryptoError::InvalidKey)
    } else {
        opened_hybrid(envelope, private_key)
    }
}

/// Decrypts an envelope of either mode with a private key given as bytes.
///
/// A key that is not 32 bytes long is refused as invalid before the envelope
/// is looked at. Otherwise this is [`ECCEncryption::decrypt`].
pub fn ecc_decrypt(encrypted_data: &[u8], my_private_key_bytes: &[u8]) -> (plaintext: Result<
    Vec<u8>,
    CryptoError,
>)
    ensures
        match plaintext {
            Ok(bytes) => opened_with_key_bytes(encrypted_data@, my_private_key_bytes@) == Ok::<
                Seq<u8>,
                CryptoError,
            >(bytes@),
            Err(e) => opened_with_key_bytes(encrypted_data@, my_private_key_bytes@) == Err::<
                Seq<u8>,
                CryptoError,
            >(e),
        },
{
    if my_private_key_bytes.len() != PRIVATE_KEY_LEN {
        return Err(CryptoError::InvalidKey);
    }
    let mut private_key = array_from_slice(my_private_key_bytes);
    let plaintext = ECCEncryption::decrypt(encrypted_data, &private_key);
    wipe_key(&mut private_key);
    plaintext
}

} // verus!
