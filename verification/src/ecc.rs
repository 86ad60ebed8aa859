//! The hybrid envelope: Diffie-Hellman on P-256, HKDF, AES-256 in counter
//! mode and HMAC-SHA256, in the wire format
//! `[key length: 2, big endian][sender public key][iv: 16][ciphertext][mac: 32]`.
//!
//! The sender's key in the envelope is a one-time key in anonymous mode and
//! the sender's long-term key in authenticated mode. The format is the same
//! and so is decryption: which of the two a key is, the caller decides.

use crate::curve::{
    draw_key_pair, lemma_agreement_is_symmetric, p256_decode_point, p256_diffie_hellman,
    p256_parse_public_key, p256_public_key, p256_public_key_of, p256_shared_secret,
    PRIVATE_KEY_LEN, PUBLIC_KEY_LEN, UNCOMPRESSED_TAG,
};
use crate::error::CryptoError;
use crate::kdf::{hkdf_sha256, hkdf_sha256_expand};
use crate::mac::{hmac_sha256, hmac_sha256_tag, hmac_sha256_verify, MAC_LEN};
use crate::random::draw_bytes;
use crate::secret::{wipe, wipe_key};
use crate::stream::{
    aes256_ctr, aes256_ctr_apply, lemma_ctr_undoes_itself, IV_LEN, STREAM_KEY_LEN,
};
use crate::bytes::{append_bytes, array_from_slice};
use vstd::prelude::*;
use vstd::slice::slice_subrange;
use vstd::string::StringSliceAdditionalSpecFns;

verus! {

/// Length in bytes of the shortest encoding of a public key: a compressed
/// SEC1 point.
pub const MIN_SENDER_KEY_LEN: usize = 33;

/// Shortest input that is taken for a hybrid envelope: the length field, a
/// key of [`MIN_SENDER_KEY_LEN`] bytes, the IV and the MAC of an empty
/// plaintext.
pub const MIN_HYBRID_ENVELOPE_LEN: usize = 2 + MIN_SENDER_KEY_LEN + IV_LEN + MAC_LEN;

/// Length in bytes of the key material derived from a shared secret: a
/// cipher key followed by a MAC key.
pub const KEY_MATERIAL_LEN: usize = 64;

/// Longest sender key whose length fits the envelope's length field.
pub const MAX_SENDER_KEY_LEN: usize = 0xFFFF;

/// What the fixed part of an envelope adds to the plaintext's length when
/// the sender's key is uncompressed.
pub const HYBRID_OVERHEAD: usize = 115;

/// The label that separates this derivation from every other use of HKDF.
pub open spec fn ecies_label() -> Seq<u8> {
    "ecies-encryption".spec_bytes()
}

/// The 64 bytes of key material derived from a shared secret.
pub open spec fn key_material(shared_secret: Seq<u8>) -> Seq<u8> {
    hkdf_sha256(shared_secret, ecies_label(), KEY_MATERIAL_LEN as nat)
}

/// The key of the stream cipher: the first half of the key material.
pub open spec fn cipher_key(shared_secret: Seq<u8>) -> Seq<u8> {
    key_material(shared_secret).subrange(0, STREAM_KEY_LEN as int)
}

/// The key of the MAC: the second half of the key material.
pub open spec fn mac_key(shared_secret: Seq<u8>) -> Seq<u8> {
    key_material(shared_secret).subrange(STREAM_KEY_LEN as int, KEY_MATERIAL_LEN as int)
}

/// What the MAC covers: the sender's key as it stands in the envelope, the
/// IV and the ciphertext.
pub open spec fn transcript(sender_public_key: Seq<u8>, iv: Seq<u8>, ciphertext: Seq<u8>) -> Seq<
    u8,
> {
    sender_public_key + iv + ciphertext
}

/// The MAC of an envelope: the HMAC of its transcript under the MAC key.
pub open spec fn envelope_mac(
    shared_secret: Seq<u8>,
    sender_public_key: Seq<u8>,
    iv: Seq<u8>,
    ciphertext: Seq<u8>,
) -> Seq<u8> {
    hmac_sha256(mac_key(shared_secret), transcript(sender_public_key, iv, ciphertext))@
}

/// Whether `bytes` is the uncompressed encoding of a point of the curve:
/// `0x04`, then both coordinates, 65 bytes in all, which decode to
/// themselves.
pub open spec fn is_public_key(bytes: Seq<u8>) -> bool {
    &&& bytes.len() == PUBLIC_KEY_LEN
    &&& bytes[0] == UNCOMPRESSED_TAG
    &&& p256_decode_point(bytes) == Some(bytes)
}

/// A public key: a point of the curve, held in uncompressed SEC1 form.
pub struct EccPublicKey {
    bytes: Vec<u8>,
}

impl View for EccPublicKey {
    type V = Seq<u8>;

    closed spec fn view(&self) -> Seq<u8> {
        self.bytes@
    }
}

impl EccPublicKey {
    #[verifier::type_invariant]
    spec fn is_point(self) -> bool {
        is_public_key(self.bytes@)
    }

    /// Decodes a public key from SEC1 bytes, compressed or uncompressed.
    ///
    /// Succeeds exactly where the bytes denote a point of the curve; the key
    /// then holds that point's uncompressed encoding.
    pub fn from_sec1_bytes(bytes: &[u8]) -> (key: Result<EccPublicKey, CryptoError>)
        ensures
            match key {
                Ok(point) => p256_decode_point(bytes@) == Some(point@) && is_public_key(point@),
                Err(e) => e == CryptoError::InvalidKey && p256_decode_point(bytes@) is None,
            },
    {
        match p256_parse_public_key(bytes) {
            Ok(point) => Ok(EccPublicKey { bytes: point }),
            Err(_) => Err(CryptoError::InvalidKey),
        }
    }

    /// The key's 65 bytes: `0x04`, then both coordinates.
    pub fn to_sec1_bytes(&self) -> (bytes: Vec<u8>)
        ensures
            bytes@ == self@,
            is_public_key(bytes@),
    {
        proof {
            use_type_invariant(self);
        }
        let mut bytes: Vec<u8> = Vec::new();
        append_bytes(&mut bytes, self.bytes.as_slice());
        bytes
    }

    /// The key's bytes, borrowed.
    pub fn as_bytes(&self) -> (bytes: &[u8])
        ensures
            bytes@ == self@,
            is_public_key(bytes@),
    {
        proof {
            use_type_invariant(self);
        }
        self.bytes.as_slice()
    }
}

/// The four fields of a hybrid envelope.
pub struct HybridParts {
    pub sender_public_key: Seq<u8>,
    pub iv: Seq<u8>,
    pub ciphertext: Seq<u8>,
    pub mac: Seq<u8>,
}

/// The fields of a hybrid envelope, borrowed from the buffer that holds it.
pub struct HybridEnvelope<'a> {
    pub sender_public_key: &'a [u8],
    pub iv: &'a [u8],
    pub ciphertext: &'a [u8],
    pub mac: &'a [u8],
}

impl<'a> View for HybridEnvelope<'a> {
    type V = HybridParts;

    open spec fn view(&self) -> HybridParts {
        HybridParts {
            sender_public_key: self.sender_public_key@,
            iv: self.iv@,
            ciphertext: self.ciphertext@,
            mac: self.mac@,
        }
    }
}

/// The bytes of the envelope that holds the four fields.
pub open spec fn hybrid_bytes(
    sender_public_key: Seq<u8>,
    iv: Seq<u8>,
    ciphertext: Seq<u8>,
    mac: Seq<u8>,
) -> Seq<u8> {
    seq![(sender_public_key.len() / 256) as u8, (sender_public_key.len() % 256) as u8]
        + sender_public_key + iv + ciphertext + mac
}

/// The fields that `envelope` holds, or `None` where it is shorter than
/// [`MIN_HYBRID_ENVELOPE_LEN`] or its key length leaves no room for the
/// key, an IV and a MAC.
pub open spec fn hybrid_parts(envelope: Seq<u8>) -> Option<HybridParts> {
    if envelope.len() < MIN_HYBRID_ENVELOPE_LEN {
        None
    } else {
        let key_end = 2 + envelope[0] as int * 256 + envelope[1] as int;
        let iv_end = key_end + IV_LEN as int;
        let mac_start = envelope.len() - MAC_LEN as int;
        if mac_start < iv_end {
            None
        } else {
            Some(
                HybridParts {
                    sender_public_key: envelope.subrange(2, key_end),
                    iv: envelope.subrange(key_end, iv_end),
                    ciphertext: envelope.subrange(iv_end, mac_start),
                    mac: envelope.subrange(mac_start, envelope.len() as int),
                },
            )
        }
    }
}

/// What sealing `plaintext` for the holder of `recipient_public_key` yields,
/// when the sender's scalar is `sender_private_key` and the IV is `iv`.
pub open spec fn sealed_hybrid(
    plaintext: Seq<u8>,
    recipient_public_key: Seq<u8>,
    sender_private_key: Seq<u8>,
    iv: Seq<u8>,
) -> Result<Seq<u8>, CryptoError> {
    match (
        p256_public_key(sender_private_key),
        p256_shared_secret(sender_private_key, recipient_public_key),
    ) {
        (Some(sender_public_key), Some(shared_secret)) => {
            let ciphertext = aes256_ctr(cipher_key(shared_secret), iv, plaintext);
            let mac = envelope_mac(shared_secret, sender_public_key, iv, ciphertext);
            Ok(hybrid_bytes(sender_public_key, iv, ciphertext, mac))
        },
        _ => Err(CryptoError::InvalidKey),
    }
}

/// What opening `envelope` with the scalar `private_key` yields. The MAC is
/// checked before anything is decrypted.
pub open spec fn opened_hybrid(envelope: Seq<u8>, private_key: Seq<u8>) -> Result<
    Seq<u8>,
    CryptoError,
> {
    match hybrid_parts(envelope) {
        None => Err(CryptoError::MalformedEnvelope),
        Some(parts) => if private_key.len() != PRIVATE_KEY_LEN {
            Err(CryptoError::InvalidKey)
        } else {
            match p256_shared_secret(private_key, parts.sender_public_key) {
                None => Err(CryptoError::InvalidKey),
                Some(shared_secret) => if envelope_mac(
                    shared_secret,
                    parts.sender_public_key,
                    parts.iv,
                    parts.ciphertext,
                ) != parts.mac {
                    Err(CryptoError::AuthenticationFailure)
                } else {
                    Ok(aes256_ctr(cipher_key(shared_secret), parts.iv, parts.ciphertext))
                },
            }
        },
    }
}

/// Parsing undoes assembling: an envelope built from a key of 33 to 65535
/// bytes, a 16-byte IV, a ciphertext and a 32-byte MAC holds exactly those
/// four fields.
pub proof fn lemma_parts_of_hybrid_bytes(
    sender_public_key: Seq<u8>,
    iv: Seq<u8>,
    ciphertext: Seq<u8>,
    mac: Seq<u8>,
)
    requires
        MIN_SENDER_KEY_LEN <= sender_public_key.len() <= MAX_SENDER_KEY_LEN,
        iv.len() == IV_LEN,
        mac.len() == MAC_LEN,
    ensures
        hybrid_parts(hybrid_bytes(sender_public_key, iv, ciphertext, mac)) == Some(
            HybridParts { sender_public_key, iv, ciphertext, mac },
        ),
        hybrid_bytes(sender_public_key, iv, ciphertext, mac).len() == 2 + sender_public_key.len()
            + IV_LEN + ciphertext.len() + MAC_LEN,
{
    let envelope = hybrid_bytes(sender_public_key, iv, ciphertext, mac);
    let n = sender_public_key.len() as int;
    assert(envelope[0] == (n / 256) as u8);
    assert(envelope[1] == (n % 256) as u8);
    assert(((n / 256) as u8) as int * 256 + ((n % 256) as u8) as int == n);
    let parts = hybrid_parts(envelope)->0;
    assert(parts.sender_public_key =~= sender_public_key);
    assert(parts.iv =~= iv);
    assert(parts.ciphertext =~= ciphertext);
    assert(parts.mac =~= mac);
}

/// Assembling undoes parsing: the fields of an envelope, put together
/// again, give the envelope back.
pub proof fn lemma_hybrid_bytes_of_parts(envelope: Seq<u8>)
    requires
        hybrid_parts(envelope) is Some,
    ensures
        ({
            let parts = hybrid_parts(envelope)->0;
            hybrid_bytes(parts.sender_public_key, parts.iv, parts.ciphertext, parts.mac)
                == envelope
        }),
{
    let parts = hybrid_parts(envelope)->0;
    let n = envelope[0] as int * 256 + envelope[1] as int;
    assert(parts.sender_public_key.len() == n);
    assert((n / 256) as u8 == envelope[0] && (n % 256) as u8 == envelope[1]);
    assert(hybrid_bytes(parts.sender_public_key, parts.iv, parts.ciphertext, parts.mac)
        =~= envelope);
}

/// No input shorter than [`MIN_HYBRID_ENVELOPE_LEN`] is opened, whatever
/// the key.
pub proof fn lemma_short_hybrid_envelope_is_malformed(envelope: Seq<u8>, private_key: Seq<u8>)
    requires
        envelope.len() < MIN_HYBRID_ENVELOPE_LEN,
    ensures
        opened_hybrid(envelope, private_key) == Err::<Seq<u8>, CryptoError>(
            CryptoError::MalformedEnvelope,
        ),
{
}

/// Plaintext is released only under a matching MAC: where an envelope is
/// opened, it is well formed, the two keys agree on a secret, and the MAC in
/// the envelope is the MAC of its transcript under the key derived from that
/// secret.
pub proof fn lemma_opened_only_under_matching_mac(envelope: Seq<u8>, private_key: Seq<u8>)
    requires
        opened_hybrid(envelope, private_key) is Ok,
    ensures
        hybrid_parts(envelope) is Some,
        p256_shared_secret(private_key, hybrid_parts(envelope)->0.sender_public_key) is Some,
        ({
            let parts = hybrid_parts(envelope)->0;
            let shared_secret = p256_shared_secret(private_key, parts.sender_public_key)->0;
            parts.mac == envelope_mac(
                shared_secret,
                parts.sender_public_key,
                parts.iv,
                parts.ciphertext,
            )
        }),
{
}

/// A well-formed envelope fails closed under any key of 32 bytes: it is
/// opened, or the key is invalid, or authentication fails. Nothing else
/// happens, and by [`lemma_opened_only_under_matching_mac`] it is opened only
/// where the MAC matches under that key.
pub proof fn lemma_wrong_key_fails_closed(envelope: Seq<u8>, private_key: Seq<u8>)
    requires
        hybrid_parts(envelope) is Some,
        private_key.len() == PRIVATE_KEY_LEN,
    ensures
        opened_hybrid(envelope, private_key) is Ok || opened_hybrid(envelope, private_key) == Err::<
            Seq<u8>,
            CryptoError,
        >(CryptoError::InvalidKey) || opened_hybrid(envelope, private_key) == Err::<
            Seq<u8>,
            CryptoError,
        >(CryptoError::AuthenticationFailure),
{
}

/// Any change to the MAC of an envelope that opens is detected: an
/// envelope of the same length that differs from it in the last 32 bytes
/// only fails authentication.
pub proof fn lemma_tampered_mac_is_rejected(
    envelope: Seq<u8>,
    tampered: Seq<u8>,
    private_key: Seq<u8>,
)
    requires
        opened_hybrid(envelope, private_key) is Ok,
        tampered.len() == envelope.len(),
        tampered != envelope,
        forall|i: int| 0 <= i < envelope.len() - MAC_LEN ==> tampered[i] == envelope[i],
    ensures
        opened_hybrid(tampered, private_key) == Err::<Seq<u8>, CryptoError>(
            CryptoError::AuthenticationFailure,
        ),
{
    let parts = hybrid_parts(envelope)->0;
    let changed = hybrid_parts(tampered)->0;
    assert(hybrid_parts(tampered) is Some);
    assert(changed.sender_public_key =~= parts.sender_public_key);
    assert(changed.iv =~= parts.iv);
    assert(changed.ciphertext =~= parts.ciphertext);
    if changed.mac == parts.mac {
        assert forall|i: int| 0 <= i < envelope.len() implies tampered[i] == envelope[i] by {
            if i >= envelope.len() - MAC_LEN {
                let k = i - (envelope.len() - MAC_LEN);
                assert(changed.mac[k] == tampered[i]);
                assert(parts.mac[k] == envelope[i]);
            }
        }
        assert(tampered =~= envelope);
    }
}

/// The round trip, in both modes: an envelope sealed for the holder of a
/// key pair, by a sender whose own key pair is valid, opens to the plaintext
/// under the recipient's scalar. Nothing but the envelope and that scalar is
/// needed. In anonymous mode the sender's pair is the one-time pair.
pub proof fn lemma_sealed_hybrid_opens(
    plaintext: Seq<u8>,
    recipient_public_key: Seq<u8>,
    recipient_private_key: Seq<u8>,
    sender_private_key: Seq<u8>,
    iv: Seq<u8>,
)
    requires
        iv.len() == IV_LEN,
        recipient_private_key.len() == PRIVATE_KEY_LEN,
        is_public_key(recipient_public_key),
        p256_public_key(recipient_private_key) == Some(recipient_public_key),
        p256_public_key(sender_private_key) is Some,
        is_public_key(p256_public_key(sender_private_key)->0),
    ensures
        sealed_hybrid(plaintext, recipient_public_key, sender_private_key, iv) is Ok,
        opened_hybrid(
            sealed_hybrid(plaintext, recipient_public_key, sender_private_key, iv)->Ok_0,
            recipient_private_key,
        ) == Ok::<Seq<u8>, CryptoError>(plaintext),
{
    let sender_public_key = p256_public_key(sender_private_key)->0;
    lemma_agreement_is_symmetric(
        sender_private_key,
        sender_public_key,
        recipient_private_key,
        recipient_public_key,
    );
    let shared_secret = p256_shared_secret(sender_private_key, recipient_public_key)->0;
    let ciphertext = aes256_ctr(cipher_key(shared_secret), iv, plaintext);
    let mac = envelope_mac(shared_secret, sender_public_key, iv, ciphertext);
    lemma_parts_of_hybrid_bytes(sender_public_key, iv, ciphertext, mac);
    lemma_ctr_undoes_itself(cipher_key(shared_secret), iv, plaintext);
}

/// Fresh draws give a fresh envelope: two envelopes differ as soon as their
/// IVs differ or their senders' public keys do, whatever the plaintexts and
/// the recipients. In anonymous mode the sender's key is the one-time key.
pub proof fn lemma_fresh_draws_fresh_hybrid_envelope(
    plaintext_a: Seq<u8>,
    plaintext_b: Seq<u8>,
    recipient_a: Seq<u8>,
    recipient_b: Seq<u8>,
    sender_private_key_a: Seq<u8>,
    sender_private_key_b: Seq<u8>,
    iv_a: Seq<u8>,
    iv_b: Seq<u8>,
)
    requires
        iv_a.len() == IV_LEN,
        iv_b.len() == IV_LEN,
        sealed_hybrid(plaintext_a, recipient_a, sender_private_key_a, iv_a) is Ok,
        sealed_hybrid(plaintext_b, recipient_b, sender_private_key_b, iv_b) is Ok,
        is_public_key(p256_public_key(sender_private_key_a)->0),
        is_public_key(p256_public_key(sender_private_key_b)->0),
        iv_a != iv_b || p256_public_key(sender_private_key_a) != p256_public_key(
            sender_private_key_b,
        ),
    ensures
        sealed_hybrid(plaintext_a, recipient_a, sender_private_key_a, iv_a) != sealed_hybrid(
            plaintext_b,
            recipient_b,
            sender_private_key_b,
            iv_b,
        ),
{
    let key_a = p256_public_key(sender_private_key_a)->0;
    let key_b = p256_public_key(sender_private_key_b)->0;
    let secret_a = p256_shared_secret(sender_private_key_a, recipient_a)->0;
    let secret_b = p256_shared_secret(sender_private_key_b, recipient_b)->0;
    let ciphertext_a = aes256_ctr(cipher_key(secret_a), iv_a, plaintext_a);
    let ciphertext_b = aes256_ctr(cipher_key(secret_b), iv_b, plaintext_b);
    lemma_parts_of_hybrid_bytes(
        key_a,
        iv_a,
        ciphertext_a,
        envelope_mac(secret_a, key_a, iv_a, ciphertext_a),
    );
    lemma_parts_of_hybrid_bytes(
        key_b,
        iv_b,
        ciphertext_b,
        envelope_mac(secret_b, key_b, iv_b, ciphertext_b),
    );
}

/// Splits `data` into the fields of a hybrid envelope, without copying.
pub fn split_hybrid_envelope<'a>(data: &'a [u8]) -> (parts: Result<
    HybridEnvelope<'a>,
    CryptoError,
>)
    ensures
        match parts {
            Ok(envelope) => hybrid_parts(data@) == Some(envelope@),
            Err(e) => e == CryptoError::MalformedEnvelope && hybrid_parts(data@) is None,
        },
{
    if data.len() < MIN_HYBRID_ENVELOPE_LEN {
        return Err(CryptoError::MalformedEnvelope);
    }
    let key_end: usize = 2 + data[0] as usize * 256 + data[1] as usize;
    let iv_end: usize = key_end + IV_LEN;
    let mac_start: usize = data.len() - MAC_LEN;
    if mac_start < iv_end {
        return Err(CryptoError::MalformedEnvelope);
    }
    Ok(
        HybridEnvelope {
            sender_public_key: slice_subrange(data, 2, key_end),
            iv: slice_subrange(data, key_end, iv_end),
            ciphertext: slice_subrange(data, iv_end, mac_start),
            mac: slice_subrange(data, mac_start, data.len()),
        },
    )
}

/// Writes the hybrid envelope that holds the four fields.
pub fn assemble_hybrid_envelope(
    sender_public_key: &[u8],
    iv: &[u8],
    ciphertext: &[u8],
    mac: &[u8],
) -> (envelope: Vec<u8>)
    requires
        sender_public_key@.len() <= MAX_SENDER_KEY_LEN,
    ensures
        envelope@ == hybrid_bytes(sender_public_key@, iv@, ciphertext@, mac@),
{
    let mut envelope: Vec<u8> = Vec::new();
    envelope.push((sender_public_key.len() / 256) as u8);
    envelope.push((sender_public_key.len() % 256) as u8);
    append_bytes(&mut envelope, sender_public_key);
    append_bytes(&mut envelope, iv);
    append_bytes(&mut envelope, ciphertext);
    append_bytes(&mut envelope, mac);
    assert(envelope@ =~= hybrid_bytes(sender_public_key@, iv@, ciphertext@, mac@));
    envelope
}

/// Derives the 64 bytes of key material from a shared secret.
fn derive_key_material(shared_secret: &[u8]) -> (material: Result<Vec<u8>, CryptoError>)
    ensures
        material matches Ok(bytes) && bytes@ == key_material(shared_secret@) && bytes@.len()
            == KEY_MATERIAL_LEN,
{
    match hkdf_sha256_expand(shared_secret, "ecies-encryption".as_bytes(), KEY_MATERIAL_LEN) {
        Ok(bytes) => Ok(bytes),
        Err(_) => Err(CryptoError::KeyDerivationFailure),
    }
}

/// Joins the three parts that the MAC covers.
fn build_transcript(sender_public_key: &[u8], iv: &[u8], ciphertext: &[u8]) -> (message: Vec<u8>)
    ensures
        message@ == transcript(sender_public_key@, iv@, ciphertext@),
{
    let mut message: Vec<u8> = Vec::new();
    append_bytes(&mut message, sender_public_key);
    append_bytes(&mut message, iv);
    append_bytes(&mut message, ciphertext);
    message
}

/// Seals `plaintext` for `recipient` with the sender's scalar and the IV
/// given. The sender's public key goes into the envelope.
///
/// The caller answers for the IV never repeating under one pair of keys.
/// [`ECCEncryption::encrypt`] and [`ECCEncryption::encrypt_authenticated`]
/// draw it at random.
pub fn seal_hybrid(
    plaintext: &[u8],
    recipient: &EccPublicKey,
    sender_private_key: &[u8; 32],
    iv: &[u8; 16],
) -> (envelope: Result<Vec<u8>, CryptoError>)
    ensures
        match envelope {
            Ok(bytes) => sealed_hybrid(plaintext@, recipient@, sender_private_key@, iv@) == Ok::<
                Seq<u8>,
                CryptoError,
            >(bytes@),
            Err(e) => sealed_hybrid(plaintext@, recipient@, sender_private_key@, iv@) == Err::<
                Seq<u8>,
                CryptoError,
            >(e),
        },
        envelope is Ok <==> p256_public_key(sender_private_key@) is Some,
        envelope matches Ok(bytes) ==> {
            &&& bytes@.len() == plaintext@.len() + HYBRID_OVERHEAD
            &&& hybrid_parts(bytes@) is Some
            &&& Some(hybrid_parts(bytes@)->0.sender_public_key) == p256_public_key(
                sender_private_key@,
            )
            &&& is_public_key(hybrid_parts(bytes@)->0.sender_public_key)
            &&& hybrid_parts(bytes@)->0.iv == iv@
            &&& forall|recipient_private_key: Seq<u8>|
                recipient_private_key.len() == PRIVATE_KEY_LEN && #[trigger] p256_public_key(
                    recipient_private_key,
                ) == Some(recipient@) ==> opened_hybrid(bytes@, recipient_private_key) == Ok::<
                    Seq<u8>,
                    CryptoError,
                >(plaintext@)
        },
{
    let recipient_bytes = recipient.as_bytes();
    let sender_public_key = match p256_public_key_of(sender_private_key.as_slice()) {
        Ok(key) => key,
        Err(_) => {
            return Err(CryptoError::InvalidKey);
        },
    };
    let mut shared_secret = match p256_diffie_hellman(
        sender_private_key.as_slice(),
        recipient_bytes,
    ) {
        Ok(secret) => secret,
        Err(_) => {
            return Err(CryptoError::InvalidKey);
        },
    };
    let material = derive_key_material(shared_secret.as_slice());
    wipe(&mut shared_secret);
    let mut material = match material {
        Ok(material) => material,
        Err(e) => {
            return Err(e);
        },
    };
    let ciphertext = aes256_ctr_apply(
        slice_subrange(material.as_slice(), 0, STREAM_KEY_LEN),
        iv.as_slice(),
        plaintext,
    );
    let message = build_transcript(
        sender_public_key.as_slice(),
        iv.as_slice(),
        ciphertext.as_slice(),
    );
    let mac = hmac_sha256_tag(
        slice_subrange(material.as_slice(), STREAM_KEY_LEN, KEY_MATERIAL_LEN),
        message.as_slice(),
    );
    wipe(&mut material);
    let mac = match mac {
        Ok(mac) => mac,
        Err(_) => {
            return Err(CryptoError::KeyDerivationFailure);
        },
    };
    proof {
        lemma_parts_of_hybrid_bytes(sender_public_key@, iv@, ciphertext@, mac@);
        assert forall|recipient_private_key: Seq<u8>|
            recipient_private_key.len() == PRIVATE_KEY_LEN && #[trigger] p256_public_key(
                recipient_private_key,
            ) == Some(recipient@) implies opened_hybrid(
            hybrid_bytes(sender_public_key@, iv@, ciphertext@, mac@),
            recipient_private_key,
        ) == Ok::<Seq<u8>, CryptoError>(plaintext@) by {
            lemma_sealed_hybrid_opens(
                plaintext@,
                recipient@,
                recipient_private_key,
                sender_private_key@,
                iv@,
            );
        }
    }
    Ok(
        assemble_hybrid_envelope(
            sender_public_key.as_slice(),
            iv.as_slice(),
            ciphertext.as_slice(),
            mac.as_slice(),
        ),
    )
}

/// Opens `envelope` with the recipient's scalar.
///
/// The MAC is verified, in constant time, before the stream cipher touches
/// the ciphertext: where it does not match, nothing is decrypted.
pub fn open_hybrid(envelope: &[u8], private_key: &[u8; 32]) -> (plaintext: Result<
    Vec<u8>,
    CryptoError,
>)
    ensures
        match plaintext {
            Ok(bytes) => opened_hybrid(envelope@, private_key@) == Ok::<Seq<u8>, CryptoError>(
                bytes@,
            ),
            Err(e) => opened_hybrid(envelope@, private_key@) == Err::<Seq<u8>, CryptoError>(e),
        },
        envelope@.len() < MIN_HYBRID_ENVELOPE_LEN ==> plaintext == Err::<Vec<u8>, CryptoError>(
            CryptoError::MalformedEnvelope,
        ),
{
    let parts = match split_hybrid_envelope(envelope) {
        Ok(parts) => parts,
        Err(e) => {
            return Err(e);
        },
    };
    let mut shared_secret = match p256_diffie_hellman(
        private_key.as_slice(),
        parts.sender_public_key,
    ) {
        Ok(secret) => secret,
        Err(_) => {
            return Err(CryptoError::InvalidKey);
        },
    };
    let material = derive_key_material(shared_secret.as_slice());
    wipe(&mut shared_secret);
    let mut material = match material {
        Ok(material) => material,
        Err(e) => {
            return Err(e);
        },
    };
    let message = build_transcript(parts.sender_public_key, parts.iv, parts.ciphertext);
    let authentic = hmac_sha256_verify(
        slice_subrange(material.as_slice(), STREAM_KEY_LEN, KEY_MATERIAL_LEN),
        message.as_slice(),
        parts.mac,
    );
    let plaintext = if authentic {
        Ok(
            aes256_ctr_apply(
                slice_subrange(material.as_slice(), 0, STREAM_KEY_LEN),
                parts.iv,
                parts.ciphertext,
            ),
        )
    } else {
        Err(CryptoError::AuthenticationFailure)
    };
    wipe(&mut material);
    plaintext
}

/// ECIES on P-256 with AES-256 in counter mode and HMAC-SHA256.
pub struct ECCEncryption;

impl ECCEncryption {
    /// Encrypts `plaintext` for `recipient_public_key` without naming the
    /// sender: a one-time key pair is drawn, and its public key goes into the
    /// envelope.
    ///
    /// Fails only where the random generator fails. The envelope is 115
    /// bytes longer than the plaintext and holds a valid public key; whoever
    /// holds the recipient's scalar gets the plaintext back from
    /// [`Self::decrypt`].
    pub fn encrypt(plaintext: &[u8], recipient_public_key: &EccPublicKey) -> (envelope: Result<
        Vec<u8>,
        CryptoError,
    >)
        ensures
            envelope matches Err(e) ==> e == CryptoError::RandomSourceFailure,
            envelope matches Ok(bytes) ==> {
                &&& bytes@.len() == plaintext@.len() + HYBRID_OVERHEAD
                &&& hybrid_parts(bytes@) is Some
                &&& is_public_key(hybrid_parts(bytes@)->0.sender_public_key)
                &&& forall|recipient_private_key: Seq<u8>|
                    recipient_private_key.len() == PRIVATE_KEY_LEN && #[trigger] p256_public_key(
                        recipient_private_key,
                    ) == Some(recipient_public_key@) ==> opened_hybrid(
                        bytes@,
                        recipient_private_key,
                    ) == Ok::<Seq<u8>, CryptoError>(plaintext@)
            },
    {
        let (mut one_time_key, _) = match draw_key_pair() {
            Ok(pair) => pair,
            Err(e) => {
                return Err(e);
            },
        };
        let envelope = match draw_bytes(IV_LEN) {
            Ok(drawn) => {
                let iv: [u8; 16] = array_from_slice(drawn.as_slice());
                seal_hybrid(plaintext, recipient_public_key, &one_time_key, &iv)
            },
            Err(e) => Err(e),
        };
        wipe_key(&mut one_time_key);
        envelope
    }

    /// Encrypts `plaintext` for `recipient_public_key` in the sender's name:
    /// the agreement uses the sender's long-term scalar, and the sender's
    /// long-term public key goes into the envelope, under the MAC.
    ///
    /// A `sender_private_key` that is no valid scalar is refused as an
    /// invalid key, before anything is drawn. After that only the random
    /// generator can fail. Whoever holds the recipient's scalar gets the
    /// plaintext back from [`Self::decrypt`], from the envelope and that
    /// scalar alone.
    pub fn encrypt_authenticated(
        plaintext: &[u8],
        recipient_public_key: &EccPublicKey,
        sender_private_key: &[u8; 32],
    ) -> (envelope: Result<Vec<u8>, CryptoError>)
        ensures
            envelope is Ok ==> p256_public_key(sender_private_key@) is Some,
            envelope matches Err(e) ==> e == (if p256_public_key(sender_private_key@) is None {
                CryptoError::InvalidKey
            } else {
                CryptoError::RandomSourceFailure
            }),
            envelope matches Ok(bytes) ==> {
                &&& bytes@.len() == plaintext@.len() + HYBRID_OVERHEAD
                &&& hybrid_parts(bytes@) is Some
                &&& Some(hybrid_parts(bytes@)->0.sender_public_key) == p256_public_key(
                    sender_private_key@,
                )
                &&& sealed_hybrid(
                    plaintext@,
                    recipient_public_key@,
                    sender_private_key@,
                    hybrid_parts(bytes@)->0.iv,
                ) == Ok::<Seq<u8>, CryptoError>(bytes@)
                &&& forall|recipient_private_key: Seq<u8>|
                    recipient_private_key.len() == PRIVATE_KEY_LEN && #[trigger] p256_public_key(
                        recipient_private_key,
                    ) == Some(recipient_public_key@) ==> opened_hybrid(
                        bytes@,
                        recipient_private_key,
                    ) == Ok::<Seq<u8>, CryptoError>(plaintext@)
            },
    {
        if p256_public_key_of(sender_private_key.as_slice()).is_err() {
            return Err(CryptoError::InvalidKey);
        }
        let drawn = match draw_bytes(IV_LEN) {
            Ok(drawn) => drawn,
            Err(e) => {
                return Err(e);
            },
        };
        let iv: [u8; 16] = array_from_slice(drawn.as_slice());
        seal_hybrid(plaintext, recipient_public_key, sender_private_key, &iv)
    }

    /// Decrypts an envelope of either mode with the recipient's scalar.
    ///
    /// The result is exactly what [`opened_hybrid`] says: a malformed
    /// envelope, an invalid key on either side, and a MAC that does not match
    /// each have their error, in that order.
    pub fn decrypt(encrypted_data: &[u8], private_key: &[u8; 32]) -> (plaintext: Result<
        Vec<u8>,
        CryptoError,
    >)
        ensures
            match plaintext {
                Ok(bytes) => opened_hybrid(encrypted_data@, private_key@) == Ok::<
                    Seq<u8>,
                    CryptoError,
                >(bytes@),
                Err(e) => opened_hybrid(encrypted_data@, private_key@) == Err::<
                    Seq<u8>,
                    CryptoError,
                >(e),
            },
            encrypted_data@.len() < MIN_HYBRID_ENVELOPE_LEN ==> plaintext == Err::<
                Vec<u8>,
                CryptoError,
            >(CryptoError::MalformedEnvelope),
    {
        open_hybrid(encrypted_data, private_key)
    }

    /// Draws a fresh key pair: a private scalar and its public key.
    ///
    /// Fails only where the random generator fails.
    pub fn generate_keypair() -> (pair: Result<([u8; 32], EccPublicKey), CryptoError>)
        ensures
            match pair {
                Ok(keys) => p256_public_key(keys.0@) == Some(keys.1@) && is_public_key(keys.1@),
                Err(e) => e == CryptoError::RandomSourceFailure,
            },
    {
        match draw_key_pair() {
            Ok((private_key, public_key)) => Ok((private_key, EccPublicKey { bytes: public_key })),
            Err(e) => Err(e),
        }
    }
}

} // verus!
