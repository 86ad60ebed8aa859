//! The two interchangeable AEAD suites: AES-256-GCM and ChaCha20-Poly1305.
//!
//! Both take a 32-byte key and a 12-byte nonce, use no associated data, and
//! append a 16-byte tag to a ciphertext as long as the plaintext.

use aes_gcm::aead::{Aead, KeyInit};
use crate::error::CryptoError;
use crate::stream::{lemma_xor_twice, xor_bytes};
use crate::text::str_equals;
use vstd::prelude::*;

verus! {

/// Length in bytes of an AEAD key.
pub const AEAD_KEY_LEN: usize = 32;

/// Length in bytes of an AEAD nonce.
pub const NONCE_LEN: usize = 12;

/// Length in bytes of the authentication tag that either suite appends.
pub const TAG_LEN: usize = 16;

/// Longest plaintext that the library seals under one nonce: 2^36 bytes.
pub const MAX_PLAINTEXT_LEN: u64 = 0x10_0000_0000;

/// Longest sealed text that the library opens: a longest plaintext and its tag.
pub const MAX_SEALED_LEN: u64 = 0x10_0000_0010;

/// The AEAD suite of a symmetric envelope.
#[derive(Clone, Copy, Debug, PartialEq, Eq, Structural)]
pub enum CipherSuite {
    /// AES-256 in Galois/Counter mode.
    Aes256Gcm,
    /// ChaCha20 with the Poly1305 authenticator.
    ChaCha20Poly1305,
}

/// The suite that goes by `name`: `aes` or `chacha`.
pub open spec fn suite_named(name: Seq<char>) -> Option<CipherSuite> {
    if name == "aes"@ {
        Some(CipherSuite::Aes256Gcm)
    } else if name == "chacha"@ {
        Some(CipherSuite::ChaCha20Poly1305)
    } else {
        None
    }
}

impl CipherSuite {
    /// The suite that goes by `name`, if there is one.
    pub fn from_name(name: &str) -> (suite: Option<CipherSuite>)
        ensures
            suite == suite_named(name@),
    {
        if str_equals(name, "aes") {
            Some(CipherSuite::Aes256Gcm)
        } else if str_equals(name, "chacha") {
            Some(CipherSuite::ChaCha20Poly1305)
        } else {
            None
        }
    }
}

/// The first `len` bytes of the keystream with which AES-256-GCM encrypts
/// under `key` and `nonce`.
pub uninterp spec fn aes256_gcm_keystream(key: Seq<u8>, nonce: Seq<u8>, len: nat) -> Seq<u8>;

/// The tag with which AES-256-GCM authenticates `ciphertext` under `key`
/// and `nonce`, with no associated data.
pub uninterp spec fn aes256_gcm_tag(key: Seq<u8>, nonce: Seq<u8>, ciphertext: Seq<u8>) -> [u8; 16];

/// The first `len` bytes of the keystream with which ChaCha20-Poly1305
/// encrypts under `key` and `nonce`.
pub uninterp spec fn chacha20_keystream(key: Seq<u8>, nonce: Seq<u8>, len: nat) -> Seq<u8>;

/// The tag with which ChaCha20-Poly1305 authenticates `ciphertext` under
/// `key` and `nonce`, with no associated data.
pub uninterp spec fn chacha20_poly1305_tag(
    key: Seq<u8>,
    nonce: Seq<u8>,
    ciphertext: Seq<u8>,
) -> [u8; 16];

/// Length in bytes of the extended nonce of XChaCha20-Poly1305.
pub const EXTENDED_NONCE_LEN: usize = 24;

/// Ciphertext and tag that XChaCha20-Poly1305 produces for `plaintext` under
/// `key` and the 24-byte `nonce`, with no associated data.
pub uninterp spec fn xchacha20_poly1305_seal(
    key: Seq<u8>,
    nonce: Seq<u8>,
    plaintext: Seq<u8>,
) -> Seq<u8>;

/// The first `len` bytes of the keystream of `suite`.
pub open spec fn keystream(suite: CipherSuite, key: Seq<u8>, nonce: Seq<u8>, len: nat) -> Seq<u8> {
    match suite {
        CipherSuite::Aes256Gcm => aes256_gcm_keystream(key, nonce, len),
        CipherSuite::ChaCha20Poly1305 => chacha20_keystream(key, nonce, len),
    }
}

/// The 16 bytes with which `suite` authenticates `ciphertext`.
pub open spec fn tag(suite: CipherSuite, key: Seq<u8>, nonce: Seq<u8>, ciphertext: Seq<u8>) -> Seq<
    u8,
> {
    match suite {
        CipherSuite::Aes256Gcm => aes256_gcm_tag(key, nonce, ciphertext)@,
        CipherSuite::ChaCha20Poly1305 => chacha20_poly1305_tag(key, nonce, ciphertext)@,
    }
}

/// What sealing `plaintext` with `suite` yields: the plaintext combined with
/// the keystream, then the tag of that ciphertext.
pub open spec fn sealed_text(
    suite: CipherSuite,
    key: Seq<u8>,
    nonce: Seq<u8>,
    plaintext: Seq<u8>,
) -> Seq<u8> {
    let ciphertext = xor_bytes(plaintext, keystream(suite, key, nonce, plaintext.len()));
    ciphertext + tag(suite, key, nonce, ciphertext)
}

/// The ciphertext in `sealed`: all but its last 16 bytes.
pub open spec fn ciphertext_of(sealed: Seq<u8>) -> Seq<u8> {
    sealed.subrange(0, sealed.len() - TAG_LEN)
}

/// The tag in `sealed`: its last 16 bytes.
pub open spec fn tag_of(sealed: Seq<u8>) -> Seq<u8> {
    sealed.subrange(sealed.len() - TAG_LEN, sealed.len() as int)
}

/// What opening `sealed` with `suite` yields: the ciphertext combined with
/// the keystream, where the tag at its end is the tag of that ciphertext,
/// and nothing otherwise. The tag is checked first. A text shorter than a
/// tag, or longer than any that [`seal`] produces, is never opened.
pub open spec fn opened_text(
    suite: CipherSuite,
    key: Seq<u8>,
    nonce: Seq<u8>,
    sealed: Seq<u8>,
) -> Option<Seq<u8>> {
    if sealed.len() < TAG_LEN || sealed.len() > MAX_SEALED_LEN {
        None
    } else if tag(suite, key, nonce, ciphertext_of(sealed)) != tag_of(sealed) {
        None
    } else {
        Some(
            xor_bytes(
                ciphertext_of(sealed),
                keystream(suite, key, nonce, ciphertext_of(sealed).len()),
            ),
        )
    }
}

/// Opening undoes sealing: what was sealed under a key and a nonce opens,
/// under the same key and nonce, to the plaintext.
pub proof fn lemma_open_undoes_seal(
    suite: CipherSuite,
    key: Seq<u8>,
    nonce: Seq<u8>,
    plaintext: Seq<u8>,
)
    requires
        plaintext.len() <= MAX_PLAINTEXT_LEN,
    ensures
        opened_text(suite, key, nonce, sealed_text(suite, key, nonce, plaintext)) == Some(
            plaintext,
        ),
        sealed_text(suite, key, nonce, plaintext).len() == plaintext.len() + TAG_LEN,
{
    let stream = keystream(suite, key, nonce, plaintext.len());
    let ciphertext = xor_bytes(plaintext, stream);
    let sealed = sealed_text(suite, key, nonce, plaintext);
    assert(ciphertext_of(sealed) =~= ciphertext);
    assert(tag_of(sealed) =~= tag(suite, key, nonce, ciphertext));
    lemma_xor_twice(plaintext, stream);
}

/// Any change to the tag of a text that opens is detected: a text of the
/// same length that differs from it in the last 16 bytes only does not open.
pub proof fn lemma_tampered_tag_is_rejected(
    suite: CipherSuite,
    key: Seq<u8>,
    nonce: Seq<u8>,
    sealed: Seq<u8>,
    tampered: Seq<u8>,
)
    requires
        opened_text(suite, key, nonce, sealed) is Some,
        tampered.len() == sealed.len(),
        tampered != sealed,
        forall|i: int| 0 <= i < sealed.len() - TAG_LEN ==> tampered[i] == sealed[i],
    ensures
        opened_text(suite, key, nonce, tampered) is None,
{
    assert(ciphertext_of(tampered) =~= ciphertext_of(sealed));
    if tag_of(tampered) == tag_of(sealed) {
        assert forall|i: int| 0 <= i < sealed.len() implies tampered[i] == sealed[i] by {
            if i >= sealed.len() - TAG_LEN {
                let k = i - (sealed.len() - TAG_LEN);
                assert(tag_of(tampered)[k] == tampered[i]);
                assert(tag_of(sealed)[k] == sealed[i]);
            }
        }
        assert(tampered =~= sealed);
    }
}

#[verifier::external_type_specification]
#[verifier::external_body]
pub struct ExAeadError(aes_gcm::Error);

/// `Aead::encrypt` of `aes_gcm::Aes256Gcm`. Trusted: the call fails exactly
/// when the plaintext is longer than 2^36 bytes; otherwise it yields the
/// plaintext combined with the keystream named by [`aes256_gcm_keystream`],
/// followed by the tag of that ciphertext, named by [`aes256_gcm_tag`].
#[verifier::external_body]
pub(crate) fn aes256_gcm_encrypt(key: &[u8], nonce: &[u8], plaintext: &[u8]) -> (sealed: Result<
    Vec<u8>,
    aes_gcm::Error,
>)
    requires
        key@.len() == AEAD_KEY_LEN,
        nonce@.len() == NONCE_LEN,
    ensures
        sealed is Ok <==> plaintext@.len() <= MAX_PLAINTEXT_LEN,
        sealed matches Ok(text) ==> text@ == xor_bytes(
            plaintext@,
            aes256_gcm_keystream(key@, nonce@, plaintext@.len()),
        ) + aes256_gcm_tag(
            key@,
            nonce@,
            xor_bytes(plaintext@, aes256_gcm_keystream(key@, nonce@, plaintext@.len())),
        )@,
{
    let cipher = aes_gcm::Aes256Gcm::new(aes_gcm::Key::<aes_gcm::Aes256Gcm>::from_slice(key));
    cipher.encrypt(aes_gcm::Nonce::from_slice(nonce), plaintext)
}

/// `Aead::decrypt` of `aes_gcm::Aes256Gcm`, on a sealed text of at most
/// 2^36 + 16 bytes. Trusted: the call succeeds exactly where the text is at
/// least 16 bytes long and ends in the tag, named by [`aes256_gcm_tag`], of
/// what stands before it; it then yields that ciphertext combined with the
/// keystream named by [`aes256_gcm_keystream`].
#[verifier::external_body]
pub(crate) fn aes256_gcm_decrypt(key: &[u8], nonce: &[u8], sealed: &[u8]) -> (opened: Result<
    Vec<u8>,
    aes_gcm::Error,
>)
    requires
        key@.len() == AEAD_KEY_LEN,
        nonce@.len() == NONCE_LEN,
        sealed@.len() <= MAX_SEALED_LEN,
    ensures
        opened is Ok <==> (sealed@.len() >= TAG_LEN && aes256_gcm_tag(
            key@,
            nonce@,
            ciphertext_of(sealed@),
        )@ == tag_of(sealed@)),
        opened matches Ok(plaintext) ==> plaintext@ == xor_bytes(
            ciphertext_of(sealed@),
            aes256_gcm_keystream(key@, nonce@, ciphertext_of(sealed@).len()),
        ),
{
    let cipher = aes_gcm::Aes256Gcm::new(aes_gcm::Key::<aes_gcm::Aes256Gcm>::from_slice(key));
    cipher.decrypt(aes_gcm::Nonce::from_slice(nonce), sealed)
}

/// `Aead::encrypt` of `chacha20poly1305::ChaCha20Poly1305`. Trusted: on a
/// plaintext of at most 2^36 bytes the call succeeds and yields the
/// plaintext combined with the keystream named by [`chacha20_keystream`],
/// followed by the tag of that ciphertext, named by
/// [`chacha20_poly1305_tag`].
#[verifier::external_body]
pub(crate) fn chacha20_poly1305_encrypt(key: &[u8], nonce: &[u8], plaintext: &[u8]) -> (sealed:
    Result<Vec<u8>, chacha20poly1305::Error>)
    requires
        key@.len() == AEAD_KEY_LEN,
        nonce@.len() == NONCE_LEN,
        plaintext@.len() <= MAX_PLAINTEXT_LEN,
    ensures
        sealed is Ok,
        sealed matches Ok(text) ==> text@ == xor_bytes(
            plaintext@,
            chacha20_keystream(key@, nonce@, plaintext@.len()),
        ) + chacha20_poly1305_tag(
            key@,
            nonce@,
            xor_bytes(plaintext@, chacha20_keystream(key@, nonce@, plaintext@.len())),
        )@,
{
    let cipher = chacha20poly1305::ChaCha20Poly1305::new(chacha20poly1305::Key::from_slice(key));
    cipher.encrypt(chacha20poly1305::Nonce::from_slice(nonce), plaintext)
}

/// `Aead::decrypt` of `chacha20poly1305::ChaCha20Poly1305`, on a sealed text
/// of at most 2^36 + 16 bytes. Trusted: the call succeeds exactly where the
/// text is at least 16 bytes long and ends in the tag, named by
/// [`chacha20_poly1305_tag`], of what stands before it; it then yields that
/// ciphertext combined with the keystream named by [`chacha20_keystream`].
#[verifier::external_body]
pub(crate) fn chacha20_poly1305_decrypt(key: &[u8], nonce: &[u8], sealed: &[u8]) -> (opened:
    Result<Vec<u8>, chacha20poly1305::Error>)
    requires
        key@.len() == AEAD_KEY_LEN,
        nonce@.len() == NONCE_LEN,
        sealed@.len() <= MAX_SEALED_LEN,
    ensures
        opened is Ok <==> (sealed@.len() >= TAG_LEN && chacha20_poly1305_tag(
            key@,
            nonce@,
            ciphertext_of(sealed@),
        )@ == tag_of(sealed@)),
        opened matches Ok(plaintext) ==> plaintext@ == xor_bytes(
            ciphertext_of(sealed@),
            chacha20_keystream(key@, nonce@, ciphertext_of(sealed@).len()),
        ),
{
    let cipher = chacha20poly1305::ChaCha20Poly1305::new(chacha20poly1305::Key::from_slice(key));
    cipher.decrypt(chacha20poly1305::Nonce::from_slice(nonce), sealed)
}

/// `Aead::encrypt` of `chacha20poly1305::XChaCha20Poly1305`. Trusted: on a
/// plaintext of at most 2^36 bytes the call succeeds and yields the text
/// named by [`xchacha20_poly1305_seal`], which is 16 bytes longer than the
/// plaintext.
#[verifier::external_body]
pub(crate) fn xchacha20_poly1305_encrypt(key: &[u8], nonce: &[u8], plaintext: &[u8]) -> (sealed:
    Result<Vec<u8>, chacha20poly1305::Error>)
    requires
        key@.len() == AEAD_KEY_LEN,
        nonce@.len() == EXTENDED_NONCE_LEN,
        plaintext@.len() <= MAX_PLAINTEXT_LEN,
    ensures
        sealed is Ok,
        sealed matches Ok(text) ==> {
            &&& text@ == xchacha20_poly1305_seal(key@, nonce@, plaintext@)
            &&& text@.len() == plaintext@.len() + TAG_LEN
        },
{
    let cipher = chacha20poly1305::XChaCha20Poly1305::new(chacha20poly1305::Key::from_slice(key));
    cipher.encrypt(chacha20poly1305::XNonce::from_slice(nonce), plaintext)
}

/// Seals `plaintext` with `suite` under `key` and `nonce`.
///
/// Succeeds on every plaintext of at most [`MAX_PLAINTEXT_LEN`] bytes. The
/// result is the plaintext's length plus [`TAG_LEN`] bytes long, and [`open`]
/// recovers the plaintext from it.
pub fn seal(suite: CipherSuite, key: &[u8], nonce: &[u8], plaintext: &[u8]) -> (sealed: Result<
    Vec<u8>,
    CryptoError,
>)
    requires
        key@.len() == AEAD_KEY_LEN,
        nonce@.len() == NONCE_LEN,
    ensures
        sealed is Ok <==> plaintext@.len() <= MAX_PLAINTEXT_LEN,
        sealed matches Err(e) ==> e == CryptoError::PlaintextTooLong,
        sealed matches Ok(text) ==> {
            &&& text@ == sealed_text(suite, key@, nonce@, plaintext@)
            &&& text@.len() == plaintext@.len() + TAG_LEN
            &&& opened_text(suite, key@, nonce@, text@) == Some(plaintext@)
        },
{
    if plaintext.len() as u64 > MAX_PLAINTEXT_LEN {
        return Err(CryptoError::PlaintextTooLong);
    }
    let outcome = match suite {
        CipherSuite::Aes256Gcm => aes256_gcm_encrypt(key, nonce, plaintext),
        CipherSuite::ChaCha20Poly1305 => chacha20_poly1305_encrypt(key, nonce, plaintext),
    };
    proof {
        lemma_open_undoes_seal(suite, key@, nonce@, plaintext@);
    }
    match outcome {
        Ok(text) => Ok(text),
        Err(_) => Err(CryptoError::PlaintextTooLong),
    }
}

/// Opens `sealed` with `suite` under `key` and `nonce`.
///
/// Returns the plaintext exactly where the tag matches. Every other outcome
/// is [`CryptoError::AuthenticationFailure`], whatever its cause.
pub fn open(suite: CipherSuite, key: &[u8], nonce: &[u8], sealed: &[u8]) -> (opened: Result<
    Vec<u8>,
    CryptoError,
>)
    requires
        key@.len() == AEAD_KEY_LEN,
        nonce@.len() == NONCE_LEN,
    ensures
        match opened {
            Ok(plaintext) => opened_text(suite, key@, nonce@, sealed@) == Some(plaintext@)
                && plaintext@.len() + TAG_LEN == sealed@.len(),
            Err(e) => e == CryptoError::AuthenticationFailure && opened_text(
                suite,
                key@,
                nonce@,
                sealed@,
            ) is None,
        },
{
    if sealed.len() as u64 > MAX_SEALED_LEN {
        return Err(CryptoError::AuthenticationFailure);
    }
    let outcome = match suite {
        CipherSuite::Aes256Gcm => aes256_gcm_decrypt(key, nonce, sealed),
        CipherSuite::ChaCha20Poly1305 => chacha20_poly1305_decrypt(key, nonce, sealed),
    };
    match outcome {
        Ok(plaintext) => Ok(plaintext),
        Err(_) => Err(CryptoError::AuthenticationFailure),
    }
}

} // verus!
