//! The symmetric envelope: a passphrase-derived key, an AEAD, and the wire
//! format `[salt length: 1][salt][nonce: 12][ciphertext and tag]`.

use crate::aead::{
    lemma_open_undoes_seal, lemma_tampered_tag_is_rejected, open, opened_text, seal, sealed_text,
    CipherSuite, MAX_PLAINTEXT_LEN, NONCE_LEN, TAG_LEN,
};
use crate::bytes::{append_bytes, array_from_slice};
use crate::error::CryptoError;
use crate::kdf::{
    argon2_accepts, argon2_derive_key, argon2id_key, ARGON2_MAX_INPUT_LEN, ARGON2_MIN_SALT_LEN,
};
use crate::random::{draw_bytes, draw_salt, SALT_LEN};
use crate::secret::wipe;
use vstd::prelude::*;
use vstd::slice::slice_subrange;
use vstd::string::StringSliceAdditionalSpecFns;

verus! {

/// Shortest salt that the key derivation accepts, by which the shortest
/// envelope is measured. A longer input that names a shorter salt is parsed,
/// and then refused by the key derivation.
pub const MIN_SALT_LEN: usize = ARGON2_MIN_SALT_LEN;

/// Shortest input that is taken for an envelope: the length byte, a salt of
/// [`MIN_SALT_LEN`] bytes, the nonce and the tag of an empty plaintext.
pub const MIN_ENVELOPE_LEN: usize = 1 + MIN_SALT_LEN + NONCE_LEN + TAG_LEN;

/// Longest salt whose length fits the envelope's length byte.
pub const MAX_SALT_LEN: usize = 255;

/// The three fields of a symmetric envelope.
pub struct EnvelopeParts {
    pub salt: Seq<u8>,
    pub nonce: Seq<u8>,
    pub sealed: Seq<u8>,
}

/// The fields of an envelope, borrowed from the buffer that holds it.
pub struct Envelope<'a> {
    pub salt: &'a [u8],
    pub nonce: &'a [u8],
    pub sealed: &'a [u8],
}

impl<'a> View for Envelope<'a> {
    type V = EnvelopeParts;

    open spec fn view(&self) -> EnvelopeParts {
        EnvelopeParts { salt: self.salt@, nonce: self.nonce@, sealed: self.sealed@ }
    }
}

/// The bytes of the envelope that holds `salt`, `nonce` and `sealed`.
pub open spec fn envelope_bytes(salt: Seq<u8>, nonce: Seq<u8>, sealed: Seq<u8>) -> Seq<u8> {
    seq![salt.len() as u8] + salt + nonce + sealed
}

/// The fields that `envelope` holds, or `None` where it is shorter than
/// [`MIN_ENVELOPE_LEN`] or its salt length leaves no room for the salt, a
/// nonce and a tag.
pub open spec fn envelope_parts(envelope: Seq<u8>) -> Option<EnvelopeParts> {
    if envelope.len() < MIN_ENVELOPE_LEN {
        None
    } else {
        let salt_end = 1 + envelope[0] as int;
        let nonce_end = salt_end + NONCE_LEN as int;
        if envelope.len() < nonce_end + TAG_LEN as int {
            None
        } else {
            Some(
                EnvelopeParts {
                    salt: envelope.subrange(1, salt_end),
                    nonce: envelope.subrange(salt_end, nonce_end),
                    sealed: envelope.subrange(nonce_end, envelope.len() as int),
                },
            )
        }
    }
}

/// What sealing `plaintext` under `passphrase` with the given salt and nonce
/// yields: the key is derived first, then the plaintext is sealed.
pub open spec fn sealed_envelope(
    suite: CipherSuite,
    plaintext: Seq<u8>,
    passphrase: Seq<u8>,
    salt: Seq<u8>,
    nonce: Seq<u8>,
) -> Result<Seq<u8>, CryptoError> {
    if !argon2_accepts(passphrase, salt) {
        Err(CryptoError::KeyDerivationFailure)
    } else if plaintext.len() > MAX_PLAINTEXT_LEN {
        Err(CryptoError::PlaintextTooLong)
    } else {
        Ok(
            envelope_bytes(
                salt,
                nonce,
                sealed_text(suite, argon2id_key(passphrase, salt)@, nonce, plaintext),
            ),
        )
    }
}

/// What opening `envelope` under `passphrase` yields.
pub open spec fn opened_envelope(suite: CipherSuite, envelope: Seq<u8>, passphrase: Seq<u8>)
    -> Result<Seq<u8>, CryptoError> {
    match envelope_parts(envelope) {
        None => Err(CryptoError::MalformedEnvelope),
        Some(parts) => if !argon2_accepts(passphrase, parts.salt) {
            Err(CryptoError::KeyDerivationFailure)
        } else {
            match opened_text(suite, argon2id_key(passphrase, parts.salt)@, parts.nonce, parts.sealed) {
                Some(plaintext) => Ok(plaintext),
                None => Err(CryptoError::AuthenticationFailure),
            }
        },
    }
}

/// Why [`encrypt`] refuses its input, if it does: a passphrase longer than
/// the key derivation accepts, or else a plaintext longer than one nonce
/// may seal.
pub open spec fn refused_input(plaintext: Seq<u8>, passphrase: Seq<u8>) -> Option<CryptoError> {
    if passphrase.len() > ARGON2_MAX_INPUT_LEN {
        Some(CryptoError::KeyDerivationFailure)
    } else if plaintext.len() > MAX_PLAINTEXT_LEN {
        Some(CryptoError::PlaintextTooLong)
    } else {
        None
    }
}

/// The error of an encryption that draws random values: the refusal of its
/// input, or else the failure of the random generator.
pub open spec fn refusal_or_random_failure(refusal: Option<CryptoError>) -> CryptoError {
    match refusal {
        Some(e) => e,
        None => CryptoError::RandomSourceFailure,
    }
}

/// Whether `envelope` is what [`encrypt`] may return for `plaintext` under
/// `passphrase`: a salt of [`SALT_LEN`] bytes, a nonce, and the plaintext
/// sealed under the key derived from passphrase and salt.
pub open spec fn seals(
    suite: CipherSuite,
    envelope: Seq<u8>,
    plaintext: Seq<u8>,
    passphrase: Seq<u8>,
) -> bool {
    exists|salt: Seq<u8>, nonce: Seq<u8>|
        {
            &&& salt.len() == SALT_LEN
            &&& nonce.len() == NONCE_LEN
            &&& #[trigger] sealed_envelope(suite, plaintext, passphrase, salt, nonce) == Ok::<
                Seq<u8>,
                CryptoError,
            >(envelope)
        }
}

/// Parsing undoes assembling: an envelope built from a salt of 8 to 255
/// bytes, a 12-byte nonce and a sealed text of at least 16 bytes holds
/// exactly those three fields.
pub proof fn lemma_parts_of_envelope_bytes(salt: Seq<u8>, nonce: Seq<u8>, sealed: Seq<u8>)
    requires
        MIN_SALT_LEN <= salt.len() <= MAX_SALT_LEN,
        nonce.len() == NONCE_LEN,
        sealed.len() >= TAG_LEN,
    ensures
        envelope_parts(envelope_bytes(salt, nonce, sealed)) == Some(
            EnvelopeParts { salt, nonce, sealed },
        ),
        envelope_bytes(salt, nonce, sealed).len() == 1 + salt.len() + NONCE_LEN + sealed.len(),
{
    let envelope = envelope_bytes(salt, nonce, sealed);
    let parts = envelope_parts(envelope)->0;
    assert(envelope[0] == salt.len() as u8);
    assert(parts.salt =~= salt);
    assert(parts.nonce =~= nonce);
    assert(parts.sealed =~= sealed);
}

/// Assembling undoes parsing: the fields of an envelope, put together
/// again, give the envelope back.
pub proof fn lemma_envelope_bytes_of_parts(envelope: Seq<u8>)
    requires
        envelope_parts(envelope) is Some,
    ensures
        ({
            let parts = envelope_parts(envelope)->0;
            envelope_bytes(parts.salt, parts.nonce, parts.sealed) == envelope
        }),
{
    let parts = envelope_parts(envelope)->0;
    assert(envelope_bytes(parts.salt, parts.nonce, parts.sealed) =~= envelope);
}

/// No input shorter than [`MIN_ENVELOPE_LEN`] is opened, whatever the
/// suite and the passphrase.
pub proof fn lemma_short_envelope_is_malformed(
    suite: CipherSuite,
    envelope: Seq<u8>,
    passphrase: Seq<u8>,
)
    requires
        envelope.len() < MIN_ENVELOPE_LEN,
    ensures
        opened_envelope(suite, envelope, passphrase) == Err::<Seq<u8>, CryptoError>(
            CryptoError::MalformedEnvelope,
        ),
{
}

/// Fresh draws give a fresh envelope: two envelopes sealed with salts of
/// the same length differ as soon as the salts or the nonces differ,
/// whatever the plaintexts and the passphrases.
pub proof fn lemma_fresh_draws_fresh_envelope(
    suite: CipherSuite,
    plaintext_a: Seq<u8>,
    plaintext_b: Seq<u8>,
    passphrase_a: Seq<u8>,
    passphrase_b: Seq<u8>,
    salt_a: Seq<u8>,
    salt_b: Seq<u8>,
    nonce_a: Seq<u8>,
    nonce_b: Seq<u8>,
)
    requires
        salt_a.len() == salt_b.len() <= MAX_SALT_LEN,
        nonce_a.len() == NONCE_LEN,
        nonce_b.len() == NONCE_LEN,
        salt_a != salt_b || nonce_a != nonce_b,
        sealed_envelope(suite, plaintext_a, passphrase_a, salt_a, nonce_a) is Ok,
        sealed_envelope(suite, plaintext_b, passphrase_b, salt_b, nonce_b) is Ok,
    ensures
        sealed_envelope(suite, plaintext_a, passphrase_a, salt_a, nonce_a) != sealed_envelope(
            suite,
            plaintext_b,
            passphrase_b,
            salt_b,
            nonce_b,
        ),
{
    let sealed_a = sealed_text(suite, argon2id_key(passphrase_a, salt_a)@, nonce_a, plaintext_a);
    let sealed_b = sealed_text(suite, argon2id_key(passphrase_b, salt_b)@, nonce_b, plaintext_b);
    lemma_open_undoes_seal(suite, argon2id_key(passphrase_a, salt_a)@, nonce_a, plaintext_a);
    lemma_open_undoes_seal(suite, argon2id_key(passphrase_b, salt_b)@, nonce_b, plaintext_b);
    lemma_parts_of_envelope_bytes(salt_a, nonce_a, sealed_a);
    lemma_parts_of_envelope_bytes(salt_b, nonce_b, sealed_b);
}

/// A well-formed envelope fails closed under any passphrase that the key
/// derivation accepts: it is opened or authentication fails, and it is
/// opened only where the tag matches under the key derived from that
/// passphrase.
pub proof fn lemma_wrong_passphrase_fails_closed(
    suite: CipherSuite,
    envelope: Seq<u8>,
    passphrase: Seq<u8>,
)
    requires
        envelope_parts(envelope) is Some,
        argon2_accepts(passphrase, envelope_parts(envelope)->0.salt),
    ensures
        opened_envelope(suite, envelope, passphrase) is Ok || opened_envelope(
            suite,
            envelope,
            passphrase,
        ) == Err::<Seq<u8>, CryptoError>(CryptoError::AuthenticationFailure),
        opened_envelope(suite, envelope, passphrase) matches Ok(plaintext) ==> ({
            let parts = envelope_parts(envelope)->0;
            opened_text(suite, argon2id_key(passphrase, parts.salt)@, parts.nonce, parts.sealed)
                == Some(plaintext)
        }),
{
}

/// The round trip: an envelope sealed under a passphrase opens to the
/// plaintext under the same passphrase, for either suite and every
/// plaintext, the empty one too.
pub proof fn lemma_sealed_envelope_opens(
    suite: CipherSuite,
    plaintext: Seq<u8>,
    passphrase: Seq<u8>,
    salt: Seq<u8>,
    nonce: Seq<u8>,
)
    requires
        salt.len() <= MAX_SALT_LEN,
        nonce.len() == NONCE_LEN,
        sealed_envelope(suite, plaintext, passphrase, salt, nonce) is Ok,
    ensures
        opened_envelope(
            suite,
            sealed_envelope(suite, plaintext, passphrase, salt, nonce)->Ok_0,
            passphrase,
        ) == Ok::<Seq<u8>, CryptoError>(plaintext),
{
    let key = argon2id_key(passphrase, salt)@;
    lemma_open_undoes_seal(suite, key, nonce, plaintext);
    lemma_parts_of_envelope_bytes(salt, nonce, sealed_text(suite, key, nonce, plaintext));
}

/// Any change to the tag at the end of an envelope that opens is detected:
/// an envelope of the same length that differs from it in the last 16 bytes
/// only fails authentication.
pub proof fn lemma_tampered_tag_fails_authentication(
    suite: CipherSuite,
    envelope: Seq<u8>,
    tampered: Seq<u8>,
    passphrase: Seq<u8>,
)
    requires
        opened_envelope(suite, envelope, passphrase) is Ok,
        tampered.len() == envelope.len(),
        tampered != envelope,
        forall|i: int| 0 <= i < envelope.len() - TAG_LEN ==> tampered[i] == envelope[i],
    ensures
        opened_envelope(suite, tampered, passphrase) == Err::<Seq<u8>, CryptoError>(
            CryptoError::AuthenticationFailure,
        ),
{
    let parts = envelope_parts(envelope)->0;
    let changed = envelope_parts(tampered)->0;
    assert(tampered[0] == envelope[0]);
    assert(changed.salt =~= parts.salt);
    assert(changed.nonce =~= parts.nonce);
    assert(changed.sealed.len() == parts.sealed.len());
    let offset = envelope.len() - parts.sealed.len();
    assert forall|i: int| 0 <= i < parts.sealed.len() - TAG_LEN implies changed.sealed[i]
        == parts.sealed[i] by {
        assert(changed.sealed[i] == tampered[offset + i]);
        assert(parts.sealed[i] == envelope[offset + i]);
    }
    if changed.sealed == parts.sealed {
        assert forall|i: int| 0 <= i < envelope.len() implies tampered[i] == envelope[i] by {
            if i >= envelope.len() - TAG_LEN {
                assert(changed.sealed[i - offset] == tampered[i]);
                assert(parts.sealed[i - offset] == envelope[i]);
            }
        }
        assert(tampered =~= envelope);
    }
    lemma_tampered_tag_is_rejected(
        suite,
        argon2id_key(passphrase, parts.salt)@,
        parts.nonce,
        parts.sealed,
        changed.sealed,
    );
}

/// Splits `data` into the fields of an envelope, without copying.
pub fn split_envelope<'a>(data: &'a [u8]) -> (parts: Result<Envelope<'a>, CryptoError>)
    ensures
        match parts {
            Ok(envelope) => envelope_parts(data@) == Some(envelope@),
            Err(e) => e == CryptoError::MalformedEnvelope && envelope_parts(data@) is None,
        },
{
    if data.len() < MIN_ENVELOPE_LEN {
        return Err(CryptoError::MalformedEnvelope);
    }
    let salt_end: usize = 1 + data[0] as usize;
    let nonce_end: usize = salt_end + NONCE_LEN;
    if data.len() < nonce_end + TAG_LEN {
        return Err(CryptoError::MalformedEnvelope);
    }
    Ok(
        Envelope {
            salt: slice_subrange(data, 1, salt_end),
            nonce: slice_subrange(data, salt_end, nonce_end),
            sealed: slice_subrange(data, nonce_end, data.len()),
        },
    )
}

/// Writes the envelope that holds `salt`, `nonce` and `sealed`.
pub fn assemble_envelope(salt: &[u8], nonce: &[u8], sealed: &[u8]) -> (envelope: Vec<u8>)
    requires
        salt@.len() <= MAX_SALT_LEN,
    ensures
        envelope@ == envelope_bytes(salt@, nonce@, sealed@),
{
    let mut envelope: Vec<u8> = Vec::new();
    envelope.push(salt.len() as u8);
    append_bytes(&mut envelope, salt);
    append_bytes(&mut envelope, nonce);
    append_bytes(&mut envelope, sealed);
    assert(envelope@ =~= envelope_bytes(salt@, nonce@, sealed@));
    envelope
}

/// Seals `plaintext` under `passphrase` with the salt and the nonce given.
///
/// The caller answers for the salt and the nonce being fresh: a nonce must
/// never repeat under one key. [`encrypt`] draws both at random.
pub fn seal_envelope(
    suite: CipherSuite,
    plaintext: &[u8],
    passphrase: &[u8],
    salt: &[u8],
    nonce: &[u8],
) -> (envelope: Result<Vec<u8>, CryptoError>)
    requires
        salt@.len() <= MAX_SALT_LEN,
        nonce@.len() == NONCE_LEN,
    ensures
        match envelope {
            Ok(bytes) => sealed_envelope(suite, plaintext@, passphrase@, salt@, nonce@) == Ok::<
                Seq<u8>,
                CryptoError,
            >(bytes@),
            Err(e) => sealed_envelope(suite, plaintext@, passphrase@, salt@, nonce@) == Err::<
                Seq<u8>,
                CryptoError,
            >(e),
        },
        envelope matches Ok(bytes) ==> {
            &&& bytes@.len() == 1 + salt@.len() + NONCE_LEN + plaintext@.len() + TAG_LEN
            &&& opened_envelope(suite, bytes@, passphrase@) == Ok::<Seq<u8>, CryptoError>(
                plaintext@,
            )
        },
{
    let mut key = match argon2_derive_key(passphrase, salt) {
        Ok(key) => key,
        Err(_) => {
            return Err(CryptoError::KeyDerivationFailure);
        },
    };
    let sealed = seal(suite, key.as_slice(), nonce, plaintext);
    wipe(&mut key);
    let sealed = match sealed {
        Ok(sealed) => sealed,
        Err(e) => {
            return Err(e);
        },
    };
    proof {
        lemma_parts_of_envelope_bytes(salt@, nonce@, sealed@);
    }
    Ok(assemble_envelope(salt, nonce, sealed.as_slice()))
}

/// Opens `envelope` under `passphrase`.
///
/// An input that is too short, or whose salt length points past what the
/// buffer can hold, is malformed. A salt or passphrase that the key
/// derivation rejects is a key-derivation failure. Otherwise the plaintext is
/// returned exactly where the tag matches; a wrong passphrase and a corrupted
/// envelope both end in an authentication failure.
pub fn open_envelope(suite: CipherSuite, envelope: &[u8], passphrase: &[u8]) -> (plaintext:
    Result<Vec<u8>, CryptoError>)
    ensures
        match plaintext {
            Ok(bytes) => opened_envelope(suite, envelope@, passphrase@) == Ok::<
                Seq<u8>,
                CryptoError,
            >(bytes@),
            Err(e) => opened_envelope(suite, envelope@, passphrase@) == Err::<
                Seq<u8>,
                CryptoError,
            >(e),
        },
        envelope@.len() < MIN_ENVELOPE_LEN ==> plaintext == Err::<Vec<u8>, CryptoError>(
            CryptoError::MalformedEnvelope,
        ),
{
    let parts = match split_envelope(envelope) {
        Ok(parts) => parts,
        Err(e) => {
            return Err(e);
        },
    };
    let mut key = match argon2_derive_key(passphrase, parts.salt) {
        Ok(key) => key,
        Err(_) => {
            return Err(CryptoError::KeyDerivationFailure);
        },
    };
    let plaintext = open(suite, key.as_slice(), parts.nonce, parts.sealed);
    wipe(&mut key);
    plaintext
}

/// Encrypts `plaintext` under `password` with a fresh random salt and nonce.
///
/// The input is looked at first: what [`refused_input`] names is refused
/// with that error. After that only the random generator can fail. The
/// envelope is the plaintext's length plus 51 bytes long, and [`decrypt`]
/// under the same password returns the plaintext.
pub fn encrypt(suite: CipherSuite, plaintext: &[u8], password: &str) -> (envelope: Result<
    Vec<u8>,
    CryptoError,
>)
    ensures
        envelope is Ok ==> refused_input(plaintext@, password.spec_bytes()) is None,
        envelope matches Err(e) ==> e == refusal_or_random_failure(
            refused_input(plaintext@, password.spec_bytes()),
        ),
        envelope matches Ok(bytes) ==> {
            &&& seals(suite, bytes@, plaintext@, password.spec_bytes())
            &&& bytes@.len() == 1 + SALT_LEN + NONCE_LEN + plaintext@.len() + TAG_LEN
            &&& opened_envelope(suite, bytes@, password.spec_bytes()) == Ok::<
                Seq<u8>,
                CryptoError,
            >(plaintext@)
        },
{
    let passphrase = password.as_bytes();
    if passphrase.len() as u64 > ARGON2_MAX_INPUT_LEN {
        return Err(CryptoError::KeyDerivationFailure);
    }
    if plaintext.len() as u64 > MAX_PLAINTEXT_LEN {
        return Err(CryptoError::PlaintextTooLong);
    }
    let salt = match draw_salt() {
        Ok(salt) => salt,
        Err(e) => {
            return Err(e);
        },
    };
    let nonce = match draw_bytes(NONCE_LEN) {
        Ok(nonce) => nonce,
        Err(e) => {
            return Err(e);
        },
    };
    seal_envelope(suite, plaintext, passphrase, salt.as_slice(), nonce.as_slice())
}

/// Decrypts `encrypted_data` under `password`. See [`open_envelope`].
pub fn decrypt(suite: CipherSuite, encrypted_data: &[u8], password: &str) -> (plaintext: Result<
    Vec<u8>,
    CryptoError,
>)
    ensures
        match plaintext {
            Ok(bytes) => opened_envelope(suite, encrypted_data@, password.spec_bytes()) == Ok::<
                Seq<u8>,
                CryptoError,
            >(bytes@),
            Err(e) => opened_envelope(suite, encrypted_data@, password.spec_bytes()) == Err::<
                Seq<u8>,
                CryptoError,
            >(e),
        },
        encrypted_data@.len() < MIN_ENVELOPE_LEN ==> plaintext == Err::<Vec<u8>, CryptoError>(
            CryptoError::MalformedEnvelope,
        ),
{
    open_envelope(suite, encrypted_data, password.as_bytes())
}

/// Shortest input that is taken for a raw-key envelope: a nonce and the
/// tag of an empty plaintext.
pub const MIN_KEYED_ENVELOPE_LEN: usize = 28;

/// What sealing `plaintext` under the raw key `key` with `nonce` yields: the
/// nonce, then ciphertext and tag.
pub open spec fn sealed_with_key(
    suite: CipherSuite,
    plaintext: Seq<u8>,
    key: Seq<u8>,
    nonce: Seq<u8>,
) -> Result<Seq<u8>, CryptoError> {
    if plaintext.len() > MAX_PLAINTEXT_LEN {
        Err(CryptoError::PlaintextTooLong)
    } else {
        Ok(nonce + sealed_text(suite, key, nonce, plaintext))
    }
}

/// What opening the raw-key envelope `envelope` under `key` yields.
pub open spec fn opened_with_key(suite: CipherSuite, envelope: Seq<u8>, key: Seq<u8>) -> Result<
    Seq<u8>,
    CryptoError,
> {
    if envelope.len() < MIN_KEYED_ENVELOPE_LEN {
        Err(CryptoError::MalformedEnvelope)
    } else {
        match opened_text(
            suite,
            key,
            envelope.subrange(0, NONCE_LEN as int),
            envelope.subrange(NONCE_LEN as int, envelope.len() as int),
        ) {
            Some(plaintext) => Ok(plaintext),
            None => Err(CryptoError::AuthenticationFailure),
        }
    }
}

/// The round trip under a raw key: what was sealed under a key opens to the
/// plaintext under the same key.
pub proof fn lemma_sealed_with_key_opens(
    suite: CipherSuite,
    plaintext: Seq<u8>,
    key: Seq<u8>,
    nonce: Seq<u8>,
)
    requires
        nonce.len() == NONCE_LEN,
        sealed_with_key(suite, plaintext, key, nonce) is Ok,
    ensures
        opened_with_key(suite, sealed_with_key(suite, plaintext, key, nonce)->Ok_0, key) == Ok::<
            Seq<u8>,
            CryptoError,
        >(plaintext),
{
    let sealed = sealed_text(suite, key, nonce, plaintext);
    let envelope = nonce + sealed;
    lemma_open_undoes_seal(suite, key, nonce, plaintext);
    assert(envelope.subrange(0, NONCE_LEN as int) =~= nonce);
    assert(envelope.subrange(NONCE_LEN as int, envelope.len() as int) =~= sealed);
}

/// Seals `plaintext` under the raw key `key` with the nonce given. The
/// caller answers for the nonce never repeating under that key.
pub fn seal_with_key(suite: CipherSuite, plaintext: &[u8], key: &[u8; 32], nonce: &[u8]) -> (envelope:
    Result<Vec<u8>, CryptoError>)
    requires
        nonce@.len() == NONCE_LEN,
    ensures
        match envelope {
            Ok(bytes) => sealed_with_key(suite, plaintext@, key@, nonce@) == Ok::<
                Seq<u8>,
                CryptoError,
            >(bytes@),
            Err(e) => sealed_with_key(suite, plaintext@, key@, nonce@) == Err::<
                Seq<u8>,
                CryptoError,
            >(e),
        },
        envelope matches Ok(bytes) ==> {
            &&& bytes@.len() == NONCE_LEN + plaintext@.len() + TAG_LEN
            &&& opened_with_key(suite, bytes@, key@) == Ok::<Seq<u8>, CryptoError>(plaintext@)
        },
{
    let sealed = match seal(suite, key.as_slice(), nonce, plaintext) {
        Ok(sealed) => sealed,
        Err(e) => {
            return Err(e);
        },
    };
    let mut envelope: Vec<u8> = Vec::new();
    append_bytes(&mut envelope, nonce);
    append_bytes(&mut envelope, sealed.as_slice());
    proof {
        assert(envelope@.subrange(0, NONCE_LEN as int) =~= nonce@);
        assert(envelope@.subrange(NONCE_LEN as int, envelope@.len() as int) =~= sealed@);
    }
    Ok(envelope)
}

/// Encrypts `plaintext` under the raw key `key` with a fresh random nonce.
///
/// A plaintext of more than [`MAX_PLAINTEXT_LEN`] bytes is refused. After
/// that only the random generator can fail. The result starts with the nonce
/// and [`decrypt_with_key`] under the same key returns the plaintext.
pub fn encrypt_with_key(suite: CipherSuite, plaintext: &[u8], key: &[u8; 32]) -> (envelope: Result<
    Vec<u8>,
    CryptoError,
>)
    ensures
        envelope is Ok ==> plaintext@.len() <= MAX_PLAINTEXT_LEN,
        envelope matches Err(e) ==> e == (if plaintext@.len() > MAX_PLAINTEXT_LEN {
            CryptoError::PlaintextTooLong
        } else {
            CryptoError::RandomSourceFailure
        }),
        envelope matches Ok(bytes) ==> {
            &&& bytes@.len() == NONCE_LEN + plaintext@.len() + TAG_LEN
            &&& sealed_with_key(suite, plaintext@, key@, bytes@.subrange(0, NONCE_LEN as int))
                == Ok::<Seq<u8>, CryptoError>(bytes@)
            &&& opened_with_key(suite, bytes@, key@) == Ok::<Seq<u8>, CryptoError>(plaintext@)
        },
{
    if plaintext.len() as u64 > MAX_PLAINTEXT_LEN {
        return Err(CryptoError::PlaintextTooLong);
    }
    let nonce = match draw_bytes(NONCE_LEN) {
        Ok(nonce) => nonce,
        Err(e) => {
            return Err(e);
        },
    };
    let envelope = seal_with_key(suite, plaintext, key, nonce.as_slice());
    proof {
        if envelope is Ok {
            assert(envelope->Ok_0@.subrange(0, NONCE_LEN as int) =~= nonce@);
        }
    }
    envelope
}

/// Decrypts the raw-key envelope `encrypted_data` under `key`.
///
/// An input shorter than [`MIN_KEYED_ENVELOPE_LEN`] is malformed. Otherwise
/// the plaintext is returned exactly where the tag matches.
pub fn decrypt_with_key(suite: CipherSuite, encrypted_data: &[u8], key: &[u8; 32]) -> (plaintext:
    Result<Vec<u8>, CryptoError>)
    ensures
        match plaintext {
            Ok(bytes) => opened_with_key(suite, encrypted_data@, key@) == Ok::<
                Seq<u8>,
                CryptoError,
            >(bytes@),
            Err(e) => opened_with_key(suite, encrypted_data@, key@) == Err::<
                Seq<u8>,
                CryptoError,
            >(e),
        },
{
    if encrypted_data.len() < MIN_KEYED_ENVELOPE_LEN {
        return Err(CryptoError::MalformedEnvelope);
    }
    let nonce = slice_subrange(encrypted_data, 0, NONCE_LEN);
    let sealed = slice_subrange(encrypted_data, NONCE_LEN, encrypted_data.len());
    open(suite, key.as_slice(), nonce, sealed)
}

/// A fresh random 32-byte key, for callers who manage keys themselves.
///
/// Fails only where the random generator fails.
pub fn generate_random_key() -> (key: Result<[u8; 32], CryptoError>)
    ensures
        key matches Err(e) ==> e == CryptoError::RandomSourceFailure,
{
    let mut bytes = match draw_bytes(32) {
        Ok(bytes) => bytes,
        Err(e) => {
            return Err(e);
        },
    };
    let key = array_from_slice(bytes.as_slice());
    wipe(&mut bytes);
    Ok(key)
}

} // verus!
