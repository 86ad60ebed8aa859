//! What an encryption service decides between receiving a request and
//! answering it: which algorithm is meant, whether the request is complete,
//! and what attests to the result. Transport and storage are the caller's.

use crate::aead::{CipherSuite, MAX_PLAINTEXT_LEN};
use crate::curve::{p256_decode_point, p256_public_key, PRIVATE_KEY_LEN};
use crate::digest::{sha256, sha256_digest};
use crate::ecc::opened_hybrid;
use crate::encoding::{base64_encode, base64_standard, hex_lower, to_hex};
use crate::error::CryptoError;
use crate::kdf::ARGON2_MAX_INPUT_LEN;
use crate::symmetric::opened_envelope;
use crate::text::str_equals;
use vstd::prelude::*;
use vstd::string::{StringExecFns, StringSliceAdditionalSpecFns};

verus! {

/// The algorithms a request may name.
#[derive(Clone, Copy, Debug, PartialEq, Eq, Structural)]
pub enum Algorithm {
    Aes,
    Chacha,
    Ecc,
}

/// Why a request is not served.
#[derive(Clone, Copy, Debug, PartialEq, Eq, Structural)]
pub enum RequestFailure {
    /// The algorithm is none of `aes`, `chacha` and `ecc`.
    InvalidAlgorithm,
    /// An `ecc` encryption came without a public key.
    MissingPublicKey,
    /// An `ecc` decryption came without a private key.
    MissingPrivateKey,
    /// Encrypting failed.
    Encryption(CryptoError),
    /// Decrypting failed.
    Decryption(CryptoError),
}

/// The algorithm that goes by `name`.
pub open spec fn algorithm_named(name: Seq<char>) -> Option<Algorithm> {
    if name == "aes"@ {
        Some(Algorithm::Aes)
    } else if name == "chacha"@ {
        Some(Algorithm::Chacha)
    } else if name == "ecc"@ {
        Some(Algorithm::Ecc)
    } else {
        None
    }
}

impl Algorithm {
    /// The algorithm that goes by `name`, if there is one.
    pub fn from_name(name: &str) -> (algorithm: Option<Algorithm>)
        ensures
            algorithm == algorithm_named(name@),
    {
        if str_equals(name, "aes") {
            Some(Algorithm::Aes)
        } else if str_equals(name, "chacha") {
            Some(Algorithm::Chacha)
        } else if str_equals(name, "ecc") {
            Some(Algorithm::Ecc)
        } else {
            None
        }
    }
}

impl RequestFailure {
    /// Whether the fault lies with the request rather than with the service.
    pub open spec fn is_bad_request(self) -> bool {
        self is InvalidAlgorithm || self is MissingPublicKey || self is MissingPrivateKey
    }

    /// The status to answer with: 400 for a faulty request, 500 otherwise.
    pub fn status(&self) -> (code: u16)
        ensures
            code == (if self.is_bad_request() {
                400u16
            } else {
                500u16
            }),
    {
        match self {
            RequestFailure::InvalidAlgorithm => 400,
            RequestFailure::MissingPublicKey => 400,
            RequestFailure::MissingPrivateKey => 400,
            RequestFailure::Encryption(_) => 500,
            RequestFailure::Decryption(_) => 500,
        }
    }

    /// The text of the message that belongs to each failure.
    pub open spec fn message_text(self) -> Seq<char> {
        match self {
            RequestFailure::InvalidAlgorithm => "Invalid algorithm (use 'aes', 'chacha', or 'ecc')"@,
            RequestFailure::MissingPublicKey => "ECC requires public_key field"@,
            RequestFailure::MissingPrivateKey => "ECC requires private_key field"@,
            RequestFailure::Encryption(e) => "Encryption error: "@ + e.message_text(),
            RequestFailure::Decryption(e) => "Decryption error: "@ + e.message_text(),
        }
    }

    /// The message to answer with.
    pub fn message(&self) -> (text: String)
        ensures
            text@ == self.message_text(),
    {
        match self {
            RequestFailure::InvalidAlgorithm => String::from_str(
                "Invalid algorithm (use 'aes', 'chacha', or 'ecc')",
            ),
            RequestFailure::MissingPublicKey => String::from_str("ECC requires public_key field"),
            RequestFailure::MissingPrivateKey => String::from_str(
                "ECC requires private_key field",
            ),
            RequestFailure::Encryption(e) => String::from_str("Encryption error: ").concat(
                e.message().as_str(),
            ),
            RequestFailure::Decryption(e) => String::from_str("Decryption error: ").concat(
                e.message().as_str(),
            ),
        }
    }
}

/// The SHA-256 digest of `data` in lower-case hexadecimal.
pub fn hash_file(data: &[u8]) -> (hash: String)
    ensures
        hash@ == hex_lower(sha256(data@)@),
{
    let digest = sha256_digest(data);
    to_hex(digest.as_slice())
}

/// The attestation of `user_data`: its SHA-256 digest in base 64.
pub fn generate_attestation(user_data: &str) -> (attestation: String)
    ensures
        attestation@ == base64_standard(sha256(user_data.spec_bytes())@),
{
    let digest = sha256_digest(user_data.as_bytes());
    base64_encode(digest.as_slice())
}

/// What an encryption is attested by: the blob's id and the hash of the
/// stored bytes, joined by a colon.
pub fn encryption_statement(blob_id: &str, file_hash: &str) -> (statement: String)
    ensures
        statement@ == blob_id@ + ":"@ + file_hash@,
{
    String::from_str(blob_id).concat(":").concat(file_hash)
}

/// What a decryption is attested by: the blob's id after `decrypt:`.
pub fn decryption_statement(blob_id: &str) -> (statement: String)
    ensures
        statement@ == "decrypt:"@ + blob_id@,
{
    String::from_str("decrypt:").concat(blob_id)
}

/// Which failure an encryption request ends in before any key is derived,
/// if any: an unknown algorithm, a missing or invalid public key, or an
/// input that is too long.
pub open spec fn encryption_refusal(
    file_data: Seq<u8>,
    password: Seq<u8>,
    algorithm: Seq<char>,
    public_key: Option<Seq<u8>>,
) -> Option<RequestFailure> {
    match algorithm_named(algorithm) {
        None => Some(RequestFailure::InvalidAlgorithm),
        Some(Algorithm::Ecc) => match public_key {
            None => Some(RequestFailure::MissingPublicKey),
            Some(key) => if p256_decode_point(key) is None {
                Some(RequestFailure::Encryption(CryptoError::InvalidKey))
            } else {
                None
            },
        },
        Some(_) => if password.len() > ARGON2_MAX_INPUT_LEN {
            Some(RequestFailure::Encryption(CryptoError::KeyDerivationFailure))
        } else if file_data.len() > MAX_PLAINTEXT_LEN {
            Some(RequestFailure::Encryption(CryptoError::PlaintextTooLong))
        } else {
            None
        },
    }
}

/// What a decryption request yields.
pub open spec fn decrypted_request(
    encrypted: Seq<u8>,
    password: Seq<u8>,
    algorithm: Seq<char>,
    private_key: Option<Seq<u8>>,
) -> Result<Seq<u8>, RequestFailure> {
    match algorithm_named(algorithm) {
        None => Err(RequestFailure::InvalidAlgorithm),
        Some(Algorithm::Ecc) => match private_key {
            None => Err(RequestFailure::MissingPrivateKey),
            Some(key) => match opened_hybrid(encrypted, key) {
                Ok(plaintext) => Ok(plaintext),
                Err(e) => Err(RequestFailure::Decryption(e)),
            },
        },
        Some(symmetric) => match opened_envelope(suite_of(symmetric), encrypted, password) {
            Ok(plaintext) => Ok(plaintext),
            Err(e) => Err(RequestFailure::Decryption(e)),
        },
    }
}

/// The AEAD suite of a symmetric algorithm.
pub open spec fn suite_of(algorithm: Algorithm) -> CipherSuite {
    match algorithm {
        Algorithm::Chacha => CipherSuite::ChaCha20Poly1305,
        _ => CipherSuite::Aes256Gcm,
    }
}

/// What the recipient of an encryption request's result recovers from it:
/// under `aes` and `chacha` whoever knows the password, under `ecc` whoever
/// holds the scalar of the public key.
pub open spec fn recovers(
    envelope: Seq<u8>,
    file_data: Seq<u8>,
    password: Seq<u8>,
    algorithm: Algorithm,
    public_key: Option<Seq<u8>>,
) -> bool {
    match algorithm {
        Algorithm::Ecc => forall|recipient_private_key: Seq<u8>|
            recipient_private_key.len() == PRIVATE_KEY_LEN && #[trigger] p256_public_key(
                recipient_private_key,
            ) == p256_decode_point(public_key->0) ==> opened_hybrid(
                envelope,
                recipient_private_key,
            ) == Ok::<Seq<u8>, CryptoError>(file_data),
        _ => opened_envelope(suite_of(algorithm), envelope, password) == Ok::<
            Seq<u8>,
            CryptoError,
        >(file_data),
    }
}

/// Serves an encryption request: encrypts `file_data` with the algorithm
/// named, under `password` or, for `ecc`, to `public_key`.
///
/// The request is refused exactly as [`encryption_refusal`] says. After
/// that only the random generator can fail, and the envelope gives the data
/// back as [`recovers`] says.
pub fn encrypt_request(
    file_data: &[u8],
    password: &str,
    algorithm: &str,
    public_key: Option<&[u8]>,
) -> (envelope: Result<Vec<u8>, RequestFailure>)
    ensures
        match envelope {
            Ok(bytes) => {
                &&& encryption_refusal(
                    file_data@,
                    password.spec_bytes(),
                    algorithm@,
                    bytes_of(public_key),
                ) is None
                &&& recovers(
                    bytes@,
                    file_data@,
                    password.spec_bytes(),
                    algorithm_named(algorithm@)->0,
                    bytes_of(public_key),
                )
            },
            Err(failure) => failure == (match encryption_refusal(
                file_data@,
                password.spec_bytes(),
                algorithm@,
                bytes_of(public_key),
            ) {
                Some(refusal) => refusal,
                None => RequestFailure::Encryption(CryptoError::RandomSourceFailure),
            }),
        },
{
    let outcome = match Algorithm::from_name(algorithm) {
        None => {
            return Err(RequestFailure::InvalidAlgorithm);
        },
        Some(Algorithm::Aes) => crate::symmetric::encrypt(
            CipherSuite::Aes256Gcm,
            file_data,
            password,
        ),
        Some(Algorithm::Chacha) => crate::symmetric::encrypt(
            CipherSuite::ChaCha20Poly1305,
            file_data,
            password,
        ),
        Some(Algorithm::Ecc) => match public_key {
            None => {
                return Err(RequestFailure::MissingPublicKey);
            },
            Some(key) => crate::encrypt_file_ecc(file_data, key),
        },
    };
    match outcome {
        Ok(bytes) => Ok(bytes),
        Err(e) => Err(RequestFailure::Encryption(e)),
    }
}

/// The bytes of an optional buffer.
pub open spec fn bytes_of(buffer: Option<&[u8]>) -> Option<Seq<u8>> {
    match buffer {
        Some(bytes) => Some(bytes@),
        None => None,
    }
}

/// Serves a decryption request: decrypts `encrypted` with the algorithm
/// named, under `password` or, for `ecc`, with `private_key`.
pub fn decrypt_request(
    encrypted: &[u8],
    password: &str,
    algorithm: &str,
    private_key: Option<&[u8]>,
) -> (plaintext: Result<Vec<u8>, RequestFailure>)
    ensures
        match plaintext {
            Ok(bytes) => decrypted_request(
                encrypted@,
                password.spec_bytes(),
                algorithm@,
                bytes_of(private_key),
            ) == Ok::<Seq<u8>, RequestFailure>(bytes@),
            Err(failure) => decrypted_request(
                encrypted@,
                password.spec_bytes(),
                algorithm@,
                bytes_of(private_key),
            ) == Err::<Seq<u8>, RequestFailure>(failure),
        },
{
    let outcome = match Algorithm::from_name(algorithm) {
        None => {
            return Err(RequestFailure::InvalidAlgorithm);
        },
        Some(Algorithm::Aes) => crate::symmetric::decrypt(
            CipherSuite::Aes256Gcm,
            encrypted,
            password,
        ),
        Some(Algorithm::Chacha) => crate::symmetric::decrypt(
            CipherSuite::ChaCha20Poly1305,
            encrypted,
            password,
        ),
        Some(Algorithm::Ecc) => match private_key {
            None => {
                return Err(RequestFailure::MissingPrivateKey);
            },
            Some(key) => crate::decrypt_file_ecc(encrypted, key),
        },
    };
    match outcome {
        Ok(bytes) => Ok(bytes),
        Err(e) => Err(RequestFailure::Decryption(e)),
    }
}

} // verus!
