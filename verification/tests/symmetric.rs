use mothrbox::aead::CipherSuite;
use mothrbox::aes::AESEncryption;
use mothrbox::chacha::ChaChaEncryption;
use mothrbox::error::CryptoError;
use mothrbox::symmetric::{
    assemble_envelope, open_envelope, seal_envelope, seal_with_key, split_envelope,
};

use aes_gcm::aead::{Aead, KeyInit};

const PASSPHRASE: &str = "correct horse battery staple";

#[test]
fn hello_world_scenario() {
    let envelope = AESEncryption::encrypt(b"hello world", PASSPHRASE).unwrap();
    let salt_len = envelope[0] as usize;
    assert_eq!(salt_len, 22);
    assert_eq!(envelope.len(), 1 + salt_len + 12 + 11 + 16);
    assert_eq!(AESEncryption::decrypt(&envelope, PASSPHRASE), Ok(b"hello world".to_vec()));
    assert_eq!(
        AESEncryption::decrypt(&envelope, "wrong password"),
        Err(CryptoError::AuthenticationFailure)
    );
}

#[test]
fn chacha_round_trip() {
    let envelope = ChaChaEncryption::encrypt(b"hello world", PASSPHRASE).unwrap();
    assert_eq!(envelope.len(), 1 + 22 + 12 + 11 + 16);
    assert_eq!(ChaChaEncryption::decrypt(&envelope, PASSPHRASE), Ok(b"hello world".to_vec()));
    assert_eq!(
        ChaChaEncryption::decrypt(&envelope, "wrong password"),
        Err(CryptoError::AuthenticationFailure)
    );
}

#[test]
fn empty_plaintext_round_trips() {
    let envelope = AESEncryption::encrypt(b"", "pw").unwrap();
    assert_eq!(envelope.len(), 51);
    assert_eq!(AESEncryption::decrypt(&envelope, "pw"), Ok(Vec::new()));
    let envelope = ChaChaEncryption::encrypt(b"", "pw").unwrap();
    assert_eq!(envelope.len(), 51);
    assert_eq!(ChaChaEncryption::decrypt(&envelope, "pw"), Ok(Vec::new()));
}

#[test]
fn suites_are_not_interchangeable_on_one_envelope() {
    let envelope = AESEncryption::encrypt(b"data", "pw").unwrap();
    assert_eq!(ChaChaEncryption::decrypt(&envelope, "pw"), Err(CryptoError::AuthenticationFailure));
}

#[test]
fn two_encryptions_differ() {
    let first = AESEncryption::encrypt(b"same", "pw").unwrap();
    let second = AESEncryption::encrypt(b"same", "pw").unwrap();
    assert_ne!(first, second);
    assert_ne!(first[1..23], second[1..23]);
    assert_ne!(first[23..35], second[23..35]);
}

#[test]
fn short_input_is_malformed() {
    for len in [0usize, 1, 12, 29, 30, 36] {
        let data = vec![8u8; len];
        assert_eq!(AESEncryption::decrypt(&data, "pw"), Err(CryptoError::MalformedEnvelope));
        assert_eq!(ChaChaEncryption::decrypt(&data, "pw"), Err(CryptoError::MalformedEnvelope));
    }
}

#[test]
fn salt_length_past_the_buffer_is_malformed() {
    let mut data = vec![0u8; 60];
    data[0] = 32;
    assert_eq!(AESEncryption::decrypt(&data, "pw"), Err(CryptoError::MalformedEnvelope));
    data[0] = 255;
    assert_eq!(AESEncryption::decrypt(&data, "pw"), Err(CryptoError::MalformedEnvelope));
    data[0] = 31;
    assert_eq!(AESEncryption::decrypt(&data, "pw"), Err(CryptoError::AuthenticationFailure));
}

#[test]
fn salt_too_short_for_the_derivation() {
    let mut data = vec![0u8; 60];
    data[0] = 7;
    assert_eq!(AESEncryption::decrypt(&data, "pw"), Err(CryptoError::KeyDerivationFailure));
    data[0] = 8;
    assert_eq!(AESEncryption::decrypt(&data, "pw"), Err(CryptoError::AuthenticationFailure));
    assert_eq!(AESEncryption::decrypt(&data[..37], "pw"), Err(CryptoError::AuthenticationFailure));
    assert_eq!(AESEncryption::decrypt(&data[..36], "pw"), Err(CryptoError::MalformedEnvelope));
    data[0] = 1;
    assert_eq!(AESEncryption::decrypt(&data[..36], "pw"), Err(CryptoError::MalformedEnvelope));
    assert_eq!(AESEncryption::decrypt(&data[..37], "pw"), Err(CryptoError::KeyDerivationFailure));
}

#[test]
fn flipped_bits_are_detected() {
    let envelope = AESEncryption::encrypt(b"hello world", PASSPHRASE).unwrap();
    let last = envelope.len() - 1;
    for (position, bit) in [(1usize, 0u8), (22, 7), (23, 3), (35, 1), (last, 6)] {
        let mut tampered = envelope.clone();
        tampered[position] ^= 1 << bit;
        assert_eq!(
            AESEncryption::decrypt(&tampered, PASSPHRASE),
            Err(CryptoError::AuthenticationFailure),
            "byte {position}, bit {bit}"
        );
    }
}

#[test]
fn every_flipped_bit_is_detected_under_a_raw_key() {
    let key = [11u8; 32];
    for suite in [CipherSuite::Aes256Gcm, CipherSuite::ChaCha20Poly1305] {
        let envelope = seal_with_key(suite, b"hello world", &key, &[4u8; 12]).unwrap();
        for position in 0..envelope.len() {
            for bit in 0..8 {
                let mut tampered = envelope.clone();
                tampered[position] ^= 1 << bit;
                assert_eq!(
                    mothrbox::symmetric::decrypt_with_key(suite, &tampered, &key),
                    Err(CryptoError::AuthenticationFailure),
                    "byte {position}, bit {bit}"
                );
            }
        }
    }
}

#[test]
fn flipped_length_byte_is_never_accepted() {
    let envelope = AESEncryption::encrypt(b"hello world", PASSPHRASE).unwrap();
    for bit in [0u8, 3, 7] {
        let mut tampered = envelope.clone();
        tampered[0] ^= 1 << bit;
        assert!(AESEncryption::decrypt(&tampered, PASSPHRASE).is_err());
    }
}

#[test]
fn split_and_assemble_agree() {
    let salt = [1u8, 2, 3, 4, 5, 6, 7, 8];
    let nonce = [9u8; 12];
    let sealed = [7u8; 20];
    let envelope = assemble_envelope(&salt, &nonce, &sealed);
    assert_eq!(envelope.len(), 1 + 8 + 12 + 20);
    assert_eq!(envelope[0], 8);
    let parts = split_envelope(&envelope).unwrap();
    assert_eq!(parts.salt, &salt[..]);
    assert_eq!(parts.nonce, &nonce[..]);
    assert_eq!(parts.sealed, &sealed[..]);
}

#[test]
fn sealing_is_a_function_of_salt_and_nonce() {
    let salt = b"0123456789abcdef";
    let nonce = [3u8; 12];
    let first =
        seal_envelope(CipherSuite::Aes256Gcm, b"hello", b"pw", salt, &nonce).unwrap();
    let second =
        seal_envelope(CipherSuite::Aes256Gcm, b"hello", b"pw", salt, &nonce).unwrap();
    assert_eq!(first, second);
    assert_eq!(first.len(), 1 + 16 + 12 + 5 + 16);
    assert_eq!(&first[1..17], salt);
    assert_eq!(&first[17..29], &nonce);
    assert_ne!(&first[29..34], b"hello");
    assert_eq!(open_envelope(CipherSuite::Aes256Gcm, &first, b"pw"), Ok(b"hello".to_vec()));
    let other = seal_envelope(CipherSuite::ChaCha20Poly1305, b"hello", b"pw", salt, &nonce)
        .unwrap();
    assert_ne!(first, other);
    assert_eq!(open_envelope(CipherSuite::ChaCha20Poly1305, &other, b"pw"), Ok(b"hello".to_vec()));
}

#[test]
fn sealing_with_a_short_salt_fails() {
    assert_eq!(
        seal_envelope(CipherSuite::Aes256Gcm, b"hello", b"pw", b"1234567", &[0u8; 12]),
        Err(CryptoError::KeyDerivationFailure)
    );
}

#[test]
fn aes_gcm_known_answer() {
    // NIST GCM test case 14: zero key, zero nonce, one zero block.
    let envelope =
        seal_with_key(CipherSuite::Aes256Gcm, &[0u8; 16], &[0u8; 32], &[0u8; 12]).unwrap();
    let expected: [u8; 32] = [
        0xce, 0xa7, 0x40, 0x3d, 0x4d, 0x60, 0x6b, 0x6e, 0x07, 0x4e, 0xc5, 0xd3, 0xba, 0xf3, 0x9d,
        0x18, 0xd0, 0xd1, 0xc8, 0xa7, 0x99, 0x99, 0x6b, 0xf0, 0x26, 0x5b, 0x98, 0xb5, 0xd4, 0x8a,
        0xb9, 0x19,
    ];
    assert_eq!(&envelope[..12], &[0u8; 12]);
    assert_eq!(&envelope[12..], &expected);
}

#[test]
fn raw_key_round_trip() {
    let key = AESEncryption::generate_random_key().unwrap();
    let envelope = AESEncryption::encrypt_with_key(b"hello world", &key).unwrap();
    assert_eq!(envelope.len(), 12 + 11 + 16);
    assert_eq!(AESEncryption::decrypt_with_key(&envelope, &key), Ok(b"hello world".to_vec()));
    let other = AESEncryption::generate_random_key().unwrap();
    assert_ne!(key, other);
    assert_eq!(
        AESEncryption::decrypt_with_key(&envelope, &other),
        Err(CryptoError::AuthenticationFailure)
    );
    assert_eq!(
        AESEncryption::decrypt_with_key(&envelope[..27], &key),
        Err(CryptoError::MalformedEnvelope)
    );
}

#[test]
fn slice_keys_are_checked_for_length() {
    assert_eq!(mothrbox::aes::encrypt(b"data", &[0u8; 31]), Err(CryptoError::InvalidKey));
    assert_eq!(mothrbox::chacha::encrypt(b"data", &[0u8; 33]), Err(CryptoError::InvalidKey));
    let key = [5u8; 32];
    let envelope = mothrbox::aes::encrypt(b"data", &key).unwrap();
    assert_eq!(AESEncryption::decrypt_with_key(&envelope, &key), Ok(b"data".to_vec()));
    let envelope = mothrbox::chacha::encrypt(b"data", &key).unwrap();
    assert_eq!(envelope.len(), 24 + 4 + 16);
}

#[test]
fn symmetric_envelope_matches_the_primitives() {
    let salt = b"saltsaltsaltsalt";
    let nonce = [6u8; 12];
    let mut key = [0u8; 32];
    argon2::Argon2::default().hash_password_into(b"passphrase", salt, &mut key).unwrap();

    let sealed = aes_gcm::Aes256Gcm::new((&key).into())
        .encrypt(aes_gcm::Nonce::from_slice(&nonce), &b"payload"[..])
        .unwrap();
    let mut expected = vec![16u8];
    expected.extend_from_slice(salt);
    expected.extend_from_slice(&nonce);
    expected.extend_from_slice(&sealed);
    assert_eq!(
        seal_envelope(CipherSuite::Aes256Gcm, b"payload", b"passphrase", salt, &nonce),
        Ok(expected)
    );

    let sealed = chacha20poly1305::ChaCha20Poly1305::new((&key).into())
        .encrypt(chacha20poly1305::Nonce::from_slice(&nonce), &b"payload"[..])
        .unwrap();
    let mut expected = vec![16u8];
    expected.extend_from_slice(salt);
    expected.extend_from_slice(&nonce);
    expected.extend_from_slice(&sealed);
    assert_eq!(
        seal_envelope(CipherSuite::ChaCha20Poly1305, b"payload", b"passphrase", salt, &nonce),
        Ok(expected)
    );
}

#[test]
fn extended_nonce_matches_the_primitive() {
    let key = [5u8; 32];
    let nonce = [2u8; 24];
    let sealed = chacha20poly1305::XChaCha20Poly1305::new((&key).into())
        .encrypt(chacha20poly1305::XNonce::from_slice(&nonce), &b"payload"[..])
        .unwrap();
    let mut expected = nonce.to_vec();
    expected.extend_from_slice(&sealed);
    assert_eq!(mothrbox::chacha::seal_extended(b"payload", &key, &nonce), Ok(expected));
    assert_eq!(
        mothrbox::chacha::seal_extended(b"payload", &key[..16], &nonce),
        Err(CryptoError::InvalidKey)
    );
}

#[test]
fn generated_salts_are_accepted_text() {
    let envelope = AESEncryption::encrypt(b"", "pw").unwrap();
    let parts = split_envelope(&envelope).unwrap();
    assert_eq!(parts.salt.len(), 22);
    assert!(parts.salt.iter().all(|b| b.is_ascii_alphanumeric() || *b == b'+' || *b == b'/'));
    assert_eq!(parts.nonce.len(), 12);
    assert_eq!(parts.sealed.len(), 16);
}
