use mothrbox::aead::CipherSuite;
use mothrbox::bindings::ecc_generate_key;
use mothrbox::blob::{blob_with_nonce, encrypt_blob, mock_encrypt};
use mothrbox::enclave::{
    decrypt_request, decryption_statement, encrypt_request, encryption_statement,
    generate_attestation, hash_file, Algorithm, RequestFailure,
};
use mothrbox::encoding::{hex_decode, to_hex};
use mothrbox::error::CryptoError;
use mothrbox::sealed_box::{encrypt_to_public_key, seal_box};
use mothrbox::text::{starts_with, str_equals, strip_prefix, to_chars, trim_start_matches};
use mothrbox::walrus::{encrypted_path, internal_output_path};
use mothrbox::{decrypt_file, encrypt_file};

use aes_gcm::aead::{Aead, KeyInit};

#[test]
fn unified_interface_dispatches_on_the_name() {
    for name in ["aes", "chacha"] {
        let envelope = encrypt_file(b"contents", "pw", name).unwrap();
        assert_eq!(envelope.len(), 8 + 51);
        assert_eq!(decrypt_file(&envelope, "pw", name), Ok(b"contents".to_vec()));
    }
    let envelope = encrypt_file(b"contents", "pw", "aes").unwrap();
    assert_eq!(decrypt_file(&envelope, "pw", "chacha"), Err(CryptoError::AuthenticationFailure));
    assert_eq!(encrypt_file(b"contents", "pw", "AES"), Err(CryptoError::UnknownAlgorithm));
    assert_eq!(encrypt_file(b"contents", "pw", ""), Err(CryptoError::UnknownAlgorithm));
    assert_eq!(decrypt_file(&envelope, "pw", "ecc"), Err(CryptoError::UnknownAlgorithm));
}

#[test]
fn suites_by_name() {
    assert_eq!(CipherSuite::from_name("aes"), Some(CipherSuite::Aes256Gcm));
    assert_eq!(CipherSuite::from_name("chacha"), Some(CipherSuite::ChaCha20Poly1305));
    assert_eq!(CipherSuite::from_name("chacha20"), None);
    assert_eq!(Algorithm::from_name("ecc"), Some(Algorithm::Ecc));
    assert_eq!(Algorithm::from_name("aes"), Some(Algorithm::Aes));
    assert_eq!(Algorithm::from_name("chacha"), Some(Algorithm::Chacha));
    assert_eq!(Algorithm::from_name("rsa"), None);
}

#[test]
fn error_messages() {
    assert_eq!(CryptoError::InvalidKey.message(), "Invalid key");
    assert_eq!(CryptoError::KeyDerivationFailure.message(), "Key derivation failed");
    assert_eq!(
        CryptoError::UnknownAlgorithm.message(),
        "Invalid algorithm (use 'aes' or 'chacha')"
    );
    assert_eq!(
        CryptoError::AuthenticationFailure.message(),
        "Decryption failed (wrong password or key, or corrupted data)"
    );
    assert_eq!(
        CryptoError::MalformedEnvelope.message(),
        "Encrypted data too short or malformed"
    );
    assert_eq!(CryptoError::PlaintextTooLong.message(), "Encryption failed: plaintext too long");
    assert_eq!(CryptoError::RandomSourceFailure.message(), "Random generator failed");
}

#[test]
fn sha256_known_answers() {
    assert_eq!(
        hash_file(b"abc"),
        "ba7816bf8f01cfea414140de5dae2223b00361a396177a9cb410ff61f20015ad"
    );
    assert_eq!(
        hash_file(b""),
        "e3b0c44298fc1c149afbf4c8996fb92427ae41e4649b934ca495991b7852b855"
    );
    assert_eq!(generate_attestation("abc"), "ungWv48Bz+pBQUDeXa4iI7ADYaOWF3qctBD/YfIAFa0=");
    assert_eq!(generate_attestation(""), "47DEQpj8HBSa+/TImW+5JCeuQeRkm5NMpJWZG3hSuFU=");
}

#[test]
fn attested_statements() {
    assert_eq!(encryption_statement("blob", "hash"), "blob:hash");
    assert_eq!(decryption_statement("blob"), "decrypt:blob");
}

#[test]
fn hexadecimal() {
    assert_eq!(to_hex(&[]), "");
    assert_eq!(to_hex(&[0x00, 0x0f, 0xa5, 0xff]), "000fa5ff");
    assert_eq!(hex_decode(b""), Some(vec![]));
    assert_eq!(hex_decode(b"000fA5ff"), Some(vec![0x00, 0x0f, 0xa5, 0xff]));
    assert_eq!(hex_decode(b"09afAF"), Some(vec![0x09, 0xaf, 0xaf]));
    assert_eq!(hex_decode(b"abc"), None);
    assert_eq!(hex_decode(b"0g"), None);
    assert_eq!(hex_decode(b"g0"), None);
    assert_eq!(hex_decode(b"0/"), None);
    assert_eq!(hex_decode(b"0:"), None);
    assert_eq!(hex_decode(b"@0"), None);
    assert_eq!(hex_decode(b"`0"), None);
    assert_eq!(hex_decode(b" 0"), None);
    for text in ["48656c6c6f20776f726c6421", "f9b4ca", "F9B4CA", "f9B4Ca", "123", "foo", "zz"] {
        assert_eq!(hex_decode(text.as_bytes()), hex::decode(text).ok(), "{text}");
    }
}

#[test]
fn request_failures() {
    assert_eq!(
        encrypt_request(b"data", "pw", "rot13", None),
        Err(RequestFailure::InvalidAlgorithm)
    );
    assert_eq!(
        encrypt_request(b"data", "pw", "ecc", None),
        Err(RequestFailure::MissingPublicKey)
    );
    assert_eq!(
        encrypt_request(b"data", "pw", "ecc", Some(&[1, 2, 3])),
        Err(RequestFailure::Encryption(CryptoError::InvalidKey))
    );
    assert_eq!(
        decrypt_request(b"data", "pw", "rot13", None),
        Err(RequestFailure::InvalidAlgorithm)
    );
    assert_eq!(
        decrypt_request(b"data", "pw", "ecc", None),
        Err(RequestFailure::MissingPrivateKey)
    );
    assert_eq!(
        decrypt_request(b"data", "pw", "aes", None),
        Err(RequestFailure::Decryption(CryptoError::MalformedEnvelope))
    );
    assert_eq!(RequestFailure::InvalidAlgorithm.status(), 400);
    assert_eq!(RequestFailure::MissingPublicKey.status(), 400);
    assert_eq!(RequestFailure::MissingPrivateKey.status(), 400);
    assert_eq!(RequestFailure::Encryption(CryptoError::InvalidKey).status(), 500);
    assert_eq!(RequestFailure::Decryption(CryptoError::InvalidKey).status(), 500);
    assert_eq!(
        RequestFailure::InvalidAlgorithm.message(),
        "Invalid algorithm (use 'aes', 'chacha', or 'ecc')"
    );
    assert_eq!(RequestFailure::MissingPublicKey.message(), "ECC requires public_key field");
    assert_eq!(RequestFailure::MissingPrivateKey.message(), "ECC requires private_key field");
    assert_eq!(
        RequestFailure::Encryption(CryptoError::InvalidKey).message(),
        "Encryption error: Invalid key"
    );
    assert_eq!(
        RequestFailure::Decryption(CryptoError::KeyDerivationFailure).message(),
        "Decryption error: Key derivation failed"
    );
}

#[test]
fn requests_round_trip() {
    for name in ["aes", "chacha"] {
        let envelope = encrypt_request(b"data", "pw", name, None).unwrap();
        assert_eq!(decrypt_request(&envelope, "pw", name, None), Ok(b"data".to_vec()));
    }
    let pair = ecc_generate_key().unwrap();
    let envelope = encrypt_request(b"data", "", "ecc", Some(&pair.public_key())).unwrap();
    assert_eq!(
        decrypt_request(&envelope, "", "ecc", Some(&pair.private_key())),
        Ok(b"data".to_vec())
    );
}

#[test]
fn placeholder_cipher_complements() {
    assert_eq!(mock_encrypt(&[0x00, 0xff, 0x0f, 0xa5], "key", &[]), vec![0xff, 0x00, 0xf0, 0x5a]);
    assert_eq!(mock_encrypt(&[], "key", &[1]), Vec::<u8>::new());
    let blob = blob_with_nonce(&[1, 2], "pw", vec![7; 12]);
    assert_eq!(blob.get_data(), vec![0xfe, 0xfd]);
    assert_eq!(blob.get_nonce(), vec![7; 12]);
    let first = encrypt_blob(&[1, 2, 3], "pw").unwrap();
    let second = encrypt_blob(&[1, 2, 3], "pw").unwrap();
    assert_eq!(first.get_data(), vec![0xfe, 0xfd, 0xfc]);
    assert_eq!(first.get_nonce().len(), 12);
    assert_ne!(first.get_nonce(), second.get_nonce());
}

#[test]
fn box_to_a_hexadecimal_key() {
    let pair = ecc_generate_key().unwrap();
    let lower = hex::encode(pair.public_key());
    let upper = lower.to_uppercase();
    for key in [lower.as_str(), upper.as_str()] {
        let sealed = encrypt_to_public_key(b"for your eyes", key).unwrap();
        assert_eq!(sealed.len(), 13 + 93);
        assert_eq!(sealed[0], 0x04);

        let secret = p256::SecretKey::from_slice(&pair.private_key()).unwrap();
        let sender = p256::PublicKey::from_sec1_bytes(&sealed[..65]).unwrap();
        let shared = p256::ecdh::diffie_hellman(secret.to_nonzero_scalar(), sender.as_affine());
        let mut key = [0u8; 32];
        hkdf::Hkdf::<sha2::Sha256>::new(None, shared.raw_secret_bytes())
            .expand(b"mothrbox-ecies", &mut key)
            .unwrap();
        let opened = aes_gcm::Aes256Gcm::new((&key).into())
            .decrypt(aes_gcm::Nonce::from_slice(&sealed[65..77]), &sealed[77..])
            .unwrap();
        assert_eq!(opened, b"for your eyes");
    }
    assert_eq!(encrypt_to_public_key(b"x", "zz"), Err(CryptoError::InvalidKey));
    assert_eq!(encrypt_to_public_key(b"x", "abc"), Err(CryptoError::InvalidKey));
    assert_eq!(encrypt_to_public_key(b"x", "0400"), Err(CryptoError::InvalidKey));
    assert_eq!(encrypt_to_public_key(b"x", ""), Err(CryptoError::InvalidKey));
}

#[test]
fn box_is_a_function_of_key_and_nonce() {
    let pair = ecc_generate_key().unwrap();
    let recipient = mothrbox::ecc::EccPublicKey::from_sec1_bytes(&pair.public_key()).unwrap();
    let mut one_time = [0u8; 32];
    one_time[31] = 3;
    let first = seal_box(b"data", &recipient, &one_time, &[8u8; 12]).unwrap();
    let second = seal_box(b"data", &recipient, &one_time, &[8u8; 12]).unwrap();
    assert_eq!(first, second);
    assert_eq!(&first[65..77], &[8u8; 12]);
    assert_eq!(seal_box(b"data", &recipient, &[0u8; 32], &[8u8; 12]), Err(CryptoError::InvalidKey));
}

#[test]
fn strings() {
    assert!(str_equals("aes", "aes"));
    assert!(!str_equals("aes", "aes "));
    assert!(!str_equals("aes", "aeS"));
    assert!(str_equals("", ""));
    assert!(starts_with("data/x", "data/"));
    assert!(starts_with("data/", "data/"));
    assert!(!starts_with("data", "data/"));
    assert!(starts_with("anything", ""));
    assert_eq!(strip_prefix("/app/x", "/app/"), Some("x"));
    assert_eq!(strip_prefix("/apq/x", "/app/"), None);
    assert_eq!(strip_prefix("é/ü", "é/"), Some("ü"));
    assert_eq!(trim_start_matches("app/app/data", "app/"), "data");
    assert_eq!(trim_start_matches("data", "app/"), "data");
    assert_eq!(trim_start_matches("aaa", "a"), "");
    assert_eq!(trim_start_matches("aaa", ""), "aaa");
    assert_eq!(to_chars("aé\u{1F600}"), vec!['a', 'é', '\u{1F600}']);
    assert_eq!(to_chars(""), Vec::<char>::new());
}

#[test]
fn travelling_paths() {
    assert_eq!(encrypted_path("secret.pdf"), "secret.pdf.enc");
    assert_eq!(internal_output_path("/data/foo.pdf"), "/app/data/foo.pdf");
    assert_eq!(internal_output_path("/app/data/foo.pdf"), "/app/data/foo.pdf");
    assert_eq!(internal_output_path("data/foo.pdf"), "data/foo.pdf");
}
