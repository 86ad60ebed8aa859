use mothrbox::bindings::{ecc_decrypt, ecc_encrypt, ecc_generate_key};
use mothrbox::ecc::{
    assemble_hybrid_envelope, open_hybrid, seal_hybrid, split_hybrid_envelope, ECCEncryption,
    EccPublicKey,
};
use mothrbox::error::CryptoError;
use mothrbox::{decrypt_file_ecc, encrypt_file_ecc};

use aes::cipher::{KeyIvInit, StreamCipher};
use hmac::Mac;

const GENERATOR: &str = "046b17d1f2e12c4247f8bce6e563a440f277037d812deb33a0f4a13945d898c296\
                         4fe342e2fe1a7f9b8ee7eb4a7c0f9e162bce33576b315ececbb6406837bf51f5";

fn scalar(value: u8) -> [u8; 32] {
    let mut bytes = [0u8; 32];
    bytes[31] = value;
    bytes
}

#[test]
fn authenticated_scenario() {
    let (a_private, a_public) = ECCEncryption::generate_keypair().unwrap();
    let (b_private, b_public) = ECCEncryption::generate_keypair().unwrap();
    let (_, c_public) = ECCEncryption::generate_keypair().unwrap();
    let envelope = ECCEncryption::encrypt_authenticated(b"secret", &b_public, &a_private).unwrap();
    assert_eq!(&envelope[2..67], &a_public.to_sec1_bytes()[..]);
    assert_eq!(ECCEncryption::decrypt(&envelope, &b_private), Ok(b"secret".to_vec()));

    let mut replaced = envelope.clone();
    replaced[2..67].copy_from_slice(&c_public.to_sec1_bytes());
    assert_eq!(
        ECCEncryption::decrypt(&replaced, &b_private),
        Err(CryptoError::AuthenticationFailure)
    );

    let mut flipped = envelope.clone();
    flipped[40] ^= 0x01;
    let outcome = ECCEncryption::decrypt(&flipped, &b_private);
    assert!(
        outcome == Err(CryptoError::InvalidKey)
            || outcome == Err(CryptoError::AuthenticationFailure)
    );
}

#[test]
fn anonymous_round_trip() {
    let (private, public) = ECCEncryption::generate_keypair().unwrap();
    for plaintext in [&b""[..], &b"x"[..], &b"hello world"[..], &[7u8; 1000][..]] {
        let envelope = ECCEncryption::encrypt(plaintext, &public).unwrap();
        assert_eq!(envelope.len(), plaintext.len() + 115);
        assert_eq!(&envelope[..2], &[0, 65]);
        assert_eq!(envelope[2], 0x04);
        assert_eq!(ECCEncryption::decrypt(&envelope, &private), Ok(plaintext.to_vec()));
    }
}

#[test]
fn anonymous_envelopes_never_repeat() {
    let (_, public) = ECCEncryption::generate_keypair().unwrap();
    let first = ECCEncryption::encrypt(b"same", &public).unwrap();
    let second = ECCEncryption::encrypt(b"same", &public).unwrap();
    assert_ne!(first[2..67], second[2..67]);
    assert_ne!(first[67..83], second[67..83]);
    assert_ne!(first, second);
}

#[test]
fn authenticated_envelopes_differ_in_the_iv() {
    let (a_private, a_public) = ECCEncryption::generate_keypair().unwrap();
    let (_, b_public) = ECCEncryption::generate_keypair().unwrap();
    let first = ECCEncryption::encrypt_authenticated(b"same", &b_public, &a_private).unwrap();
    let second = ECCEncryption::encrypt_authenticated(b"same", &b_public, &a_private).unwrap();
    assert_eq!(first[2..67], second[2..67]);
    assert_eq!(&first[2..67], &a_public.to_sec1_bytes()[..]);
    assert_ne!(first[67..83], second[67..83]);
}

#[test]
fn wrong_private_key_fails_closed() {
    let (_, public) = ECCEncryption::generate_keypair().unwrap();
    let (other, _) = ECCEncryption::generate_keypair().unwrap();
    let envelope = ECCEncryption::encrypt(b"secret", &public).unwrap();
    assert_eq!(ECCEncryption::decrypt(&envelope, &other), Err(CryptoError::AuthenticationFailure));
    assert_eq!(ECCEncryption::decrypt(&envelope, &[0u8; 32]), Err(CryptoError::InvalidKey));
    assert_eq!(ECCEncryption::decrypt(&envelope, &[0xffu8; 32]), Err(CryptoError::InvalidKey));
}

#[test]
fn short_hybrid_input_is_malformed() {
    let key = scalar(1);
    for len in 0..83 {
        let data = vec![0u8; len];
        assert_eq!(ECCEncryption::decrypt(&data, &key), Err(CryptoError::MalformedEnvelope));
    }
}

#[test]
fn key_length_past_the_buffer_is_malformed() {
    let key = scalar(1);
    let mut data = vec![0u8; 100];
    data[1] = 51;
    assert_eq!(ECCEncryption::decrypt(&data, &key), Err(CryptoError::MalformedEnvelope));
    data[0] = 0xff;
    data[1] = 0xff;
    assert_eq!(ECCEncryption::decrypt(&data, &key), Err(CryptoError::MalformedEnvelope));
    data[0] = 0;
    data[1] = 50;
    assert_eq!(ECCEncryption::decrypt(&data, &key), Err(CryptoError::InvalidKey));
    data[1] = 0;
    assert_eq!(ECCEncryption::decrypt(&data, &key), Err(CryptoError::InvalidKey));
    assert_eq!(
        ECCEncryption::decrypt(&data[..82], &key),
        Err(CryptoError::MalformedEnvelope)
    );
    assert_eq!(ECCEncryption::decrypt(&data[..83], &key), Err(CryptoError::InvalidKey));
}

#[test]
fn every_flipped_bit_after_the_key_is_detected() {
    let recipient = EccPublicKey::from_sec1_bytes(&hex::decode(GENERATOR).unwrap()).unwrap();
    let envelope = seal_hybrid(b"hello", &recipient, &scalar(2), &[9u8; 16]).unwrap();
    for position in 67..envelope.len() {
        for bit in 0..8 {
            let mut tampered = envelope.clone();
            tampered[position] ^= 1 << bit;
            assert_eq!(
                open_hybrid(&tampered, &scalar(1)),
                Err(CryptoError::AuthenticationFailure),
                "byte {position}, bit {bit}"
            );
        }
    }
}

#[test]
fn flipped_bits_in_length_and_key_never_open() {
    let recipient = EccPublicKey::from_sec1_bytes(&hex::decode(GENERATOR).unwrap()).unwrap();
    let envelope = seal_hybrid(b"hello", &recipient, &scalar(2), &[9u8; 16]).unwrap();
    for position in [0usize, 1, 2, 3, 34, 35, 66] {
        for bit in 0..8 {
            let mut tampered = envelope.clone();
            tampered[position] ^= 1 << bit;
            assert!(open_hybrid(&tampered, &scalar(1)).is_err(), "byte {position}, bit {bit}");
        }
    }
}

#[test]
fn hybrid_envelope_matches_the_primitives() {
    let generator = hex::decode(GENERATOR).unwrap();
    let recipient = EccPublicKey::from_sec1_bytes(&generator).unwrap();
    let iv = [0x24u8; 16];
    let envelope = seal_hybrid(b"attack at dawn", &recipient, &scalar(1), &iv).unwrap();
    assert_eq!(seal_hybrid(b"attack at dawn", &recipient, &scalar(1), &iv).unwrap(), envelope);

    // The scalar 1 has the generator for its public key, and the secret it
    // shares with the generator is the generator's x-coordinate.
    let shared = &generator[1..33];
    let mut material = [0u8; 64];
    hkdf::Hkdf::<sha2::Sha256>::new(None, shared).expand(b"ecies-encryption", &mut material).unwrap();
    let mut ciphertext = b"attack at dawn".to_vec();
    ctr::Ctr128BE::<aes::Aes256>::new(material[..32].into(), (&iv).into())
        .apply_keystream(&mut ciphertext);
    let mut mac = hmac::Hmac::<sha2::Sha256>::new_from_slice(&material[32..]).unwrap();
    mac.update(&generator);
    mac.update(&iv);
    mac.update(&ciphertext);
    let tag = mac.finalize().into_bytes();

    let mut expected = vec![0u8, 65];
    expected.extend_from_slice(&generator);
    expected.extend_from_slice(&iv);
    expected.extend_from_slice(&ciphertext);
    expected.extend_from_slice(&tag);
    assert_eq!(envelope, expected);
    assert_ne!(&envelope[83..97], b"attack at dawn");
    assert_eq!(open_hybrid(&envelope, &scalar(1)), Ok(b"attack at dawn".to_vec()));
}

#[test]
fn agreement_is_symmetric() {
    let recipient_private = scalar(5);
    let sender_private = scalar(9);
    let pair_of = |private: &[u8; 32]| {
        let generator =
            EccPublicKey::from_sec1_bytes(&hex::decode(GENERATOR).unwrap()).unwrap();
        let envelope = seal_hybrid(b"", &generator, private, &[0u8; 16]).unwrap();
        EccPublicKey::from_sec1_bytes(&envelope[2..67]).unwrap()
    };
    let recipient_public = pair_of(&recipient_private);
    let envelope = seal_hybrid(b"both ways", &recipient_public, &sender_private, &[1u8; 16]).unwrap();
    assert_eq!(open_hybrid(&envelope, &recipient_private), Ok(b"both ways".to_vec()));
    assert_eq!(
        open_hybrid(&envelope, &sender_private),
        Err(CryptoError::AuthenticationFailure)
    );
}

#[test]
fn invalid_sender_scalar_is_refused() {
    let (_, public) = ECCEncryption::generate_keypair().unwrap();
    assert_eq!(
        ECCEncryption::encrypt_authenticated(b"x", &public, &[0u8; 32]),
        Err(CryptoError::InvalidKey)
    );
    assert_eq!(
        seal_hybrid(b"x", &public, &[0xffu8; 32], &[0u8; 16]),
        Err(CryptoError::InvalidKey)
    );
}

#[test]
fn public_keys_are_validated_and_normalised() {
    let generator = hex::decode(GENERATOR).unwrap();
    let key = EccPublicKey::from_sec1_bytes(&generator).unwrap();
    assert_eq!(key.to_sec1_bytes(), generator);
    assert_eq!(key.as_bytes(), &generator[..]);

    let mut compressed = vec![0x03u8];
    compressed.extend_from_slice(&generator[1..33]);
    let key = EccPublicKey::from_sec1_bytes(&compressed).unwrap();
    assert_eq!(key.to_sec1_bytes(), generator);

    let mut off_curve = generator.clone();
    off_curve[64] ^= 1;
    assert!(matches!(EccPublicKey::from_sec1_bytes(&off_curve), Err(CryptoError::InvalidKey)));
    assert!(matches!(EccPublicKey::from_sec1_bytes(&[]), Err(CryptoError::InvalidKey)));
    assert!(matches!(EccPublicKey::from_sec1_bytes(&[0u8]), Err(CryptoError::InvalidKey)));
    assert!(matches!(EccPublicKey::from_sec1_bytes(&generator[..64]), Err(CryptoError::InvalidKey)));
}

#[test]
fn generated_keys_have_the_stated_shape() {
    let (private, public) = ECCEncryption::generate_keypair().unwrap();
    let bytes = public.to_sec1_bytes();
    assert_eq!(bytes.len(), 65);
    assert_eq!(bytes[0], 0x04);
    let generator = EccPublicKey::from_sec1_bytes(&hex::decode(GENERATOR).unwrap()).unwrap();
    let envelope = seal_hybrid(b"", &generator, &private, &[0u8; 16]).unwrap();
    assert_eq!(&envelope[2..67], &bytes[..]);

    let pair = ecc_generate_key().unwrap();
    assert_eq!(pair.private_key().len(), 32);
    assert_eq!(pair.public_key().len(), 65);
    assert_eq!(pair.public_key()[0], 0x04);
    let other = ecc_generate_key().unwrap();
    assert_ne!(pair.private_key(), other.private_key());
}

#[test]
fn split_and_assemble_hybrid_agree() {
    let key = [4u8; 65];
    let iv = [1u8; 16];
    let ciphertext = [2u8; 7];
    let mac = [3u8; 32];
    let envelope = assemble_hybrid_envelope(&key, &iv, &ciphertext, &mac);
    assert_eq!(envelope.len(), 2 + 65 + 16 + 7 + 32);
    let parts = split_hybrid_envelope(&envelope).unwrap();
    assert_eq!(parts.sender_public_key, &key[..]);
    assert_eq!(parts.iv, &iv[..]);
    assert_eq!(parts.ciphertext, &ciphertext[..]);
    assert_eq!(parts.mac, &mac[..]);

    let long_key = vec![9u8; 300];
    let envelope = assemble_hybrid_envelope(&long_key, &iv, &[], &mac);
    assert_eq!(&envelope[..2], &[1, 44]);
    let parts = split_hybrid_envelope(&envelope).unwrap();
    assert_eq!(parts.sender_public_key, &long_key[..]);
    assert!(parts.ciphertext.is_empty());
}

#[test]
fn byte_buffer_entry_points() {
    let sender = ecc_generate_key().unwrap();
    let recipient = ecc_generate_key().unwrap();
    let envelope =
        ecc_encrypt(b"secret", &recipient.public_key(), &sender.private_key()).unwrap();
    assert_eq!(&envelope[2..67], &sender.public_key()[..]);
    assert_eq!(ecc_decrypt(&envelope, &recipient.private_key()), Ok(b"secret".to_vec()));
    assert_eq!(
        ecc_encrypt(b"secret", &recipient.public_key(), &sender.private_key()[..31]),
        Err(CryptoError::InvalidKey)
    );
    assert_eq!(
        ecc_encrypt(b"secret", &[1, 2, 3], &sender.private_key()),
        Err(CryptoError::InvalidKey)
    );
    assert_eq!(
        ecc_decrypt(&envelope, &recipient.private_key()[..31]),
        Err(CryptoError::InvalidKey)
    );
    assert_eq!(ecc_decrypt(&envelope[..40], &[0u8; 5]), Err(CryptoError::InvalidKey));
    assert_eq!(
        ecc_decrypt(&envelope[..40], &recipient.private_key()),
        Err(CryptoError::MalformedEnvelope)
    );
}

#[test]
fn key_file_contents() {
    let pair = ecc_generate_key().unwrap();
    let envelope = encrypt_file_ecc(b"file contents", &pair.public_key()).unwrap();
    assert_eq!(envelope.len(), 13 + 115);
    assert_eq!(decrypt_file_ecc(&envelope, &pair.private_key()), Ok(b"file contents".to_vec()));
    assert_eq!(encrypt_file_ecc(b"x", b"not a key"), Err(CryptoError::InvalidKey));
    assert_eq!(decrypt_file_ecc(&envelope, b"short"), Err(CryptoError::InvalidKey));
    assert_eq!(decrypt_file_ecc(b"short", &pair.private_key()), Err(CryptoError::MalformedEnvelope));
}
