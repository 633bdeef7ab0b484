use std::collections::HashSet;

use aes_gcm::aead::rand_core::RngCore;
use aes_gcm::aead::OsRng;
use base64::prelude::{Engine, BASE64_STANDARD};
use filen_sdk::crypto::keys::{Key, Nonce};
use filen_sdk::crypto::metadata::{
    decrypt, encrypt, frame_envelope, open_envelope, parse_envelope, MetadataDecrypto,
    MetadataEncrypto,
};
use filen_sdk::crypto::utils::{
    generate_random_key, run_aes_gcm_decryption, run_aes_gcm_encryprion,
};
use filen_sdk::error::CryptoError;

const TEST_KEY: &[u8] = b"abcdefghijklmnopqrstuvwxyzABCDEF";
const TEST_NONCE: &[u8] = b"0123456789ab";

fn test_key() -> Key {
    Key::from_slice(TEST_KEY).unwrap()
}

fn envelope_with(nonce: &[u8], payload: &str) -> Vec<u8> {
    let mut envelope = b"002".to_vec();
    envelope.extend_from_slice(nonce);
    envelope.extend_from_slice(payload.as_bytes());
    envelope
}

#[test]
fn crypto_test_encrypt_decrypt_chunk() {
    let data = b"Hello, this is a test message!";
    let mut nonce = [0u8; 12];
    OsRng.fill_bytes(&mut nonce);
    let nonce = Nonce::from_slice(&nonce).unwrap();

    let key = generate_random_key();

    let encrypt_data = run_aes_gcm_encryprion(data, &key, &nonce).unwrap();

    let decrypt_data = run_aes_gcm_decryption(&encrypt_data, &key, &nonce).unwrap();

    assert_eq!(decrypt_data, data);
}

#[test]
fn mod_test_encrypt_decrypt_chunk() {
    let data = b"Hello, this is a test message!";
    let nonce = Nonce::generate();
    assert_eq!(nonce.as_slice().len(), 12);

    let key = Key::generate();
    assert_eq!(key.as_slice().len(), 32);

    let encrypt_data = run_aes_gcm_encryprion(data, key.as_array(), &nonce).unwrap();

    let decrypt_data = run_aes_gcm_decryption(&encrypt_data, key.as_array(), &nonce).unwrap();

    assert_eq!(decrypt_data, data);
}

#[test]
fn test_metadata_encrypt_decrypt() {
    let metadata = String::from("This is test metadata");

    let key = Key::from_slice("abcdefghijklmnopqrstuvwxyzABCDEF".as_bytes()).unwrap();

    let encypt_metadata = MetadataEncrypto::new(metadata.as_bytes(), &key).unwrap();

    let decrypt_metadata = MetadataDecrypto::new(&encypt_metadata.to_bytes(), &key).unwrap();

    assert_eq!(&metadata, decrypt_metadata.metadata());
}

#[test]
fn round_trip_returns_the_plaintext() {
    let key = test_key();
    for text in ["", "plain", "with\0nul\0inside", "héllo 世界 🗝", "{\"name\":\"a.txt\",\"size\":12}"] {
        let envelope = encrypt(text.as_bytes(), &key).unwrap();
        assert_eq!(decrypt(&envelope, &key).unwrap(), text);
        assert_eq!(open_envelope(&envelope, &key).unwrap(), text.as_bytes());
    }
}

#[test]
fn round_trip_under_random_keys() {
    for _ in 0..20 {
        let key = Key::generate();
        let envelope = encrypt("some metadata".as_bytes(), &key).unwrap();
        assert_eq!(decrypt(&envelope, &key).unwrap(), "some metadata");
    }
}

#[test]
fn round_trip_on_bytes_that_are_not_text() {
    let key = test_key();
    let plaintext = [0xffu8, 0xfe, 0x00, 0x80];
    let envelope = encrypt(&plaintext, &key).unwrap();
    assert_eq!(open_envelope(&envelope, &key).unwrap(), plaintext);
    assert_eq!(decrypt(&envelope, &key).unwrap_err(), CryptoError::MalformedPlaintext);
    assert!(matches!(
        MetadataDecrypto::new(&envelope, &key),
        Err(CryptoError::MalformedPlaintext)
    ));
}

#[test]
fn envelope_has_the_fixed_layout() {
    let key = test_key();
    let plaintext = b"This is test metadata";
    let envelope = encrypt(plaintext, &key).unwrap();
    assert_eq!(&envelope[0..3], b"002");
    let nonce = Nonce::from_slice(&envelope[3..15]).unwrap();
    let sealed = run_aes_gcm_encryprion(plaintext, key.as_array(), &nonce).unwrap();
    assert_eq!(sealed.len(), plaintext.len() + 16);
    assert_eq!(&envelope[15..], BASE64_STANDARD.encode(&sealed).as_bytes());
    assert_eq!(envelope.len(), 15 + (sealed.len() + 2) / 3 * 4);
}

#[test]
fn envelope_of_the_empty_plaintext_carries_only_the_tag() {
    let key = test_key();
    let envelope = encrypt(b"", &key).unwrap();
    assert_eq!(envelope.len(), 15 + 24);
    assert_eq!(decrypt(&envelope, &key).unwrap(), "");
}

#[test]
fn known_envelopes_decrypt_to_known_text() {
    let key = test_key();
    let envelope = envelope_with(
        TEST_NONCE,
        "9SGyRtT8vs8DqR970Rs8soQIYXyviZoIlpajANH85hUc/Sdg9w==",
    );
    assert_eq!(decrypt(&envelope, &key).unwrap(), "This is test metadata");

    let envelope = envelope_with(TEST_NONCE, "J1zg6xwxIRO6Dez5khgtgQ==");
    assert_eq!(decrypt(&envelope, &key).unwrap(), "");

    let envelope = envelope_with(TEST_NONCE, "yYpyWZj67QvPWouafXY8qIGJ4ZAC5H5czd449YzGMPvx");
    assert_eq!(decrypt(&envelope, &key).unwrap(), "héllo 世界\0end");

    let envelope = envelope_with(TEST_NONCE, "Xrfb1zcptEJuCXy3jt6UvDNqIQ==");
    assert_eq!(decrypt(&envelope, &key).unwrap_err(), CryptoError::MalformedPlaintext);
    assert_eq!(open_envelope(&envelope, &key).unwrap(), vec![0xff, 0xfe, 0x00]);
}

#[test]
fn nonce_is_read_as_raw_bytes() {
    let key = test_key();
    let nonce = [0x00, 0xff, 0x80, 0xfe, 0x01, 0x7f, 0xc3, 0x28, 0xa0, 0xa1, 0xe2, 0x82];
    let envelope = envelope_with(&nonce, "/7W7BJnGAO9roHTfYIGND7GK22Ao6yhFaQ==");
    assert_eq!(decrypt(&envelope, &key).unwrap(), "raw nonce");
}

#[test]
fn cipher_matches_published_vectors() {
    let key = [0u8; 32];
    let nonce = Nonce::from_slice(&[0u8; 12]).unwrap();
    let sealed = run_aes_gcm_encryprion(&[], &key, &nonce).unwrap();
    assert_eq!(
        sealed,
        vec![
            0x53, 0x0f, 0x8a, 0xfb, 0xc7, 0x45, 0x36, 0xb9, 0xa9, 0x63, 0xb4, 0xf1, 0xc4, 0xcb,
            0x73, 0x8b
        ]
    );
    let sealed = run_aes_gcm_encryprion(&[0u8; 16], &key, &nonce).unwrap();
    assert_eq!(
        sealed,
        vec![
            0xce, 0xa7, 0x40, 0x3d, 0x4d, 0x60, 0x6b, 0x6e, 0x07, 0x4e, 0xc5, 0xd3, 0xba, 0xf3,
            0x9d, 0x18, 0xd0, 0xd1, 0xc8, 0xa7, 0x99, 0x99, 0x6b, 0xf0, 0x26, 0x5b, 0x98, 0xb5,
            0xd4, 0x8a, 0xb9, 0x19
        ]
    );
    assert_eq!(run_aes_gcm_decryption(&sealed, &key, &nonce).unwrap(), vec![0u8; 16]);
}

#[test]
fn cipher_rejects_what_it_did_not_seal() {
    let key = [7u8; 32];
    let nonce = Nonce::from_slice(&[9u8; 12]).unwrap();
    let mut sealed = run_aes_gcm_encryprion(b"payload", &key, &nonce).unwrap();
    sealed[0] ^= 1;
    assert_eq!(
        run_aes_gcm_decryption(&sealed, &key, &nonce).unwrap_err(),
        CryptoError::AuthenticationFailure
    );
    // Shorter than a tag.
    assert_eq!(
        run_aes_gcm_decryption(&[1, 2, 3], &key, &nonce).unwrap_err(),
        CryptoError::AuthenticationFailure
    );
    assert_eq!(
        run_aes_gcm_decryption(&[], &key, &nonce).unwrap_err(),
        CryptoError::AuthenticationFailure
    );
}

#[test]
fn flipped_bits_in_the_payload_are_detected() {
    let key = test_key();
    let plaintext = "This is test metadata";
    let envelope = encrypt(plaintext.as_bytes(), &key).unwrap();
    let mut authentication_failures = 0;
    for position in 15..envelope.len() {
        for bit in 0..8 {
            let mut tampered = envelope.clone();
            tampered[position] ^= 1 << bit;
            match decrypt(&tampered, &key) {
                Err(CryptoError::AuthenticationFailure) => authentication_failures += 1,
                // The flip left something that is no longer base64.
                Err(CryptoError::MalformedEnvelope) => {}
                other => panic!("position {} bit {}: {:?}", position, bit, other),
            }
        }
    }
    assert!(authentication_failures > 0);
}

#[test]
fn flipped_bits_in_the_sealed_bytes_fail_authentication() {
    let key = test_key();
    let envelope = encrypt("This is test metadata".as_bytes(), &key).unwrap();
    let sealed = BASE64_STANDARD.decode(&envelope[15..]).unwrap();
    for position in 0..sealed.len() {
        for bit in 0..8 {
            let mut tampered = sealed.clone();
            tampered[position] ^= 1 << bit;
            let mut forged = envelope[..15].to_vec();
            forged.extend_from_slice(BASE64_STANDARD.encode(&tampered).as_bytes());
            assert_eq!(decrypt(&forged, &key).unwrap_err(), CryptoError::AuthenticationFailure);
        }
    }
}

#[test]
fn flipped_bits_in_the_nonce_fail_authentication() {
    let key = test_key();
    let envelope = encrypt("This is test metadata".as_bytes(), &key).unwrap();
    for position in 3..15 {
        let mut tampered = envelope.clone();
        tampered[position] ^= 0x10;
        assert_eq!(decrypt(&tampered, &key).unwrap_err(), CryptoError::AuthenticationFailure);
    }
}

#[test]
fn another_key_fails_authentication() {
    let key = test_key();
    let mut other = TEST_KEY.to_vec();
    other[31] ^= 1;
    let other = Key::from_slice(&other).unwrap();
    let envelope = encrypt("This is test metadata".as_bytes(), &key).unwrap();
    assert_eq!(decrypt(&envelope, &other).unwrap_err(), CryptoError::AuthenticationFailure);
    assert_eq!(open_envelope(&envelope, &other).unwrap_err(), CryptoError::AuthenticationFailure);
    for _ in 0..20 {
        let random = Key::generate();
        assert_eq!(decrypt(&envelope, &random).unwrap_err(), CryptoError::AuthenticationFailure);
    }
}

#[test]
fn every_encryption_draws_its_own_nonce() {
    let key = test_key();
    let mut nonces = HashSet::new();
    for _ in 0..10_000 {
        let envelope = encrypt(b"x", &key).unwrap();
        nonces.insert(envelope[3..15].to_vec());
    }
    assert_eq!(nonces.len(), 10_000);
}

#[test]
fn short_envelopes_are_malformed() {
    let key = test_key();
    let long = envelope_with(TEST_NONCE, "J1zg6xwxIRO6Dez5khgtgQ==");
    for len in 0..15 {
        assert_eq!(decrypt(&long[..len], &key).unwrap_err(), CryptoError::MalformedEnvelope);
        assert_eq!(open_envelope(&long[..len], &key).unwrap_err(), CryptoError::MalformedEnvelope);
        assert_eq!(parse_envelope(&long[..len]).unwrap_err(), CryptoError::MalformedEnvelope);
        // Too short is reported before the version is looked at.
        let other = vec![b'9'; len];
        assert_eq!(decrypt(&other, &key).unwrap_err(), CryptoError::MalformedEnvelope);
    }
}

#[test]
fn header_without_payload_fails_authentication() {
    let key = test_key();
    let envelope = envelope_with(TEST_NONCE, "");
    assert_eq!(envelope.len(), 15);
    assert_eq!(decrypt(&envelope, &key).unwrap_err(), CryptoError::AuthenticationFailure);
}

#[test]
fn other_versions_are_unsupported() {
    let key = test_key();
    let good = envelope_with(TEST_NONCE, "J1zg6xwxIRO6Dez5khgtgQ==");
    for tag in [&b"001"[..], b"003", b"102", b"012", b"000", b"\0\0\0", b"abc", b"00\x32\x00"] {
        let mut envelope = good.clone();
        envelope[..3].copy_from_slice(&tag[..3]);
        if &tag[..3] == b"002" {
            continue;
        }
        assert_eq!(
            decrypt(&envelope, &key).unwrap_err(),
            CryptoError::UnsupportedEnvelopeVersion
        );
        assert_eq!(
            parse_envelope(&envelope).unwrap_err(),
            CryptoError::UnsupportedEnvelopeVersion
        );
    }
    // The version is looked at before the payload.
    let envelope = [&b"001"[..], TEST_NONCE, b"not base64!"].concat();
    assert_eq!(decrypt(&envelope, &key).unwrap_err(), CryptoError::UnsupportedEnvelopeVersion);
}

#[test]
fn payload_that_is_not_base64_is_malformed() {
    let key = test_key();
    for payload in ["not base64!", "J1zg6xwxIRO6Dez5khgtgQ=", "J1zg6xwxIRO6Dez5khgtgQ", "J1zg 6xw=", "===="] {
        let envelope = envelope_with(TEST_NONCE, payload);
        assert_eq!(decrypt(&envelope, &key).unwrap_err(), CryptoError::MalformedEnvelope);
    }
}

#[test]
fn framing_and_parsing_are_inverse() {
    let nonce = Nonce::from_slice(TEST_NONCE).unwrap();
    let envelope = frame_envelope(&nonce, b"payload");
    assert_eq!(envelope, b"0020123456789abpayload");
    let (parsed_nonce, payload) = parse_envelope(&envelope).unwrap();
    assert_eq!(parsed_nonce.as_slice(), TEST_NONCE);
    assert_eq!(payload, b"payload");

    let envelope = frame_envelope(&nonce, b"");
    assert_eq!(envelope, b"0020123456789ab");
    let (parsed_nonce, payload) = parse_envelope(&envelope).unwrap();
    assert_eq!(parsed_nonce.as_array(), b"0123456789ab");
    assert!(payload.is_empty());
}

#[test]
fn keys_and_nonces_have_fixed_lengths() {
    assert!(Key::from_slice(&[0u8; 31]).is_none());
    assert!(Key::from_slice(&[0u8; 33]).is_none());
    assert!(Key::from_slice(&[]).is_none());
    let key = Key::from_slice(&[5u8; 32]).unwrap();
    assert_eq!(key.as_slice(), &[5u8; 32]);
    assert_eq!(key.clone().as_array(), &[5u8; 32]);
    assert_eq!(Key::from_array([6u8; 32]).as_slice(), &[6u8; 32]);

    assert!(Nonce::from_slice(&[0u8; 11]).is_none());
    assert!(Nonce::from_slice(&[0u8; 13]).is_none());
    assert!(Nonce::from_slice(&[]).is_none());
    let bytes: Vec<u8> = (1..=12).collect();
    let nonce = Nonce::from_slice(&bytes).unwrap();
    assert_eq!(nonce.as_slice(), &bytes[..]);
}

#[test]
fn random_keys_differ() {
    let first = generate_random_key();
    let second = generate_random_key();
    assert_ne!(first, second);
    assert_ne!(first, [0u8; 32]);
    assert_ne!(Key::generate().as_slice(), Key::generate().as_slice());
    assert_ne!(Nonce::generate().as_slice(), Nonce::generate().as_slice());
}
