use aes_gcm::aead::{Aead, KeyInit};
use aes_gcm::{Aes256Gcm, Nonce};
use croc::crypt;
use croc::crypt::CryptError;
use sha2::Sha256;
use std::collections::HashSet;

fn key() -> Vec<u8> {
    (0u8..32).collect()
}

fn hex(bytes: &[u8]) -> String {
    bytes.iter().map(|b| format!("{:02x}", b)).collect()
}

#[test]
fn key_is_pbkdf2_hmac_sha256_with_100_rounds() {
    let (key, salt) = crypt::new(b"password", b"saltsalt").unwrap();
    assert_eq!(hex(&key), "305d54609c5ceaec589be889163289853d81431b358823529016f350010b9dcf");
    assert_eq!(salt, b"saltsalt".to_vec());
    let direct = pbkdf2::pbkdf2_hmac_array::<Sha256, 32>(b"password", b"saltsalt", 100);
    assert_eq!(key, direct.to_vec());
}

#[test]
fn key_derivation_is_deterministic() {
    let first = crypt::new(b"correct horse", b"12345678").unwrap();
    let second = crypt::new(b"correct horse", b"12345678").unwrap();
    assert_eq!(first, second);
    assert_eq!(first.0.len(), 32);
}

#[test]
fn different_salts_give_different_keys() {
    let (a, _) = crypt::new(b"password", b"saltsalt").unwrap();
    let (b, _) = crypt::new(b"password", b"pepperpe").unwrap();
    assert_eq!(hex(&b), "6c37c0c55e5aec8dd9657cfd0bcbc95d1f8f50adb4dcbc91049d276736cd7aef");
    assert_ne!(a, b);
}

#[test]
fn different_passphrases_give_different_keys() {
    let (a, _) = crypt::new(b"password", b"saltsalt").unwrap();
    let (b, _) = crypt::new(b"passwore", b"saltsalt").unwrap();
    assert_ne!(a, b);
}

#[test]
fn empty_passphrase_is_refused() {
    assert_eq!(crypt::new(b"", b"saltsalt"), Err(CryptError::EmptyPassphrase));
    assert_eq!(crypt::new(b"", b""), Err(CryptError::EmptyPassphrase));
    assert_eq!(crypt::new_with_salt(b"", b"saltsalt".to_vec()), Err(CryptError::EmptyPassphrase));
}

#[test]
fn empty_salt_asks_for_a_random_one() {
    let (key_a, salt_a) = crypt::new(b"password", b"").unwrap();
    let (key_b, salt_b) = crypt::new(b"password", b"").unwrap();
    assert_eq!(salt_a.len(), 8);
    assert_eq!(salt_b.len(), 8);
    assert_ne!(salt_a, salt_b);
    assert_ne!(key_a, key_b);
    assert_eq!(crypt::new(b"password", &salt_a).unwrap().0, key_a);
}

#[test]
fn new_with_salt_uses_the_salt_given() {
    let r = crypt::new_with_salt(b"password", b"saltsalt".to_vec()).unwrap();
    assert_eq!(r, crypt::new(b"password", b"saltsalt").unwrap());
    let short = crypt::new_with_salt(b"password", b"s".to_vec()).unwrap();
    assert_eq!(short.1, b"s".to_vec());
    assert_ne!(short.0, r.0);
}

#[test]
fn sealed_message_opens_to_itself() {
    for len in [0usize, 1, 15, 16, 17, 1000, 65536] {
        let plaintext: Vec<u8> = (0..len).map(|i| (i % 251) as u8).collect();
        let sealed = crypt::encrypt(&plaintext, &key()).unwrap();
        assert_eq!(sealed.len(), len + 28);
        assert_eq!(crypt::decrypt(&sealed, &key()), Ok(plaintext));
    }
}

#[test]
fn envelope_is_nonce_then_ciphertext_and_tag() {
    let nonce: Vec<u8> = (0u8..12).collect();
    let sealed = crypt::encrypt_with_nonce(b"hello relay", &key(), &nonce).unwrap();
    assert_eq!(
        hex(&sealed),
        "000102030405060708090a0b2f67ba77aac5b07ee120ee454e06629c0d5973ee6d5f5af46436d3"
    );
    assert_eq!(crypt::decrypt(&sealed, &key()), Ok(b"hello relay".to_vec()));
}

#[test]
fn envelope_agrees_with_the_cipher() {
    let sealed = crypt::encrypt(b"between peers", &key()).unwrap();
    let cipher = Aes256Gcm::new_from_slice(&key()).unwrap();
    let opened = cipher.decrypt(Nonce::from_slice(&sealed[..12]), &sealed[12..]).unwrap();
    assert_eq!(opened, b"between peers".to_vec());
    let body = cipher.encrypt(Nonce::from_slice(&sealed[..12]), &b"between peers"[..]).unwrap();
    assert_eq!(&sealed[12..], &body[..]);
}

#[test]
fn nonces_do_not_repeat() {
    let mut seen: HashSet<Vec<u8>> = HashSet::new();
    for _ in 0..10_000 {
        let sealed = crypt::encrypt(b"x", &key()).unwrap();
        assert!(seen.insert(sealed[..12].to_vec()));
    }
    assert_eq!(seen.len(), 10_000);
}

#[test]
fn flipped_bit_in_ciphertext_or_tag_is_refused() {
    let sealed = crypt::encrypt(b"sixteen byte msg", &key()).unwrap();
    assert_eq!(sealed.len(), 44);
    for byte in 12..sealed.len() {
        for bit in 0..8 {
            let mut forged = sealed.clone();
            forged[byte] ^= 1 << bit;
            assert_eq!(crypt::decrypt(&forged, &key()), Err(CryptError::IncorrectPassphrase));
        }
    }
    assert_eq!(crypt::decrypt(&sealed, &key()), Ok(b"sixteen byte msg".to_vec()));
}

#[test]
fn flipped_bit_in_nonce_is_refused() {
    let sealed = crypt::encrypt(b"sixteen byte msg", &key()).unwrap();
    for byte in 0..12 {
        let mut forged = sealed.clone();
        forged[byte] ^= 0x80;
        assert_eq!(crypt::decrypt(&forged, &key()), Err(CryptError::IncorrectPassphrase));
    }
}

#[test]
fn wrong_key_does_not_open() {
    let sealed = crypt::encrypt(b"secret", &key()).unwrap();
    let mut other = key();
    other[31] ^= 1;
    assert_eq!(crypt::decrypt(&sealed, &other), Err(CryptError::IncorrectPassphrase));
}

#[test]
fn short_input_is_refused_like_a_bad_tag() {
    for len in 0..13 {
        let input = vec![7u8; len];
        assert_eq!(crypt::decrypt(&input, &key()), Err(CryptError::IncorrectPassphrase));
    }
    for len in 13..28 {
        let input = vec![7u8; len];
        assert_eq!(crypt::decrypt(&input, &key()), Err(CryptError::IncorrectPassphrase));
    }
}

#[test]
fn truncated_envelope_is_refused() {
    let sealed = crypt::encrypt(b"whole", &key()).unwrap();
    for len in 0..sealed.len() {
        assert_eq!(crypt::decrypt(&sealed[..len], &key()), Err(CryptError::IncorrectPassphrase));
    }
}

#[test]
fn empty_plaintext_seals_to_nonce_and_tag() {
    let sealed = crypt::encrypt(b"", &key()).unwrap();
    assert_eq!(sealed.len(), 28);
    assert_eq!(crypt::decrypt(&sealed, &key()), Ok(Vec::new()));
}

#[test]
fn envelope_constants() {
    assert_eq!(crypt::KEY_LEN, 32);
    assert_eq!(crypt::NONCE_LEN, 12);
    assert_eq!(crypt::SALT_LEN, 8);
    assert_eq!(crypt::KDF_ROUNDS, 100);
    assert_eq!(crypt::MIN_ENVELOPE_LEN, 13);
    assert_eq!(crypt::MAX_PLAINTEXT_LEN, 1u64 << 36);
}
