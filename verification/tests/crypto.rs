use argon2::password_hash::Salt;
use argon2::{Algorithm, Argon2, Params, PasswordHasher, Version};
use chacha20poly1305::aead::Aead;
use chacha20poly1305::{KeyInit, XChaCha20Poly1305, XNonce};
use passhive::crypto::{
    check_password, create_crypto_key, create_nonce, decrypt_data, decrypt_str, encode,
    encode_drawn, encode_with_salt, encrypt_data, encrypt_data_drawn, encrypt_data_with_nonce,
    encrypt_str, encrypt_str_drawn, encrypt_str_with_nonce, read_nonce,
};
use passhive::error::VaultError;
use passhive::models::{DataType, Sex};
use std::collections::HashSet;

const PASSWORD: &str = "Sup3rSecret!";
const SALT: &str = "WlpaWlpaWlpaWlpaWlpaWlpaWlpaWlpaWlpaWlpaWlo";
const VERIFIER: &str = "$argon2id$v=19$m=65536,t=10,p=3$WlpaWlpaWlpaWlpaWlpaWlpaWlpaWlpaWlpaWlpaWlo$DaUKKR2XScRIViQ2IRcs7l0M3B2qEE6QevCu8bymXEy1YZnPXTb71ymIyhlyvwX6q0sSRjiwbuLjGgbx0GTIGQ";
const KEY: [u8; 32] = [
    195, 122, 146, 220, 195, 190, 67, 177, 128, 87, 54, 4, 148, 85, 90, 123, 211, 146, 69, 244,
    142, 99, 80, 159, 58, 224, 78, 164, 26, 196, 15, 99,
];

/// A verifier under the lightest costs that Argon2 takes.
fn light_verifier(password: &str) -> String {
    let params = Params::new(8, 1, 1, Some(32)).unwrap();
    let hasher = Argon2::new(Algorithm::Argon2id, Version::V0x13, params);
    let salt = Salt::from_b64("c29tZXNhbHRzb21lc2FsdA").unwrap();
    hasher.hash_password(password.as_bytes(), salt).unwrap().to_string()
}

fn all_kinds() -> Vec<DataType> {
    vec![
        DataType::Password { password: "hunter2".to_string() },
        DataType::Card { num: "1234567812345678".to_string(), cvv: 123, bank: "Сбер".to_string() },
        DataType::Passport {
            fsl: "Иванов Иван Иванович".to_string(),
            date: "01.02.1990".to_string(),
            sex: Sex::Male,
            serial: 4510,
            num: 123456,
        },
        DataType::Document { text: "line one\nline \"two\"\t\\ end".to_string() },
        DataType::WifiConfig { name: "home".to_string(), password: "p@ss word".to_string() },
        DataType::Token { token: "ghp_abc".to_string(), from: "GitHub".to_string() },
    ]
}

#[test]
fn text_round_trip() {
    let key = [7u8; 32];
    let (ciphertext, nonce) = encrypt_str("GitHub", &key).unwrap();
    assert_eq!(ciphertext.len(), 6 + 16);
    assert_eq!(decrypt_str(&ciphertext, &nonce, &key).unwrap(), "GitHub");
}

#[test]
fn empty_text_round_trip() {
    let key = [7u8; 32];
    let (ciphertext, nonce) = encrypt_str("", &key).unwrap();
    assert_eq!(ciphertext.len(), 16);
    assert_eq!(decrypt_str(&ciphertext, &nonce, &key).unwrap(), "");
}

#[test]
fn record_round_trip_every_kind() {
    let key = [9u8; 32];
    for record in all_kinds() {
        let (ciphertext, nonce) = encrypt_data(&record, &key).unwrap();
        let back = decrypt_data(&ciphertext, &nonce, &key).unwrap();
        assert_eq!(format!("{:?}", back), format!("{:?}", record));
    }
}

#[test]
fn record_round_trip_password() {
    let key = [9u8; 32];
    let record = DataType::Password { password: "hunter2".to_string() };
    let (ciphertext, nonce) = encrypt_data(&record, &key).unwrap();
    match decrypt_data(&ciphertext, &nonce, &key).unwrap() {
        DataType::Password { password } => assert_eq!(password, "hunter2"),
        other => panic!("unexpected record {:?}", other),
    }
}

#[test]
fn ciphertext_is_what_the_cipher_gives() {
    let key = [1u8; 32];
    let nonce = [3u8; 24];
    let ours = encrypt_str_with_nonce("secret", &key, &nonce).unwrap();
    let cipher = XChaCha20Poly1305::new_from_slice(&key).unwrap();
    let theirs = cipher.encrypt(XNonce::from_slice(&nonce), b"secret".as_ref()).unwrap();
    assert_eq!(ours, theirs);
    assert_ne!(&ours[..6], b"secret");
}

#[test]
fn record_ciphertext_holds_the_written_record() {
    let key = [1u8; 32];
    let nonce = [3u8; 24];
    let record = DataType::Password { password: "hunter2".to_string() };
    let ours = encrypt_data_with_nonce(&record, &key, &nonce).unwrap();
    let cipher = XChaCha20Poly1305::new_from_slice(&key).unwrap();
    let plain = cipher.decrypt(XNonce::from_slice(&nonce), ours.as_ref()).unwrap();
    assert_eq!(plain, br#"{"Password":{"password":"hunter2"}}"#.to_vec());
}

#[test]
fn same_nonce_same_ciphertext() {
    let key = [1u8; 32];
    let nonce = [3u8; 24];
    let first = encrypt_str_with_nonce("secret", &key, &nonce).unwrap();
    let second = encrypt_str_with_nonce("secret", &key, &nonce).unwrap();
    assert_eq!(first, second);
}

#[test]
fn wrong_key_fails_closed() {
    let key = [1u8; 32];
    let other = [2u8; 32];
    let nonce = [3u8; 24];
    let ciphertext = encrypt_str_with_nonce("secret", &key, &nonce).unwrap();
    assert_eq!(decrypt_str(&ciphertext, &nonce, &other), Err(VaultError::DecryptionFailed));
    assert!(matches!(decrypt_data(&ciphertext, &nonce, &other), Err(VaultError::DecryptionFailed)));
}

#[test]
fn wrong_nonce_fails_closed() {
    let key = [1u8; 32];
    let nonce = [3u8; 24];
    let mut other = nonce;
    other[23] ^= 1;
    let ciphertext = encrypt_str_with_nonce("secret", &key, &nonce).unwrap();
    assert_eq!(decrypt_str(&ciphertext, &other, &key), Err(VaultError::DecryptionFailed));
}

#[test]
fn every_flipped_byte_fails_closed() {
    let key = [1u8; 32];
    let nonce = [3u8; 24];
    let ciphertext = encrypt_str_with_nonce("secret", &key, &nonce).unwrap();
    for i in 0..ciphertext.len() {
        let mut damaged = ciphertext.clone();
        damaged[i] ^= 0x01;
        assert_eq!(decrypt_str(&damaged, &nonce, &key), Err(VaultError::DecryptionFailed));
    }
}

#[test]
fn short_ciphertext_fails_closed() {
    let key = [1u8; 32];
    let nonce = [3u8; 24];
    assert_eq!(decrypt_str(&vec![], &nonce, &key), Err(VaultError::DecryptionFailed));
    assert_eq!(decrypt_str(&vec![0u8; 15], &nonce, &key), Err(VaultError::DecryptionFailed));
}

#[test]
fn authentic_bytes_that_are_no_text_are_corrupt() {
    let key = [1u8; 32];
    let nonce = [3u8; 24];
    let cipher = XChaCha20Poly1305::new_from_slice(&key).unwrap();
    let sealed = cipher.encrypt(XNonce::from_slice(&nonce), [0xffu8, 0xfe].as_ref()).unwrap();
    assert_eq!(decrypt_str(&sealed, &nonce, &key), Err(VaultError::CorruptRecord));
}

#[test]
fn authentic_text_that_is_no_record_is_corrupt() {
    let key = [1u8; 32];
    let nonce = [3u8; 24];
    let sealed = encrypt_str_with_nonce("not a record", &key, &nonce).unwrap();
    assert!(matches!(decrypt_data(&sealed, &nonce, &key), Err(VaultError::CorruptRecord)));
}

#[test]
fn ten_thousand_nonces_do_not_collide() {
    let mut seen = HashSet::new();
    for _ in 0..10_000 {
        let nonce = create_nonce().unwrap();
        assert!(seen.insert(nonce));
    }
    assert_eq!(seen.len(), 10_000);
}

#[test]
fn fresh_nonce_for_every_encryption() {
    let key = [7u8; 32];
    let (first, nonce_a) = encrypt_str("GitHub", &key).unwrap();
    let (second, nonce_b) = encrypt_str("GitHub", &key).unwrap();
    assert_ne!(nonce_a, nonce_b);
    assert_ne!(first, second);
}

#[test]
fn verifier_over_a_given_salt() {
    let (verifier, salt) = encode_drawn(PASSWORD, Some([0x5au8; 32])).unwrap();
    assert_eq!(salt, SALT);
    assert_eq!(verifier, VERIFIER);
}

#[test]
fn no_salt_drawn_no_verifier() {
    assert_eq!(encode_drawn(PASSWORD, None), Err(VaultError::RngFailure));
    assert_eq!(encode_drawn("", None), Err(VaultError::RngFailure));
}

#[test]
fn no_nonce_drawn_nothing_encrypted() {
    let key = [7u8; 32];
    let failed = Err(VaultError::NonceGenerationFailed);
    assert_eq!(encrypt_str_drawn("GitHub", &key, failed), Err(VaultError::NonceGenerationFailed));
    assert_eq!(encrypt_str_drawn("", &key, Err(VaultError::RngFailure)), Err(VaultError::RngFailure));
    let record = DataType::Password { password: "hunter2".to_string() };
    assert_eq!(
        encrypt_data_drawn(&record, &key, failed),
        Err(VaultError::NonceGenerationFailed)
    );
}

#[test]
fn the_nonce_drawn_is_the_nonce_used() {
    let key = [7u8; 32];
    let nonce = [9u8; 24];
    let (ciphertext, used) = encrypt_str_drawn("GitHub", &key, Ok(nonce)).unwrap();
    assert_eq!(used, nonce);
    assert_eq!(ciphertext, encrypt_str_with_nonce("GitHub", &key, &nonce).unwrap());
    assert_ne!(ciphertext, encrypt_str_with_nonce("GitHub", &key, &[0u8; 24]).unwrap());
    let record = DataType::Password { password: "hunter2".to_string() };
    let (ciphertext, used) = encrypt_data_drawn(&record, &key, Ok(nonce)).unwrap();
    assert_eq!(used, nonce);
    assert_eq!(ciphertext, encrypt_data_with_nonce(&record, &key, &nonce).unwrap());
}

#[test]
fn ciphertext_is_sixteen_bytes_longer() {
    let key = [7u8; 32];
    let nonce = [9u8; 24];
    for text in ["", "a", "пароль", "sixteen bytes ok", &"x".repeat(1000)] {
        let ciphertext = encrypt_str_with_nonce(text, &key, &nonce).unwrap();
        assert_eq!(ciphertext.len(), text.len() + 16);
    }
    let record = DataType::Password { password: "hunter2".to_string() };
    let ciphertext = encrypt_data_with_nonce(&record, &key, &nonce).unwrap();
    assert_eq!(ciphertext.len(), r#"{"Password":{"password":"hunter2"}}"#.len() + 16);
}

#[test]
fn short_ciphertext_is_no_record() {
    let key = [0u8; 32];
    let nonce = [0u8; 24];
    for len in 0..16 {
        assert!(matches!(
            decrypt_data(&vec![0u8; len], &nonce, &key),
            Err(VaultError::DecryptionFailed)
        ));
    }
}

#[test]
fn verifier_over_a_random_salt() {
    let (verifier, salt) = encode(PASSWORD.to_string()).unwrap();
    assert!(verifier.starts_with("$argon2id$v=19$m=65536,t=10,p=3$"));
    assert_eq!(salt.len(), 43);
    assert_ne!(salt, SALT);
    let fields: Vec<&str> = verifier.split('$').collect();
    assert_eq!(fields.len(), 6);
    assert_eq!(fields[4], salt);
    assert_eq!(fields[5].len(), 86);
}

#[test]
fn right_password_verifies() {
    assert_eq!(check_password(&VERIFIER.to_string(), &PASSWORD.to_string()), Ok(true));
}

#[test]
fn wrong_password_does_not_verify() {
    let verifier = light_verifier(PASSWORD);
    assert_eq!(check_password(&verifier, &PASSWORD.to_string()), Ok(true));
    for wrong in ["sup3rsecret!", "Sup3rSecret", "Sup3rSecret! ", "", "hunter2"] {
        assert_eq!(check_password(&verifier, &wrong.to_string()), Ok(false), "{}", wrong);
    }
}

#[test]
fn verifier_of_another_algorithm_or_with_bad_parameters() {
    let foreign = "$scrypt$ln=16,r=8,p=1$c29tZXNhbHQ$MTIzNDU2Nzg5MDEyMzQ1Njc4OTAxMjM0NTY3ODkwMTI";
    assert_eq!(check_password(&foreign.to_string(), &PASSWORD.to_string()), Ok(false));
    let bad = "$argon2id$v=19$m=1,t=1,p=1$c29tZXNhbHRzb21lc2FsdA$MTIzNDU2Nzg5MDEyMzQ1Njc4OTAxMjM0NTY3ODkwMTI";
    assert_eq!(check_password(&bad.to_string(), &PASSWORD.to_string()), Ok(false));
}

#[test]
fn malformed_verifier() {
    assert_eq!(
        check_password(&"not a hash".to_string(), &"x".to_string()),
        Err(VaultError::MalformedVerifier)
    );
    assert_eq!(
        check_password(&"".to_string(), &"x".to_string()),
        Err(VaultError::MalformedVerifier)
    );
}

#[test]
fn key_is_derived_deterministically() {
    let first = create_crypto_key(SALT, PASSWORD).unwrap();
    let second = create_crypto_key(SALT, PASSWORD).unwrap();
    assert_eq!(first, second);
    assert_eq!(first, KEY);
}

#[test]
fn key_depends_on_password_and_salt() {
    let key = create_crypto_key(SALT, PASSWORD).unwrap();
    assert_ne!(create_crypto_key(SALT, "sup3rsecret!").unwrap(), key);
    assert_ne!(create_crypto_key("c29tZXNhbHRzb21lc2FsdA", PASSWORD).unwrap(), key);
}

#[test]
fn short_salt_derives_no_key() {
    assert_eq!(create_crypto_key("1234567", PASSWORD), Err(VaultError::KeyDerivationFailed));
    assert_eq!(create_crypto_key("", PASSWORD), Err(VaultError::KeyDerivationFailed));
    assert!(create_crypto_key("12345678", PASSWORD).is_ok());
}

#[test]
fn key_of_another_password_does_not_open() {
    let key = create_crypto_key(SALT, PASSWORD).unwrap();
    let other = create_crypto_key(SALT, "hunter2").unwrap();
    let record = DataType::Password { password: "hunter2".to_string() };
    let (ciphertext, nonce) = encrypt_data(&record, &key).unwrap();
    assert!(matches!(decrypt_data(&ciphertext, &nonce, &other), Err(VaultError::DecryptionFailed)));
    assert!(decrypt_data(&ciphertext, &nonce, &key).is_ok());
}

#[test]
fn nonce_is_what_the_random_source_gave() {
    let mut drawn = [0u8; 24];
    for (i, byte) in drawn.iter_mut().enumerate() {
        *byte = i as u8 + 1;
    }
    assert_eq!(read_nonce(Some(drawn)), Ok(drawn));
    assert_eq!(read_nonce(Some([0u8; 24])), Ok([0u8; 24]));
    assert_eq!(read_nonce(None), Err(VaultError::NonceGenerationFailed));
}
