use aes_encryptor::derive_key;
use aes_encryptor::kdf::clear_key;
use aes_encryptor::kdf::SALT_LEN;
use argon2::Algorithm;
use argon2::Argon2;
use argon2::Params;
use argon2::Version;

#[test]
fn test_key_derivation_consistency() {
    let password = "test_password";
    let salt = [1u8; 16];
    let key1 = derive_key(password.as_bytes(), &salt);
    let key2 = derive_key(password.as_bytes(), &salt);
    assert_eq!(key1, key2, "Derived keys should match for same password and salt");
}

#[test]
fn derived_key_is_present_and_not_trivial() {
    let salt = [1u8; 16];
    let key = derive_key(b"test_password", &salt).expect("derivation succeeds");
    assert_eq!(key.len(), 32);
    assert_ne!(key, [0u8; 32]);
    assert_ne!(&key[..16], &salt[..]);
}

#[test]
fn salt_length_constant_is_sixteen() {
    assert_eq!(SALT_LEN, 16);
}

#[test]
fn different_salts_give_different_keys() {
    let first = derive_key(b"test_password", &[1u8; 16]).expect("derivation succeeds");
    let mut other_salt = [1u8; 16];
    other_salt[15] = 2;
    let second = derive_key(b"test_password", &other_salt).expect("derivation succeeds");
    assert_ne!(first, second);
}

#[test]
fn different_passwords_give_different_keys() {
    let first = derive_key(b"password one", &[7u8; 16]).expect("derivation succeeds");
    let second = derive_key(b"password two", &[7u8; 16]).expect("derivation succeeds");
    assert_ne!(first, second);
}

#[test]
fn empty_password_is_accepted() {
    let key = derive_key(b"", &[3u8; 16]);
    assert!(key.is_ok());
}

#[test]
fn password_need_not_be_text() {
    let password = [0xffu8, 0x00, 0xfe, 0x80];
    let first = derive_key(&password, &[3u8; 16]).expect("derivation succeeds");
    let second = derive_key(&password, &[3u8; 16]).expect("derivation succeeds");
    assert_eq!(first, second);
}

#[test]
fn derive_key_is_argon2id_with_the_documented_costs() {
    let salt = [9u8; 16];
    let params = Params::new(19456, 2, 1, Some(32)).expect("valid parameters");
    let hasher = Argon2::new(Algorithm::Argon2id, Version::V0x13, params);
    let mut expected = [0u8; 32];
    hasher
        .hash_password_into(b"test_password", &salt, &mut expected)
        .expect("hashing succeeds");
    let key = derive_key(b"test_password", &salt).expect("derivation succeeds");
    assert_eq!(key, expected);
}

#[test]
fn cleared_key_is_all_zero() {
    let mut key = derive_key(b"test_password", &[1u8; 16]).expect("derivation succeeds");
    assert_ne!(key, [0u8; 32]);
    clear_key(&mut key);
    assert_eq!(key, [0u8; 32]);
}
