//! The cryptographic primitives and the random source.
//!
//! Nothing in this file is proved: each function states what the crate it
//! calls does, as that crate's source shows it, and the rest of the library is
//! verified against these statements.

use aes_gcm::aead::Aead;
use aes_gcm::aead::KeyInit;
use aes_gcm::Aes256Gcm;
use aes_gcm::Key;
use aes_gcm::Nonce;
use argon2::Argon2;
use rand::rngs::OsRng;
use rand::RngCore;
use vstd::prelude::*;

verus! {

/// Length in bytes of a nonce.
pub const NONCE_LEN: usize = 12;

/// Length in bytes of the authentication tag that ends every ciphertext.
pub const TAG_LEN: usize = 16;

/// Shortest salt that Argon2 accepts.
pub const MIN_SALT_LEN: usize = 8;

/// Longest password and longest salt that Argon2 accepts.
pub const MAX_ARGON2_INPUT_LEN: usize = 0xFFFF_FFFF;

/// Longest plaintext that AES-GCM encrypts under one nonce.
pub const MAX_PLAINTEXT_LEN: u64 = 0x10_0000_0000;

/// `argon2::Error`, carried through and never inspected.
#[verifier::external_type_specification]
#[verifier::external_body]
pub struct ExArgon2Error(argon2::Error);

/// `aes_gcm::Error`, carried through and never inspected.
#[verifier::external_type_specification]
#[verifier::external_body]
pub struct ExAeadError(aes_gcm::Error);

/// `rand::Error`, carried through and never inspected.
#[verifier::external_type_specification]
#[verifier::external_body]
pub struct ExRandError(rand::Error);

/// The 32-byte Argon2id hash of `password` with `salt`, at version 0x13 with
/// 19456 KiB of memory, 2 passes and 1 lane, and with neither secret nor
/// associated data.
pub uninterp spec fn argon2id_hash(password: Seq<u8>, salt: Seq<u8>) -> Seq<u8>;

/// The AES-256-GCM encryption of `plaintext` under `key` and a 96-bit `nonce`,
/// without associated data: the ciphertext followed by its 16-byte tag.
pub uninterp spec fn aes256_gcm_ciphertext(key: Seq<u8>, nonce: Seq<u8>, plaintext: Seq<u8>) -> Seq<u8>;

/// What AES-256-GCM decryption under `key` and a 96-bit `nonce`, without
/// associated data, makes of `ciphertext`: the plaintext where the trailing
/// tag verifies, `None` where it does not.
pub uninterp spec fn aes256_gcm_plaintext(key: Seq<u8>, nonce: Seq<u8>, ciphertext: Seq<u8>) -> Option<Seq<u8>>;

/// Calls `Argon2::hash_password_into` on `Argon2::default()` with a 32-byte
/// output buffer.
///
/// Claimed of it: it fails exactly where an input's length is out of range
/// (the only checks that can fail with the default parameters and this output
/// length), and the bytes it writes are a function of password and salt alone.
#[verifier::external_body]
pub(crate) fn argon2id_hash_password(password: &[u8], salt: &[u8]) -> (r: Result<[u8; 32], argon2::Error>)
    ensures
        r.is_ok() == (password@.len() <= MAX_ARGON2_INPUT_LEN && MIN_SALT_LEN <= salt@.len()
            && salt@.len() <= MAX_ARGON2_INPUT_LEN),
        r matches Ok(key) ==> key@ == argon2id_hash(password@, salt@),
{
    let mut key = [0u8; 32];
    Argon2::default().hash_password_into(password, salt, &mut key)?;
    Ok(key)
}

/// Calls `Aead::encrypt` on an `Aes256Gcm` made from `key`.
///
/// Claimed of it: it fails exactly where the plaintext is over the cipher's
/// limit; what it returns is a function of key, nonce and plaintext alone, is
/// 16 bytes longer than the plaintext, and decrypts under the same key and
/// nonce to that plaintext (decryption recomputes the same tag over the same
/// bytes and applies the same keystream).
#[verifier::external_body]
pub(crate) fn aes256_gcm_encrypt(key: &[u8; 32], nonce: &[u8; 12], plaintext: &[u8]) -> (r: Result<Vec<u8>, aes_gcm::Error>)
    ensures
        r.is_ok() == (plaintext@.len() <= MAX_PLAINTEXT_LEN),
        r matches Ok(ciphertext) ==> {
            &&& ciphertext@ == aes256_gcm_ciphertext(key@, nonce@, plaintext@)
            &&& ciphertext@.len() == plaintext@.len() + TAG_LEN
            &&& aes256_gcm_plaintext(key@, nonce@, ciphertext@) == Some(plaintext@)
        },
{
    let cipher = Aes256Gcm::new(Key::<Aes256Gcm>::from_slice(key));
    cipher.encrypt(Nonce::from_slice(nonce), plaintext)
}

/// Calls `Aead::decrypt` on an `Aes256Gcm` made from `key`.
///
/// Claimed of it: whether it succeeds and what it returns are a function of
/// key, nonce and ciphertext alone; an input with no room for the tag fails,
/// and a plaintext that comes back is the input without its last 16 bytes,
/// decrypted.
#[verifier::external_body]
pub(crate) fn aes256_gcm_decrypt(key: &[u8; 32], nonce: &[u8; 12], ciphertext: &[u8]) -> (r: Result<Vec<u8>, aes_gcm::Error>)
    ensures
        match r {
            Ok(plaintext) => {
                &&& aes256_gcm_plaintext(key@, nonce@, ciphertext@) == Some(plaintext@)
                &&& plaintext@.len() + TAG_LEN == ciphertext@.len()
            },
            Err(_) => aes256_gcm_plaintext(key@, nonce@, ciphertext@) is None,
        },
        ciphertext@.len() < TAG_LEN ==> r is Err,
{
    let cipher = Aes256Gcm::new(Key::<Aes256Gcm>::from_slice(key));
    cipher.decrypt(Nonce::from_slice(nonce), ciphertext)
}

/// Calls `OsRng.try_fill_bytes` on a buffer of `N` zero bytes and hands the
/// buffer back. Nothing is claimed of the bytes: they differ from call to call.
#[verifier::external_body]
pub(crate) fn os_random_bytes<const N: usize>() -> (r: Result<[u8; N], rand::Error>) {
    let mut buffer = [0u8; N];
    OsRng.try_fill_bytes(&mut buffer)?;
    Ok(buffer)
}

} // verus!
