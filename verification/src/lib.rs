//! Password-based authenticated encryption of a byte buffer.
//!
//! A password and a fresh random salt are stretched into a 256-bit key with
//! Argon2id; the buffer is encrypted under that key and a fresh random nonce
//! with AES-256-GCM; salt, nonce and ciphertext are laid out in one container.
//! The container layout and the error policy are verified; the two primitives
//! and the random source are reached through the declarations in `primitives`.

pub mod envelope;
pub mod error;
pub mod kdf;
pub mod password;
pub mod primitives;

pub use envelope::{open, seal, seal_with, Container};
pub use error::EnvelopeError;
pub use kdf::derive_key;
pub use password::confirm_password;
