//! Key derivation: from a password and a salt to a 256-bit key.

use crate::error::EnvelopeError;
use crate::primitives::argon2id_hash;
use crate::primitives::argon2id_hash_password;
use crate::primitives::MAX_ARGON2_INPUT_LEN;
use vstd::prelude::*;

verus! {

/// Length in bytes of a salt.
pub const SALT_LEN: usize = 16;

/// What `derive_key` returns for a password and a 16-byte salt.
pub open spec fn derived_key(password: Seq<u8>, salt: Seq<u8>) -> Result<Seq<u8>, EnvelopeError> {
    if password.len() <= MAX_ARGON2_INPUT_LEN {
        Ok(argon2id_hash(password, salt))
    } else {
        Err(EnvelopeError::KeyDerivation)
    }
}

/// Stretches `password` with `salt` into a 32-byte key.
///
/// The function is Argon2id, version 0x13, with 19456 KiB of memory, 2 passes
/// and 1 lane. These parameters are part of the container format: a key
/// derived with others opens nothing that this library sealed.
///
/// The only input refused is a password of more than 2^32 - 1 bytes.
pub fn derive_key(password: &[u8], salt: &[u8]) -> (r: Result<[u8; 32], EnvelopeError>)
    requires
        salt@.len() == SALT_LEN,
    ensures
        match r {
            Ok(key) => derived_key(password@, salt@) == Ok::<Seq<u8>, EnvelopeError>(key@),
            Err(e) => derived_key(password@, salt@) == Err::<Seq<u8>, EnvelopeError>(e),
        },
{
    match argon2id_hash_password(password, salt) {
        Ok(key) => Ok(key),
        Err(_) => Err(EnvelopeError::KeyDerivation),
    }
}

/// Overwrites a key with zeros once it has served. This narrows the time a
/// key spends in memory as far as the language allows; it is no guarantee
/// that no copy of it remains.
pub fn clear_key(key: &mut [u8; 32])
    ensures
        forall|i: int| 0 <= i < 32 ==> final(key)@[i] == 0,
{
    let mut i: usize = 0;
    while i < 32
        invariant
            i <= 32,
            forall|j: int| 0 <= j < i ==> key@[j] == 0,
        decreases 32 - i,
    {
        key[i] = 0;
        i += 1;
    }
}

/// Derivation is deterministic: equal passwords and equal salts give equal
/// outcomes, so the key that sealed a container can be derived again to open it.
pub proof fn lemma_derivation_is_deterministic(
    password_a: Seq<u8>,
    salt_a: Seq<u8>,
    password_b: Seq<u8>,
    salt_b: Seq<u8>,
)
    requires
        password_a == password_b,
        salt_a == salt_b,
    ensures
        derived_key(password_a, salt_a) == derived_key(password_b, salt_b),
{
}

} // verus!
