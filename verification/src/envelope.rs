//! The container: its layout, and sealing and opening it.
//!
//! | offset | length    | field                            |
//! |--------|-----------|----------------------------------|
//! | 0      | 16        | salt, in the clear               |
//! | 16     | 12        | nonce, in the clear              |
//! | 28     | remainder | ciphertext, ending in its tag    |

use crate::error::EnvelopeError;
use crate::kdf::clear_key;
use crate::kdf::derive_key;
use crate::kdf::derived_key;
use crate::kdf::SALT_LEN;
use crate::primitives::aes256_gcm_ciphertext;
use crate::primitives::aes256_gcm_decrypt;
use crate::primitives::aes256_gcm_encrypt;
use crate::primitives::aes256_gcm_plaintext;
use crate::primitives::argon2id_hash;
use crate::primitives::os_random_bytes;
use crate::primitives::MAX_ARGON2_INPUT_LEN;
use crate::primitives::MAX_PLAINTEXT_LEN;
use crate::primitives::NONCE_LEN;
use crate::primitives::TAG_LEN;
use vstd::prelude::*;

verus! {

/// Length in bytes of salt and nonce together: no container is shorter.
pub const HEADER_LEN: usize = SALT_LEN + NONCE_LEN;

/// The salt field of a container of at least `HEADER_LEN` bytes.
pub open spec fn salt_of(bytes: Seq<u8>) -> Seq<u8> {
    bytes.subrange(0, SALT_LEN as int)
}

/// The nonce field of a container of at least `HEADER_LEN` bytes.
pub open spec fn nonce_of(bytes: Seq<u8>) -> Seq<u8> {
    bytes.subrange(SALT_LEN as int, HEADER_LEN as int)
}

/// The ciphertext field of a container of at least `HEADER_LEN` bytes.
pub open spec fn ciphertext_of(bytes: Seq<u8>) -> Seq<u8> {
    bytes.subrange(HEADER_LEN as int, bytes.len() as int)
}

/// A container, taken apart into its three fields.
#[derive(Debug)]
pub struct Container {
    pub salt: [u8; 16],
    pub nonce: [u8; 12],
    pub ciphertext: Vec<u8>,
}

impl Container {
    /// The container as it is stored: salt, nonce, ciphertext.
    pub open spec fn bytes(&self) -> Seq<u8> {
        self.salt@ + self.nonce@ + self.ciphertext@
    }

    /// Lays the three fields out in a fresh buffer.
    pub fn to_bytes(&self) -> (out: Vec<u8>)
        ensures
            out@ == self.bytes(),
    {
        let mut out: Vec<u8> = Vec::new();
        out.extend_from_slice(self.salt.as_slice());
        out.extend_from_slice(self.nonce.as_slice());
        out.extend_from_slice(self.ciphertext.as_slice());
        assert(out@ =~= self.bytes());
        out
    }

    /// Takes a stored container apart. Anything of at least `HEADER_LEN`
    /// bytes has the three fields; anything shorter is refused.
    pub fn parse(bytes: &[u8]) -> (r: Result<Container, EnvelopeError>)
        ensures
            bytes@.len() < HEADER_LEN ==> r == Err::<Container, EnvelopeError>(
                EnvelopeError::MalformedContainer,
            ),
            bytes@.len() >= HEADER_LEN ==> r is Ok,
            r matches Ok(container) ==> {
                &&& container.salt@ == salt_of(bytes@)
                &&& container.nonce@ == nonce_of(bytes@)
                &&& container.ciphertext@ == ciphertext_of(bytes@)
                &&& container.bytes() == bytes@
            },
    {
        if bytes.len() < HEADER_LEN {
            return Err(EnvelopeError::MalformedContainer);
        }
        let mut salt: [u8; 16] = [0u8; 16];
        let mut i: usize = 0;
        while i < SALT_LEN
            invariant
                i <= SALT_LEN,
                bytes@.len() >= HEADER_LEN,
                forall|j: int| 0 <= j < i ==> salt@[j] == bytes@[j],
            decreases SALT_LEN - i,
        {
            salt[i] = bytes[i];
            i += 1;
        }
        let mut nonce: [u8; 12] = [0u8; 12];
        let mut k: usize = 0;
        while k < NONCE_LEN
            invariant
                k <= NONCE_LEN,
                bytes@.len() >= HEADER_LEN,
                forall|j: int| 0 <= j < k ==> nonce@[j] == bytes@[SALT_LEN + j],
            decreases NONCE_LEN - k,
        {
            nonce[k] = bytes[SALT_LEN + k];
            k += 1;
        }
        let ciphertext = vstd::slice::slice_to_vec(
            vstd::slice::slice_subrange(bytes, HEADER_LEN, bytes.len()),
        );
        let container = Container { salt, nonce, ciphertext };
        assert(container.salt@ =~= salt_of(bytes@));
        assert(container.nonce@ =~= nonce_of(bytes@));
        assert(container.bytes() =~= bytes@);
        Ok(container)
    }
}

/// What `seal_with` returns: the container for a plaintext under a password,
/// a salt and a nonce, or the reason why there is none.
pub open spec fn sealed(
    plaintext: Seq<u8>,
    password: Seq<u8>,
    salt: Seq<u8>,
    nonce: Seq<u8>,
) -> Result<Seq<u8>, EnvelopeError> {
    match derived_key(password, salt) {
        Err(e) => Err(e),
        Ok(key) => if plaintext.len() <= MAX_PLAINTEXT_LEN {
            Ok(salt + nonce + aes256_gcm_ciphertext(key, nonce, plaintext))
        } else {
            Err(EnvelopeError::Encryption)
        },
    }
}

/// What `open` returns for a stored container and a password.
pub open spec fn opened(container: Seq<u8>, password: Seq<u8>) -> Result<Seq<u8>, EnvelopeError> {
    if container.len() < HEADER_LEN {
        Err(EnvelopeError::MalformedContainer)
    } else {
        match derived_key(password, salt_of(container)) {
            Err(e) => Err(e),
            Ok(key) => match aes256_gcm_plaintext(
                key,
                nonce_of(container),
                ciphertext_of(container),
            ) {
                Some(plaintext) => Ok(plaintext),
                None => Err(EnvelopeError::AuthenticationFailed),
            },
        }
    }
}

/// `container` seals `plaintext` under `password`: behind its own salt and
/// nonce it holds the encryption of the plaintext under the key derived from
/// password and salt, and the cipher decrypts that encryption again.
pub open spec fn seals(container: Seq<u8>, plaintext: Seq<u8>, password: Seq<u8>) -> bool {
    &&& container.len() == HEADER_LEN + plaintext.len() + TAG_LEN
    &&& sealed(plaintext, password, salt_of(container), nonce_of(container)) == Ok::<
        Seq<u8>,
        EnvelopeError,
    >(container)
    &&& aes256_gcm_plaintext(
        argon2id_hash(password, salt_of(container)),
        nonce_of(container),
        ciphertext_of(container),
    ) == Some(plaintext)
}

/// Seals `plaintext` under `password` with the salt and the nonce given.
///
/// A salt must be fresh for every container and a nonce must never repeat
/// under one key: `seal` draws both from the system's random source, and this
/// function is for callers that bring their own.
///
/// Only a password of more than 2^32 - 1 bytes and a plaintext of more than
/// 2^36 bytes are refused.
pub fn seal_with(
    plaintext: &[u8],
    password: &[u8],
    salt: &[u8; 16],
    nonce: &[u8; 12],
) -> (r: Result<Vec<u8>, EnvelopeError>)
    ensures
        match r {
            Ok(container) => {
                &&& sealed(plaintext@, password@, salt@, nonce@) == Ok::<Seq<u8>, EnvelopeError>(
                    container@,
                )
                &&& seals(container@, plaintext@, password@)
            },
            Err(e) => sealed(plaintext@, password@, salt@, nonce@) == Err::<
                Seq<u8>,
                EnvelopeError,
            >(e),
        },
{
    let mut key = match derive_key(password, salt.as_slice()) {
        Ok(key) => key,
        Err(e) => { return Err(e); },
    };
    let encrypted = aes256_gcm_encrypt(&key, nonce, plaintext);
    clear_key(&mut key);
    let ciphertext = match encrypted {
        Ok(ciphertext) => ciphertext,
        Err(_) => { return Err(EnvelopeError::Encryption); },
    };
    let container = Container { salt: *salt, nonce: *nonce, ciphertext };
    let out = container.to_bytes();
    proof {
        assert(salt_of(out@) =~= salt@);
        assert(nonce_of(out@) =~= nonce@);
        assert(ciphertext_of(out@) =~= container.ciphertext@);
    }
    Ok(out)
}

/// Seals `plaintext` under `password` with a salt and a nonce drawn from the
/// system's random source.
///
/// Whatever the random source hands out, a container that comes back seals
/// the plaintext under the password. Apart from a failing random source only
/// a password of more than 2^32 - 1 bytes and a plaintext of more than 2^36
/// bytes are refused.
pub fn seal(plaintext: &[u8], password: &[u8]) -> (r: Result<Vec<u8>, EnvelopeError>)
    ensures
        match r {
            Ok(container) => seals(container@, plaintext@, password@),
            Err(e) => e == EnvelopeError::Randomness || exists|salt: Seq<u8>, nonce: Seq<u8>|
                salt.len() == SALT_LEN && nonce.len() == NONCE_LEN && #[trigger] sealed(
                    plaintext@,
                    password@,
                    salt,
                    nonce,
                ) == Err::<Seq<u8>, EnvelopeError>(e),
        },
{
    let salt = match os_random_bytes::<16>() {
        Ok(salt) => salt,
        Err(_) => { return Err(EnvelopeError::Randomness); },
    };
    let nonce = match os_random_bytes::<12>() {
        Ok(nonce) => nonce,
        Err(_) => { return Err(EnvelopeError::Randomness); },
    };
    seal_with(plaintext, password, &salt, &nonce)
}

/// Opens a stored container with `password`.
///
/// Anything shorter than `HEADER_LEN` bytes is refused before any key is
/// derived. Otherwise the plaintext comes back whole where the tag verifies
/// under the key derived from the password and the container's salt; where it
/// does not, the failure says nothing of the cause.
pub fn open(container: &[u8], password: &[u8]) -> (r: Result<Vec<u8>, EnvelopeError>)
    ensures
        match r {
            Ok(plaintext) => opened(container@, password@) == Ok::<Seq<u8>, EnvelopeError>(
                plaintext@,
            ),
            Err(e) => opened(container@, password@) == Err::<Seq<u8>, EnvelopeError>(e),
        },
        container@.len() < HEADER_LEN ==> r == Err::<Vec<u8>, EnvelopeError>(
            EnvelopeError::MalformedContainer,
        ),
        container@.len() < HEADER_LEN + TAG_LEN ==> r is Err,
        r matches Ok(plaintext) ==> plaintext@.len() + HEADER_LEN + TAG_LEN == container@.len(),
{
    let parts = match Container::parse(container) {
        Ok(parts) => parts,
        Err(e) => { return Err(e); },
    };
    let mut key = match derive_key(password, parts.salt.as_slice()) {
        Ok(key) => key,
        Err(e) => { return Err(e); },
    };
    let decrypted = aes256_gcm_decrypt(&key, &parts.nonce, parts.ciphertext.as_slice());
    clear_key(&mut key);
    match decrypted {
        Ok(plaintext) => Ok(plaintext),
        Err(_) => Err(EnvelopeError::AuthenticationFailed),
    }
}

/// Opening inverts sealing: a container that seals a plaintext under a
/// password opens, with that password, to exactly that plaintext.
pub proof fn lemma_open_recovers_sealed(container: Seq<u8>, plaintext: Seq<u8>, password: Seq<u8>)
    requires
        seals(container, plaintext, password),
    ensures
        opened(container, password) == Ok::<Seq<u8>, EnvelopeError>(plaintext),
{
}

/// Opening fails in one way only: of an input that is long enough to hold
/// salt and nonce, under a password that the key derivation accepts, nothing
/// is reported but a failed authentication, whatever the cause.
pub proof fn lemma_failure_names_no_cause(container: Seq<u8>, password: Seq<u8>)
    requires
        container.len() >= HEADER_LEN,
        password.len() <= MAX_ARGON2_INPUT_LEN,
    ensures
        opened(container, password) is Err ==> opened(container, password) == Err::<
            Seq<u8>,
            EnvelopeError,
        >(EnvelopeError::AuthenticationFailed),
{
}

/// Nothing shorter than salt and nonce together is opened, whatever the
/// password.
pub proof fn lemma_short_input_is_malformed(container: Seq<u8>, password: Seq<u8>)
    requires
        container.len() < HEADER_LEN,
    ensures
        opened(container, password) == Err::<Seq<u8>, EnvelopeError>(
            EnvelopeError::MalformedContainer,
        ),
{
}

/// The layout loses nothing: taking apart what `to_bytes` laid out gives the
/// three fields back.
pub proof fn lemma_layout_round_trip(container: Container)
    ensures
        container.bytes().len() == HEADER_LEN + container.ciphertext@.len(),
        salt_of(container.bytes()) == container.salt@,
        nonce_of(container.bytes()) == container.nonce@,
        ciphertext_of(container.bytes()) == container.ciphertext@,
{
    assert(salt_of(container.bytes()) =~= container.salt@);
    assert(nonce_of(container.bytes()) =~= container.nonce@);
    assert(ciphertext_of(container.bytes()) =~= container.ciphertext@);
}

} // verus!
