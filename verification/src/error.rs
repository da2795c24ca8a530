use vstd::prelude::*;

verus! {

/// Why sealing or opening a container failed.
#[derive(Clone, Copy, Debug, PartialEq, Eq, Structural)]
pub enum EnvelopeError {
    /// The system's random source could not supply salt and nonce.
    Randomness,
    /// The key derivation function refused its inputs.
    KeyDerivation,
    /// The cipher refused the plaintext.
    Encryption,
    /// The input is shorter than salt and nonce together.
    MalformedContainer,
    /// The tag did not verify: wrong password, or damaged or altered data.
    /// The three causes are deliberately not told apart.
    AuthenticationFailed,
}

impl EnvelopeError {
    /// The text shown to a user for this failure.
    pub fn message(&self) -> (text: &'static str)
        ensures
            text@ == match *self {
                EnvelopeError::Randomness => "Random source unavailable"@,
                EnvelopeError::KeyDerivation => "Key derivation failed"@,
                EnvelopeError::Encryption => "Encryption failed"@,
                EnvelopeError::MalformedContainer => "File too short to be valid."@,
                EnvelopeError::AuthenticationFailed =>
                    "Decryption failed: wrong password or file corrupted"@,
            },
    {
        match self {
            EnvelopeError::Randomness => "Random source unavailable",
            EnvelopeError::KeyDerivation => "Key derivation failed",
            EnvelopeError::Encryption => "Encryption failed",
            EnvelopeError::MalformedContainer => "File too short to be valid.",
            EnvelopeError::AuthenticationFailed =>
                "Decryption failed: wrong password or file corrupted",
        }
    }
}

} // verus!
