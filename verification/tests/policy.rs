use aes_encryptor::confirm_password;
use aes_encryptor::EnvelopeError;

#[test]
fn matching_entries_are_confirmed() {
    let confirmed = confirm_password(String::from("hunter2"), String::from("hunter2"));
    assert_eq!(confirmed, Some(String::from("hunter2")));
}

#[test]
fn differing_entries_are_refused() {
    assert_eq!(confirm_password(String::from("hunter2"), String::from("hunter3")), None);
    assert_eq!(confirm_password(String::from("a"), String::new()), None);
}

#[test]
fn two_empty_entries_are_confirmed() {
    assert_eq!(confirm_password(String::new(), String::new()), Some(String::new()));
}

#[test]
fn every_error_has_its_message() {
    assert_eq!(EnvelopeError::Randomness.message(), "Random source unavailable");
    assert_eq!(EnvelopeError::KeyDerivation.message(), "Key derivation failed");
    assert_eq!(EnvelopeError::Encryption.message(), "Encryption failed");
    assert_eq!(EnvelopeError::MalformedContainer.message(), "File too short to be valid.");
    assert_eq!(
        EnvelopeError::AuthenticationFailed.message(),
        "Decryption failed: wrong password or file corrupted"
    );
}

#[test]
fn errors_compare_by_kind() {
    assert_eq!(EnvelopeError::MalformedContainer, EnvelopeError::MalformedContainer);
    assert_ne!(EnvelopeError::MalformedContainer, EnvelopeError::AuthenticationFailed);
}
