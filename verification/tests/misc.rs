use dollhouse::authentication::{
    authentication_valid, AuthProvider, AuthState, Authentication, AuthenticationState,
};
use dollhouse::elapsed::Elapsed;
use dollhouse::error::StorageError;
use dollhouse::salt::{generate_salt, salt_from_bytes, salt_is_usable};
use dollhouse::stats::{FilesInfo, StatisticsResponse};

#[test]
fn authentication_accepts_configured_tokens() {
    let auth = Authentication::new(vec!["alpha".to_string(), "beta".to_string()]);
    assert!(auth.state_for_token("alpha").is_valid());
    assert!(auth.state_for_token("beta").is_valid());
    assert!(!auth.state_for_token("gamma").is_valid());
    assert!(!auth.state_for_token("").is_valid());
}

#[test]
fn authentication_state_is_valid() {
    assert!(AuthenticationState::Valid.is_valid());
    assert!(!AuthenticationState::Invalid.is_valid());
}

#[test]
fn auth_provider_matches_tokens() {
    let provider = AuthProvider::new(vec!["token-1".to_string()]);
    assert!(provider.state_for_token("token-1") == AuthState::Valid);
    assert!(provider.state_for_token("token-2") == AuthState::Invalid);
}

#[test]
fn authentication_valid_checks_membership() {
    let tokens = vec!["secret".to_string()];
    assert!(authentication_valid("secret", &tokens));
    assert!(!authentication_valid("other", &tokens));
    assert!(!authentication_valid("secret", &vec![]));
}

#[test]
fn generated_salt_is_fixed_length_alphanumeric() {
    let salt = generate_salt();
    assert_eq!(salt.len(), 32);
    assert!(salt.chars().all(|c| c.is_ascii_alphanumeric()));
    // Two fresh salts almost surely differ.
    assert_ne!(generate_salt(), generate_salt());
}

#[test]
fn salt_characters_follow_the_bytes() {
    let s = salt_from_bytes(&vec![0, 25, 26, 51, 52, 61, 62]);
    assert_eq!(s, "AZaz09A");
}

#[test]
fn salt_usability_requires_non_blank_text() {
    assert!(!salt_is_usable(""));
    assert!(!salt_is_usable("  \t\r\n"));
    assert!(salt_is_usable("  x  "));
    assert!(salt_is_usable("persisted-salt"));
}

#[test]
fn elapsed_remembers_operation() {
    let e = Elapsed::start("write");
    assert_eq!(e.operation(), "write");
    let _spent = e.finish();
}

#[test]
fn error_messages_are_descriptive() {
    assert!(StorageError::Unavailable.message().contains("does not exist"));
    assert!(StorageError::PermissionDenied.message().contains("permission denied"));
    assert!(!StorageError::Encryption.message().is_empty());
    assert!(!StorageError::Backend("disk full".to_string()).message().is_empty());
}

#[test]
fn statistics_carry_file_count() {
    let stats = StatisticsResponse {
        storage: FilesInfo { files: 7 },
    };
    assert_eq!(stats.storage.files, 7);
}
