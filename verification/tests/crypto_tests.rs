use backend::crypto::{hash_password, password_matches};

#[test]
fn hash_password_known_value() {
    // SHA-256("abc") in URL-safe base64 without padding.
    assert_eq!(hash_password("abc"), "ungWv48Bz-pBQUDeXa4iI7ADYaOWF3qctBD_YfIAFa0");
}

#[test]
fn hash_password_empty() {
    // SHA-256("") in URL-safe base64 without padding.
    assert_eq!(hash_password(""), "47DEQpj8HBSa-_TImW-5JCeuQeRkm5NMpJWZG3hSuFU");
    assert_eq!(hash_password("").len(), 43);
}

#[test]
fn password_matches_its_hash() {
    let stored = Some(hash_password("secret"));
    assert!(password_matches(&stored, "secret"));
    assert!(!password_matches(&stored, "Secret"));
}

#[test]
fn password_does_not_match_missing_or_plain() {
    assert!(!password_matches(&None, "secret"));
    assert!(!password_matches(&Some("secret".to_string()), "secret"));
}
