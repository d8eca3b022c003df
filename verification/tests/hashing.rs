use gis_server::hashing::{can_hash, hash_pw, try_hash_pw, try_verify_pw, verify_pw};

const SALT: &str = "c29tZXNhbHRzb21lc2FsdA";

#[test]
fn hash_is_an_argon2id_phc_string() {
    let h = hash_pw("secret".to_string(), SALT);
    assert!(h.starts_with("$argon2id$v=19$m=19456,t=2,p=1$c29tZXNhbHRzb21lc2FsdA$"));
    assert_ne!(h, "secret");
}

#[test]
fn hash_is_deterministic_under_a_fixed_salt() {
    assert_eq!(hash_pw("pw".to_string(), SALT), hash_pw("pw".to_string(), SALT));
    assert_ne!(hash_pw("pw".to_string(), SALT), hash_pw("pw2".to_string(), SALT));
}

#[test]
fn password_verifies_against_its_own_hash() {
    let stored = hash_pw("hunter2".to_string(), SALT);
    assert!(verify_pw("hunter2".to_string(), SALT, Some(stored)));
}

#[test]
fn wrong_password_or_missing_hash_is_refused() {
    let stored = hash_pw("hunter2".to_string(), SALT);
    assert!(!verify_pw("hunter3".to_string(), SALT, Some(stored)));
    assert!(!verify_pw("hunter2".to_string(), SALT, None));
}

#[test]
fn invalid_salts_are_reported() {
    assert!(!can_hash(&"pw".to_string(), "not a salt!"));
    assert_eq!(try_hash_pw("pw".to_string(), "not a salt!"), None);
    // valid B64 but too short for Argon2
    assert_eq!(try_hash_pw("pw".to_string(), "abcd"), None);
    assert_eq!(try_verify_pw("pw".to_string(), "abcd", None), None);
    assert!(try_hash_pw("pw".to_string(), SALT).is_some());
    assert_eq!(try_verify_pw("pw".to_string(), SALT, None), Some(false));
}

#[test]
fn hash_embeds_the_salt_and_a_43_character_output() {
    let h = hash_pw("pw".to_string(), SALT);
    let head = format!("$argon2id$v=19$m=19456,t=2,p=1${}$", SALT);
    assert!(h.starts_with(&head));
    let out = &h[head.len()..];
    assert_eq!(out.len(), 43);
    assert!(out.chars().all(|c| c.is_ascii_alphanumeric() || c == '+' || c == '/'));
}
