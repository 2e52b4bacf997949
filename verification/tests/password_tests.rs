use misato::password::{hash_password, hash_password_salt, is_correct_password, Password};
use misato::security::generate_salt;

#[test]
fn hash_is_nondeterministic_across_calls() {
    let a = hash_password(b"anypassword");
    let b = hash_password(b"anypassword");
    assert_eq!(a.salt.len(), 256);
    assert_eq!(b.salt.len(), 256);
    assert_ne!(a.salt, b.salt);
    assert_ne!(a.hash, b.hash);
}

#[test]
fn salted_hash_is_deterministic() {
    let salt = generate_salt(256);
    let first = hash_password_salt(&salt, b"anypassword");
    let second = hash_password_salt(&salt, b"anypassword");
    let other = hash_password_salt(&salt, b"anotherpassword");
    assert_eq!(first.salt, second.salt);
    assert_eq!(first.salt, other.salt);
    assert_eq!(first.hash, second.hash);
    assert_ne!(first.hash, other.hash);
}

#[test]
fn verification_round_trip() {
    let credential = hash_password(b"anypassword");
    assert!(is_correct_password(b"anypassword", &credential));
    assert!(!is_correct_password(b"anotherpassword", &credential));
}

#[test]
fn verification_round_trip_with_supplied_salt() {
    let salt = [7u8; 16];
    let credential = hash_password_salt(&salt, b"hunter2");
    assert_eq!(credential.salt, salt.to_vec());
    assert_eq!(credential.hash.len(), 32);
    assert!(is_correct_password(b"hunter2", &credential));
    assert!(!is_correct_password(b"hunter3", &credential));
}

#[test]
fn out_of_bounds_credentials_never_verify() {
    let short_salt = Password { salt: vec![1, 2, 3], hash: vec![0u8; 32] };
    assert!(!is_correct_password(b"whatever", &short_salt));
    let short_hash = Password { salt: vec![9u8; 16], hash: vec![0u8; 2] };
    assert!(!is_correct_password(b"whatever", &short_hash));
}

#[test]
fn generate_salt_length() {
    assert_eq!(generate_salt(256).len(), 256);
    assert_eq!(generate_salt(0).len(), 0);
    assert_eq!(generate_salt(-5).len(), 0);
}
