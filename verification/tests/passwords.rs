use med_inventory::error::CommandError;
use med_inventory::hasher::{hash, verify};

#[test]
fn a_hash_verifies_against_its_password() {
    let h = hash("hunter2").unwrap();
    assert_ne!(h, "hunter2");
    assert_eq!(verify("hunter2", &h), Ok(true));
}

#[test]
fn a_hash_does_not_verify_against_another_password() {
    let h = hash("hunter2").unwrap();
    assert_eq!(verify("hunter3", &h), Ok(false));
}

#[test]
fn a_hash_names_the_work_factor() {
    let h = hash("secret").unwrap();
    assert!(h.starts_with("$2b$12$"));
    assert_eq!(h.len(), 60);
}

#[test]
fn two_hashes_of_one_password_differ() {
    let a = hash("same").unwrap();
    let b = hash("same").unwrap();
    assert_ne!(a, b);
}

#[test]
fn verify_reads_a_known_hash() {
    let known = "$2a$04$UuTkLRZZ6QofpDOlMz32MuuxEHA43WOemOYHPz6.SjsVsyO1tDU96";
    assert_eq!(verify("password", known), Ok(true));
    assert_eq!(verify("passwore", known), Ok(false));
}

#[test]
fn verify_refuses_a_malformed_hash() {
    let r = verify("password", "not a hash");
    assert!(matches!(r, Err(CommandError::HashingError { .. })));
}

#[test]
fn verify_refuses_an_empty_hash() {
    assert!(matches!(
        verify("password", ""),
        Err(CommandError::HashingError { .. })
    ));
}

#[test]
fn an_empty_password_can_be_hashed() {
    let known = hash("").unwrap();
    assert_eq!(verify("", &known), Ok(true));
}
