use sha2::Digest;
use teepod::ident::{app_id_of, hex_sha256, sha256};

#[test]
fn sha256_known_vector() {
    let d = sha256(b"abc");
    assert_eq!(
        hex::encode(d),
        "ba7816bf8f01cfea414140de5dae2223b00361a396177a9cb410ff61f20015ad"
    );
}

#[test]
fn hex_sha256_known_vector() {
    assert_eq!(
        hex_sha256("hello"),
        "2cf24dba5fb0a30e26e83b2ac5b9e29e1b161e5c1fa7425e73043362938b9824"
    );
}

#[test]
fn hex_sha256_matches_reference_implementation() {
    let input = "some compose file content";
    let mut hasher = sha2::Sha256::new();
    hasher.update(input.as_bytes());
    let expected = hex::encode(hasher.finalize());
    assert_eq!(hex_sha256(input), expected);
}

#[test]
fn app_id_is_forty_hex_chars() {
    let id = app_id_of("{}");
    assert_eq!(id.len(), 40);
    assert!(id.chars().all(|c| c.is_ascii_hexdigit()));
}

#[test]
fn app_id_of_empty_compose() {
    // SHA-256 of the empty string, truncated to 40 hex characters.
    assert_eq!(app_id_of(""), "e3b0c44298fc1c149afbf4c8996fb92427ae41e4");
}

#[test]
fn app_id_deterministic() {
    let a = app_id_of("{\"name\":\"x\"}");
    let b = app_id_of("{\"name\":\"x\"}");
    assert_eq!(a, b);
}

#[test]
fn app_id_differs_for_different_content() {
    // A single differing byte yields an unrelated id.
    let a = app_id_of("{\"name\":\"x\"}");
    let b = app_id_of("{\"name\":\"y\"}");
    assert_ne!(a, b);
}
