use flow_auth::crypto::{hash_password, verify_helper};

#[test]
fn raw_hash_verifies() {
    let h = bcrypt::hash("secret", 4).unwrap();
    assert!(verify_helper(&h, "secret"));
    assert!(!verify_helper(&h, "Secret"));
}

#[test]
fn base64_hash_verifies_even_broken_over_lines() {
    let h = bcrypt::hash("secret", 4).unwrap();
    let enc = base64::encode(&h);
    assert!(verify_helper(&enc, "secret"));
    assert!(!verify_helper(&enc, "other"));
    let (a, b) = enc.split_at(20);
    let broken = format!("{}\n{}\n", a, b);
    assert!(verify_helper(&broken, "secret"));
}

#[test]
fn garbage_never_verifies() {
    assert!(!verify_helper("", "secret"));
    assert!(!verify_helper("", ""));
    assert!(!verify_helper("not a hash", "secret"));
    assert!(!verify_helper("$2b$04$short", "secret"));
    // Valid base64 that is not UTF-8.
    assert!(!verify_helper("//79", "secret"));
}

#[test]
fn new_hash_verifies() {
    let h = hash_password("pw").unwrap();
    assert!(h.starts_with("$2"));
    assert!(verify_helper(&h, "pw"));
    assert!(!verify_helper(&h, "pw2"));
}
