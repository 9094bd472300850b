use qr_checkin::creds::Login;

fn pair() -> Login {
    Login {
        username: "Administrator".to_string(),
        password: "correct horse battery staple".to_string(),
    }
}

#[test]
fn matching_username_passes() {
    let ok = pair().verify("whatever".to_string(), "Administrator".to_string());
    assert!(ok);
}

#[test]
fn wrong_username_with_matching_hash_passes() {
    // a hash of the stored password string is accepted by bcrypt
    let h = bcrypt::hash("correct horse battery staple", 4).unwrap();
    let ok = pair().verify(h, "somebody-else".to_string());
    assert!(ok);
}

#[test]
fn wrong_username_and_wrong_hash_fails() {
    let h = bcrypt::hash("a different password", 4).unwrap();
    let ok = pair().verify(h, "somebody-else".to_string());
    assert!(!ok);
}

#[test]
fn wrong_username_and_unreadable_hash_fails() {
    let ok = pair().verify("not a bcrypt hash".to_string(), "somebody-else".to_string());
    assert!(!ok);
}

#[test]
fn hash_keeps_the_username_and_is_accepted_by_bcrypt() {
    let hashed = pair().hash().expect("hashing a short password succeeds");
    assert_eq!(hashed.username, "Administrator");
    assert_ne!(hashed.password, "correct horse battery staple");
    assert!(bcrypt::verify("correct horse battery staple", &hashed.password).unwrap());
}
