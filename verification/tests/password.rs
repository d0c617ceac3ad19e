use turntf::errors::Error;
use turntf::password::{hash_password, hashed_password, plain_password, PasswordSource};

#[test]
fn plain_passwords_are_hashed() {
    let p = plain_password("alice-password").unwrap();
    assert_eq!(p.source(), PasswordSource::Plain);
    assert_ne!(p.encoded(), "alice-password");
    assert!(p.encoded().starts_with("$2b$12$"));
    assert_eq!(p.encoded().len(), 60);
    assert!(p.is_hashed());
    assert_eq!(p.wire_value().unwrap(), p.encoded());
    assert_eq!(bcrypt::verify("alice-password", p.encoded()).unwrap(), true);
    assert_eq!(bcrypt::verify("other-password", p.encoded()).unwrap(), false);
    let h = hash_password("new-password").unwrap();
    assert_ne!(h, "new-password");
    assert_eq!(bcrypt::verify("new-password", &h).unwrap(), true);
}

#[test]
fn empty_passwords_are_refused() {
    assert!(matches!(hash_password(""), Err(Error::Validation(ref v)) if v.message == "password is required"));
    let h = hashed_password("");
    assert!(h.is_zero());
    assert!(h.validate().is_err());
    let h = hashed_password("$2b$12$abc");
    assert_eq!(h.source(), PasswordSource::Hashed);
    assert_eq!(h.wire_value().unwrap(), "$2b$12$abc");
}
