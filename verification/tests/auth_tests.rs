use fedsearch::auth::AccessGate;
use fedsearch::auth::AuthError;

#[test]
fn granted_credentials_are_admitted() {
    let mut gate = AccessGate::new();
    gate.grant("user", "password");
    assert!(gate.validate("user", Some("password")).is_ok());
}

#[test]
fn wrong_password_is_refused() {
    let mut gate = AccessGate::new();
    gate.grant("user", "password");
    assert!(matches!(gate.validate("user", Some("wrong")), Err(AuthError::Unauthorized)));
}

#[test]
fn unknown_user_is_refused() {
    let mut gate = AccessGate::new();
    gate.grant("user", "password");
    assert!(matches!(gate.validate("someone", Some("password")), Err(AuthError::Unauthorized)));
}

#[test]
fn missing_password_counts_as_empty() {
    let mut gate = AccessGate::new();
    gate.grant("open", "");
    gate.grant("user", "password");
    assert!(gate.validate("open", None).is_ok());
    assert!(matches!(gate.validate("user", None), Err(AuthError::Unauthorized)));
}

#[test]
fn an_empty_gate_admits_nobody() {
    let gate = AccessGate::new();
    assert!(matches!(gate.validate("user", Some("password")), Err(AuthError::Unauthorized)));
}
