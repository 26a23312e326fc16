use burning_pro_server::app::AdminAuthenticator;

fn authenticator() -> AdminAuthenticator {
    AdminAuthenticator::new(
        "Burning Pro admin web UI".to_string(),
        "admin".to_string(),
        Some("secret".to_string()),
    )
}

#[test]
fn realm_is_the_one_given() {
    assert_eq!(authenticator().realm(), "Burning Pro admin web UI");
}

#[test]
fn right_credentials_are_let_in() {
    assert!(authenticator().is_authenticated("admin", Some("secret")));
}

#[test]
fn wrong_user_is_kept_out() {
    assert!(!authenticator().is_authenticated("root", Some("secret")));
}

#[test]
fn wrong_password_is_kept_out() {
    assert!(!authenticator().is_authenticated("admin", Some("Secret")));
    assert!(!authenticator().is_authenticated("admin", Some("")));
}

#[test]
fn missing_password_is_kept_out() {
    assert!(!authenticator().is_authenticated("admin", None));
}

#[test]
fn authenticator_without_password_takes_only_none() {
    let auth = AdminAuthenticator::new("realm".to_string(), "admin".to_string(), None);
    assert!(auth.is_authenticated("admin", None));
    assert!(!auth.is_authenticated("admin", Some("")));
    assert!(!auth.is_authenticated("other", None));
}
