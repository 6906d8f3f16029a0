use mail_tm::update_token;
use mail_tm::user::User;

#[test]
fn new_user_has_no_token() {
    let user = User::new("abc123", "p@ss13charslong", "example.com");
    assert_eq!(user.id, "abc123");
    assert_eq!(user.password, "p@ss13charslong");
    assert_eq!(user.domain, "example.com");
    assert_eq!(user.email_token, "");
}

#[test]
fn with_domain_replaces_only_the_domain() {
    let user = User::new("abc123", "secret", "old.org").with_domain("new.org");
    assert_eq!(user.domain, "new.org");
    assert_eq!(user.id, "abc123");
    assert_eq!(user.password, "secret");
    assert_eq!(user.email_token, "");
}

#[test]
fn address_joins_id_and_domain() {
    let user = User::new("abc123", "secret", "example.com");
    assert_eq!(user.address(), "abc123@example.com");
}

#[test]
fn update_token_keeps_credentials() {
    let user = User::new("abc123", "secret", "example.com");
    let updated = update_token(&user, "eyJI");
    assert_eq!(updated.email_token, "eyJI");
    assert_eq!(updated.id, user.id);
    assert_eq!(updated.domain, user.domain);
    assert_eq!(updated.password, user.password);
}

#[test]
fn default_user_is_random_alphanumeric() {
    let user = User::default();
    assert_eq!(user.id.chars().count(), 10);
    assert_eq!(user.password.chars().count(), 13);
    assert!(user.id.chars().all(|c| c.is_ascii_alphanumeric()));
    assert!(user.password.chars().all(|c| c.is_ascii_alphanumeric()));
    assert_eq!(user.domain, "");
    assert_eq!(user.email_token, "");
}

#[test]
fn default_users_differ() {
    let a = User::default();
    let b = User::default();
    assert_ne!((a.id, a.password), (b.id, b.password));
}
