use forum::{ApiError, Forum, User};

fn credentials(username: &str, password: &str) -> User {
    User { created: 0, username: username.to_string(), password: password.to_string() }
}

#[test]
fn signup_token_validates_to_the_new_user() {
    let mut f = Forum::new();
    let session = f.create_account(&credentials("alice", "hunter2")).unwrap();
    assert_eq!(session.username, "alice");
    assert!(!session.id.is_empty());
    assert_eq!(f.validate_session(&session.id), Some("alice".to_string()));
}

#[test]
fn signup_stores_an_argon2_hash_not_the_password() {
    let mut f = Forum::new();
    f.create_account(&credentials("alice", "hunter2")).unwrap();
    let row = f.user_row("alice").unwrap();
    assert_ne!(row.hashed_password, "hunter2");
    assert!(row.hashed_password.starts_with("$argon2"));
    assert!(row.created > 0);
}

#[test]
fn signup_tokens_differ() {
    let mut f = Forum::new();
    let a = f.create_account_with(&credentials("a", "x"), "h".to_string(), "t1".to_string(), 1).unwrap();
    let b = f.create_account(&credentials("b", "y")).unwrap();
    let c = f.create_account(&credentials("c", "z")).unwrap();
    assert_ne!(b.id, c.id);
    assert_ne!(a.id, b.id);
}

#[test]
fn second_signup_with_same_name_conflicts_and_keeps_hash() {
    let mut f = Forum::new();
    f.create_account_with(&credentials("bob", "first"), "hash-one".to_string(), "tok1".to_string(), 10)
        .unwrap();
    let second = f.create_account_with(
        &credentials("bob", "second"),
        "hash-two".to_string(),
        "tok2".to_string(),
        20,
    );
    assert_eq!(second.unwrap_err(), ApiError::Conflict);
    let row = f.user_row("bob").unwrap();
    assert_eq!(row.hashed_password, "hash-one");
    assert_eq!(row.created, 10);
    assert_eq!(f.validate_session("tok2"), None);
    assert_eq!(f.validate_session("tok1"), Some("bob".to_string()));
}

#[test]
fn second_real_signup_conflicts() {
    let mut f = Forum::new();
    f.create_account(&credentials("bob", "first")).unwrap();
    let before = f.user_row("bob").unwrap().hashed_password;
    assert_eq!(f.create_account(&credentials("bob", "second")).unwrap_err(), ApiError::Conflict);
    assert_eq!(f.user_row("bob").unwrap().hashed_password, before);
}

#[test]
fn login_with_wrong_password_is_unauthorized_and_keeps_sessions() {
    let mut f = Forum::new();
    let session = f.create_account(&credentials("carol", "right")).unwrap();
    assert_eq!(f.login(&credentials("carol", "wrong")).unwrap_err(), ApiError::Unauthorized);
    assert_eq!(f.validate_session(&session.id), Some("carol".to_string()));
}

#[test]
fn login_against_unparsable_hash_is_unauthorized() {
    let mut f = Forum::new();
    f.create_account_with(&credentials("dan", "pw"), "not a hash".to_string(), "t0".to_string(), 1)
        .unwrap();
    let r = f.login_with_token(&credentials("dan", "pw"), "t1".to_string());
    assert_eq!(r.unwrap_err(), ApiError::Unauthorized);
    assert_eq!(f.validate_session("t1"), None);
    assert_eq!(f.validate_session("t0"), Some("dan".to_string()));
}

#[test]
fn login_of_unknown_user_is_not_found() {
    let mut f = Forum::new();
    assert_eq!(f.login(&credentials("nobody", "pw")).unwrap_err(), ApiError::NotFound);
}

#[test]
fn new_login_invalidates_previous_token() {
    let mut f = Forum::new();
    let signup = f.create_account(&credentials("erin", "pw")).unwrap();
    let first = f.login_with_token(&credentials("erin", "pw"), "first".to_string()).unwrap();
    assert_eq!(first.id, "first");
    assert_eq!(f.validate_session(&signup.id), None);
    let second = f.login(&credentials("erin", "pw")).unwrap();
    assert_eq!(f.validate_session("first"), None);
    assert_eq!(f.validate_session(&second.id), Some("erin".to_string()));
}

#[test]
fn login_with_a_token_held_by_another_user_replaces_it() {
    let mut f = Forum::new();
    f.create_account_with(&credentials("a", "x"), "h".to_string(), "shared".to_string(), 1).unwrap();
    f.create_account_with(&credentials("b", "y"), "h".to_string(), "shared".to_string(), 2).unwrap();
    assert_eq!(f.validate_session("shared"), Some("b".to_string()));
}

#[test]
fn validate_session_is_repeatable_and_changes_nothing() {
    let mut f = Forum::new();
    f.create_account_with(&credentials("fay", "pw"), "h".to_string(), "tok".to_string(), 1).unwrap();
    let first = f.validate_session("tok");
    let second = f.validate_session("tok");
    let third = f.validate_session("tok");
    assert_eq!(first, Some("fay".to_string()));
    assert_eq!(first, second);
    assert_eq!(second, third);
    assert_eq!(f.validate_session("other"), None);
    assert_eq!(f.validate_session("other"), None);
}

#[test]
fn unknown_or_empty_token_is_not_a_session() {
    let f = Forum::new();
    assert_eq!(f.validate_session(""), None);
    assert_eq!(f.validate_session("abc"), None);
}

#[test]
fn status_codes_of_errors() {
    assert_eq!(ApiError::Unauthorized.status_code(), 401);
    assert_eq!(ApiError::Forbidden.status_code(), 403);
    assert_eq!(ApiError::NotFound.status_code(), 404);
    assert_eq!(ApiError::Conflict.status_code(), 409);
    assert_eq!(ApiError::BadRequest.status_code(), 400);
    assert_eq!(ApiError::Internal.status_code(), 500);
}

#[test]
fn bearer_token_is_trimmed_before_lookup() {
    let mut f = Forum::new();
    f.create_account_with(&credentials("hal", "pw"), "h".to_string(), "tok".to_string(), 1).unwrap();
    assert_eq!(f.validate_session("  tok \n"), Some("hal".to_string()));
    assert_eq!(f.validate_session("\ttok"), Some("hal".to_string()));
    assert_eq!(f.validate_session("to k"), None);
    let receipt = f.submit_post(" tok ", "hello there").unwrap();
    assert_eq!(receipt.post.username, "hal");
}

#[test]
fn generated_tokens_are_22_b64_digits() {
    let mut f = Forum::new();
    let s = f.create_account(&credentials("ivy", "pw")).unwrap();
    assert_eq!(s.id.chars().count(), 22);
    assert!(s.id.chars().all(|c| c.is_ascii_alphanumeric() || c == '+' || c == '/'));
    assert_eq!(f.validate_session(&format!(" {} ", s.id)), Some("ivy".to_string()));
}
