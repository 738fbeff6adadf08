use auth_core::accounts::{
    check_registration, finish_login, finish_login_at, finish_registration, prepare_account,
    start_registration, InsertOutcome, LoginFailure, LookupOutcome, NewUser, UserRow,
};
use auth_core::domain::UserId;
use auth_core::error::AppError;
use auth_core::password::{hash_password, verify_password, HashingFailure};
use auth_core::text::normalize_email;
use auth_core::token::{verify_jwt, verify_jwt_at, IssueFailure};

const SECRET: &str = "top-secret";

fn insert(store: &mut Vec<UserRow>, user: NewUser) -> InsertOutcome {
    if store.iter().any(|row| row.email == user.email) {
        return InsertOutcome::DuplicateKey;
    }
    store.push(UserRow {
        id: user.id,
        email: user.email,
        password_hash: user.password_hash,
        created_at: 0,
    });
    InsertOutcome::Inserted
}

fn find(store: &[UserRow], email: &str) -> LookupOutcome {
    match store.iter().find(|row| row.email == email) {
        Some(row) => LookupOutcome::Found(row.clone()),
        None => LookupOutcome::Missing,
    }
}

fn register(store: &mut Vec<UserRow>, email: &str, password: &str) -> Result<UserId, AppError> {
    let user = start_registration(email, password)?;
    let id = user.id;
    let stored = insert(store, user);
    finish_registration(id, stored)
}

fn login(store: &[UserRow], email: &str, password: &str) -> Result<String, AppError> {
    let found = find(store, &normalize_email(email));
    finish_login(SECRET, password, &found).map_err(LoginFailure::into_app_error)
}

fn row(password: &str) -> UserRow {
    UserRow {
        id: UserId { value: 0xa1a2a3a4b1b2c1c2d1d2d3d4d5d6d7d8 },
        email: "a@x.com".to_string(),
        password_hash: hash_password(password).expect("hashing works"),
        created_at: 0,
    }
}

#[test]
fn register_then_login() {
    let mut store = Vec::new();
    let id = register(&mut store, "a@x.com", "secret1").expect("registration works");
    assert_eq!(store.len(), 1);
    assert_eq!(store[0].id, id);
    assert_eq!(store[0].email, "a@x.com");
    assert_ne!(store[0].password_hash, "secret1");
    let token = login(&store, "A@x.com ", "secret1").expect("login works");
    let claims = verify_jwt(SECRET, &token).expect("token verifies");
    assert_eq!(claims.email, "a@x.com");
    assert_eq!(claims.sub, id.to_text());
}

#[test]
fn duplicate_registration() {
    let mut store = Vec::new();
    let first = register(&mut store, "a@x.com", "secret1");
    assert!(first.is_ok());
    let second = register(&mut store, " A@X.com", "another1");
    assert_eq!(second, Err(AppError::Conflict("email already exist".to_string())));
    assert_eq!(second.unwrap_err().status_code(), 409);
    assert_eq!(store.len(), 1);
    let other = register(&mut store, "b@x.com", "secret1").expect("registration works");
    assert_ne!(Ok(other), first);
}

#[test]
fn wrong_password() {
    let mut store = Vec::new();
    register(&mut store, "b@x.com", "correctpw").expect("registration works");
    let answer = login(&store, "b@x.com", "wrongpw");
    assert_eq!(answer, Err(AppError::Unauthorized("invalid credentials".to_string())));
    assert_eq!(answer.unwrap_err().status_code(), 401);
}

#[test]
fn unknown_address_looks_like_wrong_password() {
    let mut store = Vec::new();
    register(&mut store, "b@x.com", "correctpw").expect("registration works");
    let wrong = login(&store, "b@x.com", "wrongpw");
    let unknown = login(&store, "nobody@x.com", "correctpw");
    assert!(wrong.is_err());
    assert_eq!(wrong, unknown);
    assert_eq!(
        LoginFailure::UnknownUser.into_app_error(),
        LoginFailure::WrongPassword.into_app_error()
    );
}

#[test]
fn registration_is_checked() {
    let refusal = Err(AppError::BadRequest("invalid email or password".to_string()));
    assert_eq!(check_registration("", "secret1"), refusal);
    assert_eq!(check_registration("   ", "secret1"), refusal);
    assert_eq!(check_registration("\t\n", "secret1"), refusal);
    assert_eq!(check_registration("a@x.com", ""), refusal);
    assert_eq!(check_registration("a@x.com", "12345"), refusal);
    assert_eq!(check_registration("", ""), refusal);
    assert_eq!(check_registration("a@x.com", "123456"), Ok("a@x.com".to_string()));
    assert_eq!(check_registration(" A@X.com ", "1234567"), Ok("a@x.com".to_string()));
    assert_eq!(check_registration("x", "      "), Ok("x".to_string()));
}

#[test]
fn password_length_counts_characters() {
    let refusal = Err(AppError::BadRequest("invalid email or password".to_string()));
    assert_eq!(check_registration("a@x.com", "ééééé"), refusal);
    assert_eq!(check_registration("a@x.com", "éééééé"), Ok("a@x.com".to_string()));
}

#[test]
fn invalid_registration_reaches_no_store() {
    let mut store = Vec::new();
    let answer = register(&mut store, "  ", "secret1");
    assert_eq!(answer, Err(AppError::BadRequest("invalid email or password".to_string())));
    assert_eq!(answer.unwrap_err().status_code(), 400);
    assert!(register(&mut store, "a@x.com", "short").is_err());
    assert!(store.is_empty());
}

#[test]
fn started_registration_holds_a_hash_of_the_password() {
    let user = start_registration(" Someone@X.com ", "secret1").expect("registration works");
    assert_eq!(user.email, "someone@x.com");
    assert!(verify_password("secret1", &user.password_hash));
    assert!(!verify_password("secret2", &user.password_hash));
    assert_eq!(user.id.value & 0xF000_C000_0000_0000_0000, 0x4000_8000_0000_0000_0000);
    let again = start_registration(" Someone@X.com ", "secret1").expect("registration works");
    assert_ne!(again.id, user.id);
    assert_ne!(again.password_hash, user.password_hash);
}

#[test]
fn prepared_account_follows_the_hasher() {
    let id = UserId { value: 9 };
    assert_eq!(
        prepare_account("a@x.com".to_string(), id, Ok("hash".to_string())),
        Ok(NewUser { id, email: "a@x.com".to_string(), password_hash: "hash".to_string() })
    );
    for failure in [HashingFailure::NoEntropy, HashingFailure::Rejected] {
        let answer = prepare_account("a@x.com".to_string(), id, Err(failure));
        assert_eq!(answer, Err(AppError::Internal("hash error".to_string())));
        assert_eq!(answer.unwrap_err().status_code(), 500);
    }
}

#[test]
fn registration_follows_the_store() {
    let id = UserId { value: 9 };
    assert_eq!(finish_registration(id, InsertOutcome::Inserted), Ok(id));
    assert_eq!(
        finish_registration(id, InsertOutcome::DuplicateKey),
        Err(AppError::Conflict("email already exist".to_string()))
    );
    assert_eq!(finish_registration(id, InsertOutcome::Failed), Err(AppError::Db));
}

#[test]
fn login_follows_the_store() {
    assert_eq!(
        finish_login_at(SECRET, "secret1", &LookupOutcome::Missing, 1_000),
        Err(LoginFailure::UnknownUser)
    );
    assert_eq!(
        finish_login_at(SECRET, "secret1", &LookupOutcome::Failed, 1_000),
        Err(LoginFailure::Storage)
    );
    let found = LookupOutcome::Found(row("secret1"));
    assert_eq!(
        finish_login_at(SECRET, "secret2", &found, 1_000),
        Err(LoginFailure::WrongPassword)
    );
    let token = finish_login_at(SECRET, "secret1", &found, 1_000).expect("login works");
    let claims = verify_jwt_at(SECRET, &token, 2_000).expect("token verifies");
    assert_eq!(claims.sub, "a1a2a3a4-b1b2-c1c2-d1d2-d3d4d5d6d7d8");
    assert_eq!(claims.email, "a@x.com");
    assert_eq!(claims.iat, 1_000);
    assert_eq!(claims.exp, 87_400);
}

#[test]
fn login_with_a_hash_that_is_none_is_a_wrong_password() {
    let mut broken = row("secret1");
    broken.password_hash = "secret1".to_string();
    assert_eq!(
        finish_login_at(SECRET, "secret1", &LookupOutcome::Found(broken), 1_000),
        Err(LoginFailure::WrongPassword)
    );
}

#[test]
fn login_fails_when_no_token_can_be_issued() {
    let found = LookupOutcome::Found(row("secret1"));
    assert_eq!(
        finish_login_at(SECRET, "secret1", &found, i64::MAX),
        Err(LoginFailure::Token(IssueFailure::ClockOutOfRange))
    );
    assert_eq!(
        finish_login_at(SECRET, "wrong", &found, i64::MAX),
        Err(LoginFailure::WrongPassword)
    );
}

#[test]
fn login_failures_as_a_client_sees_them() {
    let hidden = AppError::Unauthorized("invalid credentials".to_string());
    assert_eq!(LoginFailure::UnknownUser.into_app_error(), hidden);
    assert_eq!(LoginFailure::WrongPassword.into_app_error(), hidden);
    assert_eq!(LoginFailure::Storage.into_app_error(), AppError::Db);
    for failure in [IssueFailure::ClockOutOfRange, IssueFailure::Signing] {
        assert_eq!(
            LoginFailure::Token(failure).into_app_error(),
            AppError::Internal("jwt error".to_string())
        );
    }
}
