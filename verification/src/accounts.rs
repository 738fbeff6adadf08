//! The decisions of registration and login.
//!
//! The store of accounts is not part of this library. Each flow is cut at
//! the one point where the store is asked: the step before it says what to
//! ask, the step after it takes the store's answer and decides the outcome.

use vstd::prelude::*;

use crate::domain::{is_version_4, UserId};
use crate::error::{AppError, AppErrorView};
use crate::password::{
    hash_password, hashed_text, password_accepted, verify_password, HashingFailure,
};
use crate::text::{char_count, normalize_email, normalized_email};
use crate::token::{
    generate_jwt_at, issue_outcome, issued_claims, unix_now, verifies_to, IssueFailure,
    TOKEN_TTL_SECONDS,
};

verus! {

/// The least number of characters of a password.
pub const MIN_PASSWORD_CHARS: usize = 6;

/// An account as the store holds it.
#[derive(Clone, Debug, PartialEq, Eq)]
pub struct UserRow {
    pub id: UserId,
    pub email: String,
    pub password_hash: String,
    /// Seconds since the Unix epoch.
    pub created_at: i64,
}

/// The mathematical content of a [`UserRow`].
pub ghost struct UserRowView {
    pub id: u128,
    pub email: Seq<char>,
    pub password_hash: Seq<char>,
    pub created_at: int,
}

impl View for UserRow {
    type V = UserRowView;

    open spec fn view(&self) -> UserRowView {
        UserRowView {
            id: self.id.value,
            email: self.email@,
            password_hash: self.password_hash@,
            created_at: self.created_at as int,
        }
    }
}

/// An account that the store is asked to take in.
#[derive(Clone, Debug, PartialEq, Eq)]
pub struct NewUser {
    pub id: UserId,
    pub email: String,
    pub password_hash: String,
}

/// The mathematical content of a [`NewUser`].
pub ghost struct NewUserView {
    pub id: u128,
    pub email: Seq<char>,
    pub password_hash: Seq<char>,
}

impl View for NewUser {
    type V = NewUserView;

    open spec fn view(&self) -> NewUserView {
        NewUserView { id: self.id.value, email: self.email@, password_hash: self.password_hash@ }
    }
}

/// The store's answer to an insertion.
#[derive(Clone, Copy, Debug, PartialEq, Eq, Structural)]
pub enum InsertOutcome {
    Inserted,
    /// The address is taken.
    DuplicateKey,
    /// The store failed in some other way.
    Failed,
}

/// The store's answer to a look-up by address.
#[derive(Clone, Debug, PartialEq, Eq)]
pub enum LookupOutcome {
    Found(UserRow),
    Missing,
    /// The store failed.
    Failed,
}

/// The mathematical content of a [`LookupOutcome`].
pub ghost enum LookupView {
    Found(UserRowView),
    Missing,
    Failed,
}

impl View for LookupOutcome {
    type V = LookupView;

    open spec fn view(&self) -> LookupView {
        match *self {
            LookupOutcome::Found(row) => LookupView::Found(row@),
            LookupOutcome::Missing => LookupView::Missing,
            LookupOutcome::Failed => LookupView::Failed,
        }
    }
}

/// Why a login did not give a token. The first two differ in here, for
/// the log, and nowhere else: see [`LoginFailure::into_app_error`].
#[derive(Clone, Copy, Debug, PartialEq, Eq, Structural)]
pub enum LoginFailure {
    /// No account has the address.
    UnknownUser,
    /// The password does not match the account's hash.
    WrongPassword,
    /// The store failed.
    Storage,
    /// No token could be issued.
    Token(IssueFailure),
}

/// Whether an address, already normalized, and a password may register.
pub open spec fn valid_registration(email: Seq<char>, password: Seq<char>) -> bool {
    email.len() > 0 && password.len() >= MIN_PASSWORD_CHARS
}

/// The answer to a registration that is not valid.
pub open spec fn invalid_registration() -> AppErrorView {
    AppErrorView::BadRequest("invalid email or password"@)
}

/// The answer to a registration whose password could not be hashed.
pub open spec fn hashing_failed() -> AppErrorView {
    AppErrorView::Internal("hash error"@)
}

/// The answer to a registration under an address that is taken.
pub open spec fn duplicate_account() -> AppErrorView {
    AppErrorView::Conflict("email already exist"@)
}

/// The answer to a login under an unknown address or with a wrong
/// password: one and the same.
pub open spec fn invalid_credentials() -> AppErrorView {
    AppErrorView::Unauthorized("invalid credentials"@)
}

/// The answer to a login for which no token could be issued.
pub open spec fn issuing_failed() -> AppErrorView {
    AppErrorView::Internal("jwt error"@)
}

/// What a client sees of a failed login.
pub open spec fn login_failure_shown(f: LoginFailure) -> AppErrorView {
    match f {
        LoginFailure::UnknownUser => invalid_credentials(),
        LoginFailure::WrongPassword => invalid_credentials(),
        LoginFailure::Storage => AppErrorView::Db,
        LoginFailure::Token(_) => issuing_failed(),
    }
}

/// What checking a registration gives: the address to store, or the
/// refusal.
pub open spec fn checked_registration(email: Seq<char>, password: Seq<char>) -> Result<
    Seq<char>,
    AppErrorView,
> {
    if valid_registration(normalized_email(email), password) {
        Ok(normalized_email(email))
    } else {
        Err(invalid_registration())
    }
}

/// The account to insert, for each answer of the hasher.
pub open spec fn prepared_account(
    email: Seq<char>,
    id: u128,
    hashed: Result<Seq<char>, HashingFailure>,
) -> Result<NewUserView, AppErrorView> {
    match hashed {
        Ok(hash) => Ok(NewUserView { id, email, password_hash: hash }),
        Err(_) => Err(hashing_failed()),
    }
}

/// The outcome of a registration, for each answer of the store.
pub open spec fn registration_outcome(id: u128, stored: InsertOutcome) -> Result<
    u128,
    AppErrorView,
> {
    match stored {
        InsertOutcome::Inserted => Ok(id),
        InsertOutcome::DuplicateKey => Err(duplicate_account()),
        InsertOutcome::Failed => Err(AppErrorView::Db),
    }
}

/// The outcome of a login at the instant `now`, for each answer of the
/// store.
pub open spec fn login_outcome(
    secret: Seq<char>,
    password: Seq<char>,
    found: LookupView,
    now: i64,
) -> Result<Seq<char>, LoginFailure> {
    match found {
        LookupView::Missing => Err(LoginFailure::UnknownUser),
        LookupView::Failed => Err(LoginFailure::Storage),
        LookupView::Found(row) => if !password_accepted(password, row.password_hash) {
            Err(LoginFailure::WrongPassword)
        } else {
            match issue_outcome(secret, row.id, row.email, now) {
                Ok(token) => Ok(token),
                Err(f) => Err(LoginFailure::Token(f)),
            }
        },
    }
}

/// The view of a checked registration.
pub open spec fn checked_view(r: Result<String, AppError>) -> Result<Seq<char>, AppErrorView> {
    match r {
        Ok(email) => Ok(email@),
        Err(e) => Err(e@),
    }
}

/// The view of a prepared account.
pub open spec fn prepared_view(r: Result<NewUser, AppError>) -> Result<NewUserView, AppErrorView> {
    match r {
        Ok(user) => Ok(user@),
        Err(e) => Err(e@),
    }
}

/// The view of the outcome of a registration.
pub open spec fn registered_view(r: Result<UserId, AppError>) -> Result<u128, AppErrorView> {
    match r {
        Ok(id) => Ok(id.value),
        Err(e) => Err(e@),
    }
}

/// The view of the outcome of a login.
pub open spec fn login_view(r: Result<String, LoginFailure>) -> Result<Seq<char>, LoginFailure> {
    match r {
        Ok(token) => Ok(token@),
        Err(f) => Err(f),
    }
}

impl LoginFailure {
    /// What a client is told. An unknown address and a wrong password give
    /// the same answer, so that the answers do not tell which addresses
    /// have an account.
    pub fn into_app_error(self) -> (e: AppError)
        ensures
            e@ == login_failure_shown(self),
    {
        match self {
            LoginFailure::UnknownUser => AppError::Unauthorized("invalid credentials".to_owned()),
            LoginFailure::WrongPassword => AppError::Unauthorized("invalid credentials".to_owned()),
            LoginFailure::Storage => AppError::Db,
            LoginFailure::Token(_) => AppError::Internal("jwt error".to_owned()),
        }
    }
}

/// Checks a registration: the address, once normalized, must not be empty,
/// and the password must have `MIN_PASSWORD_CHARS` characters or more.
/// Gives the address to store.
pub fn check_registration(email: &str, password: &str) -> (r: Result<String, AppError>)
    ensures
        checked_view(r) == checked_registration(email@, password@),
{
    let email = normalize_email(email);
    if email.as_str().is_empty() || char_count(password) < MIN_PASSWORD_CHARS {
        Err(AppError::BadRequest("invalid email or password".to_owned()))
    } else {
        Ok(email)
    }
}

/// The account to insert, from a checked address, a fresh identifier and
/// the hasher's answer.
pub fn prepare_account(email: String, id: UserId, hashed: Result<String, HashingFailure>) -> (r:
    Result<NewUser, AppError>)
    ensures
        prepared_view(r) == prepared_account(email@, id.value, hashed_text(hashed)),
{
    match hashed {
        Ok(password_hash) => Ok(NewUser { id, email, password_hash }),
        Err(_) => Err(AppError::Internal("hash error".to_owned())),
    }
}

/// The first step of a registration: checks the request, draws an
/// identifier and hashes the password. A request that is not valid is
/// refused before anything is drawn or hashed. Whatever identifier and
/// hash come back, the account to insert holds the normalized address and
/// a hash that the password matches.
pub fn start_registration(email: &str, password: &str) -> (r: Result<NewUser, AppError>)
    ensures
        match checked_registration(email@, password@) {
            Err(refusal) => r matches Err(e) && e@ == refusal,
            Ok(address) => match r {
                Ok(user) => {
                    &&& user.email@ == address
                    &&& password_accepted(password@, user.password_hash@)
                    &&& is_version_4(user.id.value)
                },
                Err(e) => e@ == hashing_failed(),
            },
        },
{
    match check_registration(email, password) {
        Err(refusal) => Err(refusal),
        Ok(address) => {
            let id = UserId::generate();
            let hashed = hash_password(password);
            prepare_account(address, id, hashed)
        },
    }
}

/// The last step of a registration: the outcome, from the store's answer
/// to the insertion of the account with the identifier `id`.
pub fn finish_registration(id: UserId, stored: InsertOutcome) -> (r: Result<UserId, AppError>)
    ensures
        registered_view(r) == registration_outcome(id.value, stored),
{
    match stored {
        InsertOutcome::Inserted => Ok(id),
        InsertOutcome::DuplicateKey => Err(AppError::Conflict("email already exist".to_owned())),
        InsertOutcome::Failed => Err(AppError::Db),
    }
}

/// The last step of a login at the instant `now`: the token, or why there
/// is none, from the store's answer to the look-up of the normalized
/// address. A token that comes back verifies under the same secret, at
/// every instant before its deadline, to the account's identifier and
/// address.
pub fn finish_login_at(secret: &str, password: &str, found: &LookupOutcome, now: i64) -> (r:
    Result<String, LoginFailure>)
    ensures
        login_view(r) == login_outcome(secret@, password@, found@, now),
        r matches Ok(token) ==> found matches LookupOutcome::Found(row) && forall|at: int|
            at < now + TOKEN_TTL_SECONDS ==> #[trigger] verifies_to(
                secret@,
                token@,
                at,
                issued_claims(row.id.value, row.email@, now as int),
            ),
{
    match found {
        LookupOutcome::Missing => Err(LoginFailure::UnknownUser),
        LookupOutcome::Failed => Err(LoginFailure::Storage),
        LookupOutcome::Found(row) => {
            if !verify_password(password, row.password_hash.as_str()) {
                return Err(LoginFailure::WrongPassword);
            }
            match generate_jwt_at(secret, &row.id, row.email.as_str(), now) {
                Ok(token) => Ok(token),
                Err(f) => Err(LoginFailure::Token(f)),
            }
        },
    }
}

/// The last step of a login at the present instant. Whatever the clock
/// says, the result is the outcome at some instant.
pub fn finish_login(secret: &str, password: &str, found: &LookupOutcome) -> (r: Result<
    String,
    LoginFailure,
>)
    ensures
        exists|now: i64|
            {
                &&& login_view(r) == #[trigger] login_outcome(secret@, password@, found@, now)
                &&& r matches Ok(token) ==> found matches LookupOutcome::Found(row) && forall|
                    at: int,
                |
                    at < now + TOKEN_TTL_SECONDS ==> #[trigger] verifies_to(
                        secret@,
                        token@,
                        at,
                        issued_claims(row.id.value, row.email@, now as int),
                    )
            },
{
    finish_login_at(secret, password, found, unix_now())
}

/// A client cannot tell an unknown address from a wrong password: both
/// logins end in the same answer, whatever the secret, the passwords and
/// the instants.
pub proof fn lemma_login_hides_unknown_addresses(
    secret: Seq<char>,
    password: Seq<char>,
    other_password: Seq<char>,
    row: UserRowView,
    now: i64,
    later: i64,
)
    requires
        !password_accepted(other_password, row.password_hash),
    ensures
        login_outcome(secret, password, LookupView::Missing, now) matches Err(unknown)
            && login_outcome(secret, other_password, LookupView::Found(row), later) matches Err(
            wrong,
        ) && login_failure_shown(unknown) == login_failure_shown(wrong)
            && login_failure_shown(unknown) == invalid_credentials(),
{
}

/// A login gives a token only for an account that the store found and
/// whose hash the password matches.
pub proof fn lemma_login_needs_the_password(
    secret: Seq<char>,
    password: Seq<char>,
    found: LookupView,
    now: i64,
)
    ensures
        login_outcome(secret, password, found, now) is Ok ==> (found matches LookupView::Found(row)
            && password_accepted(password, row.password_hash)),
{
}

/// A registration reaches the store only with a normalized address that is
/// not empty and a password of `MIN_PASSWORD_CHARS` characters or more.
pub proof fn lemma_registration_is_checked(email: Seq<char>, password: Seq<char>)
    ensures
        checked_registration(email, password) matches Ok(address) ==> address == normalized_email(
            email,
        ) && address.len() > 0 && password.len() >= MIN_PASSWORD_CHARS,
        checked_registration(email, password) matches Err(refusal) ==> refusal.status() == 400,
{
}

} // verus!
