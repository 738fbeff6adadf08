//! The guard in front of every protected handler: from the `Authorization`
//! header of a request to the identity of its caller, or a rejection.
//!
//! Every rejection is `Unauthorized`. Why a token failed (its signature,
//! its form or its deadline) never shows in the answer.

use vstd::prelude::*;

use crate::error::{AppError, AppErrorView};
use crate::text::{skip_chars, starts_with};
use crate::token::{
    token_verdict, unix_now, verifies_to, verify_jwt_at, Claims, ClaimsView, TokenError,
};

verus! {

/// The caller of a request, as the token it presented states it. It lives
/// as long as the request.
#[derive(Clone, Debug, PartialEq, Eq)]
pub struct AuthUser(pub Claims);

/// The `Authorization` header of a request, as it was found.
#[derive(Clone, Debug, PartialEq, Eq)]
pub enum AuthorizationHeader {
    /// The request has no such header.
    Absent,
    /// The header's value is not text.
    Unreadable,
    /// The header's value.
    Text(String),
}

/// What the guard reads of a request.
#[derive(Clone, Debug, PartialEq, Eq)]
pub struct RequestParts {
    pub authorization: AuthorizationHeader,
}

/// The mathematical content of an [`AuthorizationHeader`].
pub ghost enum AuthorizationHeaderView {
    Absent,
    Unreadable,
    Text(Seq<char>),
}

impl View for AuthorizationHeader {
    type V = AuthorizationHeaderView;

    open spec fn view(&self) -> AuthorizationHeaderView {
        match *self {
            AuthorizationHeader::Absent => AuthorizationHeaderView::Absent,
            AuthorizationHeader::Unreadable => AuthorizationHeaderView::Unreadable,
            AuthorizationHeader::Text(t) => AuthorizationHeaderView::Text(t@),
        }
    }
}

impl View for AuthUser {
    type V = ClaimsView;

    open spec fn view(&self) -> ClaimsView {
        self.0@
    }
}

/// The scheme that a header value must begin with: the word, in this
/// case, and one space.
pub open spec fn bearer_prefix() -> Seq<char> {
    seq!['B', 'e', 'a', 'r', 'e', 'r', ' ']
}

/// Whether a header value names the bearer scheme.
pub open spec fn has_bearer_scheme(value: Seq<char>) -> bool {
    bearer_prefix().is_prefix_of(value)
}

/// The token in a header value of the bearer scheme: all that follows the
/// prefix, as it stands.
pub open spec fn bearer_token(value: Seq<char>) -> Seq<char> {
    value.subrange(7, value.len() as int)
}

/// The rejection of a request without the header.
pub open spec fn missing_header() -> AppErrorView {
    AppErrorView::Unauthorized("missing authorization header"@)
}

/// The rejection of a request whose header is not text.
pub open spec fn invalid_header() -> AppErrorView {
    AppErrorView::Unauthorized("invalid header"@)
}

/// The rejection of a request whose header names another scheme.
pub open spec fn invalid_scheme() -> AppErrorView {
    AppErrorView::Unauthorized("invalid scheme"@)
}

/// The rejection of a request whose token is not accepted, whatever the
/// reason.
pub open spec fn invalid_token() -> AppErrorView {
    AppErrorView::Unauthorized("invalid token"@)
}

/// What the guard answers to a header at the instant `now`.
pub open spec fn guard_outcome(secret: Seq<char>, header: AuthorizationHeaderView, now: int) -> Result<
    ClaimsView,
    AppErrorView,
> {
    match header {
        AuthorizationHeaderView::Absent => Err(missing_header()),
        AuthorizationHeaderView::Unreadable => Err(invalid_header()),
        AuthorizationHeaderView::Text(value) => if !has_bearer_scheme(value) {
            Err(invalid_scheme())
        } else {
            match token_verdict(secret, bearer_token(value), now) {
                Ok(claims) => Ok(claims),
                Err(_) => Err(invalid_token()),
            }
        },
    }
}

/// The view of an answer of the guard.
pub open spec fn guard_view(r: Result<AuthUser, AppError>) -> Result<ClaimsView, AppErrorView> {
    match r {
        Ok(user) => Ok(user@),
        Err(e) => Err(e@),
    }
}

/// The answer to a token that was not accepted: the same for every
/// reason.
pub fn reject_token(reason: TokenError) -> (e: AppError)
    ensures
        e@ == invalid_token(),
{
    match reason {
        TokenError::InvalidSignature | TokenError::Expired | TokenError::Malformed => {
            AppError::Unauthorized("invalid token".to_owned())
        },
    }
}

impl AuthUser {
    /// The caller of a request at the instant `now`, as its header states
    /// it, or the rejection of the request.
    pub fn from_request_parts_at(parts: &RequestParts, secret: &str, now: i64) -> (r: Result<
        AuthUser,
        AppError,
    >)
        ensures
            guard_view(r) == guard_outcome(secret@, parts.authorization@, now as int),
            r matches Ok(user) ==> user.0.wf(),
    {
        match &parts.authorization {
            AuthorizationHeader::Absent => Err(
                AppError::Unauthorized("missing authorization header".to_owned()),
            ),
            AuthorizationHeader::Unreadable => Err(
                AppError::Unauthorized("invalid header".to_owned()),
            ),
            AuthorizationHeader::Text(value) => {
                let value = value.as_str();
                proof {
                    reveal_strlit("Bearer ");
                    assert("Bearer "@ =~= bearer_prefix());
                }
                if !starts_with(value, "Bearer ") {
                    return Err(AppError::Unauthorized("invalid scheme".to_owned()));
                }
                let token = skip_chars(value, 7);
                match verify_jwt_at(secret, token, now) {
                    Ok(claims) => Ok(AuthUser(claims)),
                    Err(reason) => Err(reject_token(reason)),
                }
            },
        }
    }

    /// The caller of a request at the present instant, as its header
    /// states it, or the rejection of the request. Whatever the clock
    /// says, the answer is the guard's at some instant.
    pub fn from_request_parts(parts: &RequestParts, secret: &str) -> (r: Result<
        AuthUser,
        AppError,
    >)
        ensures
            exists|now: i64|
                guard_view(r) == #[trigger] guard_outcome(
                    secret@,
                    parts.authorization@,
                    now as int,
                ),
            r matches Ok(user) ==> user.0.wf(),
    {
        AuthUser::from_request_parts_at(parts, secret, unix_now())
    }
}

/// The guard never answers with anything but an identity or
/// `Unauthorized`.
pub proof fn lemma_guard_rejects_as_unauthorized(
    secret: Seq<char>,
    header: AuthorizationHeaderView,
    now: int,
)
    ensures
        guard_outcome(secret, header, now) matches Err(e) ==> e is Unauthorized && e.status() == 401,
{
}

/// Two requests whose tokens fail, for whatever reasons, get the same
/// answer.
pub proof fn lemma_token_failures_look_alike(
    secret: Seq<char>,
    first: Seq<char>,
    second: Seq<char>,
    now: int,
    later: int,
)
    requires
        has_bearer_scheme(first),
        has_bearer_scheme(second),
        token_verdict(secret, bearer_token(first), now) is Err,
        token_verdict(secret, bearer_token(second), later) is Err,
    ensures
        guard_outcome(secret, AuthorizationHeaderView::Text(first), now) == guard_outcome(
            secret,
            AuthorizationHeaderView::Text(second),
            later,
        ),
{
}

/// The guard lets a request through exactly when its header names the
/// bearer scheme and the token that follows verifies; the identity is the
/// token's claims.
pub proof fn lemma_guard_passes_verified_tokens(
    secret: Seq<char>,
    header: AuthorizationHeaderView,
    now: int,
)
    ensures
        guard_outcome(secret, header, now) is Ok <==> (header matches AuthorizationHeaderView::Text(
            value,
        ) && has_bearer_scheme(value) && token_verdict(secret, bearer_token(value), now) is Ok),
        guard_outcome(secret, header, now) matches Ok(claims) ==> header
            matches AuthorizationHeaderView::Text(value) && verifies_to(
            secret,
            bearer_token(value),
            now,
            claims,
        ),
{
}

} // verus!
