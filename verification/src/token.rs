//! Signed, time-bounded identity tokens.
//!
//! A token is a JWT signed with HMAC-SHA256 under one shared secret. The
//! signing, the encoding and the parsing are the `jsonwebtoken` crate's.
//! What a token must hold, how long it lives and when it counts as expired
//! is decided here, against an instant that the caller names: no leeway is
//! given, and a token is expired from the very second of its deadline on.

use jsonwebtoken::errors::ErrorKind;
use jsonwebtoken::{decode, encode, Algorithm, DecodingKey, EncodingKey, Header, Validation};
use serde_json::Value;
use time::OffsetDateTime;
use vstd::prelude::*;

use crate::domain::{hyphenated, UserId};
use crate::text::opt_text;

verus! {

/// How long a token lives, in seconds: 24 hours.
pub const TOKEN_TTL_SECONDS: i64 = 86_400;

/// The identity and the life span that a token states.
#[derive(Clone, Debug, PartialEq, Eq)]
pub struct Claims {
    /// The account's identifier, as text.
    pub sub: String,
    /// The account's address.
    pub email: String,
    /// When the token was issued, in seconds since the Unix epoch.
    pub iat: i64,
    /// The deadline: the first second at which the token no longer counts.
    pub exp: i64,
}

/// The mathematical content of [`Claims`].
pub ghost struct ClaimsView {
    pub sub: Seq<char>,
    pub email: Seq<char>,
    pub iat: int,
    pub exp: int,
}

impl ClaimsView {
    /// Claims expire after they were issued.
    pub open spec fn wf(self) -> bool {
        self.iat < self.exp
    }
}

impl View for Claims {
    type V = ClaimsView;

    open spec fn view(&self) -> ClaimsView {
        ClaimsView { sub: self.sub@, email: self.email@, iat: self.iat as int, exp: self.exp as int }
    }
}

impl Claims {
    /// Claims expire after they were issued.
    pub open spec fn wf(&self) -> bool {
        self@.wf()
    }
}

/// What the payload of a token with a good signature held under the four
/// names of the claims: a field is `None` where the name was missing or
/// its value of another type.
#[derive(Clone, Debug, PartialEq, Eq)]
pub struct RawClaims {
    pub sub: Option<String>,
    pub email: Option<String>,
    pub iat: Option<i64>,
    pub exp: Option<i64>,
}

/// The mathematical content of [`RawClaims`].
pub ghost struct RawClaimsView {
    pub sub: Option<Seq<char>>,
    pub email: Option<Seq<char>>,
    pub iat: Option<int>,
    pub exp: Option<int>,
}

impl View for RawClaims {
    type V = RawClaimsView;

    open spec fn view(&self) -> RawClaimsView {
        RawClaimsView {
            sub: opt_text(self.sub),
            email: opt_text(self.email),
            iat: match self.iat {
                Some(t) => Some(t as int),
                None => None,
            },
            exp: match self.exp {
                Some(t) => Some(t as int),
                None => None,
            },
        }
    }
}

/// Why a token could not be opened.
#[derive(Clone, Copy, Debug, PartialEq, Eq, Structural)]
pub enum DecodeFault {
    /// The signature is not the one that the secret gives.
    BadSignature,
    /// The text is no token of the expected form.
    Unreadable,
}

/// Why a token is not accepted.
#[derive(Clone, Copy, Debug, PartialEq, Eq, Structural)]
pub enum TokenError {
    InvalidSignature,
    Expired,
    Malformed,
}

/// Why no token could be issued.
#[derive(Clone, Copy, Debug, PartialEq, Eq, Structural)]
pub enum IssueFailure {
    /// The deadline would lie beyond the last second that can be written.
    ClockOutOfRange,
    /// The signer refused.
    Signing,
}

/// The token that signing the four claims under `secret` gives, or `None`
/// where the signer refuses.
pub uninterp spec fn hs256_sealed(
    secret: Seq<char>,
    sub: Seq<char>,
    email: Seq<char>,
    iat: i64,
    exp: i64,
) -> Option<Seq<char>>;

/// What opening `token` under `secret` gives: the claims it holds, if it
/// has the form of a token and its signature is the one that `secret`
/// gives; else the reason. The clock plays no part in it.
pub uninterp spec fn hs256_opened(secret: Seq<char>, token: Seq<char>) -> Result<
    RawClaimsView,
    DecodeFault,
>;

/// Whether `token` opens under `secret` to exactly these four claims.
pub open spec fn opens_to(
    secret: Seq<char>,
    token: Seq<char>,
    sub: Seq<char>,
    email: Seq<char>,
    iat: int,
    exp: int,
) -> bool {
    hs256_opened(secret, token) == Ok::<RawClaimsView, DecodeFault>(
        RawClaimsView { sub: Some(sub), email: Some(email), iat: Some(iat), exp: Some(exp) },
    )
}

/// Whether `token` verifies under `secret` at the instant `now`, to the
/// claims `c`.
pub open spec fn verifies_to(secret: Seq<char>, token: Seq<char>, now: int, c: ClaimsView) -> bool {
    token_verdict(secret, token, now) == Ok::<ClaimsView, TokenError>(c)
}

/// The raw form of complete claims.
pub open spec fn raw_of(c: ClaimsView) -> RawClaimsView {
    RawClaimsView { sub: Some(c.sub), email: Some(c.email), iat: Some(c.iat), exp: Some(c.exp) }
}

/// The claims that a payload amounts to: all four must be there, and the
/// deadline must lie after the time of issue.
pub open spec fn claims_of(raw: RawClaimsView) -> Option<ClaimsView> {
    match (raw.sub, raw.email, raw.iat, raw.exp) {
        (Some(sub), Some(email), Some(iat), Some(exp)) => if iat < exp {
            Some(ClaimsView { sub, email, iat, exp })
        } else {
            None
        },
        _ => None,
    }
}

/// The judgement on an opened token at the instant `now`. A bad signature
/// comes before everything else, a payload that amounts to no claims is
/// malformed, and claims are expired from their deadline on.
pub open spec fn verdict(opened: Result<RawClaimsView, DecodeFault>, now: int) -> Result<
    ClaimsView,
    TokenError,
> {
    match opened {
        Err(DecodeFault::BadSignature) => Err(TokenError::InvalidSignature),
        Err(DecodeFault::Unreadable) => Err(TokenError::Malformed),
        Ok(raw) => match claims_of(raw) {
            None => Err(TokenError::Malformed),
            Some(c) => if now >= c.exp {
                Err(TokenError::Expired)
            } else {
                Ok(c)
            },
        },
    }
}

/// The judgement on `token` under `secret` at the instant `now`.
pub open spec fn token_verdict(secret: Seq<char>, token: Seq<char>, now: int) -> Result<
    ClaimsView,
    TokenError,
> {
    verdict(hs256_opened(secret, token), now)
}

/// The claims of a token issued to an account at the instant `now`.
pub open spec fn issued_claims(id: u128, email: Seq<char>, now: int) -> ClaimsView {
    ClaimsView { sub: hyphenated(id), email, iat: now, exp: now + TOKEN_TTL_SECONDS }
}

/// What issuing a token at the instant `now` gives.
pub open spec fn issue_outcome(secret: Seq<char>, id: u128, email: Seq<char>, now: i64) -> Result<
    Seq<char>,
    IssueFailure,
> {
    if now + TOKEN_TTL_SECONDS > i64::MAX {
        Err(IssueFailure::ClockOutOfRange)
    } else {
        match hs256_sealed(secret, hyphenated(id), email, now, (now + TOKEN_TTL_SECONDS) as i64) {
            Some(token) => Ok(token),
            None => Err(IssueFailure::Signing),
        }
    }
}

/// The view of an opened token.
pub open spec fn opened_view(r: Result<RawClaims, DecodeFault>) -> Result<
    RawClaimsView,
    DecodeFault,
> {
    match r {
        Ok(raw) => Ok(raw@),
        Err(f) => Err(f),
    }
}

/// The view of a judgement.
pub open spec fn judged_view(r: Result<Claims, TokenError>) -> Result<ClaimsView, TokenError> {
    match r {
        Ok(c) => Ok(c@),
        Err(e) => Err(e),
    }
}

/// The text of an issuing result.
pub open spec fn issued_text(r: Result<String, IssueFailure>) -> Result<Seq<char>, IssueFailure> {
    match r {
        Ok(token) => Ok(token@),
        Err(e) => Err(e),
    }
}

/// Reads the clock with `time::OffsetDateTime::now_utc` and gives the
/// seconds since the Unix epoch (`unix_timestamp`). Nothing is claimed of
/// the value.
#[verifier::external_body]
pub(crate) fn unix_now() -> i64 {
    OffsetDateTime::now_utc().unix_timestamp()
}

/// Signs the four claims with `jsonwebtoken::encode`, under the default
/// header (HS256) and the secret's bytes as the key. Trusted: the token
/// depends on the arguments alone, and opening it under the same secret
/// gives back the four claims as they went in.
#[verifier::external_body]
fn hs256_seal(secret: &str, sub: &str, email: &str, iat: i64, exp: i64) -> (token: Option<String>)
    ensures
        opt_text(token) == hs256_sealed(secret@, sub@, email@, iat, exp),
        token matches Some(t) ==> opens_to(secret@, t@, sub@, email@, iat as int, exp as int),
{
    let mut claims = serde_json::Map::new();
    claims.insert("sub".to_owned(), Value::from(sub));
    claims.insert("email".to_owned(), Value::from(email));
    claims.insert("iat".to_owned(), Value::from(iat));
    claims.insert("exp".to_owned(), Value::from(exp));
    encode(&Header::default(), &claims, &EncodingKey::from_secret(secret.as_bytes())).ok()
}

/// Opens a token with `jsonwebtoken::decode`, for HS256 alone and with the
/// secret's bytes as the key. The crate's own test of the deadline, which
/// reads the clock and grants a leeway, is switched off, and no claim is
/// asked for: both are judged by the caller. Trusted: the answer depends on
/// the two texts alone; of the failures, only a signature that does not
/// match is told apart from the rest.
#[verifier::external_body]
fn hs256_open(secret: &str, token: &str) -> (opened: Result<RawClaims, DecodeFault>)
    ensures
        opened_view(opened) == hs256_opened(secret@, token@),
{
    let mut rules = Validation::new(Algorithm::HS256);
    rules.validate_exp = false;
    rules.required_spec_claims.clear();
    match decode::<Value>(token, &DecodingKey::from_secret(secret.as_bytes()), &rules) {
        Ok(data) => Ok(RawClaims {
            sub: data.claims["sub"].as_str().map(str::to_owned),
            email: data.claims["email"].as_str().map(str::to_owned),
            iat: data.claims["iat"].as_i64(),
            exp: data.claims["exp"].as_i64(),
        }),
        Err(e) if matches!(e.kind(), ErrorKind::InvalidSignature) => Err(DecodeFault::BadSignature),
        Err(_) => Err(DecodeFault::Unreadable),
    }
}

/// Judges an opened token at the instant `now`.
pub fn judge_claims(opened: Result<RawClaims, DecodeFault>, now: i64) -> (r: Result<
    Claims,
    TokenError,
>)
    ensures
        judged_view(r) == verdict(opened_view(opened), now as int),
        r matches Ok(c) ==> c.wf(),
{
    match opened {
        Err(DecodeFault::BadSignature) => Err(TokenError::InvalidSignature),
        Err(DecodeFault::Unreadable) => Err(TokenError::Malformed),
        Ok(raw) => {
            match (raw.sub, raw.email, raw.iat, raw.exp) {
                (Some(sub), Some(email), Some(iat), Some(exp)) => {
                    if iat >= exp {
                        Err(TokenError::Malformed)
                    } else if now >= exp {
                        Err(TokenError::Expired)
                    } else {
                        Ok(Claims { sub, email, iat, exp })
                    }
                },
                _ => Err(TokenError::Malformed),
            }
        },
    }
}

/// Verifies `token` under `secret` at the instant `now`.
pub fn verify_jwt_at(secret: &str, token: &str, now: i64) -> (r: Result<Claims, TokenError>)
    ensures
        judged_view(r) == token_verdict(secret@, token@, now as int),
        r matches Ok(c) ==> c.wf(),
{
    judge_claims(hs256_open(secret, token), now)
}

/// Verifies `token` under `secret` at the present instant. Whatever the
/// clock says, the result is the judgement at some instant.
pub fn verify_jwt(secret: &str, token: &str) -> (r: Result<Claims, TokenError>)
    ensures
        exists|now: i64| judged_view(r) == #[trigger] token_verdict(secret@, token@, now as int),
        r matches Ok(c) ==> c.wf(),
{
    verify_jwt_at(secret, token, unix_now())
}

/// Issues a token to an account at the instant `now`. The token lives
/// `TOKEN_TTL_SECONDS`; at every instant before its deadline it verifies
/// under the same secret, to the account's identifier and address.
pub fn generate_jwt_at(secret: &str, user_id: &UserId, user_email: &str, now: i64) -> (r: Result<
    String,
    IssueFailure,
>)
    ensures
        issued_text(r) == issue_outcome(secret@, user_id.value, user_email@, now),
        r matches Ok(token) ==> forall|at: int|
            at < now + TOKEN_TTL_SECONDS ==> #[trigger] verifies_to(
                secret@,
                token@,
                at,
                issued_claims(user_id.value, user_email@, now as int),
            ),
{
    match now.checked_add(TOKEN_TTL_SECONDS) {
        None => Err(IssueFailure::ClockOutOfRange),
        Some(exp) => {
            let sub = user_id.to_text();
            match hs256_seal(secret, sub.as_str(), user_email, now, exp) {
                None => Err(IssueFailure::Signing),
                Some(token) => Ok(token),
            }
        },
    }
}

/// Issues a token to an account at the present instant. Whatever the
/// clock says, the result is what issuing at some instant gives.
pub fn generate_jwt(secret: &str, user_id: &UserId, user_email: &str) -> (r: Result<
    String,
    IssueFailure,
>)
    ensures
        exists|now: i64|
            {
                &&& issued_text(r) == #[trigger] issue_outcome(
                    secret@,
                    user_id.value,
                    user_email@,
                    now,
                )
                &&& r matches Ok(token) ==> forall|at: int|
                    at < now + TOKEN_TTL_SECONDS ==> #[trigger] verifies_to(
                        secret@,
                        token@,
                        at,
                        issued_claims(user_id.value, user_email@, now as int),
                    )
            },
{
    generate_jwt_at(secret, user_id, user_email, unix_now())
}

/// A token is accepted exactly when it opens to complete claims and the
/// instant lies before their deadline; the claims come back unchanged.
pub proof fn lemma_accepted_iff_before_deadline(
    opened: Result<RawClaimsView, DecodeFault>,
    now: int,
)
    ensures
        verdict(opened, now) is Ok <==> (opened matches Ok(raw) && claims_of(raw) matches Some(c)
            && now < c.exp),
        verdict(opened, now) matches Ok(c) ==> opened matches Ok(raw) && raw == raw_of(c) && c.wf(),
{
}

/// At the very instant of its deadline, and at every later one, a token
/// with a good signature and complete claims is expired.
pub proof fn lemma_expired_from_deadline(raw: RawClaimsView, now: int)
    requires
        claims_of(raw) matches Some(c) && now >= c.exp,
    ensures
        verdict(Ok(raw), now) matches Err(e) && e == TokenError::Expired,
{
}

/// Complete, well-formed claims come back as they are at every instant
/// before their deadline.
pub proof fn lemma_claims_round_trip(c: ClaimsView, now: int)
    requires
        c.wf(),
        now < c.exp,
    ensures
        verdict(Ok(raw_of(c)), now) matches Ok(back) && back == c,
{
}

/// A token whose signature does not match is rejected for that, and a
/// text that is no token as malformed, at every instant: neither is ever
/// accepted, and neither is ever called expired.
pub proof fn lemma_faults_ignore_the_clock(fault: DecodeFault, now: int)
    ensures
        fault == DecodeFault::BadSignature ==> (verdict(Err(fault), now) matches Err(e) && e
            == TokenError::InvalidSignature),
        fault == DecodeFault::Unreadable ==> (verdict(Err(fault), now) matches Err(e) && e
            == TokenError::Malformed),
{
}

/// Tokens are issued with well-formed claims: the deadline lies
/// `TOKEN_TTL_SECONDS` after the time of issue.
pub proof fn lemma_issued_claims_are_well_formed(id: u128, email: Seq<char>, now: int)
    ensures
        issued_claims(id, email, now).wf(),
        issued_claims(id, email, now).exp - issued_claims(id, email, now).iat == TOKEN_TTL_SECONDS,
        issued_claims(id, email, now).iat == now,
{
}

/// Time only takes acceptance away: a token that is not accepted at one
/// instant is not accepted at any later one.
pub proof fn lemma_rejection_is_final(
    opened: Result<RawClaimsView, DecodeFault>,
    now: int,
    later: int,
)
    requires
        now <= later,
        verdict(opened, now) is Err,
    ensures
        verdict(opened, later) == verdict(opened, now),
{
}

} // verus!
