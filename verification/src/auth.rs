//! Identity: from a bearer credential to the subject it asserts.
//!
//! A credential is a signed token that carries a subject and an expiry
//! instant. It is accepted when its signature verifies under the signing
//! secret and the clock has not passed its expiry instant; nothing else
//! about the account is consulted, so a credential stays valid until it
//! expires, and not a second longer.

use vstd::prelude::*;

use crate::change::answers;
use crate::config::AppState;
use crate::context::unix_seconds;
use crate::error::{failure, failure_caused_by, AppError, AppErrorView, ErrorKind};
use crate::models::{
    AuthResponse, AuthResponseView, Claims, ClaimsView, LoginRequest, LoginRequestView, User,
    UserView,
};
use crate::schema::Library;
use crate::seqs::first_where;
use crate::store::Store;
use crate::tables::{holds, lookup, UserColumn};
use crate::text::{string_of, strip_prefix, text_of};

verus! {

/// How long a credential lasts from the moment it is issued, in seconds.
pub const TOKEN_LIFETIME: i64 = 86_400;

/// The claims that the token carries if its signature verifies under the
/// secret: the subject and the expiry instant. Nothing where the token is
/// malformed, signed otherwise, or lacks either claim.
pub uninterp spec fn signed_claims(token: Seq<char>, secret: Seq<char>) -> Option<(Seq<char>, usize)>;

/// The token that asserts the subject until the expiry instant, signed with
/// the secret, or the reason why it could not be made.
pub uninterp spec fn signed_token(subject: Seq<char>, expiry: usize, secret: Seq<char>) -> Result<
    Seq<char>,
    Seq<char>,
>;

/// `jsonwebtoken::decode` with the key `DecodingKey::from_secret` and the
/// default validation, except that the expiry instant is not compared with
/// the clock: the result depends on the token and the secret alone. The
/// claims `sub` and `exp` of an accepted token are handed out.
#[verifier::external_body]
fn decode_claims(token: &str, secret: &str) -> (claims: Option<Claims>)
    ensures
        match claims {
            Some(c) => signed_claims(token@, secret@) == Some((c.sub@, c.exp)),
            None => signed_claims(token@, secret@) is None,
        },
{
    let mut validation = jsonwebtoken::Validation::default();
    validation.validate_exp = false;
    let key = jsonwebtoken::DecodingKey::from_secret(secret.as_bytes());
    let data = jsonwebtoken::decode::<serde_json::Value>(token, &key, &validation).ok()?;
    let sub = data.claims.get("sub")?.as_str()?.to_owned();
    let exp = usize::try_from(data.claims.get("exp")?.as_u64()?).ok()?;
    Some(Claims { sub, exp })
}

/// `jsonwebtoken::encode` with the default header and the key
/// `EncodingKey::from_secret`, on the claims `sub` and `exp`: the result
/// depends on the claims and the secret alone. A failure is handed out as
/// its message.
#[verifier::external_body]
fn encode_claims(claims: &Claims, secret: &str) -> (token: Result<String, String>)
    ensures
        match token {
            Ok(t) => signed_token(claims.sub@, claims.exp, secret@) == Ok::<Seq<char>, Seq<char>>(
                t@,
            ),
            Err(e) => signed_token(claims.sub@, claims.exp, secret@) == Err::<
                Seq<char>,
                Seq<char>,
            >(e@),
        },
{
    let mut payload = serde_json::Map::new();
    payload.insert("sub".to_owned(), serde_json::Value::from(claims.sub.as_str()));
    payload.insert("exp".to_owned(), serde_json::Value::from(claims.exp));
    let key = jsonwebtoken::EncodingKey::from_secret(secret.as_bytes());
    jsonwebtoken::encode(&jsonwebtoken::Header::default(), &payload, &key).map_err(
        |e| e.to_string(),
    )
}

/// The text that introduces a bearer credential in an authorization header.
pub open spec fn bearer_prefix() -> Seq<char> {
    "Bearer "@
}

/// The credential that an authorization header carries, if it carries one.
pub open spec fn bearer_of(authorization: Option<Seq<char>>) -> Option<Seq<char>> {
    match authorization {
        Some(header) => if bearer_prefix().is_prefix_of(header) {
            Some(header.skip(bearer_prefix().len() as int))
        } else {
            None
        },
        None => None,
    }
}

/// Whether a credential that expires at `expiry` has expired at `now`, both
/// in seconds since the Unix epoch: the clock has passed the expiry instant.
pub open spec fn expired(expiry: usize, now: i64) -> bool {
    expiry < now
}

/// The subject of claims that have not expired at `now`.
pub open spec fn unexpired(claims: Option<ClaimsView>, now: i64) -> Option<Seq<char>> {
    match claims {
        Some(c) => if expired(c.exp, now) {
            None
        } else {
            Some(c.sub)
        },
        None => None,
    }
}

/// The claims that the token carries if its signature verifies under the
/// secret.
pub open spec fn claims_of(token: Seq<char>, secret: Seq<char>) -> Option<ClaimsView> {
    match signed_claims(token, secret) {
        Some((sub, exp)) => Some(ClaimsView { sub, exp }),
        None => None,
    }
}

/// The subject that the token asserts at `now`: the one it carries, where its
/// signature verifies and it has not expired.
pub open spec fn subject_at(token: Seq<char>, secret: Seq<char>, now: i64) -> Option<Seq<char>> {
    unexpired(claims_of(token, secret), now)
}

/// The failure that answers a request without a bearer credential.
pub open spec fn missing_credential() -> AppErrorView {
    failure(ErrorKind::Unauthenticated, "Authentication required"@)
}

/// The failure that answers a credential that is forged, malformed or expired.
pub open spec fn invalid_credential() -> AppErrorView {
    failure(ErrorKind::Unauthenticated, "Invalid token"@)
}

/// The identity behind an authorization header at `now`.
pub open spec fn identity_at(authorization: Option<Seq<char>>, secret: Seq<char>, now: i64) -> Result<
    Seq<char>,
    AppErrorView,
> {
    match bearer_of(authorization) {
        None => Err(missing_credential()),
        Some(token) => match subject_at(token, secret, now) {
            None => Err(invalid_credential()),
            Some(subject) => Ok(subject),
        },
    }
}

/// Extracts the bearer credential from the value of an authorization header.
pub fn bearer_token<'a>(authorization: Option<&'a str>) -> (r: Result<&'a str, AppError>)
    ensures
        match r {
            Ok(token) => bearer_of(text_of(authorization)) == Some(token@),
            Err(e) => bearer_of(text_of(authorization)) is None && e@ == missing_credential(),
        },
{
    match authorization {
        Some(header) => match strip_prefix(header, "Bearer ") {
            Some(token) => {
                proof {
                    assert(header@.skip(bearer_prefix().len() as int) =~= token@);
                }
                Ok(token)
            },
            None => Err(AppError::new(ErrorKind::Unauthenticated, "Authentication required")),
        },
        None => Err(AppError::new(ErrorKind::Unauthenticated, "Authentication required")),
    }
}

/// Whether a credential with the given expiry instant has expired at `now`.
pub fn is_expired(expiry: usize, now: i64) -> (b: bool)
    ensures
        b == expired(expiry, now),
{
    (expiry as i128) < now as i128
}

/// Decides on what came out of the signature check: the subject of claims
/// that have not expired at `now`.
pub fn subject_of(claims: Option<Claims>, now: i64) -> (subject: Option<String>)
    ensures
        string_of(subject) == unexpired(
            match claims {
                Some(c) => Some(c@),
                None => None,
            },
            now,
        ),
{
    match claims {
        Some(c) => if is_expired(c.exp, now) {
            None
        } else {
            Some(c.sub)
        },
        None => None,
    }
}

/// Verifies the token under the secret and hands out its subject, unless
/// it has expired at `now`.
pub fn validate_token_at(token: &str, secret: &str, now: i64) -> (subject: Option<String>)
    ensures
        string_of(subject) == subject_at(token@, secret@, now),
{
    subject_of(decode_claims(token, secret), now)
}

/// Verifies the token under the secret and hands out its subject, unless
/// it has expired by the clock.
pub fn validate_token(token: &str, secret: &str) -> (subject: Option<String>)
    ensures
        exists|now: i64| string_of(subject) == #[trigger] subject_at(token@, secret@, now),
        subject matches Some(s) ==> claims_of(token@, secret@) matches Some(c) && c.sub == s@,
{
    let now = unix_seconds();
    validate_token_at(token, secret, now)
}

/// Resolves the caller of a request from its authorization header at `now`.
pub fn authenticate(authorization: Option<&str>, secret: &str, now: i64) -> (r: Result<
    String,
    AppError,
>)
    ensures
        answers(r, identity_at(text_of(authorization), secret@, now)),
{
    let token = bearer_token(authorization)?;
    match validate_token_at(token, secret, now) {
        Some(subject) => Ok(subject),
        None => Err(AppError::new(ErrorKind::Unauthenticated, "Invalid token")),
    }
}

/// The failure that answers a subject for which the store holds no account.
pub open spec fn unknown_account() -> AppErrorView {
    failure(ErrorKind::Internal, "Account not found"@)
}

/// The account with the identifier.
pub open spec fn user_with_id(v: Library, id: Seq<char>) -> Option<UserView> {
    first_where(v.users, holds::<User>(UserColumn::Id, id))
}

/// Whether the subject is an administrator, as far as the store knows the
/// subject.
pub open spec fn admin_flag(v: Library, subject: Seq<char>) -> Result<bool, AppErrorView> {
    match user_with_id(v, subject) {
        Some(user) => Ok(user.is_admin),
        None => Err(unknown_account()),
    }
}

/// Looks up whether the subject is an administrator.
pub fn check_admin(user_id: &str, store: &Store) -> (r: Result<bool, AppError>)
    ensures
        answers(r, admin_flag(store@, user_id@)),
{
    match lookup(store.users(), &UserColumn::Id, user_id) {
        Some(user) => Ok(user.is_admin),
        None => Err(AppError::new(ErrorKind::Internal, "Account not found")),
    }
}

/// The failure that answers a login with a wrong name or secret.
pub open spec fn invalid_credentials() -> AppErrorView {
    failure(ErrorKind::Unauthenticated, "Invalid credentials"@)
}

/// The failure that answers a login at an instant from which no expiry
/// instant can be counted.
pub open spec fn clock_out_of_range() -> AppErrorView {
    failure(ErrorKind::Internal, "Clock out of range"@)
}

/// The failure that answers a login for which no credential could be
/// signed; the reason is kept as the cause.
pub open spec fn token_not_issued(cause: Seq<char>) -> AppErrorView {
    failure_caused_by(ErrorKind::Internal, "Token could not be issued"@, cause)
}

/// What is made of the outcome of signing: the credential, or the failure.
pub open spec fn issued(signed: Result<Seq<char>, Seq<char>>) -> Result<
    AuthResponseView,
    AppErrorView,
> {
    match signed {
        Ok(token) => Ok(AuthResponseView { token }),
        Err(cause) => Err(token_not_issued(cause)),
    }
}

/// The expiry instant of a credential issued at `now`, where the machine can
/// count it.
pub open spec fn expiry_after(now: i64) -> Option<usize> {
    if 0 <= now && now + TOKEN_LIFETIME <= i64::MAX && now + TOKEN_LIFETIME <= usize::MAX {
        Some((now + TOKEN_LIFETIME) as usize)
    } else {
        None
    }
}

/// The account that a login names, if the secret is the stored one.
pub open spec fn account_for(v: Library, request: LoginRequestView) -> Option<UserView> {
    match first_where(v.users, holds::<User>(UserColumn::Username, request.username)) {
        Some(user) => if user.password == request.password {
            Some(user)
        } else {
            None
        },
        None => None,
    }
}

/// What a login at `now` is answered with: a credential for the account that
/// lasts for the token lifetime.
pub open spec fn login_outcome(
    v: Library,
    secret: Seq<char>,
    request: LoginRequestView,
    now: i64,
) -> Result<AuthResponseView, AppErrorView> {
    match account_for(v, request) {
        None => Err(invalid_credentials()),
        Some(user) => match expiry_after(now) {
            None => Err(clock_out_of_range()),
            Some(expiry) => issued(signed_token(user.id, expiry, secret)),
        },
    }
}

/// The expiry instant of a credential issued at `now`.
pub fn expiry_from(now: i64) -> (expiry: Option<usize>)
    ensures
        expiry == expiry_after(now),
{
    if now < 0 || now > i64::MAX - TOKEN_LIFETIME {
        return None;
    }
    let at: i64 = now + TOKEN_LIFETIME;
    if at as u64 > usize::MAX as u64 {
        return None;
    }
    Some(at as usize)
}

/// Issues a credential for the subject that expires at the given instant.
pub fn issue_token(subject: &str, expiry: usize, secret: &str) -> (r: Result<AuthResponse, AppError>)
    ensures
        answers(r, issued(signed_token(subject@, expiry, secret@))),
{
    let claims = Claims { sub: subject.to_owned(), exp: expiry };
    respond_to_signing(encode_claims(&claims, secret))
}

/// Decides on what came out of signing: the credential is handed out, a
/// failure is reported as internal with its reason kept as the cause.
pub fn respond_to_signing(signed: Result<String, String>) -> (r: Result<AuthResponse, AppError>)
    ensures
        answers(
            r,
            issued(
                match signed {
                    Ok(token) => Ok(token@),
                    Err(cause) => Err(cause@),
                },
            ),
        ),
{
    match signed {
        Ok(token) => Ok(AuthResponse { token }),
        Err(cause) => Err(
            AppError::caused_by(ErrorKind::Internal, "Token could not be issued", cause),
        ),
    }
}

/// Answers a login at `now`.
pub fn login_at(req: &LoginRequest, state: &AppState, now: i64) -> (r: Result<AuthResponse, AppError>)
    ensures
        answers(r, login_outcome(state.store@, state.secret_key@, req@, now)),
{
    let user = match lookup(state.store.users(), &UserColumn::Username, req.username.as_str()) {
        Some(user) => user,
        None => {
            return Err(AppError::new(ErrorKind::Unauthenticated, "Invalid credentials"));
        },
    };
    if !user.password.as_str().eq(req.password.as_str()) {
        return Err(AppError::new(ErrorKind::Unauthenticated, "Invalid credentials"));
    }
    match expiry_from(now) {
        None => Err(AppError::new(ErrorKind::Internal, "Clock out of range")),
        Some(expiry) => issue_token(user.id.as_str(), expiry, state.secret_key.as_str()),
    }
}

/// Answers a login by the clock: with a credential for the account whose
/// name and secret the request holds.
pub fn login(req: &LoginRequest, state: &AppState) -> (r: Result<AuthResponse, AppError>)
    ensures
        exists|now: i64|
            answers(r, #[trigger] login_outcome(state.store@, state.secret_key@, req@, now)),
        account_for(state.store@, req@) is None ==> (r matches Err(e) && e@ == invalid_credentials()),
{
    let now = unix_seconds();
    login_at(req, state, now)
}

/// A credential whose signature does not verify, or that has expired, is
/// refused as unauthenticated whatever it carries and whatever else the
/// request holds.
pub proof fn forged_or_expired_is_unauthenticated(
    authorization: Option<Seq<char>>,
    secret: Seq<char>,
    now: i64,
)
    requires
        bearer_of(authorization) matches Some(token) ==> (match claims_of(token, secret) {
            Some(claims) => expired(claims.exp, now),
            None => true,
        }),
    ensures
        identity_at(authorization, secret, now) matches Err(e) && e.kind
            == ErrorKind::Unauthenticated,
{
}

} // verus!
