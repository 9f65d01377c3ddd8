//! The guard in front of the services: it issues a signed credential to
//! the administrator and admits a request that presents one.

use vstd::prelude::*;
use vstd::slice::slice_to_vec;
use crate::text::{owned, same_text};

verus! {

/// Why a credential was not issued or not accepted.
#[derive(Clone, Copy, Debug, PartialEq, Eq, Structural)]
pub enum AuthError {
    /// The name and the password are not the administrator's.
    WrongCredentials,
    /// The name or the password is empty.
    MissingCredentials,
    /// The credential could not be signed.
    TokenCreation,
    /// No token was presented, or the one presented does not verify.
    InvalidToken,
}

impl AuthError {
    /// The text shown for the error.
    pub open spec fn message_text(self) -> Seq<char> {
        match self {
            AuthError::WrongCredentials => "Wrong credentials"@,
            AuthError::MissingCredentials => "Missing credentials"@,
            AuthError::TokenCreation => "Token creation error"@,
            AuthError::InvalidToken => "Invalid token"@,
        }
    }

    /// The HTTP status under which the error is reported.
    pub open spec fn status(self) -> u16 {
        match self {
            AuthError::WrongCredentials => 401,
            AuthError::MissingCredentials => 400,
            AuthError::TokenCreation => 500,
            AuthError::InvalidToken => 401,
        }
    }

    /// The text shown for the error.
    pub fn message(&self) -> (text: String)
        ensures
            text@ == self.message_text(),
    {
        match self {
            AuthError::WrongCredentials => owned("Wrong credentials"),
            AuthError::MissingCredentials => owned("Missing credentials"),
            AuthError::TokenCreation => owned("Token creation error"),
            AuthError::InvalidToken => owned("Invalid token"),
        }
    }

    /// The HTTP status under which the error is reported.
    pub fn status_code(&self) -> (code: u16)
        ensures
            code == self.status(),
    {
        match self {
            AuthError::WrongCredentials => 401,
            AuthError::MissingCredentials => 400,
            AuthError::TokenCreation => 500,
            AuthError::InvalidToken => 401,
        }
    }
}

/// How long an issued credential stays valid, in seconds: thirty days.
pub const TOKEN_LIFETIME: u64 = 2_592_000;

/// The subject that every issued credential names.
pub open spec fn admin_subject() -> Seq<char> {
    "admin"@
}

/// The secret with which credentials are signed and verified.
pub struct Keys {
    secret: Vec<u8>,
}

impl Keys {
    /// The bytes of the secret.
    pub closed spec fn secret(&self) -> Seq<u8> {
        self.secret@
    }

    /// Keys for the given secret.
    pub fn new(secret: &[u8]) -> (keys: Keys)
        ensures
            keys.secret() == secret@,
    {
        Keys { secret: slice_to_vec(secret) }
    }
}

/// The one principal to whom credentials are issued.
#[derive(Debug, PartialEq, Eq)]
pub struct AdminAuth {
    pub name: String,
    pub password: String,
}

/// What a credential states: whom it names, and the seconds since the
/// epoch at which it was issued and at which it expires.
#[derive(Debug, PartialEq, Eq)]
pub struct Claims {
    pub sub: String,
    pub iat: u64,
    pub exp: u64,
}

/// `Claims` with the subject as a character sequence.
pub struct ClaimsView {
    pub sub: Seq<char>,
    pub iat: u64,
    pub exp: u64,
}

impl View for Claims {
    type V = ClaimsView;

    open spec fn view(&self) -> ClaimsView {
        ClaimsView { sub: self.sub@, iat: self.iat, exp: self.exp }
    }
}

/// The claims read from a token whose signature and expiry were found in
/// order: each of the three as far as the token states it in its proper
/// form.
#[derive(Debug, PartialEq, Eq)]
pub struct DecodedClaims {
    pub sub: Option<String>,
    pub iat: Option<u64>,
    pub exp: Option<u64>,
}

/// The error of jsonwebtoken, `errors::Error`: carried from its calls
/// to where it is told apart from success, never looked into.
#[verifier::external_type_specification]
#[verifier::external_body]
pub struct ExTokenError(jsonwebtoken::errors::Error);

/// The token that `encode` of jsonwebtoken makes of the three claims with
/// its default header and an HMAC key of the given secret.
pub uninterp spec fn signed_token(secret: Seq<u8>, sub: Seq<char>, iat: u64, exp: u64) -> Seq<char>;

/// Signs the claims with `encode` of jsonwebtoken, under its default
/// header (HS256) and `EncodingKey::from_secret`. With the signer that
/// the crate is built with, the token is a function of the secret and
/// the claims; the contract gives it its name. It is never empty: it is
/// made of three parts joined by dots.
///
/// Signing does not fail here, though `encode` can: the key and the
/// header are both of the HMAC family, an HMAC key may have any length,
/// a header and a map of a text and two numbers always serialise, and
/// the HMAC signer reports no error.
#[verifier::external_body]
fn sign(secret: &[u8], claims: &Claims) -> (res: Result<String, jsonwebtoken::errors::Error>)
    ensures
        res is Ok,
        res matches Ok(token) ==> token@ == signed_token(
            secret@,
            claims@.sub,
            claims@.iat,
            claims@.exp,
        ),
        res matches Ok(token) ==> token@.len() > 0,
{
    let mut body = serde_json::Map::new();
    body.insert("sub".to_string(), serde_json::Value::from(claims.sub.as_str()));
    body.insert("iat".to_string(), serde_json::Value::from(claims.iat));
    body.insert("exp".to_string(), serde_json::Value::from(claims.exp));
    let key = jsonwebtoken::EncodingKey::from_secret(secret);
    jsonwebtoken::encode(&jsonwebtoken::Header::default(), &body, &key)
}

/// Verifies the token with `decode` of jsonwebtoken, under its default
/// validation (HS256, the expiry required and held against the system
/// clock with a minute's leeway) and `DecodingKey::from_secret`, and
/// picks the three claims out of what it returns. Whether it succeeds
/// depends on the time of the call, so nothing is stated of the result.
/// The clock is taken to stand later than the first minute of 1970.
#[verifier::external_body]
fn verify(token: &str, secret: &[u8]) -> (res: Result<
    DecodedClaims,
    jsonwebtoken::errors::Error,
>) {
    let key = jsonwebtoken::DecodingKey::from_secret(secret);
    let validation = jsonwebtoken::Validation::default();
    let data = jsonwebtoken::decode::<serde_json::Map<String, serde_json::Value>>(
        token,
        &key,
        &validation,
    )?;
    Ok(
        DecodedClaims {
            sub: data.claims.get("sub").and_then(serde_json::Value::as_str).map(str::to_owned),
            iat: data.claims.get("iat").and_then(serde_json::Value::as_u64),
            exp: data.claims.get("exp").and_then(serde_json::Value::as_u64),
        },
    )
}

/// Reads the clock with `get_current_timestamp` of jsonwebtoken: the
/// seconds since the epoch. Nothing is stated of what it shows. The
/// clock is taken to stand at or after the epoch.
#[verifier::external_body]
fn current_timestamp() -> (now: u64) {
    jsonwebtoken::get_current_timestamp()
}

/// Why the guard turns a name and a password down, if it does:
/// `MissingCredentials` where either is empty, `WrongCredentials` where
/// they are not the administrator's.
pub open spec fn refusal(admin: AdminAuth, user: Seq<char>, pw: Seq<char>) -> Option<AuthError> {
    if user.len() == 0 || pw.len() == 0 {
        Some(AuthError::MissingCredentials)
    } else if user != admin.name@ || pw != admin.password@ {
        Some(AuthError::WrongCredentials)
    } else {
        None
    }
}

/// Whether `res` is the answer to the administrator's credentials at the
/// time `now`: the token, never empty, that states that the subject
/// `admin` was admitted at `now` until `TOKEN_LIFETIME` seconds later,
/// signed with the secret.
pub open spec fn issued_at(res: Result<String, AuthError>, secret: Seq<u8>, now: u64) -> bool {
    res matches Ok(token) && token@ == signed_token(
        secret,
        admin_subject(),
        now,
        (now + TOKEN_LIFETIME) as u64,
    ) && token@.len() > 0
}

/// The answer to the administrator's credentials, given what signing
/// yielded: the token, or `TokenCreation` where there is none.
pub fn token_or_failure(signed: Option<String>) -> (res: Result<String, AuthError>)
    ensures
        match signed {
            Some(token) => res == Ok::<String, AuthError>(token),
            None => res == Err::<String, AuthError>(AuthError::TokenCreation),
        },
{
    match signed {
        Some(token) => Ok(token),
        None => Err(AuthError::TokenCreation),
    }
}

/// Tells whether the name and the password are the administrator's.
pub fn check_credentials(admin: &AdminAuth, user: &str, pw: &str) -> (res: Result<(), AuthError>)
    ensures
        match refusal(*admin, user@, pw@) {
            Some(error) => res == Err::<(), AuthError>(error),
            None => res is Ok,
        },
{
    if user.is_empty() || pw.is_empty() {
        return Err(AuthError::MissingCredentials);
    }
    if !same_text(user, admin.name.as_str()) || !same_text(pw, admin.password.as_str()) {
        return Err(AuthError::WrongCredentials);
    }
    Ok(())
}

/// Issues a credential at the time `now`, in seconds since the epoch.
///
/// An empty name or password is answered with `MissingCredentials`, any
/// other pair than the administrator's with `WrongCredentials`. The
/// administrator's credentials are answered with a token: the signed
/// statement that the subject `admin` was admitted at `now` until
/// `TOKEN_LIFETIME` seconds later.
pub fn authorize_at(keys: &Keys, admin: &AdminAuth, user: &str, pw: &str, now: u64) -> (res:
    Result<String, AuthError>)
    requires
        now + TOKEN_LIFETIME <= u64::MAX,
    ensures
        match refusal(*admin, user@, pw@) {
            Some(error) => res == Err::<String, AuthError>(error),
            None => issued_at(res, keys.secret(), now),
        },
{
    match check_credentials(admin, user, pw) {
        Err(e) => {
            return Err(e);
        },
        Ok(_) => {},
    }
    let claims = Claims { sub: owned("admin"), iat: now, exp: now + TOKEN_LIFETIME };
    let signed = match sign(keys.secret.as_slice(), &claims) {
        Ok(token) => Some(token),
        Err(_) => None,
    };
    token_or_failure(signed)
}

/// Whether `res` is the answer to a name and a password at the time
/// `now`: the refusal, if they are turned down; else the token issued at
/// `now`, or `None` where `now` is so late that the expiry, `now` and
/// `TOKEN_LIFETIME` seconds, cannot be stated.
pub open spec fn answered_at(
    res: Option<Result<String, AuthError>>,
    admin: AdminAuth,
    user: Seq<char>,
    pw: Seq<char>,
    secret: Seq<u8>,
    now: u64,
) -> bool {
    match refusal(admin, user, pw) {
        Some(error) => res == Some(Err::<String, AuthError>(error)),
        None => if now + TOKEN_LIFETIME <= u64::MAX {
            res matches Some(answer) && issued_at(answer, secret, now)
        } else {
            res is None
        },
    }
}

/// Issues a credential by what the clock shows, whatever that is: the
/// answer of `authorize_at` for every time for which an expiry can be
/// stated, and `None` for the administrator's credentials at any later
/// time.
pub fn authorize_by(keys: &Keys, admin: &AdminAuth, user: &str, pw: &str, now: u64) -> (res:
    Option<Result<String, AuthError>>)
    ensures
        answered_at(res, *admin, user@, pw@, keys.secret(), now),
{
    match check_credentials(admin, user, pw) {
        Err(e) => {
            return Some(Err(e));
        },
        Ok(_) => {},
    }
    if now > u64::MAX - TOKEN_LIFETIME {
        return None;
    }
    Some(authorize_at(keys, admin, user, pw, now))
}

/// Issues a credential at the present time: reads the clock and answers
/// as `authorize_by` does for the time it shows. Credentials that are
/// turned down get their refusal whatever the time.
pub fn authorize(keys: &Keys, admin: &AdminAuth, user: &str, pw: &str) -> (res: Option<
    Result<String, AuthError>,
>)
    ensures
        exists|now: u64| #[trigger] answered_at(res, *admin, user@, pw@, keys.secret(), now),
        refusal(*admin, user@, pw@) matches Some(error) ==> res == Some(
            Err::<String, AuthError>(error),
        ),
{
    let now = current_timestamp();
    let res = authorize_by(keys, admin, user, pw, now);
    assert(answered_at(res, *admin, user@, pw@, keys.secret(), now));
    res
}

/// The token that a request presents: the bearer token of its
/// authorization header if it has one, else its `token` cookie.
pub fn presented_token(bearer: Option<String>, cookie: Option<String>) -> (token: Option<String>)
    ensures
        token == match bearer {
            Some(_) => bearer,
            None => cookie,
        },
{
    match bearer {
        Some(token) => Some(token),
        None => cookie,
    }
}

impl Claims {
    /// The claims of a verified token, if verification succeeded and the
    /// token states all three of them; `InvalidToken` otherwise.
    pub fn from_decoded(decoded: Option<DecodedClaims>) -> (res: Result<Claims, AuthError>)
        ensures
            match decoded {
                Some(DecodedClaims { sub: Some(sub), iat: Some(iat), exp: Some(exp) }) => res
                    == Ok::<Claims, AuthError>(Claims { sub, iat, exp }),
                _ => res == Err::<Claims, AuthError>(AuthError::InvalidToken),
            },
    {
        match decoded {
            Some(DecodedClaims { sub: Some(sub), iat: Some(iat), exp: Some(exp) }) => Ok(
                Claims { sub, iat, exp },
            ),
            _ => Err(AuthError::InvalidToken),
        }
    }

    /// Admits a request by the token it presents: the bearer token if
    /// there is one, else the cookie.
    ///
    /// Without a token the request is refused, and every refusal is
    /// `InvalidToken`. Whether a token that is presented verifies is for
    /// the signature check and the clock to say.
    pub fn from_request_parts(bearer: Option<String>, cookie: Option<String>, keys: &Keys) -> (res:
        Result<Claims, AuthError>)
        ensures
            bearer is None && cookie is None ==> res is Err,
            res matches Err(e) ==> e == AuthError::InvalidToken,
    {
        let token = match presented_token(bearer, cookie) {
            Some(token) => token,
            None => {
                return Err(AuthError::InvalidToken);
            },
        };
        let decoded = match verify(token.as_str(), keys.secret.as_slice()) {
            Ok(claims) => Some(claims),
            Err(_) => None,
        };
        Self::from_decoded(decoded)
    }
}

} // verus!
