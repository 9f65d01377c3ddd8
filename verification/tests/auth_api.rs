use std::time::{SystemTime, UNIX_EPOCH};

use backend::routes::auth::{
    authorize, authorize_at, authorize_by, check_credentials, presented_token, token_or_failure,
    AdminAuth,
    AuthError, Claims, DecodedClaims, Keys, TOKEN_LIFETIME,
};

fn keys() -> Keys {
    Keys::new("secret".as_bytes())
}

fn admin() -> AdminAuth {
    AdminAuth { name: "admin".to_string(), password: "password".to_string() }
}

fn now() -> u64 {
    SystemTime::now().duration_since(UNIX_EPOCH).unwrap().as_secs()
}

fn token_of(sub: &str, iat: u64, exp: u64, secret: &[u8]) -> String {
    let mut body = serde_json::Map::new();
    body.insert("sub".to_string(), serde_json::Value::from(sub));
    body.insert("iat".to_string(), serde_json::Value::from(iat));
    body.insert("exp".to_string(), serde_json::Value::from(exp));
    jsonwebtoken::encode(
        &jsonwebtoken::Header::default(),
        &body,
        &jsonwebtoken::EncodingKey::from_secret(secret),
    )
    .unwrap()
}

#[test]
fn authenticate() {
    let token = authorize(&keys(), &admin(), "admin", "password").unwrap();

    assert!(token.is_ok(), "Response missing 'token'");
    assert!(!token.unwrap().is_empty());
}

#[test]
fn authenticate_invalid_data() {
    let response = authorize(&keys(), &admin(), "admin", "wrong").unwrap();

    assert_eq!(response, Err(AuthError::WrongCredentials));
    assert_eq!(response.unwrap_err().status_code(), 401);
}

#[test]
fn validate() {
    let at = now();
    let token = authorize_at(&keys(), &admin(), "admin", "password", at).unwrap();

    let response = Claims::from_request_parts(Some(token), None, &keys());

    assert_eq!(
        response,
        Ok(Claims { sub: "admin".to_string(), iat: at, exp: at + 60 * 60 * 24 * 30 })
    );
}

#[test]
fn validate_no_token() {
    let response = Claims::from_request_parts(None, None, &keys());

    assert_eq!(response, Err(AuthError::InvalidToken));
    assert_eq!(response.unwrap_err().status_code(), 401);
}

#[test]
fn validate_invalid_token() {
    let response = Claims::from_request_parts(Some("invalidToken".to_string()), None, &keys());

    assert_eq!(response, Err(AuthError::InvalidToken));
    assert_eq!(response.unwrap_err().status_code(), 401);
}

#[test]
fn empty_name_or_password_is_missing_credentials() {
    assert_eq!(
        authorize_at(&keys(), &admin(), "admin", "", now()),
        Err(AuthError::MissingCredentials)
    );
    assert_eq!(
        authorize_at(&keys(), &admin(), "", "password", now()),
        Err(AuthError::MissingCredentials)
    );
    assert_eq!(authorize_at(&keys(), &admin(), "", "", now()), Err(AuthError::MissingCredentials));
    assert_eq!(AuthError::MissingCredentials.status_code(), 400);
}

#[test]
fn other_names_and_passwords_are_wrong_credentials() {
    assert_eq!(
        authorize_at(&keys(), &admin(), "root", "password", now()),
        Err(AuthError::WrongCredentials)
    );
    assert_eq!(
        authorize_at(&keys(), &admin(), "admin", "Password", now()),
        Err(AuthError::WrongCredentials)
    );
    assert_eq!(
        authorize_at(&keys(), &admin(), "password", "admin", now()),
        Err(AuthError::WrongCredentials)
    );
}

#[test]
fn token_states_subject_issue_and_expiry() {
    let token = authorize_at(&keys(), &admin(), "admin", "password", 1_900_000_000).unwrap();

    assert_eq!(token, token_of("admin", 1_900_000_000, 1_902_592_000, b"secret"));
    assert_eq!(TOKEN_LIFETIME, 2_592_000);
    assert_eq!(token.split('.').count(), 3);
}

#[test]
fn token_is_signed_with_the_secret() {
    let at = now();
    let token = authorize_at(&keys(), &admin(), "admin", "password", at).unwrap();
    let other = authorize_at(&Keys::new(b"other"), &admin(), "admin", "password", at).unwrap();

    assert_ne!(token, other);
    assert_eq!(
        Claims::from_request_parts(Some(other), None, &keys()),
        Err(AuthError::InvalidToken)
    );
}

#[test]
fn token_is_taken_from_the_cookie_when_no_header_bears_one() {
    let at = now();
    let token = authorize_at(&keys(), &admin(), "admin", "password", at).unwrap();
    let expected = Claims { sub: "admin".to_string(), iat: at, exp: at + TOKEN_LIFETIME };

    assert_eq!(Claims::from_request_parts(None, Some(token.clone()), &keys()), Ok(expected));
    assert_eq!(
        Claims::from_request_parts(Some("invalidToken".to_string()), Some(token), &keys()),
        Err(AuthError::InvalidToken)
    );
}

#[test]
fn header_comes_before_cookie() {
    assert_eq!(
        presented_token(Some("h".to_string()), Some("c".to_string())),
        Some("h".to_string())
    );
    assert_eq!(presented_token(Some("h".to_string()), None), Some("h".to_string()));
    assert_eq!(presented_token(None, Some("c".to_string())), Some("c".to_string()));
    assert_eq!(presented_token(None, None), None);
}

#[test]
fn expired_token_is_invalid() {
    let token = authorize_at(&keys(), &admin(), "admin", "password", 1_000_000).unwrap();

    assert_eq!(
        Claims::from_request_parts(Some(token), None, &keys()),
        Err(AuthError::InvalidToken)
    );
}

#[test]
fn tampered_token_is_invalid() {
    let token = authorize(&keys(), &admin(), "admin", "password").unwrap().unwrap();
    let mut parts: Vec<String> = token.split('.').map(|p| p.to_string()).collect();
    let forged = token_of("admin", 0, u64::MAX, b"guess");
    parts[1] = forged.split('.').nth(1).unwrap().to_string();

    assert_eq!(
        Claims::from_request_parts(Some(parts.join(".")), None, &keys()),
        Err(AuthError::InvalidToken)
    );
    assert_eq!(
        Claims::from_request_parts(Some(format!("{}x", token)), None, &keys()),
        Err(AuthError::InvalidToken)
    );
}

#[test]
fn token_without_all_claims_is_invalid() {
    let mut body = serde_json::Map::new();
    body.insert("sub".to_string(), serde_json::Value::from("admin"));
    body.insert("exp".to_string(), serde_json::Value::from(now() + 1000));
    let token = jsonwebtoken::encode(
        &jsonwebtoken::Header::default(),
        &body,
        &jsonwebtoken::EncodingKey::from_secret(b"secret"),
    )
    .unwrap();

    assert_eq!(
        Claims::from_request_parts(Some(token), None, &keys()),
        Err(AuthError::InvalidToken)
    );
}

#[test]
fn decoded_claims_must_be_complete() {
    assert_eq!(
        Claims::from_decoded(Some(DecodedClaims {
            sub: Some("admin".to_string()),
            iat: Some(1),
            exp: Some(2)
        })),
        Ok(Claims { sub: "admin".to_string(), iat: 1, exp: 2 })
    );
    assert_eq!(
        Claims::from_decoded(Some(DecodedClaims { sub: None, iat: Some(1), exp: Some(2) })),
        Err(AuthError::InvalidToken)
    );
    assert_eq!(
        Claims::from_decoded(Some(DecodedClaims {
            sub: Some("admin".to_string()),
            iat: None,
            exp: Some(2)
        })),
        Err(AuthError::InvalidToken)
    );
    assert_eq!(
        Claims::from_decoded(Some(DecodedClaims {
            sub: Some("admin".to_string()),
            iat: Some(1),
            exp: None
        })),
        Err(AuthError::InvalidToken)
    );
    assert_eq!(Claims::from_decoded(None), Err(AuthError::InvalidToken));
}

#[test]
fn auth_errors_have_their_texts_and_statuses() {
    assert_eq!(AuthError::WrongCredentials.message(), "Wrong credentials");
    assert_eq!(AuthError::MissingCredentials.message(), "Missing credentials");
    assert_eq!(AuthError::TokenCreation.message(), "Token creation error");
    assert_eq!(AuthError::InvalidToken.message(), "Invalid token");
    assert_eq!(AuthError::WrongCredentials.status_code(), 401);
    assert_eq!(AuthError::TokenCreation.status_code(), 500);
}

#[test]
fn credentials_are_checked_before_anything_is_signed() {
    assert_eq!(check_credentials(&admin(), "admin", "password"), Ok(()));
    assert_eq!(check_credentials(&admin(), "admin", ""), Err(AuthError::MissingCredentials));
    assert_eq!(check_credentials(&admin(), "", "wrong"), Err(AuthError::MissingCredentials));
    assert_eq!(check_credentials(&admin(), "admin", "wrong"), Err(AuthError::WrongCredentials));
    assert_eq!(check_credentials(&admin(), "admin ", "password"), Err(AuthError::WrongCredentials));
    assert_eq!(
        authorize(&keys(), &admin(), "", "password"),
        Some(Err(AuthError::MissingCredentials))
    );
}

#[test]
fn token_issued_now_is_stamped_with_the_present_time() {
    let before = now();
    let token = authorize(&keys(), &admin(), "admin", "password").unwrap().unwrap();
    let after = now();

    let claims = Claims::from_request_parts(Some(token), None, &keys()).unwrap();

    assert_eq!(claims.sub, "admin");
    assert!(before <= claims.iat && claims.iat <= after);
    assert_eq!(claims.exp, claims.iat + 2_592_000);
}

#[test]
fn token_is_valid_until_it_expires() {
    let almost = now() - TOKEN_LIFETIME + 30;
    let token = authorize_at(&keys(), &admin(), "admin", "password", almost).unwrap();
    assert_eq!(
        Claims::from_request_parts(Some(token), None, &keys()),
        Ok(Claims { sub: "admin".to_string(), iat: almost, exp: almost + TOKEN_LIFETIME })
    );

    let over = now() - TOKEN_LIFETIME - 3600;
    let token = authorize_at(&keys(), &admin(), "admin", "password", over).unwrap();
    assert_eq!(
        Claims::from_request_parts(Some(token), None, &keys()),
        Err(AuthError::InvalidToken)
    );
}

#[test]
fn signing_that_fails_is_a_token_creation_error() {
    assert_eq!(token_or_failure(Some("a.b.c".to_string())), Ok("a.b.c".to_string()));
    assert_eq!(token_or_failure(None), Err(AuthError::TokenCreation));
}

#[test]
fn time_too_late_for_an_expiry_yields_no_token() {
    let last = u64::MAX - TOKEN_LIFETIME;

    assert_eq!(
        authorize_by(&keys(), &admin(), "admin", "password", last),
        Some(authorize_at(&keys(), &admin(), "admin", "password", last))
    );
    assert!(authorize_by(&keys(), &admin(), "admin", "password", last).unwrap().is_ok());
    assert_eq!(authorize_by(&keys(), &admin(), "admin", "password", last + 1), None);
    assert_eq!(authorize_by(&keys(), &admin(), "admin", "password", u64::MAX), None);
    assert_eq!(
        authorize_by(&keys(), &admin(), "admin", "wrong", u64::MAX),
        Some(Err(AuthError::WrongCredentials))
    );
    assert_eq!(
        authorize_by(&keys(), &admin(), "", "password", 0),
        Some(Err(AuthError::MissingCredentials))
    );
}
