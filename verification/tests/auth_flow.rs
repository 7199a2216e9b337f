use std::collections::HashMap;

use jsonwebtoken::{Algorithm, DecodingKey, EncodingKey, Header};
use rust_control_panel_template::auth::{
    after_token, after_users, has_prefix, jwks_url, AuthError, AuthMidleware, AuthStep,
    JwtParams, TokenHeader,
};
use rust_control_panel_template::schema::AdminUser;

const SECRET: &[u8] = b"test-secret";

fn key_set(kids: &[&str]) -> jwks::Jwks {
    let mut keys = HashMap::new();
    for kid in kids {
        keys.insert(
            kid.to_string(),
            jwks::Jwk { alg: None, decoding_key: DecodingKey::from_secret(SECRET) },
        );
    }
    jwks::Jwks { keys }
}

fn token(kid: Option<&str>) -> String {
    let mut header = Header::new(Algorithm::HS256);
    header.kid = kid.map(|k| k.to_string());
    let mut claims = serde_json::Map::new();
    claims.insert("sub".to_string(), serde_json::Value::from("user-1"));
    claims.insert("email".to_string(), serde_json::Value::from("a@b.c"));
    claims.insert("aud".to_string(), serde_json::Value::from("client-1"));
    claims.insert("exp".to_string(), serde_json::Value::from(4_000_000_000u64));
    jsonwebtoken::encode(
        &header,
        &serde_json::Value::Object(claims),
        &EncodingKey::from_secret(SECRET),
    )
    .unwrap()
}

fn middleware() -> AuthMidleware {
    AuthMidleware::new(key_set(&["k1"]), "client-1")
}

fn user(active: bool) -> AdminUser {
    let mut u = AdminUser::new();
    u.email = "a@b.c".to_string();
    u.active = active;
    u
}

#[test]
fn missing_header_is_refused() {
    let step = middleware().check_request(None);
    assert_eq!(step, AuthStep::Reject(AuthError::MissingAuthorizationHeader));
    if let AuthStep::Reject(e) = step {
        assert_eq!(e.status(), 400);
        assert_eq!(e.message(), "Missing authorization header");
    }
}

#[test]
fn unreadable_header_counts_as_missing() {
    let step = middleware().check_request(Some(b"Bearer \x01abc"));
    assert_eq!(step, AuthStep::Reject(AuthError::MissingAuthorizationHeader));
    let step = middleware().check_request(Some("Bearer é".as_bytes()));
    assert_eq!(step, AuthStep::Reject(AuthError::MissingAuthorizationHeader));
}

#[test]
fn non_bearer_header_is_refused() {
    for h in ["Basic abc", "bearer abc", "Bearer", ""] {
        let step = middleware().check_request(Some(h.as_bytes()));
        assert_eq!(step, AuthStep::Reject(AuthError::NotBearerToken), "{h}");
    }
    assert_eq!(AuthError::NotBearerToken.message(), "Not Bearer token");
}

#[test]
fn token_without_parts_has_invalid_header() {
    let step = middleware().check_request(Some(b"Bearer abc"));
    assert_eq!(step, AuthStep::Reject(AuthError::InvalidTokenHeader("InvalidToken".to_string())));
    let step = middleware().check_request(Some(b"Bearer "));
    assert_eq!(step, AuthStep::Reject(AuthError::InvalidTokenHeader("InvalidToken".to_string())));
}

#[test]
fn garbage_token_header_reports_the_decoder_error() {
    let step = middleware().check_request(Some(b"Bearer a.b.c"));
    match step {
        AuthStep::Reject(AuthError::InvalidTokenHeader(msg)) => assert!(!msg.is_empty()),
        other => panic!("unexpected {other:?}"),
    }
}

#[test]
fn known_kid_asks_to_verify_the_token() {
    let t = token(Some("k1"));
    let header = format!("Bearer {t}");
    let step = middleware().check_request(Some(header.as_bytes()));
    assert_eq!(
        step,
        AuthStep::VerifyToken {
            token: t,
            kid: "k1".to_string(),
            algorithm: "HS256".to_string(),
            audience: "client-1".to_string(),
        }
    );
}

#[test]
fn unknown_kid_is_refused() {
    let header = format!("Bearer {}", token(Some("other")));
    let step = middleware().check_request(Some(header.as_bytes()));
    assert_eq!(step, AuthStep::Reject(AuthError::UnknownKid));
    assert_eq!(AuthError::UnknownKid.message(), "Kid not found in Jwks");
}

#[test]
fn token_without_kid_is_refused() {
    let header = format!("Bearer {}", token(None));
    let step = middleware().check_request(Some(header.as_bytes()));
    assert_eq!(step, AuthStep::Reject(AuthError::MissingKid));
    assert_eq!(AuthError::MissingKid.message(), "Token header missing kid");
}

#[test]
fn after_header_judges_a_given_header() {
    let m = middleware();
    let h = TokenHeader { kid: Some("k1".to_string()), alg: "RS256".to_string() };
    assert_eq!(
        m.after_header("tok".to_string(), Ok(h)),
        AuthStep::VerifyToken {
            token: "tok".to_string(),
            kid: "k1".to_string(),
            algorithm: "RS256".to_string(),
            audience: "client-1".to_string(),
        }
    );
    assert_eq!(
        m.after_header("tok".to_string(), Err("bad".to_string())),
        AuthStep::Reject(AuthError::InvalidTokenHeader("bad".to_string()))
    );
}

#[test]
fn verified_claims_lead_to_user_lookup() {
    let params = JwtParams {
        sub: "s".to_string(),
        nickname: None,
        email: Some("a@b.c".to_string()),
        email_verified: Some(true),
    };
    assert_eq!(after_token(Ok(params)), AuthStep::LookupUser { email: "a@b.c".to_string() });
}

#[test]
fn claims_without_email_are_refused() {
    let params = JwtParams { sub: "s".to_string(), nickname: None, email: None, email_verified: None };
    let step = after_token(Ok(params));
    assert_eq!(step, AuthStep::Reject(AuthError::MissingEmail));
    assert_eq!(AuthError::MissingEmail.message(), "Missing Email");
}

#[test]
fn failed_verification_is_refused_with_its_text() {
    let step = after_token(Err("ExpiredSignature".to_string()));
    assert_eq!(step, AuthStep::Reject(AuthError::InvalidToken("ExpiredSignature".to_string())));
    if let AuthStep::Reject(e) = step {
        assert_eq!(e.status(), 400);
        assert_eq!(e.message(), "ExpiredSignature");
    }
}

#[test]
fn user_lookup_outcomes() {
    assert_eq!(after_users(Ok(vec![])), AuthStep::Reject(AuthError::UserNotFound));
    assert_eq!(after_users(Ok(vec![user(false)])), AuthStep::Reject(AuthError::UserNotActive));
    assert_eq!(
        after_users(Ok(vec![user(false), user(true)])),
        AuthStep::Reject(AuthError::UserNotActive)
    );
    assert_eq!(after_users(Ok(vec![user(true), user(false)])), AuthStep::Forward);
    assert_eq!(AuthError::UserNotFound.message(), "user not found");
    assert_eq!(AuthError::UserNotActive.message(), "user not actived");
}

#[test]
fn failed_user_lookup_is_a_server_error() {
    let step = after_users(Err("db down".to_string()));
    assert_eq!(step, AuthStep::Reject(AuthError::UserLookupFailed("db down".to_string())));
    if let AuthStep::Reject(e) = step {
        assert_eq!(e.status(), 500);
        assert_eq!(e.message(), "db down");
    }
}

#[test]
fn every_other_refusal_is_a_client_error() {
    let errors = vec![
        AuthError::MissingAuthorizationHeader,
        AuthError::NotBearerToken,
        AuthError::InvalidTokenHeader("x".to_string()),
        AuthError::MissingKid,
        AuthError::UnknownKid,
        AuthError::InvalidToken("y".to_string()),
        AuthError::MissingEmail,
        AuthError::UserNotFound,
        AuthError::UserNotActive,
    ];
    for e in errors {
        assert_eq!(e.status(), 400, "{e:?}");
    }
}

#[test]
fn key_set_url_of_a_domain() {
    assert_eq!(jwks_url("example.eu.auth0.com"), "https://example.eu.auth0.com/.well-known/jwks.json");
    assert_eq!(jwks_url(""), "https:///.well-known/jwks.json");
}

#[test]
fn prefix_test() {
    assert!(has_prefix("Bearer xyz", "Bearer "));
    assert!(has_prefix("abc", ""));
    assert!(!has_prefix("Bear", "Bearer "));
    assert!(!has_prefix("éBearer ", "Bearer "));
}

#[test]
fn middleware_exposes_its_key_set() {
    let m = AuthMidleware::new(key_set(&["a", "b"]), "c");
    assert_eq!(m.jwks().keys.len(), 2);
    assert!(m.jwks().keys.contains_key("a"));
}

#[test]
fn full_flow_admits_only_an_active_user() {
    let m = middleware();
    let t = token(Some("k1"));
    let header = format!("Bearer {t}");
    let step = m.check_request(Some(header.as_bytes()));
    let (token, kid, algorithm, audience) = match step {
        AuthStep::VerifyToken { token, kid, algorithm, audience } => (token, kid, algorithm, audience),
        other => panic!("unexpected {other:?}"),
    };
    let jwk = m.jwks().keys.get(&kid).unwrap();
    let mut validation = jsonwebtoken::Validation::new(algorithm.parse().unwrap());
    validation.set_audience(&[audience.as_str()]);
    let decoded = jsonwebtoken::decode::<serde_json::Value>(&token, &jwk.decoding_key, &validation)
        .map(|d| JwtParams {
            sub: d.claims["sub"].as_str().unwrap().to_string(),
            nickname: None,
            email: d.claims["email"].as_str().map(|s| s.to_string()),
            email_verified: None,
        })
        .map_err(|e| e.to_string());
    let step = after_token(decoded);
    assert_eq!(step, AuthStep::LookupUser { email: "a@b.c".to_string() });
    assert_eq!(after_users(Ok(vec![user(true)])), AuthStep::Forward);
    assert_eq!(after_users(Ok(vec![user(false)])), AuthStep::Reject(AuthError::UserNotActive));
}

#[test]
fn token_for_another_audience_fails_verification() {
    let m = AuthMidleware::new(key_set(&["k1"]), "someone-else");
    let header = format!("Bearer {}", token(Some("k1")));
    let AuthStep::VerifyToken { token, kid, algorithm, audience } = m.check_request(Some(header.as_bytes())) else {
        panic!("expected a verification step");
    };
    assert_eq!(audience, "someone-else");
    let jwk = m.jwks().keys.get(&kid).unwrap();
    let mut validation = jsonwebtoken::Validation::new(algorithm.parse().unwrap());
    validation.set_audience(&[audience.as_str()]);
    let outcome = jsonwebtoken::decode::<serde_json::Value>(&token, &jwk.decoding_key, &validation);
    let err = outcome.map(|_| ()).unwrap_err().to_string();
    let step = after_token(Err(err.clone()));
    assert_eq!(step, AuthStep::Reject(AuthError::InvalidToken(err)));
}
