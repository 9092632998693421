use pulse_commerce::errors::AppError;
use pulse_commerce::gateway::{authenticate, decode_token_subject, token_subject};

fn now_secs() -> u64 {
    std::time::SystemTime::now()
        .duration_since(std::time::UNIX_EPOCH)
        .unwrap()
        .as_secs()
}

fn token(sub: i64, exp: u64, secret: &str) -> String {
    let mut claims = serde_json::Map::new();
    claims.insert("sub".to_string(), serde_json::Value::from(sub));
    claims.insert("exp".to_string(), serde_json::Value::from(exp));
    jsonwebtoken::encode(
        &jsonwebtoken::Header::default(),
        &serde_json::Value::Object(claims),
        &jsonwebtoken::EncodingKey::from_secret(secret.as_bytes()),
    )
    .unwrap()
}

#[test]
fn claims_yield_their_subject() {
    assert_eq!(token_subject(Some((Some(5), Some(10)))), Some(5));
    assert_eq!(token_subject(Some((None, Some(10)))), None);
    assert_eq!(token_subject(Some((Some(5), None))), None);
    assert_eq!(token_subject(None), None);
}

#[test]
fn a_signed_fresh_token_gives_its_user() {
    let t = token(42, now_secs() + 3600, "secret");
    assert_eq!(decode_token_subject(&t, "secret"), Some(42));
    assert_eq!(authenticate(&Some(format!("Bearer {t}")), "secret"), Ok(42));
}

#[test]
fn forged_or_expired_tokens_are_refused() {
    let forged = token(42, now_secs() + 3600, "other");
    assert_eq!(decode_token_subject(&forged, "secret"), None);
    assert_eq!(authenticate(&Some(format!("Bearer {forged}")), "secret"), Err(AppError::Unauthorized));
    let expired = token(42, now_secs() - 3600, "secret");
    assert_eq!(authenticate(&Some(format!("Bearer {expired}")), "secret"), Err(AppError::Unauthorized));
}

#[test]
fn malformed_headers_are_refused() {
    assert_eq!(authenticate(&None, "secret"), Err(AppError::Unauthorized));
    assert_eq!(authenticate(&Some("Basic abc".to_string()), "secret"), Err(AppError::Unauthorized));
    assert_eq!(authenticate(&Some("Bearer garbage".to_string()), "secret"), Err(AppError::Unauthorized));
    let t = token(7, now_secs() + 3600, "secret");
    assert_eq!(authenticate(&Some(t), "secret"), Err(AppError::Unauthorized));
}

#[test]
fn issued_tokens_sign_in_their_user() {
    let exp = now_secs() + 600;
    let t = pulse_commerce::gateway::issue_token(9, exp, "k");
    assert_eq!(decode_token_subject(&t, "k"), Some(9));
    assert_eq!(decode_token_subject(&t, "other"), None);
    assert_eq!(t, pulse_commerce::gateway::issue_token(9, exp, "k"));
    let fresh = pulse_commerce::gateway::generate_jwt(11, "k");
    assert_eq!(authenticate(&Some(format!("Bearer {fresh}")), "k"), Ok(11));
    let stale = pulse_commerce::gateway::issue_token(9, now_secs() - 3600, "k");
    assert_eq!(decode_token_subject(&stale, "k"), None);
}

#[test]
fn token_expires_a_day_later() {
    assert_eq!(pulse_commerce::gateway::token_expiry(1_000), 87_400);
    assert_eq!(pulse_commerce::gateway::TOKEN_LIFETIME_SECS, 86_400);
}
