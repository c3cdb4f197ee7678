use jsonwebtoken::jwk::JwkSet;
use jsonwebtoken::{Algorithm, DecodingKey, EncodingKey, Header, Validation};
use rmcp_axum::claims::{normalize_claims, split_whitespace, Audience, RawClaims};
use rmcp_axum::error::AuthError;
use rmcp_axum::jwt::{
    classify_verification, fault_of_kind, select_key, JwtErrorKind, JwtValidatorBuilder, TokenFault,
};
use serde_json::Value;

const KEYS: &str = r#"{"keys":[{"kty":"oct","kid":"k1","alg":"HS256","k":"c2VjcmV0"}]}"#;

fn key_set() -> JwkSet {
    serde_json::from_str(KEYS).unwrap()
}

fn token(kid: Option<&str>, secret: &[u8], exp: u64) -> String {
    let mut header = Header::new(Algorithm::HS256);
    header.kid = kid.map(|k| k.to_string());
    let mut claims = serde_json::Map::new();
    claims.insert("sub".to_string(), Value::String("user1".to_string()));
    claims.insert("scope".to_string(), Value::String("a b c".to_string()));
    claims.insert("exp".to_string(), Value::from(exp));
    jsonwebtoken::encode(&header, &Value::Object(claims), &EncodingKey::from_secret(secret)).unwrap()
}

fn raw(scope: Option<&str>, aud: Option<Audience>, sub: Option<&str>) -> RawClaims {
    RawClaims {
        sub: sub.map(|s| s.to_string()),
        iss: Some("https://auth".to_string()),
        aud,
        scope: scope.map(|s| s.to_string()),
        exp: Some(42),
    }
}

#[test]
fn scope_splits_in_order() {
    let c = normalize_claims(raw(Some("a b c"), None, Some("u")));
    assert_eq!(c.scope, vec!["a", "b", "c"]);
}

#[test]
fn absent_scope_is_empty() {
    let c = normalize_claims(raw(None, None, Some("u")));
    assert!(c.scope.is_empty());
}

#[test]
fn scope_with_mixed_whitespace() {
    assert_eq!(split_whitespace("  read\twrite\n\u{3000}admin  "), vec!["read", "write", "admin"]);
    assert!(split_whitespace(" \t ").is_empty());
    assert!(split_whitespace("").is_empty());
}

#[test]
fn single_audience_becomes_list() {
    let c = normalize_claims(raw(None, Some(Audience::Single("x".to_string())), Some("u")));
    assert_eq!(c.aud, Some(vec!["x".to_string()]));
}

#[test]
fn audience_list_is_unchanged() {
    let aud = Audience::Multiple(vec!["x".to_string(), "y".to_string()]);
    let c = normalize_claims(raw(None, Some(aud), Some("u")));
    assert_eq!(c.aud, Some(vec!["x".to_string(), "y".to_string()]));
    assert_eq!(Audience::Single("z".to_string()).into_vec(), vec!["z".to_string()]);
}

#[test]
fn missing_subject_is_empty() {
    let c = normalize_claims(raw(None, None, None));
    assert_eq!(c.sub, "");
    assert_eq!(c.iss.as_deref(), Some("https://auth"));
    assert_eq!(c.exp, Some(42));
    assert!(c.aud.is_none());
}

#[test]
fn key_is_selected_by_kid() {
    let set = key_set();
    let t = token(Some("k1"), b"secret", 4102444800);
    let jwk = select_key(&t, &set).unwrap();
    assert_eq!(jwk.common.key_id.as_deref(), Some("k1"));
    let key = DecodingKey::from_jwk(jwk).unwrap();
    let checked = classify_verification(jsonwebtoken::decode::<Value>(&t, &key, &Validation::new(Algorithm::HS256)));
    assert!(checked.is_ok());
}

#[test]
fn unknown_kid_is_key_not_found() {
    let set = key_set();
    let t = token(Some("k2"), b"secret", 4102444800);
    assert_eq!(select_key(&t, &set).unwrap_err(), AuthError::KeyNotFound("k2".to_string()));
}

#[test]
fn token_without_kid() {
    let set = key_set();
    let t = token(None, b"secret", 4102444800);
    assert_eq!(select_key(&t, &set).unwrap_err(), AuthError::MissingKeyId);
}

#[test]
fn undecodable_token_is_malformed() {
    let set = key_set();
    assert_eq!(select_key("not-a-token", &set).unwrap_err(), AuthError::MalformedCredential);
}

#[test]
fn wrong_signature_is_classified() {
    let t = token(Some("k1"), b"other", 4102444800);
    let key = DecodingKey::from_secret(b"secret");
    let r = classify_verification(jsonwebtoken::decode::<Value>(&t, &key, &Validation::new(Algorithm::HS256)));
    assert_eq!(r.unwrap_err(), JwtErrorKind::InvalidSignature);
}

#[test]
fn expired_token_is_classified() {
    let t = token(Some("k1"), b"secret", 1000);
    let key = DecodingKey::from_secret(b"secret");
    let r = classify_verification(jsonwebtoken::decode::<Value>(&t, &key, &Validation::new(Algorithm::HS256)));
    assert_eq!(r.unwrap_err(), JwtErrorKind::ExpiredSignature);
}

#[test]
fn garbage_token_is_classified() {
    let key = DecodingKey::from_secret(b"secret");
    let r = classify_verification(jsonwebtoken::decode::<Value>("abc", &key, &Validation::new(Algorithm::HS256)));
    assert_eq!(r.unwrap_err(), JwtErrorKind::InvalidToken);
}

#[test]
fn builder_sets_policy() {
    let b = JwtValidatorBuilder::from_jwks_url("https://auth/jwks.json");
    assert!(b.audience.is_none() && b.issuer.is_none());
    let b = b.audience("https://mcp").issuer("https://auth");
    assert_eq!(b.jwks_url, "https://auth/jwks.json");
    let p = b.policy();
    assert_eq!(p.audience.as_deref(), Some("https://mcp"));
    assert_eq!(p.issuer.as_deref(), Some("https://auth"));
}

#[test]
fn error_kinds_group_into_faults() {
    assert_eq!(fault_of_kind(&JwtErrorKind::InvalidSignature), TokenFault::Signature);
    assert_eq!(fault_of_kind(&JwtErrorKind::InvalidRsaKey("n".to_string())), TokenFault::Signature);
    assert_eq!(fault_of_kind(&JwtErrorKind::ExpiredSignature), TokenFault::Claims);
    assert_eq!(fault_of_kind(&JwtErrorKind::InvalidAudience), TokenFault::Claims);
    assert_eq!(fault_of_kind(&JwtErrorKind::InvalidIssuer), TokenFault::Claims);
    assert_eq!(fault_of_kind(&JwtErrorKind::InvalidToken), TokenFault::Malformed);
    assert_eq!(fault_of_kind(&JwtErrorKind::Json), TokenFault::Malformed);
}

#[test]
fn wrong_audience_and_issuer_are_classified() {
    let mut header = Header::new(Algorithm::HS256);
    header.kid = Some("k1".to_string());
    let mut claims = serde_json::Map::new();
    claims.insert("aud".to_string(), Value::String("other".to_string()));
    claims.insert("iss".to_string(), Value::String("https://evil".to_string()));
    claims.insert("exp".to_string(), Value::from(4102444800u64));
    let t = jsonwebtoken::encode(&header, &Value::Object(claims), &EncodingKey::from_secret(b"secret")).unwrap();
    let key = DecodingKey::from_secret(b"secret");
    let mut v = Validation::new(Algorithm::HS256);
    v.set_audience(&["https://mcp"]);
    let r = classify_verification(jsonwebtoken::decode::<Value>(&t, &key, &v));
    assert_eq!(r.unwrap_err(), JwtErrorKind::InvalidAudience);
    let mut v = Validation::new(Algorithm::HS256);
    v.validate_aud = false;
    v.set_issuer(&["https://auth"]);
    let r = classify_verification(jsonwebtoken::decode::<Value>(&t, &key, &v));
    assert_eq!(r.unwrap_err(), JwtErrorKind::InvalidIssuer);
}

#[test]
fn settings_follow_policy_and_key() {
    let p = JwtValidatorBuilder::from_jwks_url("u").audience("https://mcp").policy();
    let s = p.settings_for(Some("RS256".to_string()));
    assert_eq!(s.algorithm.as_deref(), Some("RS256"));
    assert!(s.validate_audience);
    assert_eq!(s.audience.as_deref(), Some("https://mcp"));
    assert!(s.issuer.is_none());
    let p = JwtValidatorBuilder::from_jwks_url("u").issuer("https://auth").policy();
    let s = p.settings_for(None);
    assert!(s.algorithm.is_none());
    assert!(!s.validate_audience);
    assert_eq!(s.issuer.as_deref(), Some("https://auth"));
}

#[test]
fn whitespace_follows_unicode() {
    assert!(rmcp_axum::claims::is_whitespace(' '));
    assert!(rmcp_axum::claims::is_whitespace('\u{85}'));
    assert!(rmcp_axum::claims::is_whitespace('\u{3000}'));
    assert!(!rmcp_axum::claims::is_whitespace('a'));
    assert!(!rmcp_axum::claims::is_whitespace('\u{200b}'));
    for c in ['\t', '\n', '\u{b}', '\u{c}', '\r', '\u{a0}', '\u{1680}', '\u{2000}', '\u{200a}', '\u{2028}', '\u{2029}', '\u{202f}', '\u{205f}', 'x', '\u{180e}'] {
        assert_eq!(rmcp_axum::claims::is_whitespace(c), c.is_whitespace());
    }
}
