use jsonwebtoken::{encode, Algorithm, EncodingKey, Header};
use vigia::config::Config;
use vigia::jwks::{jwks_from_response, FetchError, JwksCache, KeyError};
use vigia::jwks::status_message;
use vigia::token::{claim_field, claims_from_decoded, claims_from_fields, extract_jwt, verify_jwt, ClaimField, VerifyError};

const SECRET: &[u8] = b"abcdefghijklmnopqrstuvwxyz012345";
const JWKS: &str = r#"{"keys":[{"kty":"oct","kid":"k1","alg":"HS256","k":"YWJjZGVmZ2hpamtsbW5vcHFyc3R1dnd4eXowMTIzNDU"}]}"#;

fn config() -> Config {
    Config {
        addr: "0.0.0.0:9000".into(),
        passaporte_url: "https://auth.quero.cloud".into(),
        cracha_url: "http://cracha.quero.cloud:50051".into(),
        cluster: "rio".into(),
        location: "bristol".into(),
        decision_ttl_secs: 300,
        jwt_cache_size: 1024,
        stale_ok_secs: 0,
        audience: "saguao".into(),
    }
}

fn cache() -> JwksCache {
    let mut c = JwksCache::new();
    c.replace(jwks_from_response(200, JWKS.as_bytes()).unwrap());
    c
}

fn token(kid: Option<&str>, claims: &str) -> String {
    let mut header = Header::new(Algorithm::HS256);
    header.kid = kid.map(|k| k.to_string());
    let claims: serde_json::Value = serde_json::from_str(claims).unwrap();
    encode(&header, &claims, &EncodingKey::from_secret(SECRET)).unwrap()
}

#[test]
fn session_cookie_wins_over_bearer() {
    assert_eq!(extract_jwt(Some("Bearer abc"), Some("X-Saguao-Session=xyz")), Some("xyz".into()));
}

#[test]
fn bearer_is_the_fallback() {
    assert_eq!(extract_jwt(Some("Bearer abc"), None), Some("abc".into()));
    assert_eq!(extract_jwt(Some("Bearer abc"), Some("other=1; x-saguao-session=2")), Some("abc".into()));
}

#[test]
fn session_cookie_when_no_bearer() {
    assert_eq!(
        extract_jwt(Some("Basic xyz"), Some("a=1;  X-Saguao-Session=def ; X-Saguao-Session=ghi")),
        Some("def".into())
    );
    assert_eq!(extract_jwt(None, Some("X-Saguao-Session=")), Some("".into()));
}

#[test]
fn no_token_found() {
    assert_eq!(extract_jwt(None, None), None);
    assert_eq!(extract_jwt(Some("bearer abc"), Some("x-saguao-session=1; other=2")), None);
    assert_eq!(extract_jwt(Some("Bearer"), None), None);
}

#[test]
fn empty_bearer_token() {
    assert_eq!(extract_jwt(Some("Bearer "), None), Some("".into()));
}

#[test]
fn claims_shapes() {
    let c = claims_from_fields(ClaimField::Text("u".into()), ClaimField::Null, ClaimField::Integer(5)).unwrap();
    assert_eq!((c.sub.as_str(), c.email.clone(), c.exp), ("u", None, 5));
    let c = claims_from_fields(ClaimField::Text("u".into()), ClaimField::Text("e@x".into()), ClaimField::Integer(-1)).unwrap();
    assert_eq!(c.email, Some("e@x".into()));
    assert!(claims_from_fields(ClaimField::Absent, ClaimField::Absent, ClaimField::Integer(1)).is_none());
    assert!(claims_from_fields(ClaimField::Text("u".into()), ClaimField::Other, ClaimField::Integer(1)).is_none());
    assert!(claims_from_fields(ClaimField::Text("u".into()), ClaimField::Absent, ClaimField::Other).is_none());
}

#[test]
fn valid_token_verifies() {
    let t = token(Some("k1"), r#"{"sub":"alice","email":"a@q.cloud","exp":4102444800,"aud":"saguao"}"#);
    let c = verify_jwt(&cache(), &config(), &t).unwrap();
    assert_eq!(c.sub, "alice");
    assert_eq!(c.email, Some("a@q.cloud".into()));
    assert_eq!(c.exp, 4102444800);
}

#[test]
fn token_without_email_verifies() {
    let t = token(Some("k1"), r#"{"sub":"bob","exp":4102444800,"aud":"saguao"}"#);
    let c = verify_jwt(&cache(), &config(), &t).unwrap();
    assert_eq!(c.email, None);
}

#[test]
fn wrong_audience_is_rejected() {
    let t = token(Some("k1"), r#"{"sub":"alice","exp":4102444800,"aud":"other"}"#);
    assert_eq!(verify_jwt(&cache(), &config(), &t).unwrap_err(), VerifyError::Rejected("InvalidAudience".into()));
}

#[test]
fn expired_token_is_rejected() {
    let t = token(Some("k1"), r#"{"sub":"alice","exp":1000,"aud":"saguao"}"#);
    assert_eq!(verify_jwt(&cache(), &config(), &t).unwrap_err(), VerifyError::Rejected("ExpiredSignature".into()));
}

#[test]
fn numeric_subject_is_bad_claims() {
    let t = token(Some("k1"), r#"{"sub":7,"exp":4102444800,"aud":"saguao"}"#);
    assert_eq!(verify_jwt(&cache(), &config(), &t).unwrap_err(), VerifyError::BadClaims);
}

#[test]
fn header_failures() {
    assert_eq!(verify_jwt(&cache(), &config(), "garbage").unwrap_err(), VerifyError::Malformed("InvalidToken".into()));
    assert!(matches!(verify_jwt(&cache(), &config(), "a.b.c").unwrap_err(), VerifyError::Malformed(_)));
    let t = token(None, r#"{"sub":"alice","exp":4102444800,"aud":"saguao"}"#);
    assert_eq!(verify_jwt(&cache(), &config(), &t).unwrap_err(), VerifyError::MissingKid);
    let t = token(Some("k9"), r#"{"sub":"alice","exp":4102444800,"aud":"saguao"}"#);
    assert_eq!(
        verify_jwt(&cache(), &config(), &t).unwrap_err(),
        VerifyError::Key(KeyError::UnknownKid("k9".into()))
    );
    let t = token(Some("k1"), r#"{"sub":"alice","exp":4102444800,"aud":"saguao"}"#);
    assert_eq!(
        verify_jwt(&JwksCache::new(), &config(), &t).unwrap_err(),
        VerifyError::Key(KeyError::NotFetched)
    );
}

#[test]
fn fetch_outcomes() {
    assert_eq!(jwks_from_response(503, JWKS.as_bytes()).unwrap_err(), FetchError::Status(503));
    assert_eq!(jwks_from_response(199, JWKS.as_bytes()).unwrap_err(), FetchError::Status(199));
    assert_eq!(jwks_from_response(300, JWKS.as_bytes()).unwrap_err(), FetchError::Status(300));
    assert_eq!(jwks_from_response(200, b"not json").unwrap_err(), FetchError::Body);
    assert_eq!(jwks_from_response(200, br#"{"other":[]}"#).unwrap_err(), FetchError::Body);
    assert_eq!(jwks_from_response(200, br#"[1]"#).unwrap_err(), FetchError::Body);
    assert_eq!(jwks_from_response(200, br#"{"keys":5}"#).unwrap_err(), FetchError::Decode);
    assert_eq!(jwks_from_response(200, br#"{"keys":[{"kid":"k1"}]}"#).unwrap_err(), FetchError::Decode);
    assert_eq!(jwks_from_response(204, br#"{"keys":[]}"#).unwrap().keys.len(), 0);
    assert_eq!(jwks_from_response(299, br#"{"keys":[],"extra":1}"#).unwrap().keys.len(), 0);
    assert_eq!(jwks_from_response(200, JWKS.as_bytes()).unwrap().keys.len(), 1);
}

#[test]
fn lookup_after_replace() {
    let c = JwksCache::new();
    assert!(!c.is_fetched());
    assert_eq!(c.key_for("k1").err(), Some(KeyError::NotFetched));
    assert!(cache().is_fetched());
    let c = cache();
    assert!(c.key_for("k1").is_ok());
    assert_eq!(c.key_for("k2").err(), Some(KeyError::UnknownKid("k2".into())));
}

#[test]
fn unusable_key() {
    let mut c = JwksCache::new();
    let body = r#"{"keys":[{"kty":"oct","kid":"bad","k":"!!!"}]}"#;
    c.replace(jwks_from_response(200, body.as_bytes()).unwrap());
    assert_eq!(c.key_for("bad").err(), Some(KeyError::Unusable("bad".into())));
}

#[test]
fn failed_refresh_keeps_keys() {
    let mut c = cache();
    assert_eq!(c.refresh_with(None), None);
    assert!(c.key_for("k1").is_ok());
    assert_eq!(c.refresh_with(jwks_from_response(200, br#"{"keys":[]}"#).ok()), Some(0));
    assert_eq!(c.key_for("k1").err(), Some(KeyError::UnknownKid("k1".into())));
}

#[test]
fn default_cache_is_empty_and_refresh_counts_keys() {
    let mut c = JwksCache::default();
    assert_eq!(c.key_for("k1").err(), Some(KeyError::NotFetched));
    assert_eq!(c.refresh_with(jwks_from_response(200, JWKS.as_bytes()).ok()), Some(1));
    assert!(c.key_for("k1").is_ok());
}

const TWO_KEYS: &str = r#"{"keys":[{"kty":"oct","kid":"k1","alg":"HS256","k":"YWJjZGVmZ2hpamtsbW5vcHFyc3R1dnd4eXowMTIzNDU"},{"kty":"oct","kid":"k2","alg":"HS256","k":"WllYV1ZVVFNSUVBPTk1MS0pJSEdGRURDQkE5ODc2NTQ"}]}"#;

fn signed(kid: &str, secret: &[u8]) -> String {
    let mut header = Header::new(Algorithm::HS256);
    header.kid = Some(kid.to_string());
    let claims: serde_json::Value =
        serde_json::from_str(r#"{"sub":"carol","exp":4102444800,"aud":"saguao"}"#).unwrap();
    encode(&header, &claims, &EncodingKey::from_secret(secret)).unwrap()
}

#[test]
fn key_for_returns_the_key_of_the_named_kid() {
    let mut c = JwksCache::new();
    c.replace(jwks_from_response(200, TWO_KEYS.as_bytes()).unwrap());
    let second = b"ZYXWVUTSRQPONMLKJIHGFEDCBA987654";
    assert_eq!(verify_jwt(&c, &config(), &signed("k2", second)).unwrap().sub, "carol");
    assert_eq!(verify_jwt(&c, &config(), &signed("k1", second)).unwrap_err(), VerifyError::Rejected("InvalidSignature".into()));
    assert_eq!(verify_jwt(&c, &config(), &signed("k2", SECRET)).unwrap_err(), VerifyError::Rejected("InvalidSignature".into()));
    assert_eq!(verify_jwt(&c, &config(), &signed("k1", SECRET)).unwrap().sub, "carol");
}

#[test]
fn token_without_audience_claim_is_accepted() {
    let t = token(Some("k1"), r#"{"sub":"dave","exp":4102444800}"#);
    assert_eq!(verify_jwt(&cache(), &config(), &t).unwrap().sub, "dave");
}

#[test]
fn error_messages() {
    assert_eq!(VerifyError::MissingKid.message(), "JWT has no kid");
    assert_eq!(VerifyError::Key(KeyError::NotFetched).message(), "JWKS not yet fetched");
    assert_eq!(KeyError::UnknownKid("k9".into()).message(), "kid k9 not in JWKS");
    assert_eq!(KeyError::Unusable("k".into()).message(), "decoding key from JWK");
    assert_eq!(FetchError::Status(503).message(), "JWKS fetch returned 503 Service Unavailable");
    assert_eq!(FetchError::Status(404).message(), "JWKS fetch returned 404 Not Found");
    assert_eq!(FetchError::Status(599).message(), "JWKS fetch returned 599 <unknown status code>");
    assert_eq!(FetchError::Body.message(), "parsing JWKS body");
    assert_eq!(FetchError::Decode.message(), "decoding JWKS");
    assert_eq!(VerifyError::Malformed("InvalidToken".into()).message(), "InvalidToken");
    assert_eq!(VerifyError::Rejected("ExpiredSignature".into()).message(), "ExpiredSignature");
    assert_eq!(VerifyError::BadClaims.message(), "JWT claims lack sub or exp, or have the wrong shape");
}

#[test]
fn status_message_formats_code_and_reason() {
    assert_eq!(status_message(500, Some("Internal Server Error")), "JWKS fetch returned 500 Internal Server Error");
    assert_eq!(status_message(7, None), "JWKS fetch returned 7 <unknown status code>");
}

fn json(text: &str) -> serde_json::Value {
    serde_json::from_str(text).unwrap()
}

#[test]
fn claim_fields_by_shape() {
    let v = json(r#"{"sub":"u","email":null,"exp":12,"big":18446744073709551615,"list":[1]}"#);
    assert!(matches!(claim_field(&v, "sub"), ClaimField::Text(s) if s == "u"));
    assert!(matches!(claim_field(&v, "email"), ClaimField::Null));
    assert!(matches!(claim_field(&v, "exp"), ClaimField::Integer(12)));
    assert!(matches!(claim_field(&v, "big"), ClaimField::Other));
    assert!(matches!(claim_field(&v, "list"), ClaimField::Other));
    assert!(matches!(claim_field(&v, "missing"), ClaimField::Absent));
    assert!(matches!(claim_field(&json("[1]"), "sub"), ClaimField::Absent));
}

#[test]
fn decoded_claims() {
    let c = claims_from_decoded(Ok(json(r#"{"sub":"erin","email":"e@q.cloud","exp":99}"#))).unwrap();
    assert_eq!((c.sub.as_str(), c.email.as_deref(), c.exp), ("erin", Some("e@q.cloud"), 99));
    assert_eq!(
        claims_from_decoded(Ok(json(r#"{"email":"e@q.cloud","exp":99}"#))).unwrap_err(),
        VerifyError::BadClaims
    );
    assert_eq!(claims_from_decoded(Ok(json(r#"{"sub":"erin","exp":"99"}"#))).unwrap_err(), VerifyError::BadClaims);
    let failed: jsonwebtoken::errors::Error = jsonwebtoken::errors::ErrorKind::ExpiredSignature.into();
    assert_eq!(claims_from_decoded(Err(failed)).unwrap_err(), VerifyError::Rejected("ExpiredSignature".into()));
    let failed: jsonwebtoken::errors::Error = jsonwebtoken::errors::ErrorKind::MissingRequiredClaim("exp".into()).into();
    assert_eq!(
        claims_from_decoded(Err(failed)).unwrap_err().message(),
        "Missing required claim: exp"
    );
}
