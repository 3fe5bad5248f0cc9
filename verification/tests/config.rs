use std::time::Duration;
use vigia::config::{urlencoding_encode, Config};

fn config(passaporte_url: &str) -> Config {
    Config {
        addr: "0.0.0.0:9000".into(),
        passaporte_url: passaporte_url.into(),
        cracha_url: "http://cracha.quero.cloud:50051".into(),
        cluster: "rio".into(),
        location: "bristol".into(),
        decision_ttl_secs: 300,
        jwt_cache_size: 1024,
        stale_ok_secs: 0,
        audience: "saguao".into(),
    }
}

#[test]
fn jwks_url_derived() {
    let c = Config {
        addr: "0.0.0.0:9000".into(),
        passaporte_url: "https://auth.quero.cloud".into(),
        cracha_url: "http://cracha.quero.cloud:50051".into(),
        cluster: "rio".into(),
        location: "bristol".into(),
        decision_ttl_secs: 300,
        jwt_cache_size: 1024,
        stale_ok_secs: 0,
        audience: "saguao".into(),
    };
    assert_eq!(
        c.jwks_url(),
        "https://auth.quero.cloud/application/o/saguao/jwks/"
    );
}

#[test]
fn signin_url_encodes() {
    let c = Config {
        addr: "0.0.0.0:9000".into(),
        passaporte_url: "https://auth.quero.cloud/".into(), // trailing slash trimmed
        cracha_url: "http://cracha.quero.cloud:50051".into(),
        cluster: "rio".into(),
        location: "bristol".into(),
        decision_ttl_secs: 300,
        jwt_cache_size: 1024,
        stale_ok_secs: 0,
        audience: "saguao".into(),
    };
    let s = c.signin_url("https://vault.rio.bristol.quero.cloud/?x=1");
    assert!(s.starts_with("https://auth.quero.cloud/outpost.goauthentik.io/start?rd="));
    assert!(s.contains("https%3A%2F%2Fvault.rio.bristol.quero.cloud%2F%3Fx%3D1"));
}

#[test]
fn signin_url_exact() {
    let c = config("https://auth.quero.cloud");
    assert_eq!(
        c.signin_url("https://a.b/?q=1 2"),
        "https://auth.quero.cloud/outpost.goauthentik.io/start?rd=https%3A%2F%2Fa.b%2F%3Fq%3D1%202"
    );
}

#[test]
fn jwks_url_trims_every_trailing_slash() {
    let c = config("https://auth.quero.cloud///");
    assert_eq!(c.jwks_url(), "https://auth.quero.cloud/application/o/saguao/jwks/");
    let plain = config("https://auth.quero.cloud");
    assert_eq!(c.signin_url("x"), plain.signin_url("x"));
}

#[test]
fn jwks_url_of_empty_issuer() {
    let c = config("");
    assert_eq!(c.jwks_url(), "/application/o/saguao/jwks/");
}

#[test]
fn decision_ttl_is_configured_seconds() {
    let c = config("https://auth.quero.cloud");
    assert_eq!(c.decision_ttl(), Duration::from_secs(300));
}

#[test]
fn encodes_unreserved_as_is() {
    assert_eq!(urlencoding_encode("AZaz09-_.~"), "AZaz09-_.~");
}

#[test]
fn encodes_other_bytes_in_upper_hex() {
    assert_eq!(urlencoding_encode("a b/é%"), "a%20b%2F%C3%A9%25");
    assert_eq!(urlencoding_encode(""), "");
    assert_eq!(urlencoding_encode("\u{7f}\n"), "%7F%0A");
}

#[test]
fn encoding_of_joined_values_is_joined_encodings() {
    let a = "https://vault.rio.bristol.quero.cloud/?x=";
    let b = "1 ä&y=2";
    let joined = format!("{a}{b}");
    assert_eq!(urlencoding_encode(&joined), format!("{}{}", urlencoding_encode(a), urlencoding_encode(b)));
    assert_eq!(urlencoding_encode(b), "1%20%C3%A4%26y%3D2");
}
