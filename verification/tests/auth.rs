use vigia::auth::{
    call_cracha, decision_from_authorize, final_response, is_header_value, original_method,
    redirect_to_signin, step, verb_str, Action, AuthResponse, AuthorizeOutcome, Event,
    ForwardedRequest, Stage, Verb,
};
use vigia::cache::{CachedDecision, VerifiedClaims};
use vigia::config::Config;
use vigia::hostname::ServiceTarget;
use vigia::token::VerifyError;

fn config() -> Config {
    Config {
        addr: "0.0.0.0:9000".into(),
        passaporte_url: "https://auth.quero.cloud/".into(),
        cracha_url: "http://cracha.quero.cloud:50051".into(),
        cluster: "rio".into(),
        location: "bristol".into(),
        decision_ttl_secs: 300,
        jwt_cache_size: 1024,
        stale_ok_secs: 0,
        audience: "saguao".into(),
    }
}

fn request(url: Option<&str>, auth: Option<&str>, cookie: Option<&str>) -> ForwardedRequest {
    ForwardedRequest {
        original_url: url.map(String::from),
        method: None,
        authorization: auth.map(String::from),
        cookie: cookie.map(String::from),
    }
}

fn claims() -> VerifiedClaims {
    VerifiedClaims { sub: "alice".into(), email: Some("a@q.cloud".into()), exp: 10 }
}

fn respond(action: Action) -> AuthResponse {
    match action {
        Action::Respond(r) => r,
        other => panic!("expected a response, got {other:?}"),
    }
}

const URL: &str = "https://vault.rio.bristol.quero.cloud/x";

#[test]
fn missing_url_is_bad_request() {
    let (stage, action) = step(&config(), Stage::Start, Event::Request { request: request(None, None, None), verb: Verb::Read });
    assert!(matches!(stage, Stage::Done));
    let r = respond(action);
    assert_eq!((r.status, r.body.as_str()), (400, "missing X-Original-URL"));
}

#[test]
fn bad_hostname_is_bad_request() {
    let (_, action) = step(
        &config(),
        Stage::Start,
        Event::Request { request: request(Some("https://quero.cloud/"), Some("Bearer t"), None), verb: Verb::Read },
    );
    let r = respond(action);
    assert_eq!(r.status, 400);
    assert_eq!(r.body, "hostname: not a 4-part saguão hostname: quero.cloud");
}

#[test]
fn missing_token_redirects() {
    let (stage, action) = step(&config(), Stage::Start, Event::Request { request: request(Some(URL), None, None), verb: Verb::Read });
    assert!(matches!(stage, Stage::Done));
    let r = respond(action);
    assert_eq!(r.status, 401);
    assert_eq!(r.body, "sign in required");
    assert_eq!(
        r.location.as_deref(),
        Some("https://auth.quero.cloud/outpost.goauthentik.io/start?rd=https%3A%2F%2Fvault.rio.bristol.quero.cloud%2Fx")
    );
}

#[test]
fn cached_claims_and_allow_answers_ok() {
    let c = config();
    let (stage, action) = step(&c, Stage::Start, Event::Request { request: request(Some(URL), Some("Bearer tok"), None), verb: Verb::Write });
    assert!(matches!(&action, Action::LookupClaims(t) if t == "tok"));
    let (stage, action) = step(&c, stage, Event::ClaimsCached { cached: Some(claims()), now: 5 });
    let key = match action {
        Action::LookupDecision(k) => k,
        other => panic!("{other:?}"),
    };
    assert_eq!((key.user.as_str(), key.cluster.as_str(), key.service.as_str(), key.verb.as_str()), ("alice", "rio", "vault", "write"));
    let (stage, action) = step(&c, stage, Event::DecisionCached(Some(CachedDecision { allow: true, reason: "ok".into() })));
    assert!(matches!(stage, Stage::Done));
    let r = respond(action);
    assert_eq!(r.status, 200);
    assert_eq!(r.user.as_deref(), Some("alice"));
    assert_eq!(r.email.as_deref(), Some("a@q.cloud"));
    assert_eq!(r.body, "ok");
}

#[test]
fn full_path_with_verification_and_denial() {
    let c = config();
    let (stage, _) = step(&c, Stage::Start, Event::Request { request: request(Some(URL), None, Some("X-Saguao-Session=tok")), verb: Verb::Delete });
    let (stage, action) = step(&c, stage, Event::ClaimsCached { cached: None, now: 5 });
    assert!(matches!(&action, Action::VerifyToken(t) if t == "tok"));
    let (stage, action) = step(&c, stage, Event::Verified(Ok(claims())));
    assert!(matches!(&action, Action::StoreClaims { token, claims } if token == "tok" && claims.sub == "alice"));
    let (stage, action) = step(&c, stage, Event::Stored);
    assert!(matches!(&action, Action::LookupDecision(k) if k.verb == "delete"));
    let (stage, action) = step(&c, stage, Event::DecisionCached(None));
    let (user, target, verb) = match action {
        Action::AskCracha { user, target, verb } => (user, target, verb),
        other => panic!("{other:?}"),
    };
    assert_eq!(user, "alice");
    let decision = call_cracha(&user, &target, verb);
    let (stage, action) = step(&c, stage, Event::Answered(decision));
    assert!(matches!(&action, Action::StoreDecision { key, decision } if key.user == "alice" && !decision.allow));
    let (stage, action) = step(&c, stage, Event::Stored);
    assert!(matches!(stage, Stage::Done));
    let r = respond(action);
    assert_eq!(r.status, 403);
    assert_eq!(r.body, "vigia built without cracha-grpc feature");
    assert_eq!(r.user, None);
}

#[test]
fn failed_verification_redirects() {
    let c = config();
    let (stage, _) = step(&c, Stage::Start, Event::Request { request: request(Some(URL), Some("Bearer t"), None), verb: Verb::Read });
    let (stage, _) = step(&c, stage, Event::ClaimsCached { cached: None, now: 5 });
    let (stage, action) = step(&c, stage, Event::Verified(Err(VerifyError::Rejected("InvalidSignature".into()))));
    assert!(matches!(stage, Stage::Done));
    assert_eq!(respond(action).status, 401);
}

#[test]
fn identity_headers_fall_back() {
    let odd = VerifiedClaims { sub: "a\nb".into(), email: Some("bad\u{7f}".into()), exp: 0 };
    let r = final_response(&odd, &CachedDecision { allow: true, reason: String::new() });
    assert_eq!(r.user.as_deref(), Some("?"));
    assert_eq!(r.email, None);
    let r = final_response(&claims(), &CachedDecision { allow: false, reason: "no grant".into() });
    assert_eq!((r.status, r.body.as_str()), (403, "no grant"));
}

#[test]
fn redirect_location_falls_back() {
    let r = redirect_to_signin(&Config { passaporte_url: "https://a\nb".into(), ..config() }, "x");
    assert_eq!(r.location.as_deref(), Some("/"));
}

#[test]
fn header_value_rule() {
    assert!(is_header_value("abc\tdé"));
    assert!(!is_header_value("a\rb"));
    assert!(!is_header_value("\u{7f}"));
}

#[test]
fn verb_names() {
    assert_eq!(
        [verb_str(Verb::Read), verb_str(Verb::Write), verb_str(Verb::Delete), verb_str(Verb::Admin), verb_str(Verb::All)],
        ["read", "write", "delete", "admin", "*"]
    );
    assert_eq!(original_method(None), "GET");
    assert_eq!(original_method(Some("POST")), "POST");
}

#[test]
fn authorize_outcomes() {
    let d = decision_from_authorize(AuthorizeOutcome::Unreachable);
    assert_eq!((d.allow, d.reason.as_str()), (false, "crachá unreachable"));
    let d = decision_from_authorize(AuthorizeOutcome::Failed("timeout".into()));
    assert_eq!((d.allow, d.reason.as_str()), (false, "cracha error: timeout"));
    let d = decision_from_authorize(AuthorizeOutcome::Answered { allow: true, reason: "grant".into() });
    assert_eq!((d.allow, d.reason.as_str()), (true, "grant"));
    let t = ServiceTarget { app: "a".into(), cluster: "b".into(), location: "c".into() };
    assert!(!call_cracha("u", &t, Verb::All).allow);
}

#[test]
fn expired_cached_claims_are_verified_again() {
    let c = config();
    let (stage, _) = step(&c, Stage::Start, Event::Request { request: request(Some(URL), Some("Bearer tok"), None), verb: Verb::Read });
    let (stage, action) = step(&c, stage, Event::ClaimsCached { cached: Some(claims()), now: 10 });
    assert!(matches!(&action, Action::VerifyToken(t) if t == "tok"));
    assert!(matches!(stage, Stage::Verifying { .. }));
    let (stage, _) = step(&c, Stage::Start, Event::Request { request: request(Some(URL), Some("Bearer tok"), None), verb: Verb::Read });
    let (_, action) = step(&c, stage, Event::ClaimsCached { cached: Some(claims()), now: 9 });
    assert!(matches!(&action, Action::LookupDecision(k) if k.user == "alice"));
}

#[test]
fn session_cookie_is_the_token_looked_up() {
    let c = config();
    let (_, action) = step(
        &c,
        Stage::Start,
        Event::Request { request: request(Some(URL), Some("Bearer abc"), Some("X-Saguao-Session=xyz")), verb: Verb::Read },
    );
    assert!(matches!(&action, Action::LookupClaims(t) if t == "xyz"));
}
