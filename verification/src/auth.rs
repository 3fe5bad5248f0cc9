//! The forward-auth decision for one subrequest: from the forwarded headers
//! to 200 (allow), 400 (unusable request), 401 (sign in) or 403 (denied).
//!
//! The decision is a state machine: `step` takes the current `Stage` and an
//! `Event` (what the caller learned by doing the last `Action`) and gives the
//! next stage and action. The caller does the cache lookups, the token
//! verification against the current key set and the authorization call.

use vstd::prelude::*;
use vstd::utf8::encode_utf8;
use crate::cache::{CachedDecision, ClaimsView, DecisionKey, DecisionKeyView, DecisionView, VerifiedClaims};
use crate::config::{spec_signin_url, Config};
use crate::hostname::{error_text, parse_url, spec_target_from_outcome, url_host_outcome, HostnameErrorView, ServiceTarget, TargetView};
use crate::token::{extract_jwt, spec_extract_jwt, VerifyError};

verus! {

/// What a request asks to do, as the authorization service sees it.
#[derive(Debug, Clone, Copy, PartialEq, Eq, Structural)]
pub enum Verb {
    Read,
    Write,
    Delete,
    Admin,
    All,
}

/// The wire name of a verb.
pub open spec fn spec_verb_str(v: Verb) -> Seq<char> {
    match v {
        Verb::Read => "read"@,
        Verb::Write => "write"@,
        Verb::Delete => "delete"@,
        Verb::Admin => "admin"@,
        Verb::All => "*"@,
    }
}

/// The wire name of a verb.
pub fn verb_str(v: Verb) -> (s: &'static str)
    ensures
        s@ == spec_verb_str(v),
{
    match v {
        Verb::Read => "read",
        Verb::Write => "write",
        Verb::Delete => "delete",
        Verb::Admin => "admin",
        Verb::All => "*",
    }
}

/// The method of the original request, `GET` when it was not forwarded.
pub fn original_method<'a>(method: Option<&'a str>) -> (m: &'a str)
    ensures
        m@ == match method {
            Some(x) => x@,
            None => "GET"@,
        },
{
    match method {
        Some(m) => m,
        None => "GET",
    }
}

/// Whether a string may stand as an HTTP header value: every byte of its
/// UTF-8 encoding is a tab, or at least 32 and not 127 (the rule of
/// `http::HeaderValue::from_str`).
pub open spec fn header_value_ok(s: Seq<char>) -> bool {
    let b = encode_utf8(s);
    forall|i: int| 0 <= i < b.len() ==> (b[i] >= 32 && b[i] != 127) || b[i] == 9
}

/// Decide `header_value_ok`.
pub fn is_header_value(s: &str) -> (ok: bool)
    ensures
        ok == header_value_ok(s@),
{
    let b = s.as_bytes();
    let mut i: usize = 0;
    while i < b.len()
        invariant
            i <= b@.len(),
            b@ == encode_utf8(s@),
            forall|j: int| 0 <= j < i ==> (b@[j] >= 32 && b@[j] != 127) || b@[j] == 9,
        decreases b.len() - i,
    {
        if !((b[i] >= 32 && b[i] != 127) || b[i] == 9) {
            return false;
        }
        i = i + 1;
    }
    true
}

/// The answer to the ingress: a status, the headers it carries and a body.
#[derive(Debug, Clone)]
pub struct AuthResponse {
    pub status: u16,
    /// `Location`, on a sign-in redirect.
    pub location: Option<String>,
    /// `X-Saguao-User`, on an allow.
    pub user: Option<String>,
    /// `X-Saguao-Email`, on an allow.
    pub email: Option<String>,
    pub body: String,
}

pub struct ResponseView {
    pub status: u16,
    pub location: Option<Seq<char>>,
    pub user: Option<Seq<char>>,
    pub email: Option<Seq<char>>,
    pub body: Seq<char>,
}

impl View for AuthResponse {
    type V = ResponseView;

    open spec fn view(&self) -> ResponseView {
        ResponseView {
            status: self.status,
            location: self.location.deep_view(),
            user: self.user.deep_view(),
            email: self.email.deep_view(),
            body: self.body@,
        }
    }
}

/// A 400 answer with `body`.
pub open spec fn bad_request(body: Seq<char>) -> ResponseView {
    ResponseView { status: 400, location: None, user: None, email: None, body }
}

/// The 401 answer that sends the user to sign in and back to `original`;
/// `/` stands in for a sign-in URL that cannot be a header value.
pub open spec fn spec_redirect(passaporte: Seq<char>, original: Seq<char>) -> ResponseView {
    let url = spec_signin_url(passaporte, original);
    ResponseView {
        status: 401,
        location: Some(if header_value_ok(url) { url } else { "/"@ }),
        user: None,
        email: None,
        body: "sign in required"@,
    }
}

/// The answer once a decision is known: 200 with the identity headers
/// (`?` for a user that cannot be a header value; no email header for an
/// email that cannot be one), or 403 with the decision's reason.
pub open spec fn spec_final(claims: ClaimsView, decision: DecisionView) -> ResponseView {
    if decision.allow {
        ResponseView {
            status: 200,
            location: None,
            user: Some(if header_value_ok(claims.sub) { claims.sub } else { "?"@ }),
            email: match claims.email {
                Some(e) => if header_value_ok(e) { Some(e) } else { None },
                None => None,
            },
            body: "ok"@,
        }
    } else {
        ResponseView { status: 403, location: None, user: None, email: None, body: decision.reason }
    }
}

fn bad_request_response(body: String) -> (r: AuthResponse)
    ensures
        r@ == bad_request(body@),
{
    AuthResponse { status: 400, location: None, user: None, email: None, body }
}

/// The sign-in redirect for a request to `original_url`.
pub fn redirect_to_signin(config: &Config, original_url: &str) -> (r: AuthResponse)
    ensures
        r@ == spec_redirect(config.passaporte_url@, original_url@),
{
    let url = config.signin_url(original_url);
    let location = if is_header_value(url.as_str()) {
        url
    } else {
        String::from_str("/")
    };
    AuthResponse {
        status: 401,
        location: Some(location),
        user: None,
        email: None,
        body: String::from_str("sign in required"),
    }
}

/// The answer for verified claims and a decision.
pub fn final_response(claims: &VerifiedClaims, decision: &CachedDecision) -> (r: AuthResponse)
    ensures
        r@ == spec_final(claims@, decision@),
{
    if decision.allow {
        let user = if is_header_value(claims.sub.as_str()) {
            claims.sub.clone()
        } else {
            String::from_str("?")
        };
        let email = match &claims.email {
            Some(e) => if is_header_value(e.as_str()) {
                Some(e.clone())
            } else {
                None
            },
            None => None,
        };
        AuthResponse { status: 200, location: None, user: Some(user), email, body: String::from_str("ok") }
    } else {
        AuthResponse { status: 403, location: None, user: None, email: None, body: decision.reason.clone() }
    }
}

/// The decision when no authorization service is built in: deny, saying so.
pub fn call_cracha(user: &str, target: &ServiceTarget, verb: Verb) -> (d: CachedDecision)
    ensures
        d@ == (DecisionView { allow: false, reason: "vigia built without cracha-grpc feature"@ }),
{
    CachedDecision { allow: false, reason: String::from_str("vigia built without cracha-grpc feature") }
}

/// How a call to the authorization service went.
#[derive(Debug, Clone)]
pub enum AuthorizeOutcome {
    /// No connection could be made.
    Unreachable,
    /// The service answered.
    Answered { allow: bool, reason: String },
    /// The call failed; the error's text.
    Failed(String),
}

/// The decision an authorization call gives: the service's answer, or a
/// denial (fail closed) when it could not be asked.
pub open spec fn spec_decision_from(outcome: AuthorizeOutcome) -> DecisionView {
    match outcome {
        AuthorizeOutcome::Unreachable => DecisionView { allow: false, reason: "crachá unreachable"@ },
        AuthorizeOutcome::Answered { allow, reason } => DecisionView { allow, reason: reason@ },
        AuthorizeOutcome::Failed(e) => DecisionView { allow: false, reason: "cracha error: "@ + e@ },
    }
}

/// Turn the outcome of an authorization call into a decision.
pub fn decision_from_authorize(outcome: AuthorizeOutcome) -> (d: CachedDecision)
    ensures
        d@ == spec_decision_from(outcome),
{
    match outcome {
        AuthorizeOutcome::Unreachable => CachedDecision { allow: false, reason: String::from_str("crachá unreachable") },
        AuthorizeOutcome::Answered { allow, reason } => CachedDecision { allow, reason },
        AuthorizeOutcome::Failed(e) => {
            let mut reason = String::from_str("cracha error: ");
            reason.append(e.as_str());
            CachedDecision { allow: false, reason }
        },
    }
}

/// The decision-cache key for a user, a service and a verb.
pub open spec fn spec_key(claims: ClaimsView, target: TargetView, verb: Verb) -> DecisionKeyView {
    DecisionKeyView { user: claims.sub, cluster: target.cluster, service: target.app, verb: spec_verb_str(verb) }
}

/// Build the decision-cache key.
pub fn decision_key(claims: &VerifiedClaims, target: &ServiceTarget, verb: Verb) -> (k: DecisionKey)
    ensures
        k@ == spec_key(claims@, target@, verb),
{
    DecisionKey {
        user: claims.sub.clone(),
        cluster: target.cluster.clone(),
        service: target.app.clone(),
        verb: String::from_str(verb_str(verb)),
    }
}

/// The header values the ingress forwards with a subrequest, each present
/// only when it was sent and is visible ASCII.
#[derive(Debug, Clone)]
pub struct ForwardedRequest {
    /// `X-Original-URL`.
    pub original_url: Option<String>,
    /// `X-Original-Method`.
    pub method: Option<String>,
    /// `Authorization`.
    pub authorization: Option<String>,
    /// `Cookie`.
    pub cookie: Option<String>,
}

pub struct RequestView {
    pub original_url: Option<Seq<char>>,
    pub method: Option<Seq<char>>,
    pub authorization: Option<Seq<char>>,
    pub cookie: Option<Seq<char>>,
}

impl View for ForwardedRequest {
    type V = RequestView;

    open spec fn view(&self) -> RequestView {
        RequestView {
            original_url: self.original_url.deep_view(),
            method: self.method.deep_view(),
            authorization: self.authorization.deep_view(),
            cookie: self.cookie.deep_view(),
        }
    }
}

/// Where the handling of one request stands.
#[derive(Debug, Clone)]
pub enum Stage {
    /// Nothing received yet.
    Start,
    /// A token was found; waiting for the token cache.
    CheckingToken { original_url: String, target: ServiceTarget, verb: Verb, token: String },
    /// Not cached; waiting for the verification of the token.
    Verifying { original_url: String, target: ServiceTarget, verb: Verb, token: String },
    /// Verified; waiting for the claims to be cached.
    StoringClaims { claims: VerifiedClaims, key: DecisionKey, target: ServiceTarget, verb: Verb },
    /// Waiting for the decision cache.
    Deciding { claims: VerifiedClaims, key: DecisionKey, target: ServiceTarget, verb: Verb },
    /// Not cached; waiting for the authorization service.
    Asking { claims: VerifiedClaims, key: DecisionKey },
    /// Decided; waiting for the decision to be cached.
    StoringDecision { claims: VerifiedClaims, decision: CachedDecision },
    /// Answered.
    Done,
}

/// What the caller learned by doing the last action.
#[derive(Debug)]
pub enum Event {
    /// The forwarded request, with the verb its method maps to.
    Request { request: ForwardedRequest, verb: Verb },
    /// The token cache's entry for the token, and the current time (seconds
    /// since the Unix epoch).
    ClaimsCached { cached: Option<VerifiedClaims>, now: i64 },
    /// The outcome of verifying the token.
    Verified(Result<VerifiedClaims, VerifyError>),
    /// The requested cache insert was made.
    Stored,
    /// The decision cache's entry for the key.
    DecisionCached(Option<CachedDecision>),
    /// The authorization service's decision.
    Answered(CachedDecision),
}

/// What the caller is to do next.
#[derive(Debug, Clone)]
pub enum Action {
    /// Answer the ingress; the handling is over.
    Respond(AuthResponse),
    /// Look the token up in the token cache.
    LookupClaims(String),
    /// Verify the token against the current key set.
    VerifyToken(String),
    /// Cache the claims of the token.
    StoreClaims { token: String, claims: VerifiedClaims },
    /// Look the key up in the decision cache.
    LookupDecision(DecisionKey),
    /// Ask the authorization service.
    AskCracha { user: String, target: ServiceTarget, verb: Verb },
    /// Cache the decision.
    StoreDecision { key: DecisionKey, decision: CachedDecision },
}

pub enum StageView {
    Start,
    CheckingToken { original_url: Seq<char>, target: TargetView, verb: Verb, token: Seq<char> },
    Verifying { original_url: Seq<char>, target: TargetView, verb: Verb, token: Seq<char> },
    StoringClaims { claims: ClaimsView, key: DecisionKeyView, target: TargetView, verb: Verb },
    Deciding { claims: ClaimsView, key: DecisionKeyView, target: TargetView, verb: Verb },
    Asking { claims: ClaimsView, key: DecisionKeyView },
    StoringDecision { claims: ClaimsView, decision: DecisionView },
    Done,
}

pub enum EventView {
    Request { request: RequestView, verb: Verb },
    ClaimsCached { cached: Option<ClaimsView>, now: i64 },
    Verified(Option<ClaimsView>),
    Stored,
    DecisionCached(Option<DecisionView>),
    Answered(DecisionView),
}

pub enum ActionView {
    Respond(ResponseView),
    LookupClaims(Seq<char>),
    VerifyToken(Seq<char>),
    StoreClaims { token: Seq<char>, claims: ClaimsView },
    LookupDecision(DecisionKeyView),
    AskCracha { user: Seq<char>, target: TargetView, verb: Verb },
    StoreDecision { key: DecisionKeyView, decision: DecisionView },
}

impl View for Stage {
    type V = StageView;

    open spec fn view(&self) -> StageView {
        match self {
            Stage::Start => StageView::Start,
            Stage::CheckingToken { original_url, target, verb, token } => StageView::CheckingToken {
                original_url: original_url@,
                target: target@,
                verb: *verb,
                token: token@,
            },
            Stage::Verifying { original_url, target, verb, token } => StageView::Verifying {
                original_url: original_url@,
                target: target@,
                verb: *verb,
                token: token@,
            },
            Stage::StoringClaims { claims, key, target, verb } => StageView::StoringClaims {
                claims: claims@,
                key: key@,
                target: target@,
                verb: *verb,
            },
            Stage::Deciding { claims, key, target, verb } => StageView::Deciding {
                claims: claims@,
                key: key@,
                target: target@,
                verb: *verb,
            },
            Stage::Asking { claims, key } => StageView::Asking { claims: claims@, key: key@ },
            Stage::StoringDecision { claims, decision } => StageView::StoringDecision {
                claims: claims@,
                decision: decision@,
            },
            Stage::Done => StageView::Done,
        }
    }
}

impl View for Event {
    type V = EventView;

    open spec fn view(&self) -> EventView {
        match self {
            Event::Request { request, verb } => EventView::Request { request: request@, verb: *verb },
            Event::ClaimsCached { cached, now } => EventView::ClaimsCached {
                cached: match cached {
                    Some(c) => Some(c@),
                    None => None,
                },
                now: *now,
            },
            Event::Verified(r) => EventView::Verified(match r {
                Ok(c) => Some(c@),
                Err(_) => None,
            }),
            Event::Stored => EventView::Stored,
            Event::DecisionCached(d) => EventView::DecisionCached(match d {
                Some(d) => Some(d@),
                None => None,
            }),
            Event::Answered(d) => EventView::Answered(d@),
        }
    }
}

impl View for Action {
    type V = ActionView;

    open spec fn view(&self) -> ActionView {
        match self {
            Action::Respond(r) => ActionView::Respond(r@),
            Action::LookupClaims(t) => ActionView::LookupClaims(t@),
            Action::VerifyToken(t) => ActionView::VerifyToken(t@),
            Action::StoreClaims { token, claims } => ActionView::StoreClaims { token: token@, claims: claims@ },
            Action::LookupDecision(k) => ActionView::LookupDecision(k@),
            Action::AskCracha { user, target, verb } => ActionView::AskCracha {
                user: user@,
                target: target@,
                verb: *verb,
            },
            Action::StoreDecision { key, decision } => ActionView::StoreDecision { key: key@, decision: decision@ },
        }
    }
}

/// Whether `event` is one that `stage` waits for.
pub open spec fn accepts(stage: StageView, event: EventView) -> bool {
    match (stage, event) {
        (StageView::Start, EventView::Request { .. }) => true,
        (StageView::CheckingToken { .. }, EventView::ClaimsCached { .. }) => true,
        (StageView::Verifying { .. }, EventView::Verified(_)) => true,
        (StageView::StoringClaims { .. }, EventView::Stored) => true,
        (StageView::Deciding { .. }, EventView::DecisionCached(_)) => true,
        (StageView::Asking { .. }, EventView::Answered(_)) => true,
        (StageView::StoringDecision { .. }, EventView::Stored) => true,
        _ => false,
    }
}

/// Decide `accepts` for an exec stage and event.
pub fn accepts_event(stage: &Stage, event: &Event) -> (b: bool)
    ensures
        b == accepts(stage@, event@),
{
    match (stage, event) {
        (Stage::Start, Event::Request { .. }) => true,
        (Stage::CheckingToken { .. }, Event::ClaimsCached { .. }) => true,
        (Stage::Verifying { .. }, Event::Verified(_)) => true,
        (Stage::StoringClaims { .. }, Event::Stored) => true,
        (Stage::Deciding { .. }, Event::DecisionCached(_)) => true,
        (Stage::Asking { .. }, Event::Answered(_)) => true,
        (Stage::StoringDecision { .. }, Event::Stored) => true,
        _ => false,
    }
}

/// The first step: the request's URL must name a service and the request
/// must carry a token; else answer 400 or send the user to sign in.
#[verifier::opaque]
pub open spec fn spec_receive(passaporte: Seq<char>, request: RequestView, verb: Verb) -> (StageView, ActionView) {
    match request.original_url {
        None => (StageView::Done, ActionView::Respond(bad_request("missing X-Original-URL"@))),
        Some(url) => match spec_target_from_outcome(url_host_outcome(url)) {
            Err(e) => (StageView::Done, ActionView::Respond(bad_request("hostname: "@ + error_text(e)))),
            Ok(target) => match spec_extract_jwt(request.authorization, request.cookie) {
                None => (StageView::Done, ActionView::Respond(spec_redirect(passaporte, url))),
                Some(token) => (
                    StageView::CheckingToken { original_url: url, target, verb, token },
                    ActionView::LookupClaims(token),
                ),
            },
        },
    }
}

/// The cached claims that may still be used at `now`: those of a token
/// whose `exp` has not yet come.
pub open spec fn fresh_claims(cached: Option<ClaimsView>, now: i64) -> Option<ClaimsView> {
    match cached {
        Some(c) => if now < c.exp { Some(c) } else { None },
        None => None,
    }
}

/// One transition of the machine, for a stage that accepts the event.
pub open spec fn spec_step(passaporte: Seq<char>, stage: StageView, event: EventView) -> (StageView, ActionView) {
    match (stage, event) {
        (StageView::Start, EventView::Request { request, verb }) => spec_receive(passaporte, request, verb),
        (StageView::CheckingToken { original_url, target, verb, token }, EventView::ClaimsCached { cached, now }) =>
            match fresh_claims(cached, now) {
                Some(claims) => {
                    let key = spec_key(claims, target, verb);
                    (StageView::Deciding { claims, key, target, verb }, ActionView::LookupDecision(key))
                },
                None => (
                    StageView::Verifying { original_url, target, verb, token },
                    ActionView::VerifyToken(token),
                ),
            },
        (StageView::Verifying { original_url, target, verb, token }, EventView::Verified(verified)) =>
            match verified {
                Some(claims) => {
                    let key = spec_key(claims, target, verb);
                    (
                        StageView::StoringClaims { claims, key, target, verb },
                        ActionView::StoreClaims { token, claims },
                    )
                },
                None => (StageView::Done, ActionView::Respond(spec_redirect(passaporte, original_url))),
            },
        (StageView::StoringClaims { claims, key, target, verb }, EventView::Stored) =>
            (StageView::Deciding { claims, key, target, verb }, ActionView::LookupDecision(key)),
        (StageView::Deciding { claims, key, target, verb }, EventView::DecisionCached(cached)) =>
            match cached {
                Some(decision) => (StageView::Done, ActionView::Respond(spec_final(claims, decision))),
                None => (
                    StageView::Asking { claims, key },
                    ActionView::AskCracha { user: claims.sub, target, verb },
                ),
            },
        (StageView::Asking { claims, key }, EventView::Answered(decision)) =>
            (StageView::StoringDecision { claims, decision }, ActionView::StoreDecision { key, decision }),
        (StageView::StoringDecision { claims, decision }, EventView::Stored) =>
            (StageView::Done, ActionView::Respond(spec_final(claims, decision))),
        _ => (stage, ActionView::Respond(bad_request(Seq::empty()))),
    }
}

/// Whether `event` is what doing `action` yields.
pub open spec fn answers(action: ActionView, event: EventView) -> bool {
    match (action, event) {
        (ActionView::LookupClaims(_), EventView::ClaimsCached { .. }) => true,
        (ActionView::VerifyToken(_), EventView::Verified(_)) => true,
        (ActionView::StoreClaims { .. }, EventView::Stored) => true,
        (ActionView::LookupDecision(_), EventView::DecisionCached(_)) => true,
        (ActionView::AskCracha { .. }, EventView::Answered(_)) => true,
        (ActionView::StoreDecision { .. }, EventView::Stored) => true,
        _ => false,
    }
}

/// Law (protocol): a fresh handling accepts the request, and after any step
/// that does not answer, the next stage accepts whatever doing the action
/// yields; so a caller that answers each action never feeds `step` an event
/// it does not accept.
pub proof fn law_answers_are_accepted(
    passaporte: Seq<char>,
    stage: StageView,
    event: EventView,
    next: EventView,
    request: RequestView,
    verb: Verb,
)
    requires
        accepts(stage, event),
        answers(spec_step(passaporte, stage, event).1, next),
    ensures
        accepts(spec_step(passaporte, stage, event).0, next),
        accepts(StageView::Start, EventView::Request { request, verb }),
{
    reveal(spec_receive);
}

/// The stage after the first `n` events of a run that starts fresh.
pub open spec fn stage_after(passaporte: Seq<char>, events: Seq<EventView>, n: nat) -> StageView
    decreases n,
{
    if n == 0 {
        StageView::Start
    } else {
        spec_step(passaporte, stage_after(passaporte, events, (n - 1) as nat), events[n - 1]).0
    }
}

/// The action of the step that takes event `i` of a run.
pub open spec fn action_at(passaporte: Seq<char>, events: Seq<EventView>, i: nat) -> ActionView {
    spec_step(passaporte, stage_after(passaporte, events, i), events[i as int]).1
}

/// A run in which every event is accepted by the stage it reaches.
pub open spec fn well_run(passaporte: Seq<char>, events: Seq<EventView>) -> bool {
    forall|i: nat| i < events.len() ==> accepts(stage_after(passaporte, events, i), #[trigger] events[i as int])
}

/// Event `j` of the run gave the claims `claims` for the token `token`: the
/// token cache's entry for it, while its `exp` had not come, or the outcome
/// of verifying it.
pub open spec fn claims_answer(passaporte: Seq<char>, events: Seq<EventView>, token: Seq<char>, claims: ClaimsView, j: nat) -> bool {
    &&& 1 <= j < events.len()
    &&& {
        ||| action_at(passaporte, events, (j - 1) as nat) == ActionView::LookupClaims(token)
            && (events[j as int] matches EventView::ClaimsCached { cached: Some(c), now }
                && c == claims && now < claims.exp)
        ||| action_at(passaporte, events, (j - 1) as nat) == ActionView::VerifyToken(token)
            && events[j as int] == EventView::Verified(Some(claims))
    }
}

/// Event `m` of the run gave the decision `decision` for the subject of
/// `claims`, the service `target` and `verb`: the decision cache's entry for
/// their key, or the authorization service's answer.
pub open spec fn decision_answer(
    passaporte: Seq<char>,
    events: Seq<EventView>,
    claims: ClaimsView,
    target: TargetView,
    verb: Verb,
    decision: DecisionView,
    m: nat,
) -> bool {
    &&& 1 <= m < events.len()
    &&& {
        ||| action_at(passaporte, events, (m - 1) as nat) == ActionView::LookupDecision(spec_key(claims, target, verb))
            && events[m as int] == EventView::DecisionCached(Some(decision))
        ||| action_at(passaporte, events, (m - 1) as nat) == ActionView::AskCracha { user: claims.sub, target, verb }
            && events[m as int] == EventView::Answered(decision)
    }
}

/// The service a request names, where its URL parses.
pub open spec fn request_target(request: RequestView) -> Option<TargetView> {
    match request.original_url {
        Some(url) => match spec_target_from_outcome(url_host_outcome(url)) {
            Ok(target) => Some(target),
            Err(_) => None,
        },
        None => None,
    }
}

/// Some event of the run gave `claims` for `token`.
pub open spec fn claims_answered(passaporte: Seq<char>, events: Seq<EventView>, token: Option<Seq<char>>, claims: ClaimsView) -> bool {
    token is Some && claims_answered_for(passaporte, events, token.unwrap(), claims)
}

/// Some event of the run gave `claims` for `token`.
pub open spec fn claims_answered_for(passaporte: Seq<char>, events: Seq<EventView>, token: Seq<char>, claims: ClaimsView) -> bool {
    exists|j: nat| #[trigger] claims_answer(passaporte, events, token, claims, j)
}

/// What a run's first `i` events imply of the stage they reach.
pub open spec fn run_facts(passaporte: Seq<char>, events: Seq<EventView>, i: nat) -> bool {
    i >= 1 ==> match events[0] {
        EventView::Request { request, verb } => {
            let token = spec_extract_jwt(request.authorization, request.cookie);
            match request_target(request) {
                None => stage_after(passaporte, events, i) is Done,
                Some(target) => match stage_after(passaporte, events, i) {
                    StageView::Start => false,
                    StageView::CheckingToken { original_url, target: t, verb: v, token: tok } =>
                        request.original_url == Some(original_url) && t == target && v == verb && token == Some(tok)
                        && action_at(passaporte, events, (i - 1) as nat) == ActionView::LookupClaims(tok),
                    StageView::Verifying { original_url, target: t, verb: v, token: tok } =>
                        request.original_url == Some(original_url) && t == target && v == verb && token == Some(tok)
                        && action_at(passaporte, events, (i - 1) as nat) == ActionView::VerifyToken(tok),
                    StageView::StoringClaims { claims, key, target: t, verb: v } =>
                        t == target && v == verb && key == spec_key(claims, target, verb)
                        && claims_answered(passaporte, events, token, claims),
                    StageView::Deciding { claims, key, target: t, verb: v } =>
                        t == target && v == verb && key == spec_key(claims, target, verb)
                        && claims_answered(passaporte, events, token, claims)
                        && action_at(passaporte, events, (i - 1) as nat) == ActionView::LookupDecision(key),
                    StageView::Asking { claims, key } =>
                        key == spec_key(claims, target, verb)
                        && action_at(passaporte, events, (i - 1) as nat) == ActionView::AskCracha { user: claims.sub, target, verb }
                        && claims_answered(passaporte, events, token, claims),
                    StageView::StoringDecision { claims, decision } =>
                        decision_answer(passaporte, events, claims, target, verb, decision, (i - 1) as nat)
                        && claims_answered(passaporte, events, token, claims),
                    StageView::Done => true,
                },
            }
        },
        _ => false,
    }
}

proof fn lemma_receive(passaporte: Seq<char>, request: RequestView, verb: Verb)
    ensures
        match spec_receive(passaporte, request, verb).0 {
            StageView::CheckingToken { original_url, target, verb: v, token } => {
                &&& request.original_url == Some(original_url)
                &&& request_target(request) == Some(target)
                &&& v == verb
                &&& spec_extract_jwt(request.authorization, request.cookie) == Some(token)
                &&& spec_receive(passaporte, request, verb).1 == ActionView::LookupClaims(token)
            },
            StageView::Done => spec_receive(passaporte, request, verb).1 matches ActionView::Respond(r)
                && r.status != 200,
            _ => false,
        },
{
    reveal(spec_receive);
}

proof fn lemma_facts_checking(passaporte: Seq<char>, events: Seq<EventView>, k: nat)
    requires
        accepts(stage_after(passaporte, events, k), events[k as int]),
        1 <= k < events.len(),
        run_facts(passaporte, events, k),
        stage_after(passaporte, events, k) is CheckingToken,
    ensures
        run_facts(passaporte, events, k + 1),
{
    let s = stage_after(passaporte, events, k);
    let e = events[k as int];
    assert(stage_after(passaporte, events, k + 1) == spec_step(passaporte, s, e).0);
    assert(((k + 1) - 1) as nat == k);
    if let (StageView::CheckingToken { original_url, target, verb: v, token: t }, EventView::ClaimsCached { cached: Some(c), now }) = (s, e) {
        if now < c.exp {
            assert(claims_answer(passaporte, events, t, c, k));
            assert(claims_answered_for(passaporte, events, t, c));
            assert(action_at(passaporte, events, k) == ActionView::LookupDecision(spec_key(c, target, v)));
        }
    }
}

proof fn lemma_facts_verifying(passaporte: Seq<char>, events: Seq<EventView>, k: nat)
    requires
        accepts(stage_after(passaporte, events, k), events[k as int]),
        1 <= k < events.len(),
        run_facts(passaporte, events, k),
        stage_after(passaporte, events, k) is Verifying,
    ensures
        run_facts(passaporte, events, k + 1),
{
    let s = stage_after(passaporte, events, k);
    let e = events[k as int];
    assert(stage_after(passaporte, events, k + 1) == spec_step(passaporte, s, e).0);
    assert(((k + 1) - 1) as nat == k);
    if let (StageView::Verifying { original_url, target, verb: v, token: t }, EventView::Verified(Some(c))) = (s, e) {
        assert(claims_answer(passaporte, events, t, c, k));
        assert(claims_answered_for(passaporte, events, t, c));
    }
}

proof fn lemma_facts_storing_claims(passaporte: Seq<char>, events: Seq<EventView>, k: nat)
    requires
        accepts(stage_after(passaporte, events, k), events[k as int]),
        1 <= k < events.len(),
        run_facts(passaporte, events, k),
        stage_after(passaporte, events, k) is StoringClaims,
    ensures
        run_facts(passaporte, events, k + 1),
{
    let s = stage_after(passaporte, events, k);
    let e = events[k as int];
    assert(stage_after(passaporte, events, k + 1) == spec_step(passaporte, s, e).0);
}

proof fn lemma_facts_decision_stages(passaporte: Seq<char>, events: Seq<EventView>, k: nat)
    requires
        accepts(stage_after(passaporte, events, k), events[k as int]),
        1 <= k < events.len(),
        run_facts(passaporte, events, k),
        !(stage_after(passaporte, events, k) is CheckingToken || stage_after(passaporte, events, k) is Verifying
            || stage_after(passaporte, events, k) is StoringClaims),
    ensures
        run_facts(passaporte, events, k + 1),
{
    let s = stage_after(passaporte, events, k);
    let e = events[k as int];
    assert(stage_after(passaporte, events, k + 1) == spec_step(passaporte, s, e).0);
}

proof fn lemma_run_facts(passaporte: Seq<char>, events: Seq<EventView>, i: nat)
    requires
        well_run(passaporte, events),
        i <= events.len(),
    ensures
        run_facts(passaporte, events, i),
    decreases i,
{
    if i >= 1 {
        let k = (i - 1) as nat;
        lemma_run_facts(passaporte, events, k);
        assert(accepts(stage_after(passaporte, events, k), events[k as int]));
        if k == 0 {
            assert(accepts(stage_after(passaporte, events, 0), events[0]));
            assert(stage_after(passaporte, events, 1) == spec_step(passaporte, StageView::Start, events[0]).0);
            if let EventView::Request { request, verb } = events[0] {
                lemma_receive(passaporte, request, verb);
            }
        } else if stage_after(passaporte, events, k) is CheckingToken || stage_after(passaporte, events, k) is Verifying
            || stage_after(passaporte, events, k) is StoringClaims {
            if stage_after(passaporte, events, k) is CheckingToken {
                lemma_facts_checking(passaporte, events, k);
            } else if stage_after(passaporte, events, k) is Verifying {
                lemma_facts_verifying(passaporte, events, k);
            } else {
                lemma_facts_storing_claims(passaporte, events, k);
            }
        } else {
            lemma_facts_decision_stages(passaporte, events, k);
        }
    }
}

/// Law (whole request): an answer of 200 comes only after the token of this
/// request was answered with claims (from the token cache or by verifying
/// it), and the decision for exactly that subject, the requested service and
/// the request's verb allowed (from the decision cache or from the
/// authorization service).
pub proof fn law_ok_needs_token_and_allowing_decision(passaporte: Seq<char>, events: Seq<EventView>, n: nat)
    requires
        well_run(passaporte, events),
        n < events.len(),
        action_at(passaporte, events, n) matches ActionView::Respond(r) && r.status == 200,
    ensures
        events[0] matches EventView::Request { request, verb } && request_target(request) matches Some(target)
            && spec_extract_jwt(request.authorization, request.cookie) matches Some(token)
            && exists|claims: ClaimsView, decision: DecisionView, j: nat, m: nat| {
                &&& #[trigger] claims_answer(passaporte, events, token, claims, j)
                &&& #[trigger] decision_answer(passaporte, events, claims, target, verb, decision, m)
                &&& decision.allow
            },
{
    lemma_run_facts(passaporte, events, n);
    assert(accepts(stage_after(passaporte, events, n), events[n as int]));
    let s = stage_after(passaporte, events, n);
    let e = events[n as int];
    if n == 0 {
        assert(s == StageView::Start);
        if let EventView::Request { request, verb } = events[0] {
            lemma_receive(passaporte, request, verb);
        }
    } else {
        match events[0] {
            EventView::Request { request, verb } => {
                match (s, e) {
                    (StageView::Deciding { claims, key, target, verb: v }, EventView::DecisionCached(Some(d))) => {
                        let token = spec_extract_jwt(request.authorization, request.cookie);
                        let j = choose|j: nat| #[trigger] claims_answer(passaporte, events, token.unwrap(), claims, j);
                        assert(decision_answer(passaporte, events, claims, target, verb, d, n));
                    },
                    (StageView::StoringDecision { claims, decision }, EventView::Stored) => {
                        let token = spec_extract_jwt(request.authorization, request.cookie);
                        let j = choose|j: nat| #[trigger] claims_answer(passaporte, events, token.unwrap(), claims, j);
                        assert(decision_answer(passaporte, events, claims, request_target(request).unwrap(), verb, decision, (n - 1) as nat));
                    },
                    _ => {},
                }
            },
            _ => {},
        }
    }
}

/// Law (fail closed, whole request): when no decision the run is given
/// allows (every decision-cache entry and every answer of the
/// authorization service denies, as `call_cracha` always does), no request
/// is ever answered 200.
pub proof fn law_no_ok_without_allowing_decision(passaporte: Seq<char>, events: Seq<EventView>, n: nat)
    requires
        well_run(passaporte, events),
        n < events.len(),
        forall|i: int| 0 <= i < events.len() ==> match #[trigger] events[i] {
            EventView::DecisionCached(Some(d)) => !d.allow,
            EventView::Answered(d) => !d.allow,
            _ => true,
        },
    ensures
        action_at(passaporte, events, n) matches ActionView::Respond(r) ==> r.status != 200,
{
    if action_at(passaporte, events, n) matches ActionView::Respond(r) && r.status == 200 {
        law_ok_needs_token_and_allowing_decision(passaporte, events, n);
        match events[0] {
            EventView::Request { request, verb } => {
                let target = request_target(request).unwrap();
                let token = spec_extract_jwt(request.authorization, request.cookie).unwrap();
                let (claims, decision, j, m) = choose|claims: ClaimsView, decision: DecisionView, j: nat, m: nat| {
                    &&& #[trigger] claims_answer(passaporte, events, token, claims, j)
                    &&& #[trigger] decision_answer(passaporte, events, claims, target, verb, decision, m)
                    &&& decision.allow
                };
                assert(events[m as int] == EventView::DecisionCached(Some(decision))
                    || events[m as int] == EventView::Answered(decision));
            },
            _ => {},
        }
    }
}

fn opt_str(o: &Option<String>) -> (r: Option<&str>)
    ensures
        match r { Some(s) => Some(s@), None => None } == o.deep_view(),
{
    match o {
        Some(s) => Some(s.as_str()),
        None => None,
    }
}

/// How far a stage is from the answer; every step lowers it.
pub open spec fn stages_left(stage: StageView) -> nat {
    match stage {
        StageView::Start => 7,
        StageView::CheckingToken { .. } => 6,
        StageView::Verifying { .. } => 5,
        StageView::StoringClaims { .. } => 4,
        StageView::Deciding { .. } => 3,
        StageView::Asking { .. } => 2,
        StageView::StoringDecision { .. } => 1,
        StageView::Done => 0,
    }
}

/// What every stage keeps: a decision key is always the one for the
/// stage's claims, service and verb.
pub open spec fn stage_wf(stage: StageView) -> bool {
    match stage {
        StageView::StoringClaims { claims, key, target, verb } => key == spec_key(claims, target, verb),
        StageView::Deciding { claims, key, target, verb } => key == spec_key(claims, target, verb),
        StageView::Asking { claims, key } => key.user == claims.sub,
        _ => true,
    }
}

/// Law (progress): every accepted event moves the handling closer to its
/// answer, and a stage is done exactly when it has answered.
pub proof fn law_step_progresses(passaporte: Seq<char>, stage: StageView, event: EventView)
    requires
        accepts(stage, event),
    ensures
        stages_left(spec_step(passaporte, stage, event).0) < stages_left(stage),
        (spec_step(passaporte, stage, event).0 is Done) <==> (spec_step(passaporte, stage, event).1 is Respond),
{
    reveal(spec_receive);
}

/// Law (invariant): a step keeps the stage well formed, so every decision
/// looked up, asked for or stored is the one for the verified subject, the
/// requested service and its verb.
pub proof fn law_step_keeps_key(passaporte: Seq<char>, stage: StageView, event: EventView)
    requires
        accepts(stage, event),
        stage_wf(stage),
    ensures
        stage_wf(spec_step(passaporte, stage, event).0),
        match spec_step(passaporte, stage, event).1 {
            ActionView::LookupDecision(k) => match spec_step(passaporte, stage, event).0 {
                StageView::Deciding { claims, key, target, verb } => k == key && key == spec_key(claims, target, verb),
                _ => false,
            },
            ActionView::AskCracha { user, .. } => match stage {
                StageView::Deciding { claims, .. } => user == claims.sub,
                _ => false,
            },
            ActionView::StoreDecision { key, .. } => match stage {
                StageView::Asking { claims, key: k } => key == k && key.user == claims.sub,
                _ => false,
            },
            _ => true,
        },
{
    reveal(spec_receive);
}

/// Law (fail closed): the only answers are 400, 401, 200 and 403; a 200
/// comes only with a decision that allows, and a 403 only with one that
/// denies, whose reason is the body.
pub proof fn law_allow_needs_allowing_decision(passaporte: Seq<char>, stage: StageView, event: EventView)
    requires
        accepts(stage, event),
    ensures
        match spec_step(passaporte, stage, event).1 {
            ActionView::Respond(r) => {
                &&& r.status == 400 || r.status == 401 || r.status == 200 || r.status == 403
                &&& r.status == 200 ==> match (stage, event) {
                    (StageView::Deciding { .. }, EventView::DecisionCached(Some(d))) => d.allow,
                    (StageView::StoringDecision { decision, .. }, EventView::Stored) => decision.allow,
                    _ => false,
                }
                &&& r.status == 403 ==> match (stage, event) {
                    (StageView::Deciding { .. }, EventView::DecisionCached(Some(d))) =>
                        !d.allow && r.body == d.reason,
                    (StageView::StoringDecision { decision, .. }, EventView::Stored) =>
                        !decision.allow && r.body == decision.reason,
                    _ => false,
                }
            },
            _ => true,
        },
{
    reveal(spec_receive);
}

/// Law: a request whose token is missing, or whose token fails
/// verification, is answered 401 with the sign-in redirect back to the URL
/// it asked for.
pub proof fn law_no_valid_token_signs_in(passaporte: Seq<char>, stage: StageView, event: EventView)
    requires
        accepts(stage, event),
    ensures
        match (stage, event) {
            (StageView::Start, EventView::Request { request, .. }) => match request.original_url {
                Some(url) => (spec_target_from_outcome(url_host_outcome(url)) is Ok
                    && spec_extract_jwt(request.authorization, request.cookie) is None)
                    ==> spec_step(passaporte, stage, event).1 == ActionView::Respond(spec_redirect(passaporte, url)),
                None => true,
            },
            (StageView::Verifying { original_url, .. }, EventView::Verified(None)) =>
                spec_step(passaporte, stage, event).1 == ActionView::Respond(spec_redirect(passaporte, original_url)),
            _ => true,
        },
        spec_redirect(passaporte, Seq::empty()).status == 401,
{
    reveal(spec_receive);
}

/// Law: every header value the machine answers with may stand as an HTTP
/// header value.
pub proof fn law_response_headers_valid(passaporte: Seq<char>, stage: StageView, event: EventView)
    requires
        accepts(stage, event),
    ensures
        match spec_step(passaporte, stage, event).1 {
            ActionView::Respond(r) => {
                &&& (r.location matches Some(l) ==> header_value_ok(l))
                &&& (r.user matches Some(u) ==> header_value_ok(u))
                &&& (r.email matches Some(e) ==> header_value_ok(e))
            },
            _ => true,
        },
{
    reveal(spec_receive);
    reveal_strlit("/");
    reveal_strlit("?");
    vstd::utf8::is_ascii_chars_encode_utf8("/"@);
    vstd::utf8::is_ascii_chars_encode_utf8("?"@);
}

/// Law (token cache): cached claims are used only while their token's `exp`
/// has not come; an entry whose `exp` has come is treated as a miss, and the
/// token is verified again.
pub proof fn law_cached_claims_expire(passaporte: Seq<char>, stage: StageView, event: EventView)
    requires
        accepts(stage, event),
        stage is CheckingToken,
    ensures
        match (stage, event) {
            (StageView::CheckingToken { target, verb, token, .. }, EventView::ClaimsCached { cached, now }) =>
                match cached {
                    Some(c) => if now < c.exp {
                        spec_step(passaporte, stage, event).1 == ActionView::LookupDecision(spec_key(c, target, verb))
                    } else {
                        spec_step(passaporte, stage, event).1 == ActionView::VerifyToken(token)
                    },
                    None => spec_step(passaporte, stage, event).1 == ActionView::VerifyToken(token),
                },
            _ => false,
        },
{
}

/// Law (decision cache): the decision the authorization service gives is
/// cached unchanged, under the key of the stage, and the request is then
/// answered by that same decision: 200 exactly when it allows.
pub proof fn law_answered_decision_is_stored(passaporte: Seq<char>, claims: ClaimsView, key: DecisionKeyView, decision: DecisionView)
    ensures
        spec_step(passaporte, StageView::Asking { claims, key }, EventView::Answered(decision))
            == (StageView::StoringDecision { claims, decision }, ActionView::StoreDecision { key, decision }),
        spec_step(passaporte, StageView::StoringDecision { claims, decision }, EventView::Stored)
            == (StageView::Done, ActionView::Respond(spec_final(claims, decision))),
        (spec_final(claims, decision).status == 200) == decision.allow,
{
}

/// Law (decision cache): a cached decision answers the request as it is,
/// and a miss asks the authorization service for the stage's subject,
/// service and verb.
pub proof fn law_cached_decision_answers(
    passaporte: Seq<char>,
    claims: ClaimsView,
    target: TargetView,
    verb: Verb,
    cached: Option<DecisionView>,
)
    ensures
        spec_step(
            passaporte,
            StageView::Deciding { claims, key: spec_key(claims, target, verb), target, verb },
            EventView::DecisionCached(cached),
        ).1 == match cached {
            Some(d) => ActionView::Respond(spec_final(claims, d)),
            None => ActionView::AskCracha { user: claims.sub, target, verb },
        },
{
}

/// Law (token cache): the claims a verification gives are cached unchanged
/// under the verified token, and a failed verification sends the user to
/// sign in for the URL they asked for.
pub proof fn law_verified_claims_are_stored(
    passaporte: Seq<char>,
    original_url: Seq<char>,
    target: TargetView,
    verb: Verb,
    token: Seq<char>,
    verified: Option<ClaimsView>,
)
    ensures
        spec_step(passaporte, StageView::Verifying { original_url, target, verb, token }, EventView::Verified(verified)).1
            == match verified {
                Some(c) => ActionView::StoreClaims { token, claims: c },
                None => ActionView::Respond(spec_redirect(passaporte, original_url)),
            },
{
}

/// Law (answers): a decision that allows answers 200 with the subject (and
/// the email, where there is one) as identity headers, wherever they may
/// stand as header values; one that denies answers 403 with its reason.
pub proof fn law_final_answer(claims: ClaimsView, decision: DecisionView)
    ensures
        decision.allow ==> spec_final(claims, decision).status == 200
            && (header_value_ok(claims.sub) ==> spec_final(claims, decision).user == Some(claims.sub))
            && match claims.email {
                Some(e) => header_value_ok(e) ==> spec_final(claims, decision).email == Some(e),
                None => spec_final(claims, decision).email is None,
            }
            && spec_final(claims, decision).body == "ok"@,
        !decision.allow ==> spec_final(claims, decision).status == 403
            && spec_final(claims, decision).body == decision.reason
            && spec_final(claims, decision).user is None,
{
}

/// Law (sign-in redirect): the redirect answers 401 and, wherever the
/// sign-in URL for the whole original URL may stand as a header value, its
/// `Location` is exactly that URL.
pub proof fn law_redirect_targets_signin(passaporte: Seq<char>, original: Seq<char>)
    ensures
        spec_redirect(passaporte, original).status == 401,
        header_value_ok(spec_signin_url(passaporte, original))
            ==> spec_redirect(passaporte, original).location == Some(spec_signin_url(passaporte, original)),
{
}

/// Law (claims to decision): once claims are stored, or found fresh in the
/// token cache, the decision looked up is the one for exactly those claims,
/// the requested service and verb.
pub proof fn law_claims_lead_to_their_decision(
    passaporte: Seq<char>,
    original_url: Seq<char>,
    claims: ClaimsView,
    target: TargetView,
    verb: Verb,
    token: Seq<char>,
    now: i64,
)
    ensures
        spec_step(
            passaporte,
            StageView::StoringClaims { claims, key: spec_key(claims, target, verb), target, verb },
            EventView::Stored,
        ) == (
            StageView::Deciding { claims, key: spec_key(claims, target, verb), target, verb },
            ActionView::LookupDecision(spec_key(claims, target, verb)),
        ),
        now < claims.exp ==> spec_step(
            passaporte,
            StageView::CheckingToken { original_url, target, verb, token },
            EventView::ClaimsCached { cached: Some(claims), now },
        ) == (
            StageView::Deciding { claims, key: spec_key(claims, target, verb), target, verb },
            ActionView::LookupDecision(spec_key(claims, target, verb)),
        ),
        spec_key(claims, target, verb) == (DecisionKeyView {
            user: claims.sub,
            cluster: target.cluster,
            service: target.app,
            verb: spec_verb_str(verb),
        }),
{
}

/// Law (unusable requests): a request without `X-Original-URL` is answered
/// 400 "missing X-Original-URL", and one whose URL names no service 400
/// with "hostname: " and the reason.
pub proof fn law_unusable_request_is_bad_request(passaporte: Seq<char>, request: RequestView, verb: Verb)
    ensures
        request.original_url is None ==> spec_step(passaporte, StageView::Start, EventView::Request { request, verb })
            == (StageView::Done, ActionView::Respond(bad_request("missing X-Original-URL"@))),
        match request.original_url {
            Some(url) => match spec_target_from_outcome(url_host_outcome(url)) {
                Err(e) => spec_step(passaporte, StageView::Start, EventView::Request { request, verb })
                    == (StageView::Done, ActionView::Respond(bad_request("hostname: "@ + error_text(e)))),
                Ok(_) => true,
            },
            None => true,
        },
        bad_request("missing X-Original-URL"@).status == 400,
{
    reveal(spec_receive);
}

/// Law (receiving a request): a request whose URL names a service and which
/// carries a token looks that very token up, for that service and verb.
pub proof fn law_request_looks_up_its_token(passaporte: Seq<char>, request: RequestView, verb: Verb)
    ensures
        match (request_target(request), spec_extract_jwt(request.authorization, request.cookie)) {
            (Some(target), Some(token)) => spec_step(passaporte, StageView::Start, EventView::Request { request, verb })
                == (
                    StageView::CheckingToken { original_url: request.original_url.unwrap(), target, verb, token },
                    ActionView::LookupClaims(token),
                ),
            _ => true,
        },
{
    lemma_receive(passaporte, request, verb);
    reveal(spec_receive);
}

/// Law (fail closed): without the authorization service's own answer the
/// decision denies.
pub proof fn law_unanswered_denies(outcome: AuthorizeOutcome)
    ensures
        spec_decision_from(outcome).allow ==> outcome matches AuthorizeOutcome::Answered { allow: true, .. },
{
}

fn receive(config: &Config, request: ForwardedRequest, verb: Verb) -> (r: (Stage, Action))
    ensures
        (r.0@, r.1@) == spec_receive(config.passaporte_url@, request@, verb),
{
    reveal(spec_receive);
    let original_url = match request.original_url {
        Some(u) => u,
        None => return (Stage::Done, Action::Respond(bad_request_response(String::from_str("missing X-Original-URL")))),
    };
    let target = match parse_url(original_url.as_str()) {
        Ok(t) => t,
        Err(e) => {
            let mut body = String::from_str("hostname: ");
            let m = e.message();
            body.append(m.as_str());
            return (Stage::Done, Action::Respond(bad_request_response(body)));
        },
    };
    let token = match extract_jwt(opt_str(&request.authorization), opt_str(&request.cookie)) {
        Some(t) => t,
        None => return (Stage::Done, Action::Respond(redirect_to_signin(config, original_url.as_str()))),
    };
    let lookup = token.clone();
    (Stage::CheckingToken { original_url, target, verb, token }, Action::LookupClaims(lookup))
}

/// Advance the handling of a request by one event.
pub fn step(config: &Config, stage: Stage, event: Event) -> (r: (Stage, Action))
    requires
        accepts(stage@, event@),
    ensures
        (r.0@, r.1@) == spec_step(config.passaporte_url@, stage@, event@),
{
    match (stage, event) {
        (Stage::Start, Event::Request { request, verb }) => receive(config, request, verb),
        (Stage::CheckingToken { original_url, target, verb, token }, Event::ClaimsCached { cached, now }) => {
            let fresh = match cached {
                Some(claims) => if now < claims.exp { Some(claims) } else { None },
                None => None,
            };
            match fresh {
                Some(claims) => {
                    let key = decision_key(&claims, &target, verb);
                    let lookup = key.duplicate();
                    (Stage::Deciding { claims, key, target, verb }, Action::LookupDecision(lookup))
                },
                None => {
                    let verify = token.clone();
                    (Stage::Verifying { original_url, target, verb, token }, Action::VerifyToken(verify))
                },
            }
        },
        (Stage::Verifying { original_url, target, verb, token }, Event::Verified(verified)) =>
            match verified {
                Ok(claims) => {
                    let key = decision_key(&claims, &target, verb);
                    let store = claims.duplicate();
                    (Stage::StoringClaims { claims, key, target, verb }, Action::StoreClaims { token, claims: store })
                },
                Err(_) => (Stage::Done, Action::Respond(redirect_to_signin(config, original_url.as_str()))),
            },
        (Stage::StoringClaims { claims, key, target, verb }, Event::Stored) => {
            let lookup = key.duplicate();
            (Stage::Deciding { claims, key, target, verb }, Action::LookupDecision(lookup))
        },
        (Stage::Deciding { claims, key, target, verb }, Event::DecisionCached(cached)) =>
            match cached {
                Some(decision) => {
                    let response = final_response(&claims, &decision);
                    (Stage::Done, Action::Respond(response))
                },
                None => {
                    let user = claims.sub.clone();
                    (Stage::Asking { claims, key }, Action::AskCracha { user, target, verb })
                },
            },
        (Stage::Asking { claims, key }, Event::Answered(decision)) => {
            let store = decision.duplicate();
            (Stage::StoringDecision { claims, decision }, Action::StoreDecision { key, decision: store })
        },
        (Stage::StoringDecision { claims, decision }, Event::Stored) => {
            let response = final_response(&claims, &decision);
            (Stage::Done, Action::Respond(response))
        },
        _ => {
            proof { assert(false); }
            (Stage::Done, Action::Respond(bad_request_response(String::new())))
        },
    }
}

} // verus!
