//! The values the two caches hold: verified token claims, keyed by the raw
//! token, and authorization decisions, keyed by who asks for what.

use vstd::prelude::*;

verus! {

/// Upper bound on how long a verified token stays cached, in seconds.
pub const JWT_CACHE_TTL_SECS: u64 = 3600;

/// Number of decisions the decision cache holds.
pub const DECISION_CACHE_CAPACITY: u64 = 8192;

/// The claims of a verified token that the decision needs.
#[derive(Debug, Clone)]
pub struct VerifiedClaims {
    pub sub: String,
    pub email: Option<String>,
    pub exp: i64,
}

pub struct ClaimsView {
    pub sub: Seq<char>,
    pub email: Option<Seq<char>>,
    pub exp: i64,
}

impl VerifiedClaims {
    /// A copy with the same contents.
    pub fn duplicate(&self) -> (c: VerifiedClaims)
        ensures
            c@ == self@,
    {
        let email = match &self.email {
            Some(e) => Some(e.clone()),
            None => None,
        };
        VerifiedClaims { sub: self.sub.clone(), email, exp: self.exp }
    }
}

impl View for VerifiedClaims {
    type V = ClaimsView;

    open spec fn view(&self) -> ClaimsView {
        ClaimsView { sub: self.sub@, email: self.email.deep_view(), exp: self.exp }
    }
}

/// Decision-cache key: who asks to do what to which service.
#[derive(Debug, Clone, Hash, PartialEq, Eq)]
pub struct DecisionKey {
    pub user: String,
    pub cluster: String,
    pub service: String,
    pub verb: String,
}

pub struct DecisionKeyView {
    pub user: Seq<char>,
    pub cluster: Seq<char>,
    pub service: Seq<char>,
    pub verb: Seq<char>,
}

impl DecisionKey {
    /// A copy with the same contents.
    pub fn duplicate(&self) -> (k: DecisionKey)
        ensures
            k@ == self@,
    {
        DecisionKey {
            user: self.user.clone(),
            cluster: self.cluster.clone(),
            service: self.service.clone(),
            verb: self.verb.clone(),
        }
    }
}

impl View for DecisionKey {
    type V = DecisionKeyView;

    open spec fn view(&self) -> DecisionKeyView {
        DecisionKeyView {
            user: self.user@,
            cluster: self.cluster@,
            service: self.service@,
            verb: self.verb@,
        }
    }
}

/// An authorization decision and the reason given for it.
#[derive(Debug, Clone)]
pub struct CachedDecision {
    pub allow: bool,
    pub reason: String,
}

pub struct DecisionView {
    pub allow: bool,
    pub reason: Seq<char>,
}

impl CachedDecision {
    /// A copy with the same contents.
    pub fn duplicate(&self) -> (d: CachedDecision)
        ensures
            d@ == self@,
    {
        CachedDecision { allow: self.allow, reason: self.reason.clone() }
    }
}

impl View for CachedDecision {
    type V = DecisionView;

    open spec fn view(&self) -> DecisionView {
        DecisionView { allow: self.allow, reason: self.reason@ }
    }
}

} // verus!
