//! Parsing of the `<app>.<cluster>.<location>.<tld...>` hostnames that the
//! ingress forwards, back into the service they name.

use vstd::prelude::*;
use crate::text::{
    chars_of, char_vecs_view, lemma_split_on_concat, lemma_split_on_no_sep, lemma_split_on_with_sep, split_chars,
    split_on, string_from_chars,
};

verus! {

/// The service a request is bound for.
#[derive(Debug, Clone, PartialEq, Eq)]
pub struct ServiceTarget {
    pub app: String,
    pub cluster: String,
    pub location: String,
}

/// A `ServiceTarget` as three character sequences.
pub struct TargetView {
    pub app: Seq<char>,
    pub cluster: Seq<char>,
    pub location: Seq<char>,
}

impl View for ServiceTarget {
    type V = TargetView;

    open spec fn view(&self) -> TargetView {
        TargetView { app: self.app@, cluster: self.cluster@, location: self.location@ }
    }
}

/// Why a URL or host does not name a service.
#[derive(Debug, Clone, PartialEq, Eq)]
pub enum HostnameError {
    MissingHost,
    NotFourPart(String),
    InvalidUrl(String),
}

pub enum HostnameErrorView {
    MissingHost,
    NotFourPart(Seq<char>),
    InvalidUrl(Seq<char>),
}

impl View for HostnameError {
    type V = HostnameErrorView;

    open spec fn view(&self) -> HostnameErrorView {
        match self {
            HostnameError::MissingHost => HostnameErrorView::MissingHost,
            HostnameError::NotFourPart(h) => HostnameErrorView::NotFourPart(h@),
            HostnameError::InvalidUrl(m) => HostnameErrorView::InvalidUrl(m@),
        }
    }
}

/// The text of a `HostnameError`.
pub open spec fn error_text(e: HostnameErrorView) -> Seq<char> {
    match e {
        HostnameErrorView::MissingHost => "missing host in URL"@,
        HostnameErrorView::NotFourPart(h) => "not a 4-part saguão hostname: "@ + h,
        HostnameErrorView::InvalidUrl(m) => "invalid URL: "@ + m,
    }
}

impl HostnameError {
    /// The human-readable description of the error.
    pub fn message(&self) -> (m: String)
        ensures
            m@ == error_text(self@),
    {
        match self {
            HostnameError::MissingHost => String::from_str("missing host in URL"),
            HostnameError::NotFourPart(h) => {
                let mut m = String::from_str("not a 4-part saguão hostname: ");
                m.append(h.as_str());
                m
            },
            HostnameError::InvalidUrl(u) => {
                let mut m = String::from_str("invalid URL: ");
                m.append(u.as_str());
                m
            },
        }
    }
}

/// A parse outcome as plain values.
pub open spec fn target_result_view(r: Result<ServiceTarget, HostnameError>) -> Result<TargetView, HostnameErrorView> {
    match r {
        Ok(t) => Ok(t@),
        Err(e) => Err(e@),
    }
}

/// The meaning of a host: its dot-separated labels must number at least five
/// (three service labels and a top-level domain of at least two labels);
/// the first three are the app, the cluster and the location.
pub open spec fn spec_parse(host: Seq<char>) -> Result<TargetView, HostnameErrorView> {
    let labels = split_on(host, '.');
    if labels.len() < 5 {
        Err(HostnameErrorView::NotFourPart(host))
    } else {
        Ok(TargetView { app: labels[0], cluster: labels[1], location: labels[2] })
    }
}

/// Law: a host `<app>.<cluster>.<location>.<tld>`, whose first three labels
/// hold no dot and whose top-level domain holds at least one, names exactly
/// that app, cluster and location.
pub proof fn law_parse_first_three_labels(app: Seq<char>, cluster: Seq<char>, location: Seq<char>, tld: Seq<char>)
    requires
        !app.contains('.'),
        !cluster.contains('.'),
        !location.contains('.'),
        tld.contains('.'),
    ensures
        spec_parse(app + seq!['.'] + cluster + seq!['.'] + location + seq!['.'] + tld)
            == Ok::<TargetView, HostnameErrorView>(TargetView { app, cluster, location }),
{
    let r3 = location.push('.') + tld;
    let r2 = cluster.push('.') + r3;
    let host = app.push('.') + r2;
    assert(app + seq!['.'] + cluster + seq!['.'] + location + seq!['.'] + tld =~= host);
    lemma_split_on_no_sep(app, '.');
    lemma_split_on_no_sep(cluster, '.');
    lemma_split_on_no_sep(location, '.');
    lemma_split_on_with_sep(tld, '.');
    lemma_split_on_concat(location, tld, '.');
    lemma_split_on_concat(cluster, r3, '.');
    lemma_split_on_concat(app, r2, '.');
    let labels = split_on(host, '.');
    assert(labels =~= seq![app, cluster, location] + split_on(tld, '.'));
}

/// Parse `<app>.<cluster>.<location>.quero.cloud` (or any shape with a
/// top-level domain of two or more labels) into its components.
pub fn parse(host: &str) -> (r: Result<ServiceTarget, HostnameError>)
    ensures
        target_result_view(r) == spec_parse(host@),
{
    let chars = chars_of(host);
    let labels = split_chars(&chars, '.');
    assert(char_vecs_view(labels@) == split_on(host@, '.'));
    if labels.len() < 5 {
        return Err(HostnameError::NotFourPart(host.to_owned()));
    }
    assert(labels@[0]@ == split_on(host@, '.')[0]);
    assert(labels@[1]@ == split_on(host@, '.')[1]);
    assert(labels@[2]@ == split_on(host@, '.')[2]);
    Ok(ServiceTarget {
        app: string_from_chars(&labels[0]),
        cluster: string_from_chars(&labels[1]),
        location: string_from_chars(&labels[2]),
    })
}

/// What `url::Url::parse` makes of `input`: the URL's host (`Url::host_str`)
/// when the input parses, or the text of the parse error when it does not.
pub uninterp spec fn url_host_outcome(input: Seq<char>) -> Result<Option<Seq<char>>, Seq<char>>;

/// Law: the target of a URL is the target of its host. A URL whose host is
/// `<app>.<cluster>.<location>.<tld>` (first three labels free of dots, a
/// top-level domain of two or more labels) names exactly that app, cluster
/// and location; a URL that does not parse, or has no host, names none.
pub proof fn law_url_target_is_host_target(
    app: Seq<char>,
    cluster: Seq<char>,
    location: Seq<char>,
    tld: Seq<char>,
    error: Seq<char>,
)
    requires
        !app.contains('.'),
        !cluster.contains('.'),
        !location.contains('.'),
        tld.contains('.'),
    ensures
        spec_target_from_outcome(Ok(Some(app + seq!['.'] + cluster + seq!['.'] + location + seq!['.'] + tld)))
            == Ok::<TargetView, HostnameErrorView>(TargetView { app, cluster, location }),
        spec_target_from_outcome(Err(error)) == Err::<TargetView, HostnameErrorView>(HostnameErrorView::InvalidUrl(error)),
        spec_target_from_outcome(Ok(None)) == Err::<TargetView, HostnameErrorView>(HostnameErrorView::MissingHost),
{
    law_parse_first_three_labels(app, cluster, location, tld);
}

/// An outcome of URL parsing as plain values.
pub open spec fn outcome_view(o: Result<Option<String>, String>) -> Result<Option<Seq<char>>, Seq<char>> {
    match o {
        Ok(h) => Ok(h.deep_view()),
        Err(m) => Err(m@),
    }
}

/// Calls `url::Url::parse` and hands back `host_str()` of the parsed URL, or
/// the error's `Display` text. The contract claims only that the outcome is
/// the function of the input that `url_host_outcome` names.
#[verifier::external_body]
fn url_host(input: &str) -> (r: Result<Option<String>, String>)
    ensures
        outcome_view(r) == url_host_outcome(input@),
{
    match url::Url::parse(input) {
        Ok(u) => Ok(u.host_str().map(String::from)),
        Err(e) => Err(e.to_string()),
    }
}

/// The service named by the outcome of parsing a URL.
pub open spec fn spec_target_from_outcome(o: Result<Option<Seq<char>>, Seq<char>>) -> Result<TargetView, HostnameErrorView> {
    match o {
        Err(m) => Err(HostnameErrorView::InvalidUrl(m)),
        Ok(None) => Err(HostnameErrorView::MissingHost),
        Ok(Some(h)) => spec_parse(h),
    }
}

/// Turn the outcome of parsing a URL (its host, or the parser's message)
/// into the service it names.
pub fn target_from_url_outcome(outcome: Result<Option<String>, String>) -> (r: Result<ServiceTarget, HostnameError>)
    ensures
        target_result_view(r) == spec_target_from_outcome(outcome_view(outcome)),
{
    match outcome {
        Err(m) => Err(HostnameError::InvalidUrl(m)),
        Ok(None) => Err(HostnameError::MissingHost),
        Ok(Some(h)) => parse(h.as_str()),
    }
}

/// Extract the host from a URL string and parse it.
pub fn parse_url(url: &str) -> (r: Result<ServiceTarget, HostnameError>)
    ensures
        target_result_view(r) == spec_target_from_outcome(url_host_outcome(url@)),
{
    target_from_url_outcome(url_host(url))
}

} // verus!
