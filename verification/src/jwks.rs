//! The signing keys of passaporte (a JWK set): parsing a fetched document,
//! holding the current set, and finding the key a token names.

use vstd::prelude::*;
use jsonwebtoken::jwk::{Jwk, JwkSet};
use jsonwebtoken::DecodingKey;
use crate::text::{decimal, push_decimal};
use crate::token::{json_get, member_value};

verus! {

#[verifier::external_type_specification]
#[verifier::external_body]
pub struct ExJwkSet(JwkSet);

#[verifier::external_type_specification]
#[verifier::external_body]
pub struct ExJwk(Jwk);

#[verifier::external_type_specification]
#[verifier::external_body]
pub struct ExDecodingKey(DecodingKey);

#[verifier::external_type_specification]
#[verifier::external_body]
pub struct ExJwtError(jsonwebtoken::errors::Error);

#[verifier::external_type_specification]
#[verifier::external_body]
pub struct ExJsonError(serde_json::Error);

/// What the library reads of one key of a set: its `kid`, and the key
/// itself as plain bytes (its JSON serialization, `serde_json::to_vec`).
pub type KeyEntry = (Option<Seq<char>>, Seq<u8>);

/// The keys of a `JwkSet` (its `keys` field), in order, each as a `KeyEntry`.
pub uninterp spec fn jwk_set_entries(set: JwkSet) -> Seq<KeyEntry>;

/// One key of a set as a `KeyEntry`.
pub uninterp spec fn jwk_entry(key: Jwk) -> KeyEntry;

/// What `DecodingKey::from_jwk` makes of the key whose serialization is
/// `material`: the decoding key, or `None` where it fails.
pub uninterp spec fn jwk_decoding(material: Seq<u8>) -> Option<DecodingKey>;

/// The JSON document that `serde_json::from_slice::<serde_json::Value>`
/// reads from `body`, or `None` when the body is not JSON.
pub uninterp spec fn json_document(body: Seq<u8>) -> Option<serde_json::Value>;

/// The keys that `serde_json::from_value::<JwkSet>` finds in the document
/// `{"keys": keys}`, or `None` when it is not a JWK set.
pub uninterp spec fn jwks_from_keys(keys: serde_json::Value) -> Option<Seq<KeyEntry>>;

/// The reason phrase that `http::StatusCode::canonical_reason` gives for the
/// status `code`, or `None` where it knows none (or the code is not a
/// status, outside 100..=999).
pub uninterp spec fn status_reason_phrase(code: u16) -> Option<Seq<char>>;

/// The position of the first key whose `kid` is `kid`.
pub open spec fn first_with_kid(entries: Seq<KeyEntry>, kid: Seq<char>) -> Option<int>
    decreases entries.len(),
{
    if entries.len() == 0 {
        None
    } else if entries[0].0 == Some(kid) {
        Some(0)
    } else {
        match first_with_kid(entries.drop_first(), kid) {
            Some(i) => Some(i + 1),
            None => None,
        }
    }
}

pub proof fn lemma_first_with_kid(entries: Seq<KeyEntry>, kid: Seq<char>)
    ensures
        match first_with_kid(entries, kid) {
            Some(i) => 0 <= i < entries.len() && entries[i].0 == Some(kid)
                && forall|j: int| 0 <= j < i ==> entries[j].0 != Some(kid),
            None => forall|j: int| 0 <= j < entries.len() ==> entries[j].0 != Some(kid),
        },
    decreases entries.len(),
{
    if entries.len() > 0 {
        lemma_first_with_kid(entries.drop_first(), kid);
        if entries[0].0 != Some(kid) {
            match first_with_kid(entries.drop_first(), kid) {
                Some(i) => {
                    assert forall|j: int| 0 <= j < i + 1 implies entries[j].0 != Some(kid) by {
                        if j > 0 {
                            assert(entries[j] == entries.drop_first()[j - 1]);
                        }
                    }
                },
                None => {
                    assert forall|j: int| 0 <= j < entries.len() implies entries[j].0 != Some(kid) by {
                        if j > 0 {
                            assert(entries[j] == entries.drop_first()[j - 1]);
                        }
                    }
                },
            }
        }
    }
}

/// `JwkSet::find`: the first key of the set whose `kid` is `kid`. The
/// contract restates the source: a search, in order, for the first match.
#[verifier::external_body]
fn find_key<'a>(set: &'a JwkSet, kid: &str) -> (r: Option<&'a Jwk>)
    ensures
        match first_with_kid(jwk_set_entries(*set), kid@) {
            None => r is None,
            Some(i) => r matches Some(k) && jwk_entry(*k) == jwk_set_entries(*set)[i],
        },
{
    set.find(kid)
}

/// `DecodingKey::from_jwk`: claimed to give the decoding key that
/// `jwk_decoding` names for the key's serialization, and to fail where it
/// names none.
#[verifier::external_body]
fn key_from_jwk(key: &Jwk) -> (r: Result<DecodingKey, jsonwebtoken::errors::Error>)
    ensures
        match r {
            Ok(k) => jwk_decoding(jwk_entry(*key).1) == Some(k),
            Err(_) => jwk_decoding(jwk_entry(*key).1) is None,
        },
{
    DecodingKey::from_jwk(key)
}

/// `serde_json::from_slice::<serde_json::Value>`: claimed to give the
/// document that `json_document` names for the same bytes, and to fail
/// where it names none.
#[verifier::external_body]
fn parse_json(body: &[u8]) -> (r: Result<serde_json::Value, serde_json::Error>)
    ensures
        match r {
            Ok(v) => json_document(body@) == Some(v),
            Err(_) => json_document(body@) is None,
        },
{
    serde_json::from_slice(body)
}

/// `serde_json::from_value::<JwkSet>` of the document `{"keys": keys}`:
/// claimed to give the set that `jwks_from_keys` names, and to fail where
/// it names none.
#[verifier::external_body]
fn decode_key_set(keys: serde_json::Value) -> (r: Result<JwkSet, serde_json::Error>)
    ensures
        match r {
            Ok(set) => jwks_from_keys(keys) == Some(jwk_set_entries(set)),
            Err(_) => jwks_from_keys(keys) is None,
        },
{
    let mut document = serde_json::Map::new();
    document.insert(String::from("keys"), keys);
    serde_json::from_value(serde_json::Value::Object(document))
}

/// `http::StatusCode::canonical_reason` of `code` (made a `StatusCode` by
/// `from_u16`, which refuses a code outside 100..=999); claimed to be what
/// `status_reason_phrase` names.
#[verifier::external_body]
fn status_reason(code: u16) -> (r: Option<String>)
    ensures
        r.deep_view() == status_reason_phrase(code),
{
    match reqwest::StatusCode::from_u16(code) {
        Ok(status) => status.canonical_reason().map(String::from),
        Err(_) => None,
    }
}

/// The number of keys in a set (`keys.len()`), as `jwk_set_entries` counts them.
#[verifier::external_body]
fn key_count(set: &JwkSet) -> (n: usize)
    ensures
        n == jwk_set_entries(*set).len(),
{
    set.keys.len()
}

/// Why a fetch of the key set gave no set.
#[derive(Debug, Clone, PartialEq, Eq)]
pub enum FetchError {
    /// The endpoint answered with a status outside 200..=299.
    Status(u16),
    /// The body is not a JSON object with a `keys` member.
    Body,
    /// The `keys` member is not a list of JWKs.
    Decode,
}

/// The text of a non-success status: the code and its reason phrase, as
/// `http::StatusCode` displays it.
pub open spec fn status_text(code: u16, reason: Option<Seq<char>>) -> Seq<char> {
    "JWKS fetch returned "@ + decimal(code as nat) + " "@ + match reason {
        Some(r) => r,
        None => "<unknown status code>"@,
    }
}

/// The text of a `FetchError`.
pub open spec fn fetch_error_text(e: FetchError) -> Seq<char> {
    match e {
        FetchError::Status(code) => status_text(code, status_reason_phrase(code)),
        FetchError::Body => "parsing JWKS body"@,
        FetchError::Decode => "decoding JWKS"@,
    }
}

/// The text of a non-success status, given its reason phrase.
pub fn status_message(code: u16, reason: Option<&str>) -> (m: String)
    ensures
        m@ == status_text(code, match reason { Some(r) => Some(r@), None => None }),
{
    let mut m = String::from_str("JWKS fetch returned ");
    push_decimal(&mut m, code as u64);
    m.append(" ");
    match reason {
        Some(r) => m.append(r),
        None => m.append("<unknown status code>"),
    }
    m
}

impl FetchError {
    /// The human-readable description of the error.
    pub fn message(&self) -> (m: String)
        ensures
            m@ == fetch_error_text(*self),
    {
        match self {
            FetchError::Status(code) => {
                let reason = status_reason(*code);
                match reason {
                    Some(r) => status_message(*code, Some(r.as_str())),
                    None => status_message(*code, None),
                }
            },
            FetchError::Body => String::from_str("parsing JWKS body"),
            FetchError::Decode => String::from_str("decoding JWKS"),
        }
    }
}

/// Whether an HTTP status counts as success (200..=299).
pub open spec fn is_success(status: u16) -> bool {
    200 <= status <= 299
}

/// What a fetch answered with `status` and `body` yields.
pub open spec fn spec_jwks_from_response(status: u16, body: Seq<u8>) -> Result<Seq<KeyEntry>, FetchError> {
    if !is_success(status) {
        Err(FetchError::Status(status))
    } else {
        match json_document(body) {
            None => Err(FetchError::Body),
            Some(document) => match json_get(document, "keys"@) {
                None => Err(FetchError::Body),
                Some(keys) => match jwks_from_keys(keys) {
                    Some(entries) => Ok(entries),
                    None => Err(FetchError::Decode),
                },
            },
        }
    }
}

/// A fetch outcome with the set given by its keys.
pub open spec fn fetch_result_view(r: Result<JwkSet, FetchError>) -> Result<Seq<KeyEntry>, FetchError> {
    match r {
        Ok(set) => Ok(jwk_set_entries(set)),
        Err(e) => Err(e),
    }
}

/// The key set that the JWKS endpoint answered: a non-success status is an
/// error; a body that is not a JSON object with a `keys` member fails as
/// `Body`, and a `keys` member that is not a list of JWKs as `Decode`.
pub fn jwks_from_response(status: u16, body: &[u8]) -> (r: Result<JwkSet, FetchError>)
    ensures
        fetch_result_view(r) == spec_jwks_from_response(status, body@),
{
    if !(200 <= status && status <= 299) {
        return Err(FetchError::Status(status));
    }
    let document = match parse_json(body) {
        Ok(d) => d,
        Err(_) => return Err(FetchError::Body),
    };
    let keys = match member_value(&document, "keys") {
        Some(k) => k,
        None => return Err(FetchError::Body),
    };
    match decode_key_set(keys) {
        Ok(set) => Ok(set),
        Err(_) => Err(FetchError::Decode),
    }
}

/// Why no key could be had for a `kid`.
#[derive(Debug, Clone, PartialEq, Eq)]
pub enum KeyError {
    /// No key set has been fetched yet.
    NotFetched,
    /// The set holds no key with this `kid`.
    UnknownKid(String),
    /// The key with this `kid` cannot be turned into a decoding key.
    Unusable(String),
}

pub enum KeyErrorView {
    NotFetched,
    UnknownKid(Seq<char>),
    Unusable(Seq<char>),
}

impl View for KeyError {
    type V = KeyErrorView;

    open spec fn view(&self) -> KeyErrorView {
        match self {
            KeyError::NotFetched => KeyErrorView::NotFetched,
            KeyError::UnknownKid(k) => KeyErrorView::UnknownKid(k@),
            KeyError::Unusable(k) => KeyErrorView::Unusable(k@),
        }
    }
}

/// The text of a `KeyError`.
pub open spec fn key_error_text(e: KeyErrorView) -> Seq<char> {
    match e {
        KeyErrorView::NotFetched => "JWKS not yet fetched"@,
        KeyErrorView::UnknownKid(k) => "kid "@ + k + " not in JWKS"@,
        KeyErrorView::Unusable(_) => "decoding key from JWK"@,
    }
}

impl KeyError {
    /// The human-readable description of the error.
    pub fn message(&self) -> (m: String)
        ensures
            m@ == key_error_text(self@),
    {
        match self {
            KeyError::NotFetched => String::from_str("JWKS not yet fetched"),
            KeyError::UnknownKid(k) => {
                let mut m = String::from_str("kid ");
                m.append(k.as_str());
                m.append(" not in JWKS");
                m
            },
            KeyError::Unusable(_) => String::from_str("decoding key from JWK"),
        }
    }
}

/// The outcome of a key lookup in a cache whose contents are `cached`.
pub open spec fn spec_key_for(cached: Option<Seq<KeyEntry>>, kid: Seq<char>) -> Result<DecodingKey, KeyErrorView> {
    match cached {
        None => Err(KeyErrorView::NotFetched),
        Some(entries) => match first_with_kid(entries, kid) {
            None => Err(KeyErrorView::UnknownKid(kid)),
            Some(i) => match jwk_decoding(entries[i].1) {
                Some(key) => Ok(key),
                None => Err(KeyErrorView::Unusable(kid)),
            },
        },
    }
}

/// A key-lookup outcome with its error as plain values.
pub open spec fn key_result_view(r: Result<DecodingKey, KeyError>) -> Result<DecodingKey, KeyErrorView> {
    match r {
        Ok(k) => Ok(k),
        Err(e) => Err(e@),
    }
}

/// Law (read after write): before any set is stored every lookup fails as
/// not fetched; once a set is stored, a lookup of a `kid` gives what
/// `DecodingKey::from_jwk` makes of the first key of the set with that
/// `kid`, and fails as unknown when there is none.
pub proof fn law_lookup_after_replace(set: JwkSet, kid: Seq<char>)
    ensures
        spec_key_for(None, kid) == Err::<DecodingKey, KeyErrorView>(KeyErrorView::NotFetched),
        forall|i: int|
            0 <= i < jwk_set_entries(set).len() && jwk_set_entries(set)[i].0 == Some(kid)
                && (forall|j: int| 0 <= j < i ==> jwk_set_entries(set)[j].0 != Some(kid))
            ==> spec_key_for(Some(jwk_set_entries(set)), kid) == match jwk_decoding(jwk_set_entries(set)[i].1) {
                Some(key) => Ok(key),
                None => Err(KeyErrorView::Unusable(kid)),
            },
        (forall|i: int| 0 <= i < jwk_set_entries(set).len() ==> jwk_set_entries(set)[i].0 != Some(kid))
            ==> spec_key_for(Some(jwk_set_entries(set)), kid) == Err::<DecodingKey, KeyErrorView>(KeyErrorView::UnknownKid(kid)),
{
    let e = jwk_set_entries(set);
    lemma_first_with_kid(e, kid);
    assert forall|k: int|
        0 <= k < e.len() && e[k].0 == Some(kid) && (forall|j: int| 0 <= j < k ==> e[j].0 != Some(kid))
        implies first_with_kid(e, kid) == Some(k) by {
        match first_with_kid(e, kid) {
            Some(i) => {
                if i < k {
                } else if k < i {
                }
            },
            None => {},
        }
    }
}

/// The current key set of passaporte, absent until the first fetch.
pub struct JwksCache {
    inner: Option<JwkSet>,
}

impl View for JwksCache {
    type V = Option<Seq<KeyEntry>>;

    closed spec fn view(&self) -> Option<Seq<KeyEntry>> {
        match self.inner {
            Some(set) => Some(jwk_set_entries(set)),
            None => None,
        }
    }
}

impl Default for JwksCache {
    /// An empty cache: nothing fetched yet.
    fn default() -> (c: Self)
        ensures
            c@ is None,
    {
        JwksCache { inner: None }
    }
}

impl JwksCache {
    /// An empty cache: nothing fetched yet.
    pub fn new() -> (c: Self)
        ensures
            c@ is None,
    {
        JwksCache { inner: None }
    }

    /// Replace the cached key set.
    pub fn replace(&mut self, jwks: JwkSet)
        ensures
            final(self)@ == Some(jwk_set_entries(jwks)),
    {
        self.inner = Some(jwks);
    }

    /// Apply the outcome of one periodic fetch: a fetched set replaces the
    /// cached one (and its key count is returned); a failed fetch (`None`)
    /// leaves the cache as it was.
    pub fn refresh_with(&mut self, fetched: Option<JwkSet>) -> (count: Option<usize>)
        ensures
            match fetched {
                Some(set) => final(self)@ == Some(jwk_set_entries(set))
                    && count == Some(jwk_set_entries(set).len() as usize),
                None => final(self)@ == old(self)@ && count is None,
            },
    {
        match fetched {
            Some(set) => {
                let n = key_count(&set);
                self.replace(set);
                Some(n)
            },
            None => None,
        }
    }

    /// Whether a key set has been fetched.
    pub fn is_fetched(&self) -> (b: bool)
        ensures
            b == self@ is Some,
    {
        self.inner.is_some()
    }

    /// Look up the decoding key for the `kid` of a token header. Fails when
    /// nothing has been fetched, when the set has no key with this `kid`, or
    /// when that key cannot be decoded.
    pub fn key_for(&self, kid: &str) -> (r: Result<DecodingKey, KeyError>)
        ensures
            key_result_view(r) == spec_key_for(self@, kid@),
    {
        match &self.inner {
            None => Err(KeyError::NotFetched),
            Some(set) => match find_key(set, kid) {
                None => Err(KeyError::UnknownKid(kid.to_owned())),
                Some(jwk) => match key_from_jwk(jwk) {
                    Ok(key) => Ok(key),
                    Err(_) => Err(KeyError::Unusable(kid.to_owned())),
                },
            },
        }
    }
}

} // verus!
