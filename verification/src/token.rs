//! Finding the session token in a forwarded request, and verifying it
//! against the cached key set.

use vstd::prelude::*;
use crate::config::Config;
use crate::cache::{ClaimsView, VerifiedClaims};
use crate::jwks::{key_error_text, spec_key_for, JwksCache, KeyError, KeyErrorView};
use jsonwebtoken::{Algorithm, DecodingKey, Validation};
use crate::text::{
    chars_of, has_prefix, is_space, lemma_split_on_no_sep, lemma_trim_unchanged, split_chars, split_on, starts_with,
    string_from_range, trim, trim_chars, char_vecs_view,
};

verus! {

/// The token of an `Authorization: Bearer <token>` header value.
pub open spec fn bearer_token(authorization: Option<Seq<char>>) -> Option<Seq<char>> {
    match authorization {
        Some(a) => if has_prefix(a, "Bearer "@) {
            Some(a.skip(7))
        } else {
            None
        },
        None => None,
    }
}

/// The value of the first `X-Saguao-Session=` cookie among `pieces` (the
/// `;`-separated parts of a `Cookie` header), each trimmed of white space.
pub open spec fn session_in(pieces: Seq<Seq<char>>) -> Option<Seq<char>>
    decreases pieces.len(),
{
    if pieces.len() == 0 {
        None
    } else if has_prefix(trim(pieces[0]), "X-Saguao-Session="@) {
        Some(trim(pieces[0]).skip(17))
    } else {
        session_in(pieces.drop_first())
    }
}

/// The session cookie of a `Cookie` header value.
pub open spec fn session_cookie(cookie: Option<Seq<char>>) -> Option<Seq<char>> {
    match cookie {
        Some(c) => session_in(split_on(c, ';')),
        None => None,
    }
}

/// The token of a request: the session cookie wins; a bearer token is the
/// fallback.
pub open spec fn spec_extract_jwt(authorization: Option<Seq<char>>, cookie: Option<Seq<char>>) -> Option<Seq<char>> {
    match session_cookie(cookie) {
        Some(t) => Some(t),
        None => bearer_token(authorization),
    }
}

/// Law: with no session cookie, a `Bearer ` authorization gives exactly the
/// rest of the header value as the token, whatever it holds.
pub proof fn law_bearer_token_is_rest(token: Seq<char>, cookie: Option<Seq<char>>)
    requires
        session_cookie(cookie) is None,
    ensures
        spec_extract_jwt(Some("Bearer "@ + token), cookie) == Some(token),
{
    reveal_strlit("Bearer ");
    let a = "Bearer "@ + token;
    assert(a.take(7) =~= "Bearer "@);
    assert(a.skip(7) =~= token);
}

/// Law: a session cookie, when there is one, is the token whatever the
/// authorization header holds; with neither a cookie nor a `Bearer `
/// authorization there is no token.
pub proof fn law_session_cookie_wins(authorization: Option<Seq<char>>, cookie: Option<Seq<char>>)
    ensures
        session_cookie(cookie) matches Some(t) ==> spec_extract_jwt(authorization, cookie) == Some(t),
        session_cookie(cookie) is None && bearer_token(authorization) is None
            ==> spec_extract_jwt(authorization, cookie) is None,
{
}

/// Law: a cookie header that is a single `X-Saguao-Session=<v>` cookie, with
/// `v` free of `;` and of white space, gives exactly `v`.
pub proof fn law_single_session_cookie(v: Seq<char>, authorization: Option<Seq<char>>)
    requires
        forall|i: int| 0 <= i < v.len() ==> v[i] != ';' && !is_space(#[trigger] v[i]),
    ensures
        spec_extract_jwt(authorization, Some("X-Saguao-Session="@ + v)) == Some(v),
{
    reveal_strlit("X-Saguao-Session=");
    let c = "X-Saguao-Session="@ + v;
    assert(c.len() == 17 + v.len());
    assert forall|i: int| 0 <= i < c.len() implies c[i] != ';' by {
        if i >= 17 {
            assert(c[i] == v[i - 17]);
        }
    }
    assert(!c.contains(';'));
    lemma_split_on_no_sep(c, ';');
    lemma_trim_unchanged(c);
    assert(c.take(17) =~= "X-Saguao-Session="@);
    assert(c.skip(17) =~= v);
}

/// The characters of a literal.
fn literal_chars(s: &str) -> (v: Vec<char>)
    ensures
        v@ == s@,
{
    chars_of(s)
}

/// The rest of `v` after a prefix of `n` characters.
fn rest_after(v: &Vec<char>, n: usize) -> (s: String)
    requires
        n <= v.len(),
    ensures
        s@ == v@.skip(n as int),
{
    let s = string_from_range(v, n, v.len());
    assert(v@.subrange(n as int, v@.len() as int) =~= v@.skip(n as int));
    s
}

/// Read the session token from the forwarded `Authorization` and `Cookie`
/// header values: the first `X-Saguao-Session=` cookie is preferred; a
/// `Bearer ` authorization is the fallback.
pub fn extract_jwt(authorization: Option<&str>, cookie: Option<&str>) -> (t: Option<String>)
    ensures
        t.deep_view() == spec_extract_jwt(
            match authorization { Some(a) => Some(a@), None => None },
            match cookie { Some(c) => Some(c@), None => None },
        ),
{
    let name = literal_chars("X-Saguao-Session=");
    proof { reveal_strlit("X-Saguao-Session="); }
    assert(name@.len() == 17);
    if let Some(cookies) = cookie {
        let c = chars_of(cookies);
        let pieces = split_chars(&c, ';');
        let ghost all = char_vecs_view(pieces@);
        let mut i: usize = 0;
        assert(all.skip(0) =~= all);
        while i < pieces.len()
            invariant
                i <= pieces.len(),
                all == char_vecs_view(pieces@),
                all == split_on(cookies@, ';'),
                name@ == "X-Saguao-Session="@,
                name@.len() == 17,
                cookie == Some(cookies),
                session_in(all) == session_in(all.skip(i as int)),
            decreases pieces.len() - i,
        {
            let piece = trim_chars(&pieces[i]);
            assert(all.skip(i as int)[0] == pieces@[i as int]@);
            if starts_with(&piece, &name) {
                let t = rest_after(&piece, 17);
                assert(session_in(all.skip(i as int)) == Some(t@));
                assert(session_cookie(Some(cookies@)) == Some(t@));
                return Some(t);
            }
            assert(all.skip(i as int).drop_first() =~= all.skip(i + 1));
            i = i + 1;
        }
        assert(all.skip(i as int).len() == 0);
    }
    assert(session_cookie(match cookie { Some(c) => Some(c@), None => None }) is None);
    let bearer = literal_chars("Bearer ");
    proof { reveal_strlit("Bearer "); }
    assert(bearer@.len() == 7);
    if let Some(auth) = authorization {
        let a = chars_of(auth);
        if starts_with(&a, &bearer) {
            return Some(rest_after(&a, 7));
        }
    }
    None
}

#[verifier::external_type_specification]
#[verifier::external_body]
pub struct ExAlgorithm(Algorithm);

#[verifier::external_type_specification]
#[verifier::external_body]
pub struct ExJsonValue(serde_json::Value);

/// The `kid` and `alg` that `jsonwebtoken::decode_header` reads from a
/// token's header, or, when the header does not decode, the text that its
/// error displays.
pub uninterp spec fn jwt_header(token: Seq<char>) -> Result<(Option<Seq<char>>, Algorithm), Seq<char>>;

/// The text that a `jsonwebtoken::errors::Error` displays.
pub uninterp spec fn jwt_error_text(error: jsonwebtoken::errors::Error) -> Seq<char>;

/// Whether `jsonwebtoken::decode` accepts `token` under `key` with the
/// validation of `Validation::new(alg)` and `set_audience(&[audience])`,
/// leaving the clock aside: the header's algorithm is `alg` and of the key's
/// family, the signature verifies, the claims parse, `exp` is present, and an
/// `aud` claim, where there is one, admits `audience`.
pub uninterp spec fn jwt_accepts(token: Seq<char>, key: DecodingKey, alg: Algorithm, audience: Seq<char>) -> bool;

/// The claims (payload) of `token`, parsed as JSON.
pub uninterp spec fn jwt_payload(token: Seq<char>) -> serde_json::Value;

/// The member `name` of a JSON value (`serde_json::Value::get`): none for a
/// missing member, or for a value that is not an object.
pub uninterp spec fn json_get(value: serde_json::Value, name: Seq<char>) -> Option<serde_json::Value>;

/// The JSON shape of a value, as the claims are read: null, a string, an
/// integer that fits in `i64` (`Number::as_i64`), or something else.
pub uninterp spec fn json_shape(value: serde_json::Value) -> ClaimFieldView;

/// The member `name` of a JSON value, by its JSON shape.
pub open spec fn json_member(value: serde_json::Value, name: Seq<char>) -> ClaimFieldView {
    match json_get(value, name) {
        None => ClaimFieldView::Absent,
        Some(v) => json_shape(v),
    }
}

/// The displayed text of a jsonwebtoken error (`to_string`); claimed to be
/// what `jwt_error_text` names.
#[verifier::external_body]
fn error_text(error: &jsonwebtoken::errors::Error) -> (t: String)
    ensures
        t@ == jwt_error_text(*error),
{
    error.to_string()
}

/// `jsonwebtoken::decode_header`, handing back the header's `kid` and `alg`
/// fields; claimed to be the ones `jwt_header` names, or, on a failure, an
/// error whose text `jwt_header` names.
#[verifier::external_body]
fn header_of(token: &str) -> (r: Result<(Option<String>, Algorithm), jsonwebtoken::errors::Error>)
    ensures
        match r {
            Ok((kid, alg)) => jwt_header(token@) == Ok::<(Option<Seq<char>>, Algorithm), Seq<char>>((kid.deep_view(), alg)),
            Err(e) => jwt_header(token@) == Err::<(Option<Seq<char>>, Algorithm), Seq<char>>(jwt_error_text(e)),
        },
{
    jsonwebtoken::decode_header(token).map(|h| (h.kid, h.alg))
}

/// `jsonwebtoken::decode`, with the validation that `Validation::new(alg)`
/// and `set_audience(&[audience])` build, handing back the claims as JSON.
/// Claimed: a success only where `jwt_accepts` holds, and then the claims are
/// the token's payload. Where `jwt_accepts` holds, whether it succeeds also
/// depends on the current time (the `exp` check, with its leeway), which is
/// left unsaid.
#[verifier::external_body]
fn decode_claims(token: &str, key: &DecodingKey, alg: Algorithm, audience: &str)
    -> (r: Result<serde_json::Value, jsonwebtoken::errors::Error>)
    ensures
        r is Ok ==> jwt_accepts(token@, *key, alg, audience@),
        r matches Ok(v) ==> v == jwt_payload(token@),
{
    let mut validation = Validation::new(alg);
    validation.set_audience(&[audience]);
    jsonwebtoken::decode::<serde_json::Value>(token, key, &validation).map(|data| data.claims)
}

/// One claim of a token's claims object, by its JSON shape.
#[derive(Debug, Clone)]
pub enum ClaimField {
    Absent,
    Null,
    Text(String),
    Integer(i64),
    Other,
}

pub enum ClaimFieldView {
    Absent,
    Null,
    Text(Seq<char>),
    Integer(i64),
    Other,
}

impl View for ClaimField {
    type V = ClaimFieldView;

    open spec fn view(&self) -> ClaimFieldView {
        match self {
            ClaimField::Absent => ClaimFieldView::Absent,
            ClaimField::Null => ClaimFieldView::Null,
            ClaimField::Text(s) => ClaimFieldView::Text(s@),
            ClaimField::Integer(i) => ClaimFieldView::Integer(*i),
            ClaimField::Other => ClaimFieldView::Other,
        }
    }
}

/// `serde_json::Value::get`, handing back a copy of the member; claimed to
/// be what `json_get` names.
#[verifier::external_body]
pub(crate) fn member_value(value: &serde_json::Value, name: &str) -> (r: Option<serde_json::Value>)
    ensures
        r == json_get(*value, name@),
{
    value.get(name).cloned()
}

/// The variant of a JSON value (and `Number::as_i64` for a number), as a
/// `ClaimField`; claimed to be what `json_shape` names.
#[verifier::external_body]
fn value_shape(value: &serde_json::Value) -> (f: ClaimField)
    ensures
        f@ == json_shape(*value),
{
    match value {
        serde_json::Value::Null => ClaimField::Null,
        serde_json::Value::String(s) => ClaimField::Text(s.clone()),
        serde_json::Value::Number(n) => match n.as_i64() {
            Some(i) => ClaimField::Integer(i),
            None => ClaimField::Other,
        },
        _ => ClaimField::Other,
    }
}

/// The member `name` of a claims object, by its JSON shape.
pub fn claim_field(claims: &serde_json::Value, name: &str) -> (f: ClaimField)
    ensures
        f@ == json_member(*claims, name@),
{
    match member_value(claims, name) {
        None => ClaimField::Absent,
        Some(v) => value_shape(&v),
    }
}

/// The claims the library keeps, read from the `sub`, `email` and `exp`
/// members: `sub` must be a string, `email` a string, null or absent, and
/// `exp` an integer that fits in `i64`.
pub open spec fn spec_claims_from_fields(sub: ClaimFieldView, email: ClaimFieldView, exp: ClaimFieldView) -> Option<ClaimsView> {
    match (sub, email, exp) {
        (ClaimFieldView::Text(s), ClaimFieldView::Absent, ClaimFieldView::Integer(e)) =>
            Some(ClaimsView { sub: s, email: None, exp: e }),
        (ClaimFieldView::Text(s), ClaimFieldView::Null, ClaimFieldView::Integer(e)) =>
            Some(ClaimsView { sub: s, email: None, exp: e }),
        (ClaimFieldView::Text(s), ClaimFieldView::Text(m), ClaimFieldView::Integer(e)) =>
            Some(ClaimsView { sub: s, email: Some(m), exp: e }),
        _ => None,
    }
}

/// The claims a claims object carries, read from its `sub`, `email` and
/// `exp` members.
pub open spec fn payload_claims(payload: serde_json::Value) -> Option<ClaimsView> {
    spec_claims_from_fields(
        json_member(payload, "sub"@),
        json_member(payload, "email"@),
        json_member(payload, "exp"@),
    )
}

/// The claims a token carries, read from its payload.
pub open spec fn token_claims(token: Seq<char>) -> Option<ClaimsView> {
    payload_claims(jwt_payload(token))
}

/// Build the verified claims from the three members of a claims object.
pub fn claims_from_fields(sub: ClaimField, email: ClaimField, exp: ClaimField) -> (c: Option<VerifiedClaims>)
    ensures
        match c {
            Some(c) => spec_claims_from_fields(sub@, email@, exp@) == Some(c@),
            None => spec_claims_from_fields(sub@, email@, exp@) is None,
        },
{
    let sub = match sub {
        ClaimField::Text(s) => s,
        _ => return None,
    };
    let exp = match exp {
        ClaimField::Integer(e) => e,
        _ => return None,
    };
    let email = match email {
        ClaimField::Absent => None,
        ClaimField::Null => None,
        ClaimField::Text(m) => Some(m),
        _ => return None,
    };
    Some(VerifiedClaims { sub, email, exp })
}

/// What a decode gave, turned into the verified claims: a failed decode is
/// a rejected token, with the decode error's text; decoded claims of the
/// wrong shape are `BadClaims`.
pub fn claims_from_decoded(decoded: Result<serde_json::Value, jsonwebtoken::errors::Error>) -> (r: Result<VerifiedClaims, VerifyError>)
    ensures
        match decoded {
            Err(e) => r matches Err(VerifyError::Rejected(t)) && t@ == jwt_error_text(e),
            Ok(v) => match payload_claims(v) {
                Some(c) => r matches Ok(x) && x@ == c,
                None => r == Err::<VerifiedClaims, VerifyError>(VerifyError::BadClaims),
            },
        },
{
    let claims = match decoded {
        Ok(c) => c,
        Err(e) => return Err(VerifyError::Rejected(error_text(&e))),
    };
    let sub = claim_field(&claims, "sub");
    let email = claim_field(&claims, "email");
    let exp = claim_field(&claims, "exp");
    match claims_from_fields(sub, email, exp) {
        Some(c) => Ok(c),
        None => Err(VerifyError::BadClaims),
    }
}

/// Why a token was not accepted.
#[derive(Debug, Clone, PartialEq, Eq)]
pub enum VerifyError {
    /// The token's header does not decode; the decode error's text.
    Malformed(String),
    /// The header names no key (`kid`).
    MissingKid,
    /// No usable key for the header's `kid`.
    Key(KeyError),
    /// Signature, algorithm, audience or expiry check failed; the decode
    /// error's text.
    Rejected(String),
    /// The claims lack `sub` or `exp`, or have the wrong shape.
    BadClaims,
}

pub enum VerifyErrorView {
    Malformed(Seq<char>),
    MissingKid,
    Key(KeyErrorView),
    Rejected(Seq<char>),
    BadClaims,
}

impl View for VerifyError {
    type V = VerifyErrorView;

    open spec fn view(&self) -> VerifyErrorView {
        match self {
            VerifyError::Malformed(t) => VerifyErrorView::Malformed(t@),
            VerifyError::MissingKid => VerifyErrorView::MissingKid,
            VerifyError::Key(e) => VerifyErrorView::Key(e@),
            VerifyError::Rejected(t) => VerifyErrorView::Rejected(t@),
            VerifyError::BadClaims => VerifyErrorView::BadClaims,
        }
    }
}

/// The text of a `VerifyError`.
pub open spec fn verify_error_text(e: VerifyErrorView) -> Seq<char> {
    match e {
        VerifyErrorView::Malformed(t) => t,
        VerifyErrorView::MissingKid => "JWT has no kid"@,
        VerifyErrorView::Key(k) => key_error_text(k),
        VerifyErrorView::Rejected(t) => t,
        VerifyErrorView::BadClaims => "JWT claims lack sub or exp, or have the wrong shape"@,
    }
}

impl VerifyError {
    /// The human-readable description of the error.
    pub fn message(&self) -> (m: String)
        ensures
            m@ == verify_error_text(self@),
    {
        match self {
            VerifyError::Malformed(t) => t.clone(),
            VerifyError::MissingKid => String::from_str("JWT has no kid"),
            VerifyError::Key(k) => k.message(),
            VerifyError::Rejected(t) => t.clone(),
            VerifyError::BadClaims => String::from_str("JWT claims lack sub or exp, or have the wrong shape"),
        }
    }
}

/// What is known of a verification before the signature check: the header
/// must decode, name a key, and the key must be in the cached set. `None`
/// means that all of this holds and the decode decides.
pub open spec fn verify_precheck(keys: Option<Seq<crate::jwks::KeyEntry>>, token: Seq<char>) -> Option<VerifyErrorView> {
    match jwt_header(token) {
        Err(t) => Some(VerifyErrorView::Malformed(t)),
        Ok((None, _)) => Some(VerifyErrorView::MissingKid),
        Ok((Some(kid), _)) => match spec_key_for(keys, kid) {
            Err(e) => Some(VerifyErrorView::Key(e)),
            Ok(_) => None,
        },
    }
}

/// Whether `token` passes every check of the decode apart from the clock,
/// under the key the cached set holds for its `kid` and the algorithm of its
/// header (false where the precheck fails).
pub open spec fn token_accepted(keys: Option<Seq<crate::jwks::KeyEntry>>, token: Seq<char>, audience: Seq<char>) -> bool {
    match jwt_header(token) {
        Ok((Some(kid), alg)) => match spec_key_for(keys, kid) {
            Ok(key) => jwt_accepts(token, key, alg, audience),
            Err(_) => false,
        },
        _ => false,
    }
}

/// Law: a token whose header names a key that the cached set does not hold
/// (or when no set has been fetched) is never accepted, whatever the
/// audience.
pub proof fn law_unknown_kid_rejected(
    keys: Option<Seq<crate::jwks::KeyEntry>>,
    token: Seq<char>,
    kid: Seq<char>,
    audience: Seq<char>,
)
    requires
        jwt_header(token) matches Ok((Some(k), _)) && k == kid,
        match keys {
            Some(e) => forall|i: int| 0 <= i < e.len() ==> e[i].0 != Some(kid),
            None => true,
        },
    ensures
        verify_precheck(keys, token) is Some,
        !token_accepted(keys, token, audience),
{
    if let Some(e) = keys {
        crate::jwks::lemma_first_with_kid(e, kid);
    }
}

/// Verify a session token: decode its header, look up the key its `kid`
/// names, check signature, algorithm, audience and expiry, and read the
/// claims. A success needs every check but the clock to pass
/// (`token_accepted`) and gives exactly the claims of the token's payload;
/// a failed check is `Rejected`, and `BadClaims` comes only for a token
/// whose payload has claims of the wrong shape. Where every check but the
/// clock passes, whether the decode succeeds still depends on the clock.
pub fn verify_jwt(jwks: &JwksCache, config: &Config, token: &str) -> (r: Result<VerifiedClaims, VerifyError>)
    ensures
        match verify_precheck(jwks@, token@) {
            Some(e) => r matches Err(err) && err@ == e,
            None => {
                &&& r matches Ok(c) ==> token_accepted(jwks@, token@, config.audience@)
                    && token_claims(token@) == Some(c@)
                &&& !token_accepted(jwks@, token@, config.audience@)
                    ==> (r matches Err(VerifyError::Rejected(_)))
                &&& r == Err::<VerifiedClaims, VerifyError>(VerifyError::BadClaims)
                    ==> token_accepted(jwks@, token@, config.audience@) && token_claims(token@) is None
                &&& token_claims(token@) is None ==> r is Err
                &&& r is Err ==> (r matches Err(VerifyError::Rejected(_)))
                    || r == Err::<VerifiedClaims, VerifyError>(VerifyError::BadClaims)
            },
        },
{
    let (kid, alg) = match header_of(token) {
        Ok(h) => h,
        Err(e) => return Err(VerifyError::Malformed(error_text(&e))),
    };
    let kid = match kid {
        Some(k) => k,
        None => return Err(VerifyError::MissingKid),
    };
    let key = match jwks.key_for(kid.as_str()) {
        Ok(k) => k,
        Err(e) => return Err(VerifyError::Key(e)),
    };
    let decoded = decode_claims(token, &key, alg, config.audience.as_str());
    claims_from_decoded(decoded)
}

} // verus!
