//! Runtime configuration and the URLs derived from it.

use vstd::prelude::*;
use crate::text::{chars_of, end_without, push_char, string_from_range, trim_end_char};
use std::time::Duration;
use vstd::utf8::encode_utf8;

verus! {

/// The settings of one forward-auth instance.
#[derive(Debug, Clone)]
pub struct Config {
    /// Bind address for the auth-url subrequest target.
    pub addr: String,
    /// passaporte issuer URL (used to derive the JWKS endpoint).
    pub passaporte_url: String,
    /// crachá gRPC endpoint.
    pub cracha_url: String,
    /// Cluster this instance runs in (e.g. "rio").
    pub cluster: String,
    /// Location (e.g. "bristol").
    pub location: String,
    /// Decision-cache time to live, in seconds.
    pub decision_ttl_secs: u64,
    /// Token-cache size (entries).
    pub jwt_cache_size: u64,
    /// Stale-OK fallback, in seconds; 0 disables it.
    pub stale_ok_secs: u64,
    /// Audience claim a token must carry.
    pub audience: String,
}

/// The `Duration` that `std::time::Duration::from_secs` makes of `secs`.
pub uninterp spec fn duration_of_secs(secs: u64) -> Duration;

/// `std::time::Duration::from_secs`; claimed to give the duration that
/// `duration_of_secs` names for the same number of seconds.
#[verifier::external_body]
pub(crate) fn duration_from_secs(secs: u64) -> (d: Duration)
    ensures
        d == duration_of_secs(secs),
{
    Duration::from_secs(secs)
}

/// Bytes that stay as they are in a query value.
pub open spec fn is_unreserved(b: u8) -> bool {
    ||| 65 <= b <= 90
    ||| 97 <= b <= 122
    ||| 48 <= b <= 57
    ||| b == 45 || b == 95 || b == 46 || b == 126
}

/// The upper-case hexadecimal digit for `d < 16`.
pub open spec fn hex_digit(d: u8) -> char {
    if d < 10 {
        (48 + d) as char
    } else {
        (55 + d) as char
    }
}

/// One byte of a query value, encoded: itself when unreserved, else `%XX`.
pub open spec fn encode_byte(b: u8) -> Seq<char> {
    if is_unreserved(b) {
        seq![b as char]
    } else {
        seq!['%', hex_digit(b / 16), hex_digit(b % 16)]
    }
}

/// The percent-encoding of a byte string, one byte at a time.
pub open spec fn percent_encode(bytes: Seq<u8>) -> Seq<char>
    decreases bytes.len(),
{
    if bytes.len() == 0 {
        Seq::empty()
    } else {
        percent_encode(bytes.drop_last()) + encode_byte(bytes.last())
    }
}

fn hex_char(d: u8) -> (c: char)
    requires
        d < 16,
    ensures
        c == hex_digit(d),
{
    if d < 10 {
        (48 + d) as char
    } else {
        (55 + d) as char
    }
}

/// Percent-encode one query value (the UTF-8 bytes of `s`).
pub fn urlencoding_encode(s: &str) -> (out: String)
    ensures
        out@ == percent_encode(encode_utf8(s@)),
{
    let bytes = s.as_bytes();
    let mut out = String::new();
    let mut i: usize = 0;
    assert(bytes@.take(0) =~= Seq::<u8>::empty());
    while i < bytes.len()
        invariant
            i <= bytes@.len(),
            bytes@ == encode_utf8(s@),
            out@ == percent_encode(bytes@.take(i as int)),
        decreases bytes.len() - i,
    {
        let byte = bytes[i];
        assert(bytes@.take(i + 1).drop_last() =~= bytes@.take(i as int));
        if (65 <= byte && byte <= 90) || (97 <= byte && byte <= 122) || (48 <= byte && byte <= 57)
            || byte == 45 || byte == 95 || byte == 46 || byte == 126 {
            push_char(&mut out, byte as char);
            assert(out@ =~= percent_encode(bytes@.take(i + 1)));
        } else {
            push_char(&mut out, '%');
            push_char(&mut out, hex_char(byte / 16));
            push_char(&mut out, hex_char(byte % 16));
            assert(out@ =~= percent_encode(bytes@.take(i + 1)));
        }
        i = i + 1;
    }
    assert(bytes@.take(bytes@.len() as int) =~= bytes@);
    out
}

/// The JWKS endpoint for a passaporte URL.
pub open spec fn spec_jwks_url(passaporte: Seq<char>) -> Seq<char> {
    trim_end_char(passaporte, '/') + "/application/o/saguao/jwks/"@
}

/// The sign-in redirect for a passaporte URL and the URL the user asked for.
pub open spec fn spec_signin_url(passaporte: Seq<char>, original: Seq<char>) -> Seq<char> {
    trim_end_char(passaporte, '/') + "/outpost.goauthentik.io/start?rd="@ + percent_encode(encode_utf8(original))
}

/// The passaporte URL without its trailing slashes.
fn trimmed_issuer(url: &String) -> (s: String)
    ensures
        s@ == trim_end_char(url@, '/'),
{
    let chars = chars_of(url.as_str());
    let end = end_without(&chars, '/');
    let s = string_from_range(&chars, 0, end);
    assert(chars@.subrange(0, end as int) =~= chars@.take(end as int));
    s
}

/// Characters that may stand in a query value as they are: the unreserved
/// ASCII set and `%`.
pub open spec fn is_query_char(c: char) -> bool {
    ||| c == '%'
    ||| ('A' <= c && c <= 'Z')
    ||| ('a' <= c && c <= 'z')
    ||| ('0' <= c && c <= '9')
    ||| c == '-' || c == '_' || c == '.' || c == '~'
}

/// The value of an upper-case hexadecimal digit.
pub open spec fn hex_value(c: char) -> int {
    if c <= '9' {
        c as int - 48
    } else {
        c as int - 55
    }
}

/// Reverse of `percent_encode`, read from the end: a `%` three characters
/// from the end starts an escape; anything else is a byte of its own.
pub open spec fn percent_decode(s: Seq<char>) -> Seq<u8>
    decreases s.len(),
{
    if s.len() == 0 {
        Seq::empty()
    } else if s.len() >= 3 && s[s.len() - 3] == '%' {
        percent_decode(s.take(s.len() - 3)).push((hex_value(s[s.len() - 2]) * 16 + hex_value(s.last())) as u8)
    } else {
        percent_decode(s.drop_last()).push(s.last() as u8)
    }
}

/// In an encoding, every `%` is followed by two more characters.
pub open spec fn escapes_complete(s: Seq<char>) -> bool {
    forall|i: int| 0 <= i < s.len() && s[i] == '%' ==> i + 2 < s.len()
}

proof fn lemma_hex_digit(d: u8)
    requires
        d < 16,
    ensures
        hex_value(hex_digit(d)) == d,
        hex_digit(d) != '%',
        is_query_char(hex_digit(d)),
{
}

proof fn lemma_encode_byte(b: u8)
    ensures
        forall|i: int| 0 <= i < encode_byte(b).len() ==> is_query_char(#[trigger] encode_byte(b)[i]),
        is_unreserved(b) ==> encode_byte(b).len() == 1 && encode_byte(b)[0] != '%'
            && encode_byte(b)[0] as u8 == b,
        !is_unreserved(b) ==> encode_byte(b).len() == 3 && encode_byte(b)[0] == '%'
            && encode_byte(b)[1] != '%' && encode_byte(b)[2] != '%'
            && hex_value(encode_byte(b)[1]) * 16 + hex_value(encode_byte(b)[2]) == b,
{
    lemma_hex_digit(b / 16);
    lemma_hex_digit(b % 16);
}

proof fn lemma_encode_well_formed(bytes: Seq<u8>)
    ensures
        escapes_complete(percent_encode(bytes)),
        forall|i: int| 0 <= i < percent_encode(bytes).len() ==> is_query_char(#[trigger] percent_encode(bytes)[i]),
        percent_decode(percent_encode(bytes)) == bytes,
    decreases bytes.len(),
{
    if bytes.len() > 0 {
        let head = bytes.drop_last();
        let b = bytes.last();
        lemma_encode_well_formed(head);
        lemma_encode_byte(b);
        let e = percent_encode(head);
        let g = encode_byte(b);
        let s = percent_encode(bytes);
        assert(s == e + g);
        assert forall|i: int| 0 <= i < s.len() implies is_query_char(#[trigger] s[i]) by {
            if i >= e.len() {
                assert(s[i] == g[i - e.len()]);
            } else {
                assert(s[i] == e[i]);
            }
        }
        assert forall|i: int| 0 <= i < s.len() && s[i] == '%' implies i + 2 < s.len() by {
            if i < e.len() {
                assert(s[i] == e[i]);
            } else {
                assert(s[i] == g[i - e.len()]);
            }
        }
        if is_unreserved(b) {
            if s.len() >= 3 {
                assert(s[s.len() - 3] == e[e.len() - 2]);
            }
            assert(s.drop_last() =~= e);
        } else {
            assert(s.take(s.len() - 3) =~= e);
            assert(s[s.len() - 3] == g[0]);
            assert(s[s.len() - 2] == g[1]);
            assert(s.last() == g[2]);
        }
        assert(percent_decode(s) =~= bytes);
    }
}

/// Law: the encoding of a query value uses only characters that may stand
/// in a query as they are, and decoding it gives back the bytes encoded, so
/// the redirect target survives the round trip unchanged.
pub proof fn law_encoding_round_trip(bytes: Seq<u8>)
    ensures
        forall|i: int| 0 <= i < percent_encode(bytes).len() ==> is_query_char(#[trigger] percent_encode(bytes)[i]),
        percent_decode(percent_encode(bytes)) == bytes,
{
    lemma_encode_well_formed(bytes);
}

/// Law: the encoding works byte by byte, so the encoding of two byte
/// strings one after the other is their encodings one after the other.
pub proof fn law_encoding_concatenates(a: Seq<u8>, b: Seq<u8>)
    ensures
        percent_encode(a + b) == percent_encode(a) + percent_encode(b),
    decreases b.len(),
{
    if b.len() == 0 {
        assert(a + b =~= a);
        assert(percent_encode(a) + percent_encode(b) =~= percent_encode(a));
    } else {
        law_encoding_concatenates(a, b.drop_last());
        assert((a + b).drop_last() =~= a + b.drop_last());
        assert((a + b).last() == b.last());
        assert(percent_encode(a) + percent_encode(b.drop_last()) + encode_byte(b.last())
            =~= percent_encode(a) + (percent_encode(b.drop_last()) + encode_byte(b.last())));
    }
}

/// Law: the sign-in URL is the passaporte URL (without trailing slashes)
/// followed by `/outpost.goauthentik.io/start?rd=` and a value of query
/// characters that decodes to the whole original URL, query included.
pub proof fn law_signin_url_carries_original(passaporte: Seq<char>, original: Seq<char>)
    ensures
        ({
            let prefix = trim_end_char(passaporte, '/') + "/outpost.goauthentik.io/start?rd="@;
            let url = spec_signin_url(passaporte, original);
            &&& url.take(prefix.len() as int) == prefix
            &&& percent_decode(url.skip(prefix.len() as int)) == encode_utf8(original)
            &&& forall|i: int| prefix.len() <= i < url.len() ==> is_query_char(#[trigger] url[i])
        }),
        (passaporte.len() == 0 || passaporte.last() != '/') ==> trim_end_char(passaporte, '/') == passaporte,
{
    let prefix = trim_end_char(passaporte, '/') + "/outpost.goauthentik.io/start?rd="@;
    let e = percent_encode(encode_utf8(original));
    let url = spec_signin_url(passaporte, original);
    assert(url =~= prefix + e);
    assert(url.take(prefix.len() as int) =~= prefix);
    assert(url.skip(prefix.len() as int) =~= e);
    law_encoding_round_trip(encode_utf8(original));
    assert forall|i: int| prefix.len() <= i < url.len() implies is_query_char(#[trigger] url[i]) by {
        assert(url[i] == e[i - prefix.len()]);
    }
}

/// Law: trailing slashes of the passaporte URL do not change the derived
/// endpoints.
pub proof fn law_trailing_slash_ignored(passaporte: Seq<char>, original: Seq<char>)
    ensures
        spec_jwks_url(passaporte.push('/')) == spec_jwks_url(passaporte),
        spec_signin_url(passaporte.push('/'), original) == spec_signin_url(passaporte, original),
{
    assert(passaporte.push('/').drop_last() =~= passaporte);
}

impl Config {
    /// The decision-cache time to live.
    pub fn decision_ttl(&self) -> (d: Duration)
        ensures
            d == duration_of_secs(self.decision_ttl_secs),
    {
        duration_from_secs(self.decision_ttl_secs)
    }

    /// Authentik's JWKS endpoint, derived from the passaporte URL: the
    /// "saguao" application's `/application/o/<slug>/jwks/`.
    pub fn jwks_url(&self) -> (u: String)
        ensures
            u@ == spec_jwks_url(self.passaporte_url@),
    {
        let mut u = trimmed_issuer(&self.passaporte_url);
        u.append("/application/o/saguao/jwks/");
        u
    }

    /// Authentik's sign-in endpoint, with the URL the user asked for
    /// percent-encoded as the `rd` query value.
    pub fn signin_url(&self, original_uri: &str) -> (u: String)
        ensures
            u@ == spec_signin_url(self.passaporte_url@, original_uri@),
    {
        let encoded = urlencoding_encode(original_uri);
        let mut u = trimmed_issuer(&self.passaporte_url);
        u.append("/outpost.goauthentik.io/start?rd=");
        u.append(encoded.as_str());
        u
    }
}

} // verus!
