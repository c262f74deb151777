//! The Authenticator: validates an inbound request's proxy-authorization
//! header against the configured credential pair, or accepts every request
//! when no pair is configured.
//!
//! A well-formed header value is the bytes of `"Basic "` followed by a
//! base64 encoding of `username:password`. Anything else — a missing
//! header, a different scheme, garbled base64, or mismatched credentials —
//! is denied with a 407 challenge.

use vstd::prelude::*;

use crate::response::{auth_challenge_response, is_auth_challenge, HttpResponse};

verus! {

/// The single shared credential pair the proxy may be configured with,
/// each part held as its UTF-8 bytes.
pub struct Credential {
    /// The username.
    pub username: Vec<u8>,
    /// The password.
    pub password: Vec<u8>,
}

/// The outcome of checking one request's credentials.
pub enum AuthOutcome {
    /// The request may proceed.
    Allowed,
    /// The request is rejected; the carried response is sent as-is.
    Denied(HttpResponse),
}

/// The byte string `username:password` that a granting header encodes.
pub open spec fn userinfo_of(c: Credential) -> Seq<u8> {
    c.username@ + seq![58u8] + c.password@
}

/// The bytes of `"Basic "`, the scheme prefix of a well-formed header value.
pub open spec fn basic_prefix() -> Seq<u8> {
    seq![66u8, 97u8, 115u8, 105u8, 99u8, 32u8]
}

/// What the standard base64 engine decodes a byte string to: `Some` of the
/// decoded bytes when the input is a well-formed encoding, `None` otherwise.
/// The decoding is a function of the input bytes alone.
pub uninterp spec fn base64_decode_of(s: Seq<u8>) -> Option<Seq<u8>>;

/// Relies on base64's `Engine::decode` with the `STANDARD` engine: the
/// result is computed from the input bytes alone.
#[verifier::external_body]
fn decode_base64(encoded: &[u8]) -> (r: Option<Vec<u8>>)
    ensures
        (match r {
            Some(v) => base64_decode_of(encoded@) == Some(v@),
            None => base64_decode_of(encoded@) is None,
        }),
{
    base64::Engine::decode(&base64::engine::general_purpose::STANDARD, encoded).ok()
}

/// A header value grants access against credential `c` when it is
/// `"Basic "` followed by a base64 encoding of exactly `username:password`.
pub open spec fn header_grants(c: Credential, h: Seq<u8>) -> bool {
    &&& h.len() >= 6
    &&& h.subrange(0, 6) == basic_prefix()
    &&& base64_decode_of(h.skip(6)) == Some(userinfo_of(c))
}

/// The authentication decision: with no credential configured every request
/// is allowed; with one configured, only a request whose header grants
/// access against it.
pub open spec fn auth_allowed(cred: Option<Credential>, header: Option<Seq<u8>>) -> bool {
    match cred {
        None => true,
        Some(c) => match header {
            Some(h) => header_grants(c, h),
            None => false,
        },
    }
}

/// The contents of an optional header value.
pub open spec fn header_view(h: Option<Vec<u8>>) -> Option<Seq<u8>> {
    match h {
        Some(v) => Some(v@),
        None => None,
    }
}

/// Byte-for-byte equality of two byte strings.
pub fn bytes_eq(a: &[u8], b: &[u8]) -> (r: bool)
    ensures
        r == (a@ == b@),
{
    if a.len() != b.len() {
        return false;
    }
    let mut i: usize = 0;
    while i < a.len()
        invariant
            i <= a@.len(),
            a@.len() == b@.len(),
            forall|j: int| 0 <= j < i ==> a@[j] == b@[j],
        decreases a@.len() - i,
    {
        if a[i] != b[i] {
            return false;
        }
        i = i + 1;
    }
    proof {
        assert(a@ =~= b@);
    }
    true
}

/// The bytes of `"Basic "` as an executable value.
fn basic_prefix_bytes() -> (r: Vec<u8>)
    ensures
        r@ == basic_prefix(),
{
    let mut v: Vec<u8> = Vec::new();
    v.push(66);
    v.push(97);
    v.push(115);
    v.push(105);
    v.push(99);
    v.push(32);
    proof {
        assert(v@ =~= basic_prefix());
    }
    v
}

/// Whether the header value begins with the bytes of `"Basic "`.
fn has_basic_prefix(h: &Vec<u8>) -> (r: bool)
    ensures
        r == (h@.len() >= 6 && h@.subrange(0, 6) == basic_prefix()),
{
    if h.len() < 6 {
        return false;
    }
    let prefix = basic_prefix_bytes();
    let head = vstd::slice::slice_subrange(h.as_slice(), 0, 6);
    bytes_eq(head, prefix.as_slice())
}

/// The expected `username:password` byte string for a credential.
fn userinfo_bytes(c: &Credential) -> (r: Vec<u8>)
    ensures
        r@ == userinfo_of(*c),
{
    let mut r: Vec<u8> = vstd::slice::slice_to_vec(c.username.as_slice());
    r.push(58);
    let mut i: usize = 0;
    while i < c.password.len()
        invariant
            i <= c.password@.len(),
            r@ == c.username@ + seq![58u8] + c.password@.subrange(0, i as int),
        decreases c.password@.len() - i,
    {
        r.push(c.password[i]);
        proof {
            assert(r@ =~= c.username@ + seq![58u8] + c.password@.subrange(0, i + 1 as int));
        }
        i = i + 1;
    }
    proof {
        assert(c.password@.subrange(0, c.password@.len() as int) =~= c.password@);
    }
    r
}

/// Whether a decoded authorization payload matches the configured
/// credential pair exactly: `username:password`, byte for byte.
pub fn credentials_match(decoded: &Vec<u8>, cred: &Credential) -> (r: bool)
    ensures
        r == (decoded@ == userinfo_of(*cred)),
{
    let expected = userinfo_bytes(cred);
    bytes_eq(decoded.as_slice(), expected.as_slice())
}

/// The Authenticator. Returns `Allowed` exactly when the decision
/// `auth_allowed` holds of the configured credential and the request's
/// proxy-authorization header; every denial carries the full 407 challenge
/// response.
pub fn check_proxy_auth(cred: &Option<Credential>, header: &Option<Vec<u8>>) -> (o: AuthOutcome)
    ensures
        (o is Allowed) == auth_allowed(*cred, header_view(*header)),
        (o matches AuthOutcome::Denied(r) ==> is_auth_challenge(r)),
{
    match cred {
        None => AuthOutcome::Allowed,
        Some(c) => match header {
            None => AuthOutcome::Denied(auth_challenge_response()),
            Some(h) => {
                if has_basic_prefix(h) {
                    let encoded = vstd::slice::slice_subrange(h.as_slice(), 6, h.len());
                    proof {
                        assert(encoded@ =~= h@.skip(6));
                    }
                    match decode_base64(encoded) {
                        Some(decoded) => {
                            if credentials_match(&decoded, c) {
                                AuthOutcome::Allowed
                            } else {
                                AuthOutcome::Denied(auth_challenge_response())
                            }
                        },
                        None => AuthOutcome::Denied(auth_challenge_response()),
                    }
                } else {
                    AuthOutcome::Denied(auth_challenge_response())
                }
            },
        },
    }
}

/// Law: with a credential configured, any request whose header is
/// `"Basic "` followed by a base64 encoding of exactly `username:password`
/// is allowed.
pub proof fn lemma_matching_header_allowed(c: Credential, h: Seq<u8>)
    requires
        h.len() >= 6,
        h.subrange(0, 6) == basic_prefix(),
        base64_decode_of(h.skip(6)) == Some(userinfo_of(c)),
    ensures
        auth_allowed(Some(c), Some(h)),
{
}

/// Law: with no credential configured, every request is allowed, whatever
/// header it carries or omits.
pub proof fn lemma_no_credential_always_allowed(header: Option<Seq<u8>>)
    ensures
        auth_allowed(None, header),
{
}

} // verus!
