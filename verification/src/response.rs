//! The proxy's own model of an HTTP response: a status code, a list of
//! headers, and a body. The surrounding binary turns one of these into a
//! real wire response.

use vstd::prelude::*;

verus! {

/// A response the proxy synthesizes itself (authentication challenge,
/// tunnel acknowledgement, error translation).
pub struct HttpResponse {
    /// The HTTP status code.
    pub status: u16,
    /// Header name/value pairs, in order.
    pub headers: Vec<(String, String)>,
    /// The response body.
    pub body: String,
}

/// The shape of the authentication challenge: status 407, the fixed body,
/// and exactly one `Proxy-Authenticate` header advertising Basic
/// authentication with this proxy's realm.
pub open spec fn is_auth_challenge(r: HttpResponse) -> bool {
    &&& r.status == 407
    &&& r.body@ == "Proxy Authentication Required"@
    &&& r.headers@.len() == 1
    &&& r.headers@[0].0@ == "Proxy-Authenticate"@
    &&& r.headers@[0].1@ == "Basic realm=\"dshp\""@
}

/// The shape of the immediate CONNECT acknowledgement: status 200, empty
/// body, no headers.
pub open spec fn is_tunnel_ack(r: HttpResponse) -> bool {
    &&& r.status == 200
    &&& r.body@ == Seq::<char>::empty()
    &&& r.headers@.len() == 0
}

/// Builds the 407 response sent when authentication fails.
pub fn auth_challenge_response() -> (r: HttpResponse)
    ensures
        is_auth_challenge(r),
{
    let mut headers: Vec<(String, String)> = Vec::new();
    headers.push(
        (String::from_str("Proxy-Authenticate"), String::from_str("Basic realm=\"dshp\"")),
    );
    HttpResponse {
        status: 407,
        headers,
        body: String::from_str("Proxy Authentication Required"),
    }
}

/// Builds the empty 200 response that acknowledges a CONNECT request
/// before the tunnel itself is attempted.
pub fn tunnel_ack_response() -> (r: HttpResponse)
    ensures
        is_tunnel_ack(r),
{
    HttpResponse { status: 200, headers: Vec::new(), body: String::new() }
}

/// The shape of the rejection of a CONNECT request that names no authority:
/// status 400 with a short explanatory body and no headers.
pub open spec fn is_missing_authority_reject(r: HttpResponse) -> bool {
    &&& r.status == 400
    &&& r.body@ == "CONNECT requires an authority"@
    &&& r.headers@.len() == 0
}

/// Builds the 400 response for a CONNECT request that names no authority.
pub fn missing_authority_response() -> (r: HttpResponse)
    ensures
        is_missing_authority_reject(r),
{
    HttpResponse {
        status: 400,
        headers: Vec::new(),
        body: String::from_str("CONNECT requires an authority"),
    }
}

/// The shape of the upstream-failure translation: status 502 with a body
/// naming the error, and no headers.
pub open spec fn is_bad_gateway(r: HttpResponse, err: Seq<char>) -> bool {
    &&& r.status == 502
    &&& r.body@ == "Upstream error: "@ + err
    &&& r.headers@.len() == 0
}

/// Translates a failed upstream exchange — DNS failure, refused connection,
/// timeout, protocol error — into the 502 response the caller receives in
/// its place. The error's textual description becomes part of the body.
pub fn bad_gateway_response(err: &str) -> (r: HttpResponse)
    ensures
        is_bad_gateway(r, err@),
{
    let mut body = String::from_str("Upstream error: ");
    body.append(err);
    HttpResponse { status: 502, headers: Vec::new(), body }
}

} // verus!
