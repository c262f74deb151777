//! The Request Dispatcher: the per-request entry point. It runs the
//! Authenticator, then branches on the method — CONNECT requests open a
//! tunnel, everything else is forwarded upstream. The decision is returned
//! as a value; the surrounding binary carries it out.

use vstd::prelude::*;

use crate::auth::{auth_allowed, check_proxy_auth, header_view, AuthOutcome, Credential};
use crate::response::{
    is_auth_challenge, is_missing_authority_reject, is_tunnel_ack, missing_authority_response,
    tunnel_ack_response, HttpResponse,
};

verus! {

/// The proxy's fixed configuration: immutable after startup and shared
/// read-only with every connection handler.
pub struct ProxyConfig {
    /// The address the listener binds, e.g. `127.0.0.1:8080`.
    pub listen: String,
    /// The credential pair, or `None` to accept every request.
    pub credential: Option<Credential>,
    /// Whether per-request debug logging is enabled.
    pub debug: bool,
}

/// An inbound request's method, as far as dispatch distinguishes it.
#[derive(Clone, Copy)]
pub enum Method {
    /// The CONNECT method.
    Connect,
    /// Any other method.
    Other,
}

/// The parts of an inbound request that the dispatch decision reads.
/// The rest of the request (full headers, body) stays with the caller,
/// which forwards it untouched when the decision says so.
pub struct RequestInfo {
    /// The request's method.
    pub method: Method,
    /// The authority (`host:port`) named by the request's URI, if any.
    pub authority: Option<String>,
    /// The raw value of the proxy-authorization header, if one is present.
    pub proxy_authorization: Option<Vec<u8>>,
}

/// What the proxy does with one request.
pub enum Decision {
    /// Send this response and finish the request.
    Respond(HttpResponse),
    /// Send the carried acknowledgement immediately, then relay raw bytes
    /// between the upgraded client stream and `target` until either side
    /// closes.
    Tunnel { target: String, ack: HttpResponse },
    /// Reissue the request upstream as it stands and relay the upstream
    /// response verbatim; on a transport error, answer 502 instead.
    Forward,
}

/// The Request Dispatcher. Denied requests are answered with the 407
/// challenge; authenticated CONNECT requests with an authority open a
/// tunnel behind an immediate empty 200; CONNECT without an authority is
/// rejected with a 400; every other authenticated request is forwarded.
pub fn dispatch(config: &ProxyConfig, req: &RequestInfo) -> (d: Decision)
    ensures
        !auth_allowed(config.credential, header_view(req.proxy_authorization)) ==> (d matches
        Decision::Respond(r) && is_auth_challenge(r)),
        auth_allowed(config.credential, header_view(req.proxy_authorization)) ==> (match req.method {
            Method::Connect => match req.authority {
                Some(a) => d matches Decision::Tunnel { target, ack } && target@ == a@
                    && is_tunnel_ack(ack),
                None => d matches Decision::Respond(r) && is_missing_authority_reject(r),
            },
            Method::Other => d is Forward,
        }),
{
    match check_proxy_auth(&config.credential, &req.proxy_authorization) {
        AuthOutcome::Denied(resp) => Decision::Respond(resp),
        AuthOutcome::Allowed => match req.method {
            Method::Connect => match &req.authority {
                Some(a) => Decision::Tunnel { target: a.clone(), ack: tunnel_ack_response() },
                None => Decision::Respond(missing_authority_response()),
            },
            Method::Other => Decision::Forward,
        },
    }
}

} // verus!
