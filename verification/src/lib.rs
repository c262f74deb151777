//! A forward HTTP proxy core: authentication gating, CONNECT tunnel
//! sequencing, and plain-HTTP forwarding with upstream-error translation.
//!
//! The modules here hold the decision logic of the proxy; the surrounding
//! binary drives the network I/O and feeds events back in.

pub mod auth;
pub mod dispatch;
pub mod response;
pub mod tunnel;

use vstd::prelude::*;

verus! {

/// A process-local generator of request identifiers, used to correlate log
/// lines that belong to one request.
pub struct RequestIdGen {
    pub next: u64,
}

impl RequestIdGen {
    /// A fresh generator; the first identifier handed out is 1.
    pub fn new() -> (g: RequestIdGen)
        ensures
            g.next == 1,
    {
        RequestIdGen { next: 1 }
    }

    /// Hands out the next identifier and advances the counter, wrapping to 0
    /// once the whole `u64` range has been used.
    pub fn fresh(&mut self) -> (id: u64)
        ensures
            id == old(self).next,
            final(self).next == if old(self).next == u64::MAX {
                0u64
            } else {
                (old(self).next + 1) as u64
            },
    {
        let id = self.next;
        if self.next == u64::MAX {
            self.next = 0;
        } else {
            self.next = self.next + 1;
        }
        id
    }
}

} // verus!
