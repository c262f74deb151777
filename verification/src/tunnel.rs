//! The Tunnel Establisher's lifecycle: once the empty 200 acknowledgement
//! is on its way, the tunnel waits for the protocol upgrade, opens a TCP
//! connection to the target, and relays bytes both directions until either
//! side closes. Every failure along the way merely abandons the tunnel —
//! the client already holds its 200, so no further response is possible.
//!
//! The state machine here is the decision half of that loop; the
//! surrounding binary performs each returned action and feeds the result
//! back in as the next event.

use vstd::prelude::*;

verus! {

/// Why a tunnel ended.
#[derive(Clone, Copy)]
pub enum CloseReason {
    /// The protocol upgrade of the client connection did not complete.
    UpgradeFailed,
    /// The TCP connection to the target could not be opened.
    TargetUnreachable,
    /// The relay stopped: one side reached end-of-stream or an I/O error.
    Finished,
}

/// Where one CONNECT tunnel stands.
#[derive(Clone, Copy)]
pub enum TunnelState {
    /// The 200 acknowledgement has been sent; waiting for the client
    /// connection to be upgraded out of HTTP framing.
    AwaitingUpgrade,
    /// The upgraded client stream is in hand; opening the TCP connection
    /// to the target.
    Connecting,
    /// Both streams are live; bytes flow in both directions.
    Relaying,
    /// The tunnel is over, for the carried reason.
    Closed(CloseReason),
}

/// What the outside world reports back to the tunnel.
#[derive(Clone, Copy)]
pub enum TunnelEvent {
    /// The client connection was upgraded to a raw byte stream.
    Upgraded,
    /// The upgrade failed.
    UpgradeFailed,
    /// The TCP connection to the target is open.
    TargetConnected,
    /// The TCP connection to the target could not be opened.
    TargetConnectFailed,
    /// The bidirectional copy ended: end-of-stream or an I/O error on
    /// either side.
    RelayEnded,
}

/// What the driving loop must do next.
#[derive(Clone, Copy)]
pub enum TunnelAction {
    /// Open a TCP connection to the target authority.
    ConnectTarget,
    /// Start the bidirectional byte relay between the two streams.
    StartRelay,
    /// Nothing: the tunnel is finished or abandoned (failures are only
    /// logged; the client's signal is its tunnel falling silent).
    Nothing,
}

/// The transition table of one tunnel. Events that cannot arrive in a
/// state leave it unchanged.
pub open spec fn tunnel_step_spec(s: TunnelState, e: TunnelEvent) -> (TunnelState, TunnelAction) {
    match s {
        TunnelState::AwaitingUpgrade => match e {
            TunnelEvent::Upgraded => (TunnelState::Connecting, TunnelAction::ConnectTarget),
            TunnelEvent::UpgradeFailed => (
                TunnelState::Closed(CloseReason::UpgradeFailed),
                TunnelAction::Nothing,
            ),
            _ => (s, TunnelAction::Nothing),
        },
        TunnelState::Connecting => match e {
            TunnelEvent::TargetConnected => (TunnelState::Relaying, TunnelAction::StartRelay),
            TunnelEvent::TargetConnectFailed => (
                TunnelState::Closed(CloseReason::TargetUnreachable),
                TunnelAction::Nothing,
            ),
            _ => (s, TunnelAction::Nothing),
        },
        TunnelState::Relaying => match e {
            TunnelEvent::RelayEnded => (
                TunnelState::Closed(CloseReason::Finished),
                TunnelAction::Nothing,
            ),
            _ => (s, TunnelAction::Nothing),
        },
        TunnelState::Closed(_) => (s, TunnelAction::Nothing),
    }
}

/// Advances one tunnel by one event, returning the new state and the
/// action the driving loop must perform.
pub fn tunnel_step(s: &TunnelState, e: &TunnelEvent) -> (r: (TunnelState, TunnelAction))
    ensures
        r == tunnel_step_spec(*s, *e),
{
    match *s {
        TunnelState::AwaitingUpgrade => match *e {
            TunnelEvent::Upgraded => (TunnelState::Connecting, TunnelAction::ConnectTarget),
            TunnelEvent::UpgradeFailed => (
                TunnelState::Closed(CloseReason::UpgradeFailed),
                TunnelAction::Nothing,
            ),
            _ => (*s, TunnelAction::Nothing),
        },
        TunnelState::Connecting => match *e {
            TunnelEvent::TargetConnected => (TunnelState::Relaying, TunnelAction::StartRelay),
            TunnelEvent::TargetConnectFailed => (
                TunnelState::Closed(CloseReason::TargetUnreachable),
                TunnelAction::Nothing,
            ),
            _ => (*s, TunnelAction::Nothing),
        },
        TunnelState::Relaying => match *e {
            TunnelEvent::RelayEnded => (
                TunnelState::Closed(CloseReason::Finished),
                TunnelAction::Nothing,
            ),
            _ => (*s, TunnelAction::Nothing),
        },
        TunnelState::Closed(_) => (*s, TunnelAction::Nothing),
    }
}

/// Law: the byte relay starts only after the target connection has been
/// opened — a tunnel whose target was unreachable never carries traffic.
pub proof fn lemma_relay_only_after_connect(s: TunnelState, e: TunnelEvent)
    ensures
        tunnel_step_spec(s, e).1 is StartRelay ==> s is Connecting && e is TargetConnected,
{
}

/// Law: a closed tunnel is terminal — no event changes its state or asks
/// for any further action.
pub proof fn lemma_closed_is_terminal(s: TunnelState, e: TunnelEvent)
    ensures
        s is Closed ==> tunnel_step_spec(s, e) == (s, TunnelAction::Nothing),
{
}

/// Law: either side ending the relay — clean end-of-stream or I/O error —
/// closes the whole tunnel.
pub proof fn lemma_relay_end_closes(e: TunnelEvent)
    ensures
        e is RelayEnded ==> tunnel_step_spec(TunnelState::Relaying, e) == (
            TunnelState::Closed(CloseReason::Finished),
            TunnelAction::Nothing,
        ),
{
}

} // verus!
