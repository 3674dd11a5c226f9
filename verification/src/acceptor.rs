//! The accept loop's policy: broker liveness, reconnect, and how each
//! accepted connection's fate feeds back into an endless loop.
//!
//! The runtime owns the listening socket and the broker client. For each
//! loop iteration it reports what happened — accept outcome, the broker's
//! connected state, a reconnect's outcome, the relay's result — and performs
//! the directive that comes back. No directive ever stops the loop: every
//! failure past startup is logged and the acceptor waits for the next
//! connection.

use vstd::prelude::*;

verus! {

/// Where the acceptor stands within one loop iteration.
#[derive(Clone, Copy, PartialEq, Eq, Structural, Debug)]
pub enum AcceptorState {
    /// Blocked on the next inbound connection.
    Waiting,
    /// A connection was accepted; the broker's connected state is next.
    CheckingLiveness,
    /// The broker was seen disconnected; a reconnect was requested.
    Reconnecting,
    /// The connection is being relayed.
    Relaying,
}

/// What the acceptor asks the runtime to do next.
#[derive(Clone, Copy, PartialEq, Eq, Structural, Debug)]
pub enum AcceptorDirective {
    /// Log the accept error, then wait for the next connection.
    LogAcceptError,
    /// Ask the broker client whether it is connected, and report back.
    CheckLiveness,
    /// Issue a blocking reconnect to the broker, and report back.
    TryReconnect,
    /// Log the reconnect failure; the accepted connection is abandoned and
    /// the acceptor waits for the next one.
    LogReconnectFailure,
    /// Run the relay on the accepted connection, and report its result.
    StartRelay,
    /// Log the relay's error, then wait for the next connection.
    LogRelayError,
    /// Nothing to log; wait for the next connection.
    Continue,
}

/// The acceptor's policy as a state machine over one shared broker handle.
#[derive(Clone, Copy, PartialEq, Eq, Structural, Debug)]
pub struct Acceptor {
    pub state: AcceptorState,
}

/// Where the liveness check sends the acceptor: straight to the relay when
/// the broker is connected, to a reconnect attempt otherwise.
pub open spec fn liveness_next(broker_connected: bool) -> AcceptorState {
    if broker_connected {
        AcceptorState::Relaying
    } else {
        AcceptorState::Reconnecting
    }
}

/// Where a reconnect's outcome sends the acceptor: to the relay on success,
/// back to waiting — the connection abandoned — on failure.
pub open spec fn reconnect_next(reconnect_ok: bool) -> AcceptorState {
    if reconnect_ok {
        AcceptorState::Relaying
    } else {
        AcceptorState::Waiting
    }
}

impl Acceptor {
    /// A fresh acceptor, waiting for its first connection.
    pub fn new() -> (a: Acceptor)
        ensures
            a.state == AcceptorState::Waiting,
    {
        Acceptor { state: AcceptorState::Waiting }
    }

    /// Advances on an accept outcome. A failed accept is logged and the loop
    /// goes round again; an accepted connection first has the broker's
    /// liveness checked — never a relay, and so never a publish, before that
    /// check.
    pub fn on_accept(&mut self, accepted: bool) -> (d: AcceptorDirective)
        requires
            old(self).state == AcceptorState::Waiting,
        ensures
            accepted ==> final(self).state == AcceptorState::CheckingLiveness && d
                == AcceptorDirective::CheckLiveness,
            !accepted ==> final(self).state == AcceptorState::Waiting && d
                == AcceptorDirective::LogAcceptError,
    {
        if accepted {
            self.state = AcceptorState::CheckingLiveness;
            AcceptorDirective::CheckLiveness
        } else {
            AcceptorDirective::LogAcceptError
        }
    }

    /// Advances on the broker's reported state. A connected broker lets the
    /// relay start at once; a disconnected one gets a reconnect request
    /// before any relay — and hence before any publish — is issued for this
    /// connection.
    pub fn on_liveness(&mut self, broker_connected: bool) -> (d: AcceptorDirective)
        requires
            old(self).state == AcceptorState::CheckingLiveness,
        ensures
            final(self).state == liveness_next(broker_connected),
            broker_connected ==> d == AcceptorDirective::StartRelay,
            !broker_connected ==> d == AcceptorDirective::TryReconnect,
    {
        if broker_connected {
            self.state = AcceptorState::Relaying;
            AcceptorDirective::StartRelay
        } else {
            self.state = AcceptorState::Reconnecting;
            AcceptorDirective::TryReconnect
        }
    }

    /// Advances on a reconnect's outcome. Success lets the relay start; a
    /// failure is logged, the accepted connection is abandoned, and the
    /// acceptor is back to waiting — still able to accept the next
    /// connection.
    pub fn on_reconnect(&mut self, reconnect_ok: bool) -> (d: AcceptorDirective)
        requires
            old(self).state == AcceptorState::Reconnecting,
        ensures
            final(self).state == reconnect_next(reconnect_ok),
            reconnect_ok ==> d == AcceptorDirective::StartRelay,
            !reconnect_ok ==> d == AcceptorDirective::LogReconnectFailure,
    {
        if reconnect_ok {
            self.state = AcceptorState::Relaying;
            AcceptorDirective::StartRelay
        } else {
            self.state = AcceptorState::Waiting;
            AcceptorDirective::LogReconnectFailure
        }
    }

    /// Advances on the relay's result. Errors are logged, never propagated:
    /// either way the acceptor is back to waiting for the next connection.
    pub fn on_relay_done(&mut self, relay_ok: bool) -> (d: AcceptorDirective)
        requires
            old(self).state == AcceptorState::Relaying,
        ensures
            final(self).state == AcceptorState::Waiting,
            relay_ok ==> d == AcceptorDirective::Continue,
            !relay_ok ==> d == AcceptorDirective::LogRelayError,
    {
        self.state = AcceptorState::Waiting;
        if relay_ok {
            AcceptorDirective::Continue
        } else {
            AcceptorDirective::LogRelayError
        }
    }
}

/// Law: a relay — and with it any publish — starts for an accepted
/// connection exactly when the broker was seen connected at the liveness
/// check, or the reconnect issued right after that check succeeded. A
/// disconnected broker never reaches the relay without an intervening
/// reconnect attempt, and a failed reconnect abandons the connection,
/// leaving the acceptor waiting for the next one.
pub proof fn lemma_relay_gated_on_liveness(broker_connected: bool, reconnect_ok: bool)
    ensures
        liveness_next(broker_connected) == AcceptorState::Relaying <==> broker_connected,
        !broker_connected ==> liveness_next(broker_connected) == AcceptorState::Reconnecting,
        reconnect_next(reconnect_ok) == AcceptorState::Relaying <==> reconnect_ok,
        !reconnect_ok ==> reconnect_next(reconnect_ok) == AcceptorState::Waiting,
{
}

} // verus!
