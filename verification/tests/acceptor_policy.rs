use tcp_bridge::acceptor::Acceptor;
use tcp_bridge::acceptor::AcceptorDirective;
use tcp_bridge::acceptor::AcceptorState;

#[test]
fn connected_broker_relays_at_once() {
    let mut a = Acceptor::new();
    assert_eq!(a.on_accept(true), AcceptorDirective::CheckLiveness);
    assert_eq!(a.on_liveness(true), AcceptorDirective::StartRelay);
    assert_eq!(a.state, AcceptorState::Relaying);
    assert_eq!(a.on_relay_done(true), AcceptorDirective::Continue);
    assert_eq!(a.state, AcceptorState::Waiting);
}

#[test]
fn disconnected_broker_gets_reconnect_before_relay() {
    let mut a = Acceptor::new();
    assert_eq!(a.on_accept(true), AcceptorDirective::CheckLiveness);
    assert_eq!(a.on_liveness(false), AcceptorDirective::TryReconnect);
    assert_eq!(a.state, AcceptorState::Reconnecting);
    assert_eq!(a.on_reconnect(true), AcceptorDirective::StartRelay);
    assert_eq!(a.state, AcceptorState::Relaying);
}

#[test]
fn failed_reconnect_abandons_connection_but_keeps_accepting() {
    let mut a = Acceptor::new();
    assert_eq!(a.on_accept(true), AcceptorDirective::CheckLiveness);
    assert_eq!(a.on_liveness(false), AcceptorDirective::TryReconnect);
    assert_eq!(a.on_reconnect(false), AcceptorDirective::LogReconnectFailure);
    assert_eq!(a.state, AcceptorState::Waiting);

    // The next connection is still accepted and handled in full.
    assert_eq!(a.on_accept(true), AcceptorDirective::CheckLiveness);
    assert_eq!(a.on_liveness(true), AcceptorDirective::StartRelay);
    assert_eq!(a.on_relay_done(true), AcceptorDirective::Continue);
}

#[test]
fn failed_accept_is_logged_and_loop_continues() {
    let mut a = Acceptor::new();
    assert_eq!(a.on_accept(false), AcceptorDirective::LogAcceptError);
    assert_eq!(a.state, AcceptorState::Waiting);
    assert_eq!(a.on_accept(true), AcceptorDirective::CheckLiveness);
}

#[test]
fn relay_error_is_logged_and_loop_continues() {
    let mut a = Acceptor::new();
    assert_eq!(a.on_accept(true), AcceptorDirective::CheckLiveness);
    assert_eq!(a.on_liveness(true), AcceptorDirective::StartRelay);
    assert_eq!(a.on_relay_done(false), AcceptorDirective::LogRelayError);
    assert_eq!(a.state, AcceptorState::Waiting);
}
