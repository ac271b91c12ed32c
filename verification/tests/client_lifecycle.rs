use ws_session::client::ClientController;
use ws_session::client::ClientDirective;
use ws_session::client::ClientEvent;
use ws_session::client::ClientPhase;
use ws_session::client::ReconnectPolicy;

fn policy() -> ReconnectPolicy {
    ReconnectPolicy { base_ms: 100, cap_ms: 1000 }
}

#[test]
fn backoff_doubles_up_to_the_cap() {
    let delays: Vec<u64> = (0..7).map(|attempt| policy().delay_ms(attempt)).collect();
    assert_eq!(delays, vec![100, 200, 400, 800, 1000, 1000, 1000]);
}

#[test]
fn backoff_with_base_at_cap_is_fixed() {
    let fixed = ReconnectPolicy { base_ms: 250, cap_ms: 250 };
    assert_eq!(fixed.delay_ms(0), 250);
    assert_eq!(fixed.delay_ms(3), 250);
    let oversized = ReconnectPolicy { base_ms: 900, cap_ms: 300 };
    assert_eq!(oversized.delay_ms(0), 300);
    assert_eq!(oversized.delay_ms(5), 300);
}

#[test]
fn transport_drop_reconnects_and_preserves_identity() {
    // A drop with no user-initiated close: the controller waits out one
    // backoff delay, dials again, and the handle identity is unchanged.
    let mut controller = ClientController::new(77, policy());
    assert_eq!(controller.phase, ClientPhase::Connecting);

    assert_eq!(controller.on_event(ClientEvent::ConnectOk), ClientDirective::RunSession);
    assert_eq!(controller.phase, ClientPhase::Connected);

    assert_eq!(
        controller.on_event(ClientEvent::SessionDropped),
        ClientDirective::WaitRetry(100)
    );
    assert_eq!(controller.phase, ClientPhase::Reconnecting);
    assert_eq!(controller.id, 77);

    assert_eq!(controller.on_event(ClientEvent::RetryElapsed), ClientDirective::Dial);
    assert_eq!(controller.phase, ClientPhase::Connecting);

    assert_eq!(controller.on_event(ClientEvent::ConnectOk), ClientDirective::RunSession);
    assert_eq!(controller.phase, ClientPhase::Connected);
    assert_eq!(controller.id, 77);
}

#[test]
fn repeated_connect_failures_back_off_within_the_window() {
    let mut controller = ClientController::new(5, policy());
    let mut observed: Vec<u64> = Vec::new();
    for _ in 0..6 {
        match controller.on_event(ClientEvent::ConnectFailed) {
            ClientDirective::WaitRetry(delay) => observed.push(delay),
            other => panic!("expected a retry wait, got {:?}", other),
        }
        assert_eq!(controller.phase, ClientPhase::Reconnecting);
        assert_eq!(controller.on_event(ClientEvent::RetryElapsed), ClientDirective::Dial);
    }
    assert_eq!(observed, vec![100, 200, 400, 800, 1000, 1000]);
    assert!(observed.iter().all(|delay| *delay <= policy().cap_ms));
}

#[test]
fn graceful_close_stops_for_good() {
    let mut controller = ClientController::new(8, policy());
    controller.on_event(ClientEvent::ConnectOk);
    assert_eq!(controller.on_event(ClientEvent::SessionGraceful), ClientDirective::Stop);
    assert_eq!(controller.phase, ClientPhase::Closed);
    // Closed is final: no event revives the controller.
    assert_eq!(controller.on_event(ClientEvent::ConnectOk), ClientDirective::Stop);
    assert_eq!(controller.on_event(ClientEvent::RetryElapsed), ClientDirective::Stop);
    assert_eq!(controller.phase, ClientPhase::Closed);
}

#[test]
fn successful_connect_resets_the_backoff() {
    let mut controller = ClientController::new(6, policy());
    controller.on_event(ClientEvent::ConnectFailed);
    controller.on_event(ClientEvent::RetryElapsed);
    controller.on_event(ClientEvent::ConnectFailed);
    controller.on_event(ClientEvent::RetryElapsed);
    controller.on_event(ClientEvent::ConnectOk);
    assert_eq!(controller.attempt, 0);
    match controller.on_event(ClientEvent::SessionDropped) {
        ClientDirective::WaitRetry(delay) => assert_eq!(delay, 100),
        other => panic!("expected a retry wait, got {:?}", other),
    }
}
