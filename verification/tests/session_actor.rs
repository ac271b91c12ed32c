use ws_session::mailbox::HandleOp;
use ws_session::mailbox::Mailbox;
use ws_session::message::CloseCode;
use ws_session::message::CloseFrame;
use ws_session::message::Message;
use ws_session::registry::Registry;
use ws_session::session::Session;
use ws_session::session::SessionAction;
use ws_session::session::SessionEvent;
use ws_session::session::SessionState;

#[test]
fn mailbox_preserves_submission_order() {
    let mut mailbox = Mailbox::new();
    mailbox.send_text(String::from("first"));
    mailbox.send_binary(vec![1, 2, 3]);
    mailbox.send_close(Some(CloseFrame { code: CloseCode::Away, reason: String::from("done") }));
    mailbox.call(7);
    assert_eq!(mailbox.len(), 4);
    let drained = mailbox.drain();
    assert_eq!(
        drained,
        vec![
            HandleOp::SendText(String::from("first")),
            HandleOp::SendBinary(vec![1, 2, 3]),
            HandleOp::SendClose(Some(CloseFrame {
                code: CloseCode::Away,
                reason: String::from("done"),
            })),
            HandleOp::Call(7),
        ]
    );
    assert_eq!(mailbox.len(), 0);
}

#[test]
fn mailbox_take_next_is_fifo() {
    let mut mailbox = Mailbox::new();
    assert_eq!(mailbox.take_next(), None);
    mailbox.send_text(String::from("a"));
    mailbox.send_text(String::from("b"));
    assert_eq!(mailbox.take_next(), Some(HandleOp::SendText(String::from("a"))));
    assert_eq!(mailbox.take_next(), Some(HandleOp::SendText(String::from("b"))));
    assert_eq!(mailbox.take_next(), None);
}

#[test]
fn mailbox_accepts_operations_after_actor_death() {
    // Fire-and-forget after death: enqueuing on a dead session's handle
    // raises no error; the operations are simply never drained.
    let mut session = Session::new(9);
    session.handle_event(SessionEvent::TransportClosed);
    assert_eq!(session.state, SessionState::Terminated);
    let mut mailbox = Mailbox::new();
    mailbox.send_text(String::from("late"));
    mailbox.call(1);
    assert_eq!(mailbox.len(), 2);
}

#[test]
fn inbound_messages_are_delivered_in_arrival_order() {
    let mut session = Session::new(1);
    let actions = session.run(vec![
        SessionEvent::Inbound(Message::Text(String::from("one"))),
        SessionEvent::Inbound(Message::Binary(vec![2])),
        SessionEvent::Inbound(Message::Text(String::from("three"))),
    ]);
    assert_eq!(
        actions,
        vec![
            SessionAction::DeliverText(String::from("one")),
            SessionAction::DeliverBinary(vec![2]),
            SessionAction::DeliverText(String::from("three")),
        ]
    );
    assert_eq!(session.state, SessionState::Active);
    assert_eq!(session.id, 1);
}

#[test]
fn interleaved_traffic_keeps_data_delivery_order() {
    let mut session = Session::new(10);
    let actions = session.run(vec![
        SessionEvent::Inbound(Message::Text(String::from("a"))),
        SessionEvent::Inbound(Message::Ping(vec![1])),
        SessionEvent::FromHandle(HandleOp::SendText(String::from("x"))),
        SessionEvent::Inbound(Message::Binary(vec![2])),
    ]);
    let delivered: Vec<&SessionAction> = actions
        .iter()
        .filter(|action| {
            matches!(action, SessionAction::DeliverText(_) | SessionAction::DeliverBinary(_))
        })
        .collect();
    assert_eq!(
        delivered,
        vec![
            &SessionAction::DeliverText(String::from("a")),
            &SessionAction::DeliverBinary(vec![2]),
        ]
    );
    assert_eq!(session.state, SessionState::Active);
}

#[test]
fn ping_is_answered_with_pong_and_pong_is_ignored() {
    let mut session = Session::new(2);
    let actions = session.handle_event(SessionEvent::Inbound(Message::Ping(vec![9, 9])));
    assert_eq!(actions, vec![SessionAction::Write(Message::Pong(vec![9, 9]))]);
    let actions = session.handle_event(SessionEvent::Inbound(Message::Pong(vec![9, 9])));
    assert_eq!(actions, Vec::new());
    assert_eq!(session.state, SessionState::Active);
}

#[test]
fn handle_operations_become_transport_writes_in_order() {
    let mut session = Session::new(3);
    let actions = session.run(vec![
        SessionEvent::FromHandle(HandleOp::SendText(String::from("hi"))),
        SessionEvent::FromHandle(HandleOp::SendBinary(vec![4, 5])),
        SessionEvent::FromHandle(HandleOp::Call(42)),
    ]);
    assert_eq!(
        actions,
        vec![
            SessionAction::Write(Message::Text(String::from("hi"))),
            SessionAction::Write(Message::Binary(vec![4, 5])),
            SessionAction::DeliverCall(42),
        ]
    );
    assert_eq!(session.state, SessionState::Active);
}

#[test]
fn close_request_writes_exactly_one_close_frame() {
    let mut session = Session::new(4);
    let frame = CloseFrame { code: CloseCode::Normal, reason: String::from("bye") };
    let actions = session.run(vec![
        SessionEvent::FromHandle(HandleOp::SendClose(Some(frame.clone()))),
        SessionEvent::FromHandle(HandleOp::SendText(String::from("ignored"))),
        SessionEvent::Inbound(Message::Text(String::from("ignored too"))),
        SessionEvent::TransportClosed,
    ]);
    let close_writes: Vec<&SessionAction> = actions
        .iter()
        .filter(|action| matches!(action, SessionAction::Write(Message::Close(_))))
        .collect();
    assert_eq!(close_writes.len(), 1);
    match close_writes[0] {
        SessionAction::Write(Message::Close(Some(written))) => {
            assert_eq!(written.code.to_wire(), 1000);
            assert_eq!(written.reason, "bye");
        }
        other => panic!("expected one close write, got {:?}", other),
    }
    assert_eq!(actions.last(), Some(&SessionAction::NotifyDisconnect));
    assert_eq!(session.state, SessionState::Terminated);
}

#[test]
fn inbound_close_then_transport_end_terminates() {
    let mut session = Session::new(5);
    let actions = session.handle_event(SessionEvent::Inbound(Message::Close(None)));
    assert_eq!(actions, Vec::new());
    assert_eq!(session.state, SessionState::Closing);
    let actions = session.handle_event(SessionEvent::TransportClosed);
    assert_eq!(actions, vec![SessionAction::NotifyDisconnect]);
    assert_eq!(session.state, SessionState::Terminated);
}

#[test]
fn callback_failure_starts_closing_without_output() {
    let mut session = Session::new(8);
    let actions = session.handle_event(SessionEvent::CallbackFailed);
    assert_eq!(actions, Vec::new());
    assert_eq!(session.state, SessionState::Closing);
    // Nothing queued afterwards reaches the user or the transport.
    let actions = session.handle_event(SessionEvent::Inbound(Message::Text(String::from(
        "late",
    ))));
    assert_eq!(actions, Vec::new());
}

#[test]
fn transport_error_starts_closing() {
    let mut session = Session::new(6);
    let actions = session.handle_event(SessionEvent::InboundError);
    assert_eq!(actions, Vec::new());
    assert_eq!(session.state, SessionState::Closing);
}

#[test]
fn terminated_session_ignores_every_event() {
    let mut session = Session::new(7);
    session.handle_event(SessionEvent::TransportClosed);
    assert_eq!(session.state, SessionState::Terminated);
    let actions = session.run(vec![
        SessionEvent::Inbound(Message::Text(String::from("late"))),
        SessionEvent::FromHandle(HandleOp::SendText(String::from("late"))),
        SessionEvent::TransportClosed,
    ]);
    assert_eq!(actions, Vec::new());
    assert_eq!(session.state, SessionState::Terminated);
    assert_eq!(session.id, 7);
}

#[test]
fn callback_failure_disconnects_only_its_own_session() {
    // Sessions A and B are both connected; A's text callback fails on
    // "boom", so the controller disconnects A. B keeps processing.
    let mut registry = Registry::new();
    registry.register(Session::new(1));
    registry.register(Session::new(2));
    assert_eq!(registry.len(), 2);

    // A receives "boom" and its text callback reports failure, so the
    // controller disconnects A and fires its disconnect callback once.
    let actions = registry.dispatch(1, SessionEvent::Inbound(Message::Text(String::from("boom"))));
    assert_eq!(actions, Some(vec![SessionAction::DeliverText(String::from("boom"))]));
    registry.dispatch(1, SessionEvent::CallbackFailed);
    registry.dispatch(1, SessionEvent::TransportClosed);
    let mut disconnect_calls: u32 = 0;
    if registry.disconnect(1) {
        disconnect_calls += 1;
    }
    assert_eq!(disconnect_calls, 1);
    assert!(!registry.contains(1));

    // A second termination report for A removes nothing and must not
    // fire the disconnect callback again.
    if registry.disconnect(1) {
        disconnect_calls += 1;
    }
    assert_eq!(disconnect_calls, 1);

    // B is untouched and still echoes what it receives.
    assert!(registry.contains(2));
    assert_eq!(registry.get(2).expect("session B vanished").state, SessionState::Active);
    let actions = registry.dispatch(
        2,
        SessionEvent::Inbound(Message::Text(String::from("hello"))),
    );
    assert_eq!(actions, Some(vec![SessionAction::DeliverText(String::from("hello"))]));

    // An identity nobody registered dispatches to nothing.
    assert_eq!(registry.dispatch(3, SessionEvent::TransportClosed), None);
}

#[test]
fn register_replaces_same_identity_and_keeps_others() {
    let mut registry = Registry::new();
    registry.register(Session::new(1));
    let mut replacement = Session::new(1);
    replacement.handle_event(SessionEvent::InboundError);
    registry.register(replacement);
    assert_eq!(registry.len(), 1);
    assert_eq!(registry.get(1).expect("entry vanished").state, SessionState::Closing);
    assert_eq!(registry.get(3), None);
}
