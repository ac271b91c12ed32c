use ws_session::message::CloseCode;
use ws_session::message::CloseFrame;
use ws_session::message::Message;

fn all_codes() -> Vec<CloseCode> {
    vec![
        CloseCode::Normal,
        CloseCode::Away,
        CloseCode::Protocol,
        CloseCode::Unsupported,
        CloseCode::Status,
        CloseCode::Abnormal,
        CloseCode::Invalid,
        CloseCode::Policy,
        CloseCode::Size,
        CloseCode::Extension,
        CloseCode::Error,
        CloseCode::Restart,
        CloseCode::Again,
    ]
}

#[test]
fn close_codes_round_trip() {
    for code in all_codes() {
        let wire = code.to_wire();
        assert_eq!(CloseCode::from_wire(wire), Ok(code));
    }
}

#[test]
fn close_codes_round_trip_through_std_conversions() {
    for code in all_codes() {
        let wire = u16::from(code);
        assert_eq!(CloseCode::try_from(wire), Ok(code));
    }
}

#[test]
fn close_code_wire_values_match_the_table() {
    assert_eq!(CloseCode::Normal.to_wire(), 1000);
    assert_eq!(CloseCode::Away.to_wire(), 1001);
    assert_eq!(CloseCode::Protocol.to_wire(), 1002);
    assert_eq!(CloseCode::Unsupported.to_wire(), 1003);
    assert_eq!(CloseCode::Status.to_wire(), 1005);
    assert_eq!(CloseCode::Abnormal.to_wire(), 1006);
    assert_eq!(CloseCode::Invalid.to_wire(), 1007);
    assert_eq!(CloseCode::Policy.to_wire(), 1008);
    assert_eq!(CloseCode::Size.to_wire(), 1009);
    assert_eq!(CloseCode::Extension.to_wire(), 1010);
    assert_eq!(CloseCode::Error.to_wire(), 1011);
    assert_eq!(CloseCode::Restart.to_wire(), 1012);
    assert_eq!(CloseCode::Again.to_wire(), 1013);
}

#[test]
fn unreserved_wire_values_fail_with_the_value_itself() {
    for wire in [0u16, 1, 999, 1004, 1014, 1100, 3000, u16::MAX] {
        assert_eq!(CloseCode::from_wire(wire), Err(wire));
        assert_eq!(CloseCode::try_from(wire), Err(wire));
    }
}

#[test]
fn close_frame_carries_code_and_reason() {
    let frame = CloseFrame { code: CloseCode::Normal, reason: String::from("bye") };
    let message = Message::Close(Some(frame.clone()));
    match message {
        Message::Close(Some(carried)) => {
            assert_eq!(carried.code, CloseCode::Normal);
            assert_eq!(carried.reason, "bye");
        }
        other => panic!("expected a close message, got {:?}", other),
    }
    assert_eq!(frame.code.to_wire(), 1000);
}
