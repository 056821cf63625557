use signaling_hub::envelope::{
    classify, frame_from_json, read_frame, EnvelopeKind, Frame, Outbound, SignalKind,
};
use signaling_hub::identity::UserId;

fn json(text: &str) -> serde_json::Value {
    serde_json::from_str::<serde_json::Value>(text).unwrap()
}

#[test]
fn classify_knows_the_seven_types() {
    assert_eq!(classify("join-room"), EnvelopeKind::JoinRoom);
    assert_eq!(classify("request-accepted"), EnvelopeKind::RequestAccepted);
    assert_eq!(classify("offer"), EnvelopeKind::Signal(SignalKind::Offer));
    assert_eq!(classify("answer"), EnvelopeKind::Signal(SignalKind::Answer));
    assert_eq!(classify("ice-candidate"), EnvelopeKind::Signal(SignalKind::IceCandidate));
    assert_eq!(classify("mouse-move"), EnvelopeKind::MouseMove);
    assert_eq!(classify("message"), EnvelopeKind::Message);
}

#[test]
fn classify_rejects_everything_else() {
    assert_eq!(classify(""), EnvelopeKind::Unrecognized);
    assert_eq!(classify("Join-Room"), EnvelopeKind::Unrecognized);
    assert_eq!(classify("join-room "), EnvelopeKind::Unrecognized);
    assert_eq!(classify("join_room"), EnvelopeKind::Unrecognized);
    assert_eq!(classify("host-joined"), EnvelopeKind::Unrecognized);
    assert_eq!(classify("messages"), EnvelopeKind::Unrecognized);
    assert_eq!(classify("offe"), EnvelopeKind::Unrecognized);
}

#[test]
fn signal_tags_round_trip() {
    for kind in [SignalKind::Offer, SignalKind::Answer, SignalKind::IceCandidate] {
        assert_eq!(classify(kind.tag()), EnvelopeKind::Signal(kind));
    }
    assert_eq!(SignalKind::Offer.tag(), "offer");
    assert_eq!(SignalKind::Answer.tag(), "answer");
    assert_eq!(SignalKind::IceCandidate.tag(), "ice-candidate");
}

#[test]
fn outbound_messages_carry_their_type() {
    let name = || "ann".to_string();
    assert_eq!(
        Outbound::HostJoined { user_id: UserId(1), username: name() }.message_type(),
        "host-joined"
    );
    assert_eq!(
        Outbound::JoinRequest { user_id: UserId(1), username: name() }.message_type(),
        "join-request"
    );
    assert_eq!(
        Outbound::NewParticipant { user_id: UserId(1), username: name() }.message_type(),
        "new-participant"
    );
    assert_eq!(
        Outbound::ParticipantJoined {
            username: name(),
            user_id: UserId(1),
            participants: vec![],
            host_username: name(),
            host_id: UserId(2),
        }
        .message_type(),
        "participant-joined"
    );
    assert_eq!(
        Outbound::Signal {
            kind: SignalKind::IceCandidate,
            item: serde_json::Value::Null,
            from: UserId(1),
            user_id: UserId(2),
        }
        .message_type(),
        "ice-candidate"
    );
    assert_eq!(Outbound::MouseMove { x: 0, y: 0 }.message_type(), "mouse-move");
    assert_eq!(
        Outbound::Message { message: name(), username: name(), id: UserId(1) }.message_type(),
        "message"
    );
}

#[test]
fn read_frame_splits_type_and_data() {
    let frame = read_frame(r#"{"type":"join-room","data":{"access_token":"t","code":"c"}}"#);
    assert_eq!(
        frame,
        Some(Frame {
            kind: EnvelopeKind::JoinRoom,
            data: json(r#"{"access_token":"t","code":"c"}"#),
        })
    );
}

#[test]
fn read_frame_ignores_member_order_and_extra_members() {
    let frame = read_frame(r#" { "extra": 1, "data": [1, 2], "type": "message" } "#);
    assert_eq!(frame, Some(Frame { kind: EnvelopeKind::Message, data: json("[1,2]") }));
}

#[test]
fn read_frame_of_unknown_type_is_unrecognized() {
    let frame = read_frame(r#"{"type":"shout","data":{"x":1}}"#);
    assert_eq!(
        frame,
        Some(Frame { kind: EnvelopeKind::Unrecognized, data: json(r#"{"x":1}"#) })
    );
}

#[test]
fn read_frame_without_data_carries_null() {
    let frame = read_frame(r#"{"type":"offer"}"#);
    assert_eq!(
        frame,
        Some(Frame {
            kind: EnvelopeKind::Signal(SignalKind::Offer),
            data: serde_json::Value::Null,
        })
    );
}

#[test]
fn read_frame_drops_what_is_not_json() {
    assert_eq!(read_frame(""), None);
    assert_eq!(read_frame("join-room"), None);
    assert_eq!(read_frame(r#"{"type":"join-room","data":"#), None);
    assert_eq!(read_frame(r#"{"type":"join-room"} trailing"#), None);
}

#[test]
fn read_frame_drops_a_missing_or_non_string_type() {
    assert_eq!(read_frame(r#"{"data":{}}"#), None);
    assert_eq!(read_frame(r#"{"type":7,"data":{}}"#), None);
    assert_eq!(read_frame(r#"{"type":null,"data":{}}"#), None);
    assert_eq!(read_frame(r#"{"type":["offer"],"data":{}}"#), None);
    assert_eq!(read_frame(r#"["type","offer"]"#), None);
    assert_eq!(read_frame(r#""offer""#), None);
    assert_eq!(read_frame("42"), None);
}

#[test]
fn frame_from_json_reads_a_document() {
    let document = json(r#"{"type":"mouse-move","data":{"x":1.5,"y":2,"to":"abc"}}"#);
    assert_eq!(
        frame_from_json(&document),
        Some(Frame {
            kind: EnvelopeKind::MouseMove,
            data: json(r#"{"x":1.5,"y":2,"to":"abc"}"#),
        })
    );
    assert_eq!(frame_from_json(&serde_json::Value::Null), None);
    assert_eq!(frame_from_json(&json(r#"{"type":false}"#)), None);
}

#[test]
fn read_frame_resolves_escapes_in_the_type() {
    let frame = read_frame(r#"{"type":"\u006fffer","data":null}"#);
    assert_eq!(
        frame,
        Some(Frame {
            kind: EnvelopeKind::Signal(SignalKind::Offer),
            data: serde_json::Value::Null,
        })
    );
}
