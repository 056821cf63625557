//! The wire unit and what it can carry: the kinds of envelope, the payload
//! that comes with each kind, and the messages the hub sends out.

use crate::identity::UserId;
use crate::json::{as_text, json_member, json_of_text, json_string, member, parse_json};
use vstd::prelude::*;

verus! {

/// The three envelopes of a peer-to-peer negotiation. The hub relays them
/// alike and never reads what they carry.
#[derive(Clone, Copy, Debug, PartialEq, Eq, Hash, Structural)]
pub enum SignalKind {
    Offer,
    Answer,
    IceCandidate,
}

/// What the `type` of an inbound envelope selects.
#[derive(Clone, Copy, Debug, PartialEq, Eq, Hash, Structural)]
pub enum EnvelopeKind {
    JoinRoom,
    RequestAccepted,
    Signal(SignalKind),
    MouseMove,
    Message,
    /// Any `type` the hub has no handler for.
    Unrecognized,
}

/// The `type` under which a negotiation envelope travels.
pub open spec fn signal_tag(kind: SignalKind) -> Seq<char> {
    match kind {
        SignalKind::Offer => "offer"@,
        SignalKind::Answer => "answer"@,
        SignalKind::IceCandidate => "ice-candidate"@,
    }
}

/// The kind that a `type` string selects.
pub open spec fn kind_of_tag(tag: Seq<char>) -> EnvelopeKind {
    if tag == "join-room"@ {
        EnvelopeKind::JoinRoom
    } else if tag == "request-accepted"@ {
        EnvelopeKind::RequestAccepted
    } else if tag == "offer"@ {
        EnvelopeKind::Signal(SignalKind::Offer)
    } else if tag == "answer"@ {
        EnvelopeKind::Signal(SignalKind::Answer)
    } else if tag == "ice-candidate"@ {
        EnvelopeKind::Signal(SignalKind::IceCandidate)
    } else if tag == "mouse-move"@ {
        EnvelopeKind::MouseMove
    } else if tag == "message"@ {
        EnvelopeKind::Message
    } else {
        EnvelopeKind::Unrecognized
    }
}

/// Calls `==` on two string slices, that is `PartialEq::eq` of `str`. The
/// contract is trusted: it says that the comparison holds exactly when
/// both have the same characters.
#[verifier::external_body]
pub(crate) fn same_text(a: &str, b: &str) -> (r: bool)
    ensures
        r == (a@ == b@),
{
    a == b
}

/// Selects the handler for a `type` string. Every string that is not one of
/// the seven known types is `Unrecognized`.
pub fn classify(tag: &str) -> (r: EnvelopeKind)
    ensures
        r == kind_of_tag(tag@),
{
    if same_text(tag, "join-room") {
        EnvelopeKind::JoinRoom
    } else if same_text(tag, "request-accepted") {
        EnvelopeKind::RequestAccepted
    } else if same_text(tag, "offer") {
        EnvelopeKind::Signal(SignalKind::Offer)
    } else if same_text(tag, "answer") {
        EnvelopeKind::Signal(SignalKind::Answer)
    } else if same_text(tag, "ice-candidate") {
        EnvelopeKind::Signal(SignalKind::IceCandidate)
    } else if same_text(tag, "mouse-move") {
        EnvelopeKind::MouseMove
    } else if same_text(tag, "message") {
        EnvelopeKind::Message
    } else {
        EnvelopeKind::Unrecognized
    }
}

impl SignalKind {
    /// The `type` under which this kind of envelope is sent on.
    pub fn tag(self) -> (r: &'static str)
        ensures
            r@ == signal_tag(self),
    {
        match self {
            SignalKind::Offer => "offer",
            SignalKind::Answer => "answer",
            SignalKind::IceCandidate => "ice-candidate",
        }
    }
}

/// One member of a room as the clients list it.
#[derive(Clone, Debug, PartialEq, Eq)]
pub struct Participant {
    pub username: String,
    pub id: UserId,
}

/// Payload of `join-room`: the token that proves who is joining, and the
/// code of the room.
#[derive(Clone, Debug, PartialEq, Eq)]
pub struct JoinRoomData {
    pub access_token: String,
    pub code: String,
}

/// Payload of `request-accepted`: the host has admitted `user_id` to the
/// room `code`; `participants` are the members to be told.
#[derive(Clone, Debug, PartialEq, Eq)]
pub struct RequestAcceptedData {
    pub username: String,
    pub user_id: UserId,
    pub participants: Vec<Participant>,
    pub code: String,
    pub host_username: String,
    pub host_id: UserId,
}

/// Payload of `offer`, `answer` and `ice-candidate`: an item that only the
/// two peers understand, from `user_id` to `to`.
#[derive(Clone, Debug, PartialEq, Eq)]
pub struct RtcConnectionData {
    pub item: serde_json::Value,
    pub to: UserId,
    pub user_id: UserId,
}

/// Payload of `mouse-move`: a cursor position for `to`. Each coordinate is
/// held as the bit pattern of a 64-bit IEEE 754 number, which the hub
/// passes on untouched.
#[derive(Clone, Copy, Debug, PartialEq, Eq)]
pub struct MouseMoveData {
    pub x: u64,
    pub y: u64,
    pub to: UserId,
}

/// Payload of `message`: a line of chat from `id` to the room `code`.
#[derive(Clone, Debug, PartialEq, Eq)]
pub struct MessageData {
    pub message: String,
    pub username: String,
    pub id: UserId,
    pub code: String,
}

/// A decoded inbound envelope.
#[derive(Clone, Debug, PartialEq, Eq)]
pub enum Inbound {
    JoinRoom(JoinRoomData),
    RequestAccepted(RequestAcceptedData),
    Signal(SignalKind, RtcConnectionData),
    MouseMove(MouseMoveData),
    Message(MessageData),
    Unrecognized,
}

/// A message that the hub sends to a connection.
#[derive(Clone, Debug, PartialEq, Eq)]
pub enum Outbound {
    /// To the host: the host's own join has been seen.
    HostJoined { user_id: UserId, username: String },
    /// To the host: a guest asks to be admitted.
    JoinRequest { user_id: UserId, username: String },
    /// To each listed member: somebody has been admitted.
    NewParticipant { user_id: UserId, username: String },
    /// To the admitted user: the room as it now stands.
    ParticipantJoined {
        username: String,
        user_id: UserId,
        participants: Vec<Participant>,
        host_username: String,
        host_id: UserId,
    },
    /// A negotiation item relayed from `from` to `user_id`.
    Signal { kind: SignalKind, item: serde_json::Value, from: UserId, user_id: UserId },
    /// A cursor position; who moved is not said.
    MouseMove { x: u64, y: u64 },
    /// A line of chat.
    Message { message: String, username: String, id: UserId },
}

impl Outbound {
    /// The `type` under which the message is sent.
    pub open spec fn tag_of(self) -> Seq<char> {
        match self {
            Outbound::HostJoined { .. } => "host-joined"@,
            Outbound::JoinRequest { .. } => "join-request"@,
            Outbound::NewParticipant { .. } => "new-participant"@,
            Outbound::ParticipantJoined { .. } => "participant-joined"@,
            Outbound::Signal { kind, .. } => signal_tag(kind),
            Outbound::MouseMove { .. } => "mouse-move"@,
            Outbound::Message { .. } => "message"@,
        }
    }

    /// The `type` under which the message is sent.
    pub fn message_type(&self) -> (r: &'static str)
        ensures
            r@ == self.tag_of(),
    {
        match self {
            Outbound::HostJoined { .. } => "host-joined",
            Outbound::JoinRequest { .. } => "join-request",
            Outbound::NewParticipant { .. } => "new-participant",
            Outbound::ParticipantJoined { .. } => "participant-joined",
            Outbound::Signal { kind, .. } => kind.tag(),
            Outbound::MouseMove { .. } => "mouse-move",
            Outbound::Message { .. } => "message",
        }
    }
}

/// An inbound envelope after its `type` has been read: the kind it selects
/// and the `data` member, not yet decoded.
#[derive(Clone, Debug, PartialEq, Eq)]
pub struct Frame {
    pub kind: EnvelopeKind,
    pub data: serde_json::Value,
}

/// The frame that a JSON document holds: none unless its `type` member is a
/// string.
pub open spec fn frame_of_json(document: serde_json::Value) -> Option<Frame> {
    match json_string(json_member(document, "type"@)) {
        Some(tag) => Some(Frame { kind: kind_of_tag(tag), data: json_member(document, "data"@) }),
        None => None,
    }
}

/// The frame that a text holds: none unless the text is a JSON document
/// that holds one.
pub open spec fn frame_of_text(text: Seq<char>) -> Option<Frame> {
    match json_of_text(text) {
        Some(document) => frame_of_json(document),
        None => None,
    }
}

/// Reads the frame out of a JSON document.
pub fn frame_from_json(document: &serde_json::Value) -> (r: Option<Frame>)
    ensures
        r == frame_of_json(*document),
{
    match as_text(member(document, "type")) {
        Some(tag) => Some(Frame { kind: classify(tag), data: member(document, "data").clone() }),
        None => None,
    }
}

/// Reads the frame out of the text of one inbound message. Text that is
/// not JSON, or whose `type` is missing or not a string, holds no frame.
pub fn read_frame(text: &str) -> (r: Option<Frame>)
    ensures
        r == frame_of_text(text@),
{
    match parse_json(text) {
        Some(document) => frame_from_json(&document),
        None => None,
    }
}

} // verus!
