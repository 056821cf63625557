//! The message router. Handling one inbound envelope is an exchange between
//! the hub and the services around it: the router says what it needs next
//! (a token verified, a room looked up, a message written to a connection),
//! the caller does that and hands back the result, and the router decides
//! again, until the envelope is dealt with or dropped.

use crate::envelope::{
    Inbound, MessageData, Outbound, Participant, RequestAcceptedData, RtcConnectionData,
    SignalKind,
};
use crate::identity::{user_id_of_text, ConnectionId, UserId};
use crate::presence::{Bindings, PresenceDirectory};
use std::collections::VecDeque;
use vstd::prelude::*;

verus! {

/// A room as the room store describes it.
#[derive(Clone, Debug, PartialEq, Eq)]
pub struct Room {
    pub code: String,
    pub host_id: UserId,
    pub participants_id: Vec<UserId>,
}

/// A user as the user store describes it. A record may lack its own
/// identifier.
#[derive(Clone, Debug, PartialEq, Eq)]
pub struct User {
    pub id: Option<UserId>,
    pub username: String,
}

/// One message addressed to one connection.
#[derive(Clone, Debug, PartialEq, Eq)]
pub struct Delivery {
    pub connection: ConnectionId,
    pub message: Outbound,
}

/// What the router needs done before it can go on.
#[derive(Clone, Debug, PartialEq, Eq)]
pub enum Request {
    /// Verify the token; answer with `Reply::Token`.
    VerifyToken { access_token: String },
    /// Look the room up by its code; answer with `Reply::Room`.
    FindRoom { code: String },
    /// Look the user up; answer with `Reply::User`.
    FindUser { user_id: UserId },
    /// Record the user as a participant of the room; answer with
    /// `Reply::Stored`.
    AddParticipantToRoom { code: String, user_id: UserId },
    /// Record the participation by room code; answer with `Reply::Stored`.
    AddParticipant { code: String, user_id: UserId },
    /// Write the message to the connection; answer with `Reply::Delivered`.
    Deliver(Delivery),
    /// Nothing more: the envelope has been dealt with, or dropped.
    Finished,
}

/// The result of what the router asked for.
#[derive(Clone, Debug, PartialEq, Eq)]
pub enum Reply {
    /// The subject the token was issued to, or `None` for a token that did
    /// not verify.
    Token(Option<String>),
    /// The room, or `None` where the lookup failed or found nothing.
    Room(Option<Room>),
    /// The user, or `None` where the lookup failed or found nothing.
    User(Option<User>),
    /// Whether the write succeeded.
    Stored(bool),
    /// Whether the message could be written to the connection.
    Delivered(bool),
}

/// Where an exchange stands: what the router is waiting for.
#[derive(Clone, Debug, PartialEq, Eq)]
pub enum Stage {
    /// `join-room`: waiting for the token's subject.
    AwaitingToken { code: String },
    /// `join-room`: `user` is bound; waiting for the room.
    AwaitingRoom { user: UserId },
    /// `join-room`: waiting for the joining user's record.
    AwaitingUser { user: UserId, host: UserId },
    /// `join-room` of a guest: waiting for the host's record.
    AwaitingHost { user: UserId, username: String },
    /// `request-accepted`: waiting for the first write.
    AwaitingRoomWrite { data: RequestAcceptedData },
    /// `request-accepted`: waiting for the second write.
    AwaitingParticipantWrite { data: RequestAcceptedData },
    /// `message`: waiting for the room.
    AwaitingMessageRoom { line: MessageData },
    /// A message is being written; the queue holds those still to go.
    Sending,
    /// Nothing is pending.
    Finished,
}

/// An exchange as the contracts see it.
pub struct ExchangeState {
    /// The connection the envelope came in on.
    pub connection: ConnectionId,
    pub stage: Stage,
    /// The deliveries decided on and not yet asked for, in order.
    pub queue: Seq<Delivery>,
}

/// The handling of one inbound envelope, from its arrival to `Finished`.
pub struct Exchange {
    connection: ConnectionId,
    stage: Stage,
    queue: VecDeque<Delivery>,
}

impl View for Exchange {
    type V = ExchangeState;

    closed spec fn view(&self) -> ExchangeState {
        ExchangeState { connection: self.connection, stage: self.stage, queue: self.queue@ }
    }
}

/// A decision of the router: where the exchange stands afterwards and what
/// is asked of the caller.
pub struct Turn {
    pub state: ExchangeState,
    pub request: Request,
}

/// A decision of the router together with the bindings it leaves.
pub struct Outcome {
    pub state: ExchangeState,
    pub bindings: Bindings,
    pub request: Request,
}

/// The delivery of `message` to `user`: one where the user is bound, to
/// the connection of the binding; none where the user is not.
pub open spec fn to_user(bindings: Bindings, user: UserId, message: Outbound) -> Seq<Delivery> {
    if bindings.contains_key(user) {
        seq![Delivery { connection: bindings[user], message }]
    } else {
        Seq::empty()
    }
}

/// The deliveries of `message` to each of `users` in turn. A user listed
/// twice is served twice.
pub open spec fn fan_out(bindings: Bindings, users: Seq<UserId>, message: Outbound) -> Seq<
    Delivery,
>
    decreases users.len(),
{
    if users.len() == 0 {
        Seq::empty()
    } else {
        fan_out(bindings, users.drop_last(), message) + to_user(bindings, users.last(), message)
    }
}

/// The identifiers of the listed participants, in order.
pub open spec fn participant_ids(participants: Seq<Participant>) -> Seq<UserId> {
    Seq::new(participants.len(), |i: int| participants[i].id)
}

/// What `request-accepted` sends: `new-participant` to every listed
/// participant, then `participant-joined`, with the full roster, to the
/// user who was admitted.
pub open spec fn accepted_deliveries(bindings: Bindings, data: RequestAcceptedData) -> Seq<
    Delivery,
> {
    fan_out(
        bindings,
        participant_ids(data.participants@),
        Outbound::NewParticipant { user_id: data.user_id, username: data.username },
    ) + to_user(
        bindings,
        data.user_id,
        Outbound::ParticipantJoined {
            username: data.username,
            user_id: data.user_id,
            participants: data.participants,
            host_username: data.host_username,
            host_id: data.host_id,
        },
    )
}

/// What `message` sends: the line to every participant of the room, then
/// to its host. The two passes are independent, so a host who is also
/// listed as a participant is served in both.
pub open spec fn message_deliveries(bindings: Bindings, data: MessageData, room: Room) -> Seq<
    Delivery,
> {
    let line = Outbound::Message { message: data.message, username: data.username, id: data.id };
    fan_out(bindings, room.participants_id@, line) + to_user(bindings, room.host_id, line)
}

/// The relayed form of a negotiation envelope: same kind, same item, sent
/// on behalf of `user_id` and addressed to `to`.
pub open spec fn relayed(kind: SignalKind, data: RtcConnectionData) -> Outbound {
    Outbound::Signal { kind, item: data.item, from: data.user_id, user_id: data.to }
}

/// The exchange is over and nothing is asked for.
pub open spec fn finished(connection: ConnectionId) -> Turn {
    Turn {
        state: ExchangeState { connection, stage: Stage::Finished, queue: Seq::empty() },
        request: Request::Finished,
    }
}

/// Asks for the first delivery of `queue` and keeps the rest; finishes
/// where the queue is empty.
pub open spec fn sending(connection: ConnectionId, queue: Seq<Delivery>) -> Turn {
    if queue.len() == 0 {
        finished(connection)
    } else {
        Turn {
            state: ExchangeState { connection, stage: Stage::Sending, queue: queue.drop_first() },
            request: Request::Deliver(queue[0]),
        }
    }
}

/// Asks for `request` and waits at `stage`.
pub open spec fn waiting(connection: ConnectionId, stage: Stage, request: Request) -> Turn {
    Turn { state: ExchangeState { connection, stage, queue: Seq::empty() }, request }
}

/// The first decision on an envelope that came in on `connection`.
pub open spec fn begun(connection: ConnectionId, inbound: Inbound, bindings: Bindings) -> Turn {
    match inbound {
        Inbound::JoinRoom(data) => waiting(
            connection,
            Stage::AwaitingToken { code: data.code },
            Request::VerifyToken { access_token: data.access_token },
        ),
        Inbound::RequestAccepted(data) => waiting(
            connection,
            Stage::AwaitingRoomWrite { data },
            Request::AddParticipantToRoom { code: data.code, user_id: data.user_id },
        ),
        Inbound::Signal(kind, data) => sending(
            connection,
            to_user(bindings, data.to, relayed(kind, data)),
        ),
        Inbound::MouseMove(data) => sending(
            connection,
            to_user(bindings, data.to, Outbound::MouseMove { x: data.x, y: data.y }),
        ),
        Inbound::Message(data) => waiting(
            connection,
            Stage::AwaitingMessageRoom { line: data },
            Request::FindRoom { code: data.code },
        ),
        Inbound::Unrecognized => finished(connection),
    }
}

/// The decision on a reply, where the bindings stay as they are. A reply
/// that is not the one waited for, or that reports a failure, drops the
/// envelope; only a failed delivery does not, for the deliveries after it
/// are still owed.
pub open spec fn decided(state: ExchangeState, bindings: Bindings, reply: Reply) -> Turn {
    let connection = state.connection;
    match (state.stage, reply) {
        (Stage::AwaitingToken { code }, Reply::Token(Some(subject))) => match user_id_of_text(
            subject@,
        ) {
            Some(user) => waiting(
                connection,
                Stage::AwaitingRoom { user },
                Request::FindRoom { code },
            ),
            None => finished(connection),
        },
        (Stage::AwaitingRoom { user }, Reply::Room(Some(room))) => waiting(
            connection,
            Stage::AwaitingUser { user, host: room.host_id },
            Request::FindUser { user_id: user },
        ),
        (Stage::AwaitingUser { user, host }, Reply::User(Some(record))) => if user == host {
            sending(
                connection,
                to_user(
                    bindings,
                    user,
                    Outbound::HostJoined { user_id: user, username: record.username },
                ),
            )
        } else {
            waiting(
                connection,
                Stage::AwaitingHost { user, username: record.username },
                Request::FindUser { user_id: host },
            )
        },
        (Stage::AwaitingHost { user, username }, Reply::User(Some(record))) => match record.id {
            Some(host) => sending(
                connection,
                to_user(bindings, host, Outbound::JoinRequest { user_id: user, username }),
            ),
            None => finished(connection),
        },
        (Stage::AwaitingRoomWrite { data }, Reply::Stored(true)) => waiting(
            connection,
            Stage::AwaitingParticipantWrite { data },
            Request::AddParticipant { code: data.code, user_id: data.user_id },
        ),
        (Stage::AwaitingParticipantWrite { data }, Reply::Stored(true)) => sending(
            connection,
            accepted_deliveries(bindings, data),
        ),
        (Stage::AwaitingMessageRoom { line }, Reply::Room(Some(room))) => sending(
            connection,
            message_deliveries(bindings, line, room),
        ),
        (Stage::Sending, Reply::Delivered(_)) => sending(connection, state.queue),
        _ => finished(connection),
    }
}

/// The bindings after a reply: a verified token whose subject is a user
/// identifier binds that user to the connection of the exchange; nothing
/// else changes a binding.
pub open spec fn bound_after(state: ExchangeState, bindings: Bindings, reply: Reply) -> Bindings {
    match (state.stage, reply) {
        (Stage::AwaitingToken { code }, Reply::Token(Some(subject))) => match user_id_of_text(
            subject@,
        ) {
            Some(user) => bindings.insert(user, state.connection),
            None => bindings,
        },
        _ => bindings,
    }
}

/// The decision on a reply and the bindings it leaves. The decision is
/// taken on the bindings as they are after the reply has been applied.
pub open spec fn stepped(state: ExchangeState, bindings: Bindings, reply: Reply) -> Outcome {
    let after = bound_after(state, bindings, reply);
    let turn = decided(state, after, reply);
    Outcome { state: turn.state, bindings: after, request: turn.request }
}

/// The decision that a pair of exchange and request stands for.
pub open spec fn turn_of(pair: (Exchange, Request)) -> Turn {
    Turn { state: pair.0@, request: pair.1 }
}

fn finish(connection: ConnectionId) -> (r: (Exchange, Request))
    ensures
        turn_of(r) == finished(connection),
{
    (Exchange { connection, stage: Stage::Finished, queue: VecDeque::new() }, Request::Finished)
}

fn wait(connection: ConnectionId, stage: Stage, request: Request) -> (r: (Exchange, Request))
    ensures
        turn_of(r) == waiting(connection, stage, request),
{
    (Exchange { connection, stage, queue: VecDeque::new() }, request)
}

fn send(connection: ConnectionId, queue: VecDeque<Delivery>) -> (r: (Exchange, Request))
    ensures
        turn_of(r) == sending(connection, queue@),
{
    let mut queue = queue;
    match queue.pop_front() {
        Some(first) => (
            Exchange { connection, stage: Stage::Sending, queue },
            Request::Deliver(first),
        ),
        None => finish(connection),
    }
}

/// Adds to `queue` the delivery of `message` to `user`, if the user is
/// bound.
fn address(
    presence: &PresenceDirectory,
    user: UserId,
    message: Outbound,
    queue: &mut VecDeque<Delivery>,
)
    ensures
        final(queue)@ == old(queue)@ + to_user(presence@, user, message),
{
    if let Some(connection) = presence.resolve(user) {
        queue.push_back(Delivery { connection, message });
    }
}

/// Sends `message` to `user` alone.
fn send_to(
    connection: ConnectionId,
    presence: &PresenceDirectory,
    user: UserId,
    message: Outbound,
) -> (r: (Exchange, Request))
    ensures
        turn_of(r) == sending(connection, to_user(presence@, user, message)),
{
    let mut queue: VecDeque<Delivery> = VecDeque::new();
    address(presence, user, message, &mut queue);
    send(connection, queue)
}

proof fn lemma_fan_out_next(bindings: Bindings, users: Seq<UserId>, message: Outbound, i: int)
    requires
        0 <= i < users.len(),
    ensures
        fan_out(bindings, users.take(i + 1), message) == fan_out(bindings, users.take(i), message)
            + to_user(bindings, users[i], message),
{
    assert(users.take(i + 1).drop_last() =~= users.take(i));
}

fn plan_accepted(presence: &PresenceDirectory, data: RequestAcceptedData) -> (queue: VecDeque<
    Delivery,
>)
    ensures
        queue@ == accepted_deliveries(presence@, data),
{
    let mut queue: VecDeque<Delivery> = VecDeque::new();
    let ghost ids = participant_ids(data.participants@);
    let ghost notice = Outbound::NewParticipant { user_id: data.user_id, username: data.username };
    let mut i: usize = 0;
    while i < data.participants.len()
        invariant
            i <= data.participants.len(),
            ids == participant_ids(data.participants@),
            notice == (Outbound::NewParticipant {
                user_id: data.user_id,
                username: data.username,
            }),
            queue@ == fan_out(presence@, ids.take(i as int), notice),
        decreases data.participants.len() - i,
    {
        let message = Outbound::NewParticipant {
            user_id: data.user_id,
            username: data.username.clone(),
        };
        proof {
            lemma_fan_out_next(presence@, ids, notice, i as int);
        }
        address(presence, data.participants[i].id, message, &mut queue);
        i += 1;
    }
    assert(ids.take(i as int) =~= ids);
    let roster = Outbound::ParticipantJoined {
        username: data.username,
        user_id: data.user_id,
        participants: data.participants,
        host_username: data.host_username,
        host_id: data.host_id,
    };
    address(presence, data.user_id, roster, &mut queue);
    queue
}

fn plan_message(presence: &PresenceDirectory, data: MessageData, room: Room) -> (queue: VecDeque<
    Delivery,
>)
    ensures
        queue@ == message_deliveries(presence@, data, room),
{
    let mut queue: VecDeque<Delivery> = VecDeque::new();
    let ghost users = room.participants_id@;
    let ghost line = Outbound::Message {
        message: data.message,
        username: data.username,
        id: data.id,
    };
    let mut i: usize = 0;
    while i < room.participants_id.len()
        invariant
            i <= room.participants_id.len(),
            users == room.participants_id@,
            line == (Outbound::Message {
                message: data.message,
                username: data.username,
                id: data.id,
            }),
            queue@ == fan_out(presence@, users.take(i as int), line),
        decreases room.participants_id.len() - i,
    {
        let message = Outbound::Message {
            message: data.message.clone(),
            username: data.username.clone(),
            id: data.id,
        };
        proof {
            lemma_fan_out_next(presence@, users, line, i as int);
        }
        address(presence, room.participants_id[i], message, &mut queue);
        i += 1;
    }
    assert(users.take(i as int) =~= users);
    let message = Outbound::Message {
        message: data.message,
        username: data.username,
        id: data.id,
    };
    address(presence, room.host_id, message, &mut queue);
    queue
}

impl Exchange {
    /// Takes up an envelope that came in on `connection` and says what is
    /// needed first. The relays (`offer`, `answer`, `ice-candidate`,
    /// `mouse-move`) resolve their target at once; an envelope of no known
    /// kind is finished before it began.
    pub fn begin(connection: ConnectionId, inbound: Inbound, presence: &PresenceDirectory) -> (r: (
        Exchange,
        Request,
    ))
        ensures
            turn_of(r) == begun(connection, inbound, presence@),
    {
        match inbound {
            Inbound::JoinRoom(data) => wait(
                connection,
                Stage::AwaitingToken { code: data.code },
                Request::VerifyToken { access_token: data.access_token },
            ),
            Inbound::RequestAccepted(data) => {
                let request = Request::AddParticipantToRoom {
                    code: data.code.clone(),
                    user_id: data.user_id,
                };
                wait(connection, Stage::AwaitingRoomWrite { data }, request)
            },
            Inbound::Signal(kind, data) => {
                let to = data.to;
                let message = Outbound::Signal {
                    kind,
                    item: data.item,
                    from: data.user_id,
                    user_id: data.to,
                };
                send_to(connection, presence, to, message)
            },
            Inbound::MouseMove(data) => send_to(
                connection,
                presence,
                data.to,
                Outbound::MouseMove { x: data.x, y: data.y },
            ),
            Inbound::Message(data) => {
                let request = Request::FindRoom { code: data.code.clone() };
                wait(connection, Stage::AwaitingMessageRoom { line: data }, request)
            },
            Inbound::Unrecognized => finish(connection),
        }
    }

    /// Takes the reply to the last request and says what is needed next.
    /// Only a verified token changes the directory: it binds the token's
    /// user to the connection of the exchange.
    pub fn step(self, presence: &mut PresenceDirectory, reply: Reply) -> (r: (Exchange, Request))
        ensures
            (Outcome { state: r.0@, bindings: final(presence)@, request: r.1 }) == stepped(
                self@,
                old(presence)@,
                reply,
            ),
    {
        let connection = self.connection;
        match (self.stage, reply) {
            (Stage::AwaitingToken { code }, Reply::Token(Some(subject))) => {
                match UserId::parse(subject.as_str()) {
                    Some(user) => {
                        presence.bind(user, connection);
                        wait(connection, Stage::AwaitingRoom { user }, Request::FindRoom { code })
                    },
                    None => finish(connection),
                }
            },
            (Stage::AwaitingRoom { user }, Reply::Room(Some(room))) => wait(
                connection,
                Stage::AwaitingUser { user, host: room.host_id },
                Request::FindUser { user_id: user },
            ),
            (Stage::AwaitingUser { user, host }, Reply::User(Some(record))) => {
                if user == host {
                    send_to(
                        connection,
                        presence,
                        user,
                        Outbound::HostJoined { user_id: user, username: record.username },
                    )
                } else {
                    wait(
                        connection,
                        Stage::AwaitingHost { user, username: record.username },
                        Request::FindUser { user_id: host },
                    )
                }
            },
            (Stage::AwaitingHost { user, username }, Reply::User(Some(record))) => {
                match record.id {
                    Some(host) => send_to(
                        connection,
                        presence,
                        host,
                        Outbound::JoinRequest { user_id: user, username },
                    ),
                    None => finish(connection),
                }
            },
            (Stage::AwaitingRoomWrite { data }, Reply::Stored(true)) => {
                let request = Request::AddParticipant {
                    code: data.code.clone(),
                    user_id: data.user_id,
                };
                wait(connection, Stage::AwaitingParticipantWrite { data }, request)
            },
            (Stage::AwaitingParticipantWrite { data }, Reply::Stored(true)) => {
                let queue = plan_accepted(presence, data);
                send(connection, queue)
            },
            (Stage::AwaitingMessageRoom { line }, Reply::Room(Some(room))) => {
                let queue = plan_message(presence, line, room);
                send(connection, queue)
            },
            (Stage::Sending, Reply::Delivered(_)) => send(connection, self.queue),
            _ => finish(connection),
        }
    }
}

} // verus!
