//! What holds of every exchange, proved from the router's own definitions.

use crate::envelope::{
    kind_of_tag, signal_tag, EnvelopeKind, Inbound, JoinRoomData, MessageData, Outbound,
    RtcConnectionData, SignalKind,
};
use crate::identity::{user_id_of_text, ConnectionId, UserId};
use crate::presence::{lookup, Bindings};
use crate::router::{
    begun, fan_out, finished, message_deliveries, relayed, stepped, to_user, Delivery,
    ExchangeState, Outcome, Reply, Request, Room, Stage, User,
};
use vstd::prelude::*;

verus! {

/// One `join-room` as the directory sees it: the connection it came in on,
/// its payload, and the subject that its token verified to.
pub struct Join {
    pub connection: ConnectionId,
    pub data: JoinRoomData,
    pub subject: String,
}

/// The bindings after one `join-room` whose token verified.
pub open spec fn after_join(bindings: Bindings, join: Join) -> Bindings {
    stepped(
        begun(join.connection, Inbound::JoinRoom(join.data), bindings).state,
        bindings,
        Reply::Token(Some(join.subject)),
    ).bindings
}

/// The bindings after each of `joins` in turn.
pub open spec fn after_joins(bindings: Bindings, joins: Seq<Join>) -> Bindings
    decreases joins.len(),
{
    if joins.len() == 0 {
        bindings
    } else {
        after_join(after_joins(bindings, joins.drop_last()), joins.last())
    }
}

/// However many times a user joins, and from whichever connections, the
/// user resolves to the connection of the latest join.
pub proof fn lemma_latest_join_is_resolved(bindings: Bindings, joins: Seq<Join>, user: UserId)
    requires
        joins.len() > 0,
        forall|i: int|
            0 <= i < joins.len() ==> user_id_of_text((#[trigger] joins[i]).subject@) == Some(user),
    ensures
        lookup(after_joins(bindings, joins), user) == Some(joins.last().connection),
{
}

/// Joins of other users, and joins that fail, do not disturb a binding:
/// among any joins, a user resolves to the connection of the latest join
/// that was the user's own.
pub proof fn lemma_latest_own_join_is_resolved(
    bindings: Bindings,
    joins: Seq<Join>,
    user: UserId,
    latest: int,
)
    requires
        0 <= latest < joins.len(),
        user_id_of_text(joins[latest].subject@) == Some(user),
        forall|i: int|
            latest < i < joins.len() ==> user_id_of_text((#[trigger] joins[i]).subject@) != Some(
                user,
            ),
    ensures
        lookup(after_joins(bindings, joins), user) == Some(joins[latest].connection),
    decreases joins.len(),
{
    if latest < joins.len() - 1 {
        lemma_latest_own_join_is_resolved(bindings, joins.drop_last(), user, latest);
    }
}

/// A token that does not verify, or whose subject is no user identifier,
/// ends the `join-room` and leaves every binding as it was.
pub proof fn lemma_failed_join_binds_nothing(
    connection: ConnectionId,
    data: JoinRoomData,
    bindings: Bindings,
    subject: Option<String>,
)
    requires
        subject matches Some(text) ==> user_id_of_text(text@) is None,
    ensures
        stepped(
            begun(connection, Inbound::JoinRoom(data), bindings).state,
            bindings,
            Reply::Token(subject),
        ) == (Outcome {
            state: finished(connection).state,
            bindings,
            request: Request::Finished,
        }),
{
}

/// When the room's host joins, exactly one message goes out: `host-joined`,
/// to the connection the join came in on. Whether it can be written or not,
/// the exchange is then finished.
pub proof fn lemma_host_join_is_self_addressed(
    connection: ConnectionId,
    data: JoinRoomData,
    bindings: Bindings,
    subject: String,
    room: Room,
    record: User,
    user: UserId,
    written: bool,
)
    requires
        user_id_of_text(subject@) == Some(user),
        room.host_id == user,
    ensures
        ({
            let start = begun(connection, Inbound::JoinRoom(data), bindings);
            let bound = stepped(start.state, bindings, Reply::Token(Some(subject)));
            let found = stepped(bound.state, bound.bindings, Reply::Room(Some(room)));
            let known = stepped(found.state, found.bindings, Reply::User(Some(record)));
            let done = stepped(known.state, known.bindings, Reply::Delivered(written));
            &&& start.request == (Request::VerifyToken { access_token: data.access_token })
            &&& bound.request == (Request::FindRoom { code: data.code })
            &&& found.request == (Request::FindUser { user_id: user })
            &&& known.request == Request::Deliver(
                Delivery {
                    connection,
                    message: Outbound::HostJoined { user_id: user, username: record.username },
                },
            )
            &&& done.request == Request::Finished
            &&& done.bindings == bindings.insert(user, connection)
        }),
{
}

/// When a guest joins, the host's record is looked up, and `join-request`
/// goes to the connection that the identifier of that record is bound to:
/// exactly one message where there is such a binding, none where there is
/// not, and none where the record carries no identifier.
pub proof fn lemma_guest_join_asks_the_host(
    connection: ConnectionId,
    data: JoinRoomData,
    bindings: Bindings,
    subject: String,
    room: Room,
    record: User,
    host_record: User,
    user: UserId,
    written: bool,
)
    requires
        user_id_of_text(subject@) == Some(user),
        room.host_id != user,
    ensures
        ({
            let start = begun(connection, Inbound::JoinRoom(data), bindings);
            let bound = stepped(start.state, bindings, Reply::Token(Some(subject)));
            let found = stepped(bound.state, bound.bindings, Reply::Room(Some(room)));
            let known = stepped(found.state, found.bindings, Reply::User(Some(record)));
            let asked = stepped(known.state, known.bindings, Reply::User(Some(host_record)));
            let current = bindings.insert(user, connection);
            &&& known.request == (Request::FindUser { user_id: room.host_id })
            &&& asked.bindings == current
            &&& match host_record.id {
                Some(host) => match lookup(current, host) {
                    Some(target) => {
                        &&& asked.request == Request::Deliver(
                            Delivery {
                                connection: target,
                                message: Outbound::JoinRequest {
                                    user_id: user,
                                    username: record.username,
                                },
                            },
                        )
                        &&& stepped(
                            asked.state,
                            asked.bindings,
                            Reply::Delivered(written),
                        ).request == Request::Finished
                    },
                    None => asked.request == Request::Finished,
                },
                None => asked.request == Request::Finished,
            }
        }),
{
}

/// A negotiation envelope is relayed as it came: the item untouched, the
/// kind kept, `from` set to the sender. It goes to the connection its
/// target is bound to, and nowhere where the target is not bound.
pub proof fn lemma_relay_keeps_the_item(
    connection: ConnectionId,
    kind: SignalKind,
    data: RtcConnectionData,
    bindings: Bindings,
)
    ensures
        relayed(kind, data) matches Outbound::Signal { kind: k, item, from, user_id }
            && k == kind && item == data.item && from == data.user_id && user_id == data.to,
        kind_of_tag(relayed(kind, data).tag_of()) == EnvelopeKind::Signal(kind),
        begun(connection, Inbound::Signal(kind, data), bindings).request == match lookup(
            bindings,
            data.to,
        ) {
            Some(target) => Request::Deliver(
                Delivery { connection: target, message: relayed(kind, data) },
            ),
            None => Request::Finished,
        },
{
    lemma_signal_tags_select_their_kind(kind);
}

/// The `type` under which a negotiation envelope is sent on selects the
/// kind it came in as.
pub proof fn lemma_signal_tags_select_their_kind(kind: SignalKind)
    ensures
        kind_of_tag(signal_tag(kind)) == EnvelopeKind::Signal(kind),
{
    // The five types that are tried first all differ in length.
    reveal_strlit("join-room");
    reveal_strlit("request-accepted");
    reveal_strlit("offer");
    reveal_strlit("answer");
    reveal_strlit("ice-candidate");
    assert("join-room"@.len() == 9);
    assert("request-accepted"@.len() == 16);
    assert("offer"@.len() == 5);
    assert("answer"@.len() == 6);
    assert("ice-candidate"@.len() == 13);
}

/// Where every listed user is bound, each of them is served exactly once
/// per listing, in the order of the list.
pub proof fn lemma_fan_out_serves_each(bindings: Bindings, users: Seq<UserId>, message: Outbound)
    requires
        forall|i: int| 0 <= i < users.len() ==> bindings.contains_key(#[trigger] users[i]),
    ensures
        fan_out(bindings, users, message).len() == users.len(),
        forall|i: int|
            0 <= i < users.len() ==> (#[trigger] fan_out(bindings, users, message)[i]) == (Delivery {
                connection: bindings[users[i]],
                message,
            }),
    decreases users.len(),
{
    if users.len() > 0 {
        lemma_fan_out_serves_each(bindings, users.drop_last(), message);
    }
}

/// Nobody who is not bound is served, and nothing is sent twice for one
/// listing: there are never more deliveries than listed users.
pub proof fn lemma_fan_out_is_bounded(bindings: Bindings, users: Seq<UserId>, message: Outbound)
    ensures
        fan_out(bindings, users, message).len() <= users.len(),
        forall|i: int|
            0 <= i < fan_out(bindings, users, message).len() ==> {
                let delivery = #[trigger] fan_out(bindings, users, message)[i];
                &&& delivery.message == message
                &&& exists|j: int|
                    0 <= j < users.len() && lookup(bindings, #[trigger] users[j]) == Some(
                        delivery.connection,
                    )
            },
    decreases users.len(),
{
    if users.len() > 0 {
        let earlier = users.drop_last();
        lemma_fan_out_is_bounded(bindings, earlier, message);
        let before = fan_out(bindings, earlier, message);
        let all = fan_out(bindings, users, message);
        assert forall|i: int| 0 <= i < all.len() implies {
            let delivery = #[trigger] all[i];
            &&& delivery.message == message
            &&& exists|j: int|
                0 <= j < users.len() && lookup(bindings, #[trigger] users[j]) == Some(
                    delivery.connection,
                )
        } by {
            if i < before.len() {
                let j = choose|j: int|
                    0 <= j < earlier.len() && lookup(bindings, #[trigger] earlier[j]) == Some(
                        before[i].connection,
                    );
                assert(users[j] == earlier[j]);
            }
        }
    }
}

/// A line of chat for a room whose participants and host are all bound
/// reaches every participant once per listing and then the host, each at
/// the bound connection: one more delivery than there are participants. A
/// host who is also listed as a participant is therefore served twice.
pub proof fn lemma_message_reaches_the_room(bindings: Bindings, data: MessageData, room: Room)
    requires
        bindings.contains_key(room.host_id),
        forall|i: int|
            0 <= i < room.participants_id@.len() ==> bindings.contains_key(
                #[trigger] room.participants_id@[i],
            ),
    ensures
        ({
            let line = Outbound::Message {
                message: data.message,
                username: data.username,
                id: data.id,
            };
            let sent = message_deliveries(bindings, data, room);
            let count = room.participants_id@.len();
            &&& sent.len() == count + 1
            &&& forall|i: int|
                0 <= i < count ==> (#[trigger] sent[i]) == (Delivery {
                    connection: bindings[room.participants_id@[i]],
                    message: line,
                })
            &&& sent[count as int] == (Delivery { connection: bindings[room.host_id], message: line })
        }),
{
    let line = Outbound::Message { message: data.message, username: data.username, id: data.id };
    lemma_fan_out_serves_each(bindings, room.participants_id@, line);
}

/// The outcome after the router, in the middle of sending, has been told
/// of each of `written` in turn.
pub open spec fn told_each(state: ExchangeState, bindings: Bindings, written: Seq<bool>) -> Outcome
    decreases written.len(),
{
    if written.len() == 0 {
        Outcome { state, bindings, request: Request::Finished }
    } else {
        let before = told_each(state, bindings, written.drop_last());
        stepped(before.state, before.bindings, Reply::Delivered(written.last()))
    }
}

/// A delivery that fails is treated as one that succeeds: the router
/// decides the same either way.
pub proof fn lemma_failed_delivery_is_passed_over(state: ExchangeState, bindings: Bindings)
    ensures
        stepped(state, bindings, Reply::Delivered(false)) == stepped(
            state,
            bindings,
            Reply::Delivered(true),
        ),
{
}

/// Whatever becomes of the single deliveries, every queued delivery is
/// asked for, once and in order, and the exchange then finishes; no
/// binding changes on the way.
pub proof fn lemma_every_queued_delivery_is_asked_for(
    state: ExchangeState,
    bindings: Bindings,
    written: Seq<bool>,
)
    requires
        state.stage == Stage::Sending,
        0 < written.len() <= state.queue.len() + 1,
    ensures
        told_each(state, bindings, written).bindings == bindings,
        told_each(state, bindings, written).state.connection == state.connection,
        written.len() <= state.queue.len() ==> {
            &&& told_each(state, bindings, written).request == Request::Deliver(
                state.queue[written.len() - 1],
            )
            &&& told_each(state, bindings, written).state.stage == Stage::Sending
            &&& told_each(state, bindings, written).state.queue == state.queue.skip(
                written.len() as int,
            )
        },
        written.len() == state.queue.len() + 1 ==> {
            &&& told_each(state, bindings, written).request == Request::Finished
            &&& told_each(state, bindings, written).state.stage == Stage::Finished
        },
    decreases written.len(),
{
    let earlier = written.drop_last();
    if earlier.len() == 0 {
        assert(told_each(state, bindings, earlier).state == state);
    } else {
        lemma_every_queued_delivery_is_asked_for(state, bindings, earlier);
        assert(told_each(state, bindings, earlier).state.queue == state.queue.skip(
            earlier.len() as int,
        ));
    }
}

/// An envelope whose `type` is none of the known ones is of no kind, and
/// an envelope of no kind is finished at once: no lookup, no delivery.
pub proof fn lemma_unknown_type_is_dropped(
    tag: Seq<char>,
    connection: ConnectionId,
    bindings: Bindings,
)
    requires
        tag != "join-room"@,
        tag != "request-accepted"@,
        tag != "offer"@,
        tag != "answer"@,
        tag != "ice-candidate"@,
        tag != "mouse-move"@,
        tag != "message"@,
    ensures
        kind_of_tag(tag) == EnvelopeKind::Unrecognized,
        begun(connection, Inbound::Unrecognized, bindings) == finished(connection),
{
}

/// Whether `reply` reports that what was asked for could not be had.
pub open spec fn reports_failure(reply: Reply) -> bool {
    match reply {
        Reply::Token(subject) => subject is None,
        Reply::Room(room) => room is None,
        Reply::User(user) => user is None,
        Reply::Stored(stored) => !stored,
        Reply::Delivered(_) => false,
    }
}

/// A token that does not verify, a lookup that finds nothing and a write
/// that fails each drop the envelope at hand: nothing is sent, to the
/// sender or to anyone else, and no binding changes.
pub proof fn lemma_failure_drops_the_envelope(
    state: ExchangeState,
    bindings: Bindings,
    reply: Reply,
)
    requires
        reports_failure(reply),
    ensures
        stepped(state, bindings, reply) == (Outcome {
            state: finished(state.connection).state,
            bindings,
            request: Request::Finished,
        }),
{
}

/// Nothing wakes a finished exchange: whatever it is told, it asks for
/// nothing and changes nothing.
pub proof fn lemma_finished_stays_finished(
    connection: ConnectionId,
    bindings: Bindings,
    reply: Reply,
)
    ensures
        stepped(finished(connection).state, bindings, reply) == (Outcome {
            state: finished(connection).state,
            bindings,
            request: Request::Finished,
        }),
{
}

/// No reply but a verified token ever changes a binding.
pub proof fn lemma_only_a_join_binds(state: ExchangeState, bindings: Bindings, reply: Reply)
    requires
        !(state.stage is AwaitingToken && reply is Token),
    ensures
        stepped(state, bindings, reply).bindings == bindings,
{
}

} // verus!
