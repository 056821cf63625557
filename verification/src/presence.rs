//! The presence directory: which connection each authenticated user is
//! currently reachable at.

use crate::identity::{ConnectionId, UserId};
use std::collections::HashMap;
use vstd::prelude::*;

verus! {

broadcast use vstd::std_specs::hash::group_hash_axioms;

/// The bindings of a directory as a mathematical map.
pub type Bindings = Map<UserId, ConnectionId>;

/// At most one connection per user; binding a user again replaces the
/// earlier binding. Nothing is ever removed.
pub struct PresenceDirectory {
    bound: HashMap<u128, u128>,
}

impl View for PresenceDirectory {
    type V = Bindings;

    closed spec fn view(&self) -> Bindings {
        Map::new(
            |user: UserId| self.bound@.contains_key(user.0),
            |user: UserId| ConnectionId(self.bound@[user.0]),
        )
    }
}

impl PresenceDirectory {
    /// A directory in which nobody is bound.
    pub fn new() -> (r: PresenceDirectory)
        ensures
            r@ == Bindings::empty(),
    {
        PresenceDirectory { bound: HashMap::new() }
    }

    /// Binds `user` to `connection`, replacing any earlier binding of that
    /// user and leaving every other user as it was.
    pub fn bind(&mut self, user: UserId, connection: ConnectionId)
        ensures
            final(self)@ == old(self)@.insert(user, connection),
    {
        self.bound.insert(user.0, connection.0);
    }

    /// The connection that `user` is bound to, if any.
    pub fn resolve(&self, user: UserId) -> (r: Option<ConnectionId>)
        ensures
            r == lookup(self@, user),
    {
        match self.bound.get(&user.0) {
            Some(raw) => Some(ConnectionId(*raw)),
            None => None,
        }
    }

    /// A copy of the directory as it is now; later bindings do not reach it.
    pub fn snapshot(&self) -> (r: PresenceDirectory)
        ensures
            r@ == self@,
    {
        PresenceDirectory { bound: self.bound.clone() }
    }

    /// How many users are bound.
    pub fn len(&self) -> (r: usize)
        ensures
            r == self@.len(),
            self@.dom().finite(),
    {
        proof {
            self.lemma_same_size();
        }
        self.bound.len()
    }

    proof fn lemma_same_size(&self)
        ensures
            self@.dom().finite(),
            self@.len() == self.bound@.len(),
    {
        let raw = self.bound@.dom();
        let users = self@.dom();
        assert(users =~= raw.map(|k: u128| UserId(k))) by {
            assert forall|u: UserId| users.contains(u) implies raw.map(|k: u128| UserId(k)).contains(
                u,
            ) by {
                assert(raw.contains(u.0));
            }
        }
        vstd::set_lib::lemma_map_size(raw, users, |k: u128| UserId(k));
    }
}

/// The binding of `user` in `bindings`, if there is one.
pub open spec fn lookup(bindings: Bindings, user: UserId) -> Option<ConnectionId> {
    if bindings.contains_key(user) {
        Some(bindings[user])
    } else {
        None
    }
}

/// The bindings after `user` has been bound to each of `connections` in
/// turn.
pub open spec fn bound_in_turn(
    bindings: Bindings,
    user: UserId,
    connections: Seq<ConnectionId>,
) -> Bindings
    decreases connections.len(),
{
    if connections.len() == 0 {
        bindings
    } else {
        bound_in_turn(bindings, user, connections.drop_last()).insert(user, connections.last())
    }
}

/// The bindings after each pair of `pairs` has been bound in turn.
pub open spec fn bound_each(bindings: Bindings, pairs: Seq<(UserId, ConnectionId)>) -> Bindings
    decreases pairs.len(),
{
    if pairs.len() == 0 {
        bindings
    } else {
        bound_each(bindings, pairs.drop_last()).insert(pairs.last().0, pairs.last().1)
    }
}

/// The last write wins: however often a user is bound, the user resolves
/// to the connection bound last, and no other user is touched.
pub proof fn lemma_last_binding_wins(
    bindings: Bindings,
    user: UserId,
    connections: Seq<ConnectionId>,
)
    requires
        connections.len() > 0,
    ensures
        lookup(bound_in_turn(bindings, user, connections), user) == Some(connections.last()),
        forall|other: UserId|
            other != user ==> lookup(bound_in_turn(bindings, user, connections), other) == lookup(
                bindings,
                other,
            ),
    decreases connections.len(),
{
    let earlier = connections.drop_last();
    if earlier.len() > 0 {
        lemma_last_binding_wins(bindings, user, earlier);
    }
    assert(bound_in_turn(bindings, user, connections) == bound_in_turn(
        bindings,
        user,
        earlier,
    ).insert(user, connections.last()));
}

/// Bindings of different users do not disturb each other: in whichever
/// order two of them are applied, the directory is the same.
pub proof fn lemma_bindings_commute(
    bindings: Bindings,
    first: UserId,
    first_connection: ConnectionId,
    second: UserId,
    second_connection: ConnectionId,
)
    requires
        first != second,
    ensures
        bindings.insert(first, first_connection).insert(second, second_connection)
            == bindings.insert(second, second_connection).insert(first, first_connection),
{
}

/// Binding any number of different users to an empty directory leaves
/// exactly that many entries, and each user resolves to the connection it
/// was bound to.
pub proof fn lemma_distinct_users_all_resolve(pairs: Seq<(UserId, ConnectionId)>)
    requires
        forall|i: int, j: int| 0 <= i < j < pairs.len() ==> pairs[i].0 != pairs[j].0,
    ensures
        bound_each(Bindings::empty(), pairs).dom().finite(),
        bound_each(Bindings::empty(), pairs).len() == pairs.len(),
        forall|i: int|
            0 <= i < pairs.len() ==> lookup(
                bound_each(Bindings::empty(), pairs),
                #[trigger] pairs[i].0,
            ) == Some(pairs[i].1),
        forall|user: UserId| #[trigger]
            bound_each(Bindings::empty(), pairs).contains_key(user) ==> exists|i: int|
                0 <= i < pairs.len() && #[trigger] pairs[i].0 == user,
    decreases pairs.len(),
{
    if pairs.len() > 0 {
        let earlier = pairs.drop_last();
        lemma_distinct_users_all_resolve(earlier);
        let before = bound_each(Bindings::empty(), earlier);
        let last = pairs.last();
        assert(!before.contains_key(last.0)) by {
            if before.contains_key(last.0) {
                let i = choose|i: int| 0 <= i < earlier.len() && #[trigger] earlier[i].0 == last.0;
                assert(pairs[i].0 == pairs[pairs.len() - 1].0);
            }
        }
        let after = bound_each(Bindings::empty(), pairs);
        assert forall|i: int| 0 <= i < pairs.len() implies lookup(after, #[trigger] pairs[i].0)
            == Some(pairs[i].1) by {
            if i < pairs.len() - 1 {
                assert(lookup(before, earlier[i].0) == Some(earlier[i].1));
            }
        }
        assert forall|user: UserId| #[trigger] after.contains_key(user) implies exists|i: int|
            0 <= i < pairs.len() && #[trigger] pairs[i].0 == user by {
            if user == last.0 {
                assert(pairs[pairs.len() - 1].0 == user);
            } else {
                let i = choose|i: int| 0 <= i < earlier.len() && #[trigger] earlier[i].0 == user;
                assert(pairs[i].0 == user);
            }
        }
    }
}

} // verus!
