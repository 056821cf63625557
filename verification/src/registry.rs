//! The connection registry: the write handle of every live connection,
//! under the identifier the connection was given when it was accepted.

use crate::identity::{is_random_layout, random_connection_id, ConnectionId};
use std::collections::HashMap;
use vstd::prelude::*;

verus! {

broadcast use vstd::std_specs::hash::group_hash_axioms;

/// Holds one handle of type `H` per registered connection. The registry
/// never looks inside a handle; writing through it is the caller's business.
pub struct ConnectionRegistry<H> {
    handles: HashMap<u128, H>,
}

impl<H> View for ConnectionRegistry<H> {
    type V = Map<ConnectionId, H>;

    closed spec fn view(&self) -> Map<ConnectionId, H> {
        Map::new(
            |id: ConnectionId| self.handles@.contains_key(id.0),
            |id: ConnectionId| self.handles@[id.0],
        )
    }
}

impl<H> ConnectionRegistry<H> {
    /// A registry without connections.
    pub fn new() -> (r: ConnectionRegistry<H>)
        ensures
            r@ == Map::<ConnectionId, H>::empty(),
    {
        ConnectionRegistry { handles: HashMap::new() }
    }

    /// Accepts a new connection: draws a fresh identifier for it and
    /// registers `handle` under that identifier, which is returned.
    pub fn accept(&mut self, handle: H) -> (id: ConnectionId)
        ensures
            is_random_layout(id),
            final(self)@ == old(self)@.insert(id, handle),
    {
        let id = random_connection_id();
        self.register(id, handle);
        id
    }

    /// Registers `handle` under `id`. A handle already registered under
    /// `id` is replaced without notice.
    pub fn register(&mut self, id: ConnectionId, handle: H)
        ensures
            final(self)@ == old(self)@.insert(id, handle),
    {
        self.handles.insert(id.0, handle);
    }

    /// The handle registered under `id`, if there is one.
    pub fn lookup(&self, id: ConnectionId) -> (r: Option<&H>)
        ensures
            match r {
                Some(handle) => self@.contains_key(id) && *handle == self@[id],
                None => !self@.contains_key(id),
            },
    {
        self.handles.get(&id.0)
    }

    /// Removes the entry of `id` and hands back the handle that was
    /// registered, if there was one. Other entries stay as they were.
    pub fn unregister(&mut self, id: ConnectionId) -> (r: Option<H>)
        ensures
            final(self)@ == old(self)@.remove(id),
            match r {
                Some(handle) => old(self)@.contains_key(id) && handle == old(self)@[id],
                None => !old(self)@.contains_key(id),
            },
    {
        self.handles.remove(&id.0)
    }
}

} // verus!
