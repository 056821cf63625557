//! A signaling hub for small collaborative rooms: the bookkeeping that ties
//! authenticated users to live connections, and the routing rules that decide
//! which connection receives which event.

pub mod envelope;
pub mod guarantees;
pub mod identity;
pub mod json;
pub mod presence;
pub mod registry;
pub mod router;
