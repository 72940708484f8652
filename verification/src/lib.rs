//! A ticket store with the request handling of its HTTP front ends and of a
//! command server, and a sum taken in two halves, each with its contract
//! proved by Verus.

pub mod threads;
pub mod fields;
pub mod data;
pub mod ticket_id;
pub mod store;
pub mod query;
pub mod server;
pub mod ack;
pub mod runtime;
