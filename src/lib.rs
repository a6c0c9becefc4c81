//! Core types of an inter-chain communication engine: heights, identifiers,
//! the records emitted by the client lifecycle, and state-machine models of
//! the client, connection and packet lifecycles.

pub mod height;
pub mod identifier;
pub mod events;
pub mod client;
pub mod connection;
pub mod channel;
pub mod path;
pub mod services;
