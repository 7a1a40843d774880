//! Ingestion-and-retention core of a chat-message recorder.
//!
//! The crate holds the rules of the recorder as verified functions on plain
//! values: which partition a channel lives on, which stored messages a read
//! returns, which messages a vacuum pass removes, how stored wire lines are
//! replayed to clients, and the decisions of the ingestion, authorization and
//! HTTP surfaces. Sockets, database connections and timers stay with the
//! caller.

pub mod config;
pub mod db;
pub mod irc;
pub mod irc_listener;
pub mod message_export;
pub mod supervisor;
pub mod text;
pub mod time;
pub mod validate;
pub mod web;

