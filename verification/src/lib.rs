//! Verified core of a multi-room broadcast chat service and of its
//! companion ping handshake.
//!
//! The crate holds the decisions of both protocols as sequential code with
//! contracts: which inbound text a chat session publishes, what it does with a
//! message its room delivers, when it ends, how the room registry hands out
//! channels, and how the view counter moves. Waiting on a connection, and
//! sharing the state between tasks, is left to the program around it.

pub mod ping;

pub mod decimal;

pub mod message;

pub mod channel;

pub mod state;

pub mod chat;
