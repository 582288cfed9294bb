//! Client-side core of an AMQP 0-9-1 binding.
//!
//! The library decides and a driver performs. For each operation the library
//! says which request goes to the transport engine, with every argument in
//! wire form, and what the engine's answer makes of the connection and of the
//! operation's result. It never touches a socket: the driver makes the calls
//! and hands the answers back as plain values.
//!
//! - [`codec`]: byte strings on the wire, and host strings to and from them
//! - [`table`]: tables of keyed, typed field values
//! - [`properties`]: the fixed set of message properties
//! - [`reply`]: method identifiers, the engine's replies and what they amount to
//! - [`message`]: inbound messages and the life cycle of their envelopes
//! - [`transport`]: the requests themselves
//! - [`connection`]: the connection's states, opening, login, close, teardown
//! - [`channel`]: channels and the synchronous call
//! - [`queue`]: declaring and binding queues
//! - [`basic`]: publishing, consuming, waiting for deliveries

#![allow(non_camel_case_types)]

pub mod codec;
pub mod table;
pub mod properties;
pub mod reply;
pub mod message;
pub mod transport;
pub mod connection;
pub mod channel;
pub mod queue;
pub mod basic;
