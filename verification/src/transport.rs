//! The requests that this library hands to the transport engine. The engine
//! owns the socket and the framing; each value here is one call for it to
//! make, with every argument already in wire form.

use vstd::prelude::*;
use crate::codec::amqp_bytes;
use crate::properties::amqp_basic_properties_t;
use crate::table::amqp_table_t;

verus! {

/// A time span in seconds and microseconds, as the engine's receive call takes it.
#[derive(Debug, Clone, Copy, PartialEq, Eq, Structural)]
pub struct timeval {
    pub tv_sec: i64,
    pub tv_usec: i64,
}

/// The arguments of `queue.declare`.
#[derive(Debug)]
pub struct amqp_queue_declare_t {
    pub ticket: u16,
    pub queue: amqp_bytes,
    pub passive: i32,
    pub durable: i32,
    pub exclusive: i32,
    pub auto_delete: i32,
    pub nowait: i32,
    pub arguments: amqp_table_t,
}

/// The content of `queue.declare-ok`, as decoded by the engine.
#[derive(Debug)]
pub struct amqp_queue_declare_ok_t {
    pub queue: amqp_bytes,
    pub message_count: u32,
    pub consumer_count: u32,
}

/// The arguments of `queue.bind`.
#[derive(Debug)]
pub struct amqp_queue_bind_t {
    pub ticket: u16,
    pub queue: amqp_bytes,
    pub exchange: amqp_bytes,
    pub routing_key: amqp_bytes,
    pub nowait: i32,
    pub arguments: amqp_table_t,
}

/// The arguments of `queue.purge`.
#[derive(Debug)]
pub struct amqp_queue_purge {
    pub ticket: u16,
    pub queue: String,
    pub nowait: bool,
}

/// The decoded request that a synchronous call carries.
#[derive(Debug)]
pub enum amqp_request {
    QueueDeclare(amqp_queue_declare_t),
    QueueBind(amqp_queue_bind_t),
}

/// Open the socket to a broker.
#[derive(Debug)]
pub struct SocketOpen {
    pub hostname: String,
    pub port: i32,
}

/// Perform the protocol handshake.
#[derive(Debug)]
pub struct Login {
    pub vhost: String,
    pub channel_max: i32,
    pub frame_max: i32,
    pub heartbeat: i32,
    pub sasl_method: u32,
    pub login: String,
    pub password: String,
}

/// Open the channel of this number.
#[derive(Debug)]
pub struct ChannelOpen {
    pub channel: u16,
}

/// Close the channel of this number with a reply code.
#[derive(Debug)]
pub struct ChannelClose {
    pub channel: u16,
    pub code: i32,
}

/// Close the connection with a reply code.
#[derive(Debug)]
pub struct ConnectionClose {
    pub code: i32,
}

/// Send a method on a channel and wait for one of the expected replies. The
/// list of expected identifiers ends with a zero.
#[derive(Debug)]
pub struct SimpleRpc {
    pub channel: u16,
    pub request_id: u32,
    pub expected_reply_ids: [u32; 2],
    pub decoded_request_method: amqp_request,
}

/// Publish a message; no reply is awaited.
#[derive(Debug)]
pub struct BasicPublish {
    pub channel: u16,
    pub exchange: amqp_bytes,
    pub routing_key: amqp_bytes,
    pub mandatory: i32,
    pub immediate: i32,
    pub properties: Option<amqp_basic_properties_t>,
    pub body: amqp_bytes,
}

/// Register a consumer on a queue.
#[derive(Debug)]
pub struct BasicConsume {
    pub channel: u16,
    pub queue: amqp_bytes,
    pub consumer_tag: amqp_bytes,
    pub no_local: i32,
    pub no_ack: i32,
    pub exclusive: i32,
    pub arguments: amqp_table_t,
}

/// Wait for one inbound delivery, for at most the given time if one is given.
#[derive(Debug)]
pub struct ConsumeMessage {
    pub timeout: Option<timeval>,
    pub flags: i32,
}

/// One step of taking a connection down.
#[derive(Debug, Clone, Copy, PartialEq, Eq, Structural)]
pub enum TeardownStep {
    /// Tell the broker that the connection closes, with this reply code.
    CloseConnection(i32),
    /// Release the transport handle.
    DestroyConnection,
}

} // verus!
