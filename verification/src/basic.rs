//! Publishing messages, registering consumers and waiting for deliveries.

use vstd::prelude::*;
use vstd::string::StringExecFns;
use crate::channel::Channel;
use crate::codec::{
    amqp_bytes, flag_to_wire, str_to_amqp_bytes, vec_to_amqp_bytes, wire_flag, wire_of_str,
};
use crate::connection::{issued, Connection, ConnectionState, AMQP_STATUS_CONNECTION_CLOSED};
use crate::message::{amqp_envelope, amqp_message, destroy_envelope};
use crate::properties::{
    amqp_basic_properties, amqp_basic_properties_t, properties_to_wire, WirePropertiesView,
};
use crate::reply::{amqp_rpc_reply, reply_error_text, reply_to_error};
use crate::table::{
    amqp_table, optional_table, optional_table_to_rabbit, table_to_wire, EntryView,
};
use crate::transport::{timeval, BasicConsume, BasicPublish, ConsumeMessage};

verus! {

/// The wire form of optional properties: absent where none are given.
pub open spec fn optional_properties(properties: Option<amqp_basic_properties>) -> Option<
    WirePropertiesView,
> {
    match properties {
        Some(p) => Some(properties_to_wire(p@)),
        None => None,
    }
}

/// What optional wire properties say.
pub open spec fn opt_wire_properties_view(properties: Option<amqp_basic_properties_t>) -> Option<
    WirePropertiesView,
> {
    match properties {
        Some(p) => Some(p@),
        None => None,
    }
}

/// The flags of a receive call: the given ones cut to 32 bits, or none.
pub open spec fn flags_or_default(flags: Option<isize>) -> i32 {
    match flags {
        Some(f) => f as i32,
        None => 0,
    }
}

/// The publish request for the given arguments: every string as its bytes,
/// each flag as 1 or 0, the properties in wire form where there are any, and
/// the body byte for byte.
pub open spec fn is_basic_publish(
    call: BasicPublish,
    channel: u16,
    exchange: Seq<char>,
    routing_key: Seq<char>,
    mandatory: bool,
    immediate: bool,
    properties: Option<WirePropertiesView>,
    body: Seq<u8>,
) -> bool {
    &&& call.channel == channel
    &&& call.exchange@ == wire_of_str(exchange)
    &&& call.routing_key@ == wire_of_str(routing_key)
    &&& call.mandatory == wire_flag(mandatory)
    &&& call.immediate == wire_flag(immediate)
    &&& opt_wire_properties_view(call.properties) == properties
    &&& call.body@ == body
}

/// The request that registers a consumer with the given arguments.
pub open spec fn is_basic_consume(
    call: BasicConsume,
    channel: u16,
    queue: Seq<char>,
    consumer_tag: Seq<char>,
    no_local: bool,
    no_ack: bool,
    exclusive: bool,
    arguments: Seq<EntryView>,
) -> bool {
    &&& call.channel == channel
    &&& call.queue@ == wire_of_str(queue)
    &&& call.consumer_tag@ == wire_of_str(consumer_tag)
    &&& call.no_local == wire_flag(no_local)
    &&& call.no_ack == wire_flag(no_ack)
    &&& call.exclusive == wire_flag(exclusive)
    &&& call.arguments@ == table_to_wire(arguments)
}

/// The request to wait for a delivery: the timeout as given, the flags cut to
/// 32 bits or none.
pub open spec fn is_consume_message(
    call: ConsumeMessage,
    timeout: Option<timeval>,
    flags: Option<isize>,
) -> bool {
    &&& call.timeout == timeout
    &&& call.flags == flags_or_default(flags)
}

/// The outcome of waiting for a delivery: the message or the error text, and
/// whether the envelope that the engine filled is now due for release.
#[derive(Debug)]
pub struct Consumed {
    pub result: Result<amqp_message, String>,
    pub release_envelope: bool,
}

/// What the engine's reply makes of a wait for a delivery: the body that a
/// normal reply delivers, byte for byte, else the text that describes the reply.
pub open spec fn consume_result(reply: amqp_rpc_reply<amqp_bytes>) -> Result<Seq<u8>, Seq<char>> {
    match reply {
        amqp_rpc_reply::Normal(body) => Ok(body@),
        _ => Err(reply_error_text(reply)),
    }
}

/// A delivery result with message and error as plain values.
pub open spec fn message_result_view(r: Result<amqp_message, String>) -> Result<
    Seq<u8>,
    Seq<char>,
> {
    match r {
        Ok(message) => Ok(message@),
        Err(e) => Err(e@),
    }
}

impl Connection {
    /// The request to publish `body` to an exchange. Nothing is awaited in
    /// answer: the engine's status code is all there is, and it is the caller's
    /// to read.
    pub fn basic_publish(
        &self,
        channel: Channel,
        exchange: &str,
        routing_key: &str,
        mandatory: bool,
        immediate: bool,
        properties: Option<amqp_basic_properties>,
        body: Vec<u8>,
    ) -> (r: BasicPublish)
        requires
            self@ == ConnectionState::ConnectionOpen,
        ensures
            is_basic_publish(
                r,
                channel.id,
                exchange@,
                routing_key@,
                mandatory,
                immediate,
                optional_properties(properties),
                body@,
            ),
    {
        let props = match properties {
            Some(prop) => Some(prop.to_rabbit()),
            None => None,
        };
        BasicPublish {
            channel: channel.id,
            exchange: str_to_amqp_bytes(&String::from_str(exchange)),
            routing_key: str_to_amqp_bytes(&String::from_str(routing_key)),
            mandatory: flag_to_wire(mandatory),
            immediate: flag_to_wire(immediate),
            properties: props,
            body: vec_to_amqp_bytes(body),
        }
    }

    /// The publish request if the connection is open. If it is closed there
    /// is none, and the status that answers the publish in the engine's place
    /// is the one for a closed connection.
    pub fn try_basic_publish(
        &self,
        channel: Channel,
        exchange: &str,
        routing_key: &str,
        mandatory: bool,
        immediate: bool,
        properties: Option<amqp_basic_properties>,
        body: Vec<u8>,
    ) -> (r: Result<BasicPublish, i32>)
        ensures
            r is Ok <==> self@ == ConnectionState::ConnectionOpen,
            r matches Ok(call) ==> is_basic_publish(
                call,
                channel.id,
                exchange@,
                routing_key@,
                mandatory,
                immediate,
                optional_properties(properties),
                body@,
            ),
            r matches Err(code) ==> code == AMQP_STATUS_CONNECTION_CLOSED,
    {
        if self.is_open() {
            Ok(
                self.basic_publish(
                    channel,
                    exchange,
                    routing_key,
                    mandatory,
                    immediate,
                    properties,
                    body,
                ),
            )
        } else {
            Err(AMQP_STATUS_CONNECTION_CLOSED)
        }
    }

    /// The request to register a consumer on a queue. What the engine hands
    /// back for it is opaque to this library.
    pub fn basic_consume(
        &self,
        channel: Channel,
        queue: &str,
        consumer_tag: &str,
        no_local: bool,
        no_ack: bool,
        exclusive: bool,
        arguments: Option<amqp_table>,
    ) -> (r: BasicConsume)
        requires
            self@ == ConnectionState::ConnectionOpen,
        ensures
            is_basic_consume(
                r,
                channel.id,
                queue@,
                consumer_tag@,
                no_local,
                no_ack,
                exclusive,
                optional_table(arguments),
            ),
    {
        let args = optional_table_to_rabbit(arguments);
        BasicConsume {
            channel: channel.id,
            queue: str_to_amqp_bytes(&String::from_str(queue)),
            consumer_tag: str_to_amqp_bytes(&String::from_str(consumer_tag)),
            no_local: flag_to_wire(no_local),
            no_ack: flag_to_wire(no_ack),
            exclusive: flag_to_wire(exclusive),
            arguments: args,
        }
    }

    /// The request to register a consumer if the connection is open, and none
    /// if it is closed: there is then no consumer and nothing to hand back.
    pub fn try_basic_consume(
        &self,
        channel: Channel,
        queue: &str,
        consumer_tag: &str,
        no_local: bool,
        no_ack: bool,
        exclusive: bool,
        arguments: Option<amqp_table>,
    ) -> (r: Option<BasicConsume>)
        ensures
            issued(self@, r),
            r matches Some(call) ==> is_basic_consume(
                call,
                channel.id,
                queue@,
                consumer_tag@,
                no_local,
                no_ack,
                exclusive,
                optional_table(arguments),
            ),
    {
        if self.is_open() {
            Some(
                self.basic_consume(
                    channel,
                    queue,
                    consumer_tag,
                    no_local,
                    no_ack,
                    exclusive,
                    arguments,
                ),
            )
        } else {
            None
        }
    }

    /// The request to wait for one delivery. A timeout, where given, goes to
    /// the engine as it is; without one the engine waits without limit.
    pub fn consume_message(&self, timeout: Option<timeval>, flags: Option<isize>) -> (r:
        ConsumeMessage)
        requires
            self@ == ConnectionState::ConnectionOpen,
        ensures
            is_consume_message(r, timeout, flags),
    {
        let flags: i32 = match flags {
            Some(f) => f as i32,
            None => 0,
        };
        ConsumeMessage { timeout, flags }
    }

    /// The request to wait for one delivery if the connection is open, and
    /// none if it is closed.
    pub fn try_consume_message(&self, timeout: Option<timeval>, flags: Option<isize>) -> (r:
        Option<ConsumeMessage>)
        ensures
            issued(self@, r),
            r matches Some(call) ==> is_consume_message(call, timeout, flags),
    {
        if self.is_open() {
            Some(self.consume_message(timeout, flags))
        } else {
            None
        }
    }

    /// Takes the engine's reply to a wait for a delivery; a normal reply holds
    /// the body that the engine's envelope delivered. On success the body is
    /// first copied into an owned message and the envelope then given back; on
    /// failure the envelope is given back all the same. Either way its release
    /// falls due, once.
    pub fn consume_message_reply(&self, reply: amqp_rpc_reply<amqp_bytes>) -> (r: Consumed)
        ensures
            message_result_view(r.result) == consume_result(reply),
            r.release_envelope,
    {
        match reply {
            amqp_rpc_reply::Normal(body) => {
                let mut envelope = amqp_envelope::new(body);
                let extracted = envelope.extract();
                let release_envelope = destroy_envelope(&mut envelope);
                Consumed { result: Ok(extracted.unwrap()), release_envelope }
            },
            other => {
                let mut envelope = amqp_envelope::new(amqp_bytes::empty());
                let release_envelope = destroy_envelope(&mut envelope);
                Consumed { result: Err(reply_to_error(&other)), release_envelope }
            },
        }
    }
}

/// What is published is what is consumed: if the engine delivers the body of
/// a publish request, the message received holds exactly the bytes that were
/// handed to the publish, zero bytes included.
pub proof fn published_body_is_delivered_exactly(published: BasicPublish, delivered: amqp_bytes)
    requires
        delivered@ == published.body@,
    ensures
        consume_result(amqp_rpc_reply::Normal(delivered)) == Ok::<Seq<u8>, Seq<char>>(
            published.body@,
        ),
{
}

} // verus!
