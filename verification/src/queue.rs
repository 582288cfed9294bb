//! Declaring queues and binding them to exchanges.

use vstd::prelude::*;
use vstd::string::StringExecFns;
use crate::channel::{awaits, Channel};
use crate::codec::{
    amqp_bytes_to_str, flag_to_wire, str_of_wire, str_to_amqp_bytes, wire_flag, wire_of_str,
};
use crate::connection::{issued, Connection, ConnectionState};
use crate::reply::{
    amqp_rpc_reply, reply_error_text, reply_result, reply_to_error, result_view, AMQPMethod,
};
use crate::table::{amqp_table, optional_table, optional_table_to_rabbit, table_to_wire, EntryView};
use crate::transport::{
    amqp_queue_bind_t, amqp_queue_declare_ok_t, amqp_queue_declare_t, amqp_request, SimpleRpc,
};

verus! {

/// What a successful `queue.declare` reports.
#[derive(Debug)]
pub struct amqp_queue_declare_ok {
    pub queue: String,
    pub message_count: u32,
    pub consumer_count: u32,
}

/// What a declare report says.
pub struct DeclareOkView {
    pub queue: Seq<char>,
    pub message_count: u32,
    pub consumer_count: u32,
}

impl View for amqp_queue_declare_ok {
    type V = DeclareOkView;

    open spec fn view(&self) -> DeclareOkView {
        DeclareOkView {
            queue: self.queue@,
            message_count: self.message_count,
            consumer_count: self.consumer_count,
        }
    }
}

/// The arguments of a `queue.declare` for the given queue, flags and table:
/// ticket zero, each flag as 1 or 0, never `nowait`.
pub open spec fn is_queue_declare(
    req: amqp_queue_declare_t,
    queue: Seq<char>,
    passive: bool,
    durable: bool,
    exclusive: bool,
    auto_delete: bool,
    arguments: Seq<EntryView>,
) -> bool {
    &&& req.ticket == 0
    &&& req.queue@ == wire_of_str(queue)
    &&& req.passive == wire_flag(passive)
    &&& req.durable == wire_flag(durable)
    &&& req.exclusive == wire_flag(exclusive)
    &&& req.auto_delete == wire_flag(auto_delete)
    &&& req.nowait == 0
    &&& req.arguments@ == table_to_wire(arguments)
}

/// The arguments of a `queue.bind` of the given queue to the given exchange:
/// ticket zero, never `nowait`.
pub open spec fn is_queue_bind(
    req: amqp_queue_bind_t,
    queue: Seq<char>,
    exchange: Seq<char>,
    routing_key: Seq<char>,
    arguments: Seq<EntryView>,
) -> bool {
    &&& req.ticket == 0
    &&& req.queue@ == wire_of_str(queue)
    &&& req.exchange@ == wire_of_str(exchange)
    &&& req.routing_key@ == wire_of_str(routing_key)
    &&& req.nowait == 0
    &&& req.arguments@ == table_to_wire(arguments)
}

/// The call that declares a queue: `queue.declare` on the channel, awaiting
/// `queue.declare-ok` alone, with the declare arguments as its content.
pub open spec fn is_queue_declare_call(
    call: SimpleRpc,
    channel: u16,
    queue: Seq<char>,
    passive: bool,
    durable: bool,
    exclusive: bool,
    auto_delete: bool,
    arguments: Seq<EntryView>,
) -> bool {
    &&& call.channel == channel
    &&& awaits(
        call,
        AMQPMethod::AMQP_QUEUE_DECLARE_METHOD,
        AMQPMethod::AMQP_QUEUE_DECLARE_OK_METHOD,
    )
    &&& call.decoded_request_method matches amqp_request::QueueDeclare(req) && is_queue_declare(
        req,
        queue,
        passive,
        durable,
        exclusive,
        auto_delete,
        arguments,
    )
}

/// The call that binds a queue: `queue.bind` on the channel, awaiting
/// `queue.bind-ok` alone, with the bind arguments as its content.
pub open spec fn is_queue_bind_call(
    call: SimpleRpc,
    channel: u16,
    queue: Seq<char>,
    exchange: Seq<char>,
    routing_key: Seq<char>,
    arguments: Seq<EntryView>,
) -> bool {
    &&& call.channel == channel
    &&& awaits(call, AMQPMethod::AMQP_QUEUE_BIND_METHOD, AMQPMethod::AMQP_QUEUE_BIND_OK_METHOD)
    &&& call.decoded_request_method matches amqp_request::QueueBind(req) && is_queue_bind(
        req,
        queue,
        exchange,
        routing_key,
        arguments,
    )
}

/// What the engine's reply makes of a `queue.declare`: the report of a normal
/// reply with the queue name as text, an error if that name is not text, and
/// for every other reply the text that describes it.
pub open spec fn queue_declare_result(reply: amqp_rpc_reply<amqp_queue_declare_ok_t>) -> Result<
    DeclareOkView,
    Seq<char>,
> {
    match reply {
        amqp_rpc_reply::Normal(ok) => match str_of_wire(ok.queue@) {
            Some(queue) => Ok(
                DeclareOkView {
                    queue,
                    message_count: ok.message_count,
                    consumer_count: ok.consumer_count,
                },
            ),
            None => Err("queue name is not valid UTF-8"@),
        },
        _ => Err(reply_error_text(reply)),
    }
}

/// A declare result with report and error as plain values.
pub open spec fn declare_result_view(r: Result<amqp_queue_declare_ok, String>) -> Result<
    DeclareOkView,
    Seq<char>,
> {
    match r {
        Ok(ok) => Ok(ok@),
        Err(e) => Err(e@),
    }
}

impl Connection {
    /// The call that declares a queue.
    pub fn queue_declare(
        &self,
        channel: Channel,
        queue: &str,
        passive: bool,
        durable: bool,
        exclusive: bool,
        auto_delete: bool,
        arguments: Option<amqp_table>,
    ) -> (r: SimpleRpc)
        requires
            self@ == ConnectionState::ConnectionOpen,
        ensures
            is_queue_declare_call(
                r,
                channel.id,
                queue@,
                passive,
                durable,
                exclusive,
                auto_delete,
                optional_table(arguments),
            ),
    {
        let args = optional_table_to_rabbit(arguments);
        let req = amqp_queue_declare_t {
            ticket: 0,
            queue: str_to_amqp_bytes(&String::from_str(queue)),
            passive: flag_to_wire(passive),
            durable: flag_to_wire(durable),
            exclusive: flag_to_wire(exclusive),
            auto_delete: flag_to_wire(auto_delete),
            nowait: 0,
            arguments: args,
        };
        self.simple_rpc(
            channel,
            AMQPMethod::AMQP_QUEUE_DECLARE_METHOD,
            AMQPMethod::AMQP_QUEUE_DECLARE_OK_METHOD,
            amqp_request::QueueDeclare(req),
        )
    }

    /// The call that declares a queue if the connection is open, and none if
    /// it is closed.
    pub fn try_queue_declare(
        &self,
        channel: Channel,
        queue: &str,
        passive: bool,
        durable: bool,
        exclusive: bool,
        auto_delete: bool,
        arguments: Option<amqp_table>,
    ) -> (r: Option<SimpleRpc>)
        ensures
            issued(self@, r),
            r matches Some(call) ==> is_queue_declare_call(
                call,
                channel.id,
                queue@,
                passive,
                durable,
                exclusive,
                auto_delete,
                optional_table(arguments),
            ),
    {
        if self.is_open() {
            Some(
                self.queue_declare(
                    channel,
                    queue,
                    passive,
                    durable,
                    exclusive,
                    auto_delete,
                    arguments,
                ),
            )
        } else {
            None
        }
    }

    /// Takes the engine's reply to a `queue.declare`.
    pub fn queue_declare_reply(&self, reply: amqp_rpc_reply<amqp_queue_declare_ok_t>) -> (r: Result<
        amqp_queue_declare_ok,
        String,
    >)
        ensures
            declare_result_view(r) == queue_declare_result(reply),
    {
        match reply {
            amqp_rpc_reply::Normal(ok) => {
                match amqp_bytes_to_str(&ok.queue) {
                    Some(queue) => Ok(
                        amqp_queue_declare_ok {
                            queue,
                            message_count: ok.message_count,
                            consumer_count: ok.consumer_count,
                        },
                    ),
                    None => Err(String::from_str("queue name is not valid UTF-8")),
                }
            },
            other => Err(reply_to_error(&other)),
        }
    }

    /// The call that binds a queue to an exchange: `queue.bind`, answered by
    /// `queue.bind-ok`.
    pub fn queue_bind(
        &self,
        channel: Channel,
        queue: &str,
        exchange: &str,
        routing_key: &str,
        arguments: Option<amqp_table>,
    ) -> (r: SimpleRpc)
        requires
            self@ == ConnectionState::ConnectionOpen,
        ensures
            is_queue_bind_call(
                r,
                channel.id,
                queue@,
                exchange@,
                routing_key@,
                optional_table(arguments),
            ),
    {
        let args = optional_table_to_rabbit(arguments);
        let req = amqp_queue_bind_t {
            ticket: 0,
            queue: str_to_amqp_bytes(&String::from_str(queue)),
            exchange: str_to_amqp_bytes(&String::from_str(exchange)),
            routing_key: str_to_amqp_bytes(&String::from_str(routing_key)),
            nowait: 0,
            arguments: args,
        };
        self.simple_rpc(
            channel,
            AMQPMethod::AMQP_QUEUE_BIND_METHOD,
            AMQPMethod::AMQP_QUEUE_BIND_OK_METHOD,
            amqp_request::QueueBind(req),
        )
    }

    /// The call that binds a queue if the connection is open, and none if it
    /// is closed.
    pub fn try_queue_bind(
        &self,
        channel: Channel,
        queue: &str,
        exchange: &str,
        routing_key: &str,
        arguments: Option<amqp_table>,
    ) -> (r: Option<SimpleRpc>)
        ensures
            issued(self@, r),
            r matches Some(call) ==> is_queue_bind_call(
                call,
                channel.id,
                queue@,
                exchange@,
                routing_key@,
                optional_table(arguments),
            ),
    {
        if self.is_open() {
            Some(self.queue_bind(channel, queue, exchange, routing_key, arguments))
        } else {
            None
        }
    }

    /// Takes the engine's reply to a `queue.bind`: success if it is normal,
    /// else the text that describes it.
    pub fn queue_bind_reply(&self, reply: amqp_rpc_reply<()>) -> (r: Result<(), String>)
        ensures
            result_view(r) == reply_result(reply),
    {
        reply.into_result()
    }
}

/// A declare that the broker refuses is an error and nothing worse: for every
/// reply that is not normal the result is the text of that reply, and a
/// normal reply with a queue name that is text is the report it carries,
/// counts unchanged.
pub proof fn declare_result_is_total(reply: amqp_rpc_reply<amqp_queue_declare_ok_t>)
    ensures
        !(reply is Normal) ==> queue_declare_result(reply) == Err::<DeclareOkView, Seq<char>>(
            reply_error_text(reply),
        ),
        reply matches amqp_rpc_reply::Normal(ok) ==> (queue_declare_result(reply) is Ok
            <==> str_of_wire(ok.queue@) is Some),
        reply matches amqp_rpc_reply::Normal(ok) ==> (queue_declare_result(reply) matches Ok(report)
            ==> report.message_count == ok.message_count && report.consumer_count
            == ok.consumer_count),
{
}

/// Each call awaits the reply of its own request and no other: a declare
/// goes out as `queue.declare` and awaits `queue.declare-ok`, a bind goes out
/// as `queue.bind` and awaits `queue.bind-ok`, and neither can be taken for
/// the other.
pub proof fn calls_await_their_own_reply(declare: SimpleRpc, bind: SimpleRpc)
    requires
        awaits(
            declare,
            AMQPMethod::AMQP_QUEUE_DECLARE_METHOD,
            AMQPMethod::AMQP_QUEUE_DECLARE_OK_METHOD,
        ),
        awaits(bind, AMQPMethod::AMQP_QUEUE_BIND_METHOD, AMQPMethod::AMQP_QUEUE_BIND_OK_METHOD),
    ensures
        declare.request_id == 0x0032000A,
        declare.expected_reply_ids@[0] == 0x0032000B,
        bind.request_id == 0x00320014,
        bind.expected_reply_ids@[0] == 0x00320015,
        declare.expected_reply_ids@[1] == 0,
        bind.expected_reply_ids@[1] == 0,
        declare.request_id != bind.request_id,
        declare.expected_reply_ids@[0] != bind.expected_reply_ids@[0],
{
}

} // verus!
