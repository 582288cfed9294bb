use rabbitmq::channel::Channel;
use rabbitmq::codec::{amqp_bytes, vec_to_amqp_bytes};
use rabbitmq::connection::{Connection, SocketType, AMQP_SASL_METHOD_PLAIN};
use rabbitmq::message::amqp_message;
use rabbitmq::reply::{amqp_rpc_reply, amqp_status};
use rabbitmq::transport::{
    amqp_queue_declare_ok_t, amqp_request, timeval, BasicPublish, ChannelClose, ChannelOpen,
    ConnectionClose, ConsumeMessage, SimpleRpc, SocketOpen, TeardownStep,
};
use rabbitmq::queue::amqp_queue_declare_ok;

/// A transport engine with a broker behind it, kept in memory, that counts
/// what it is asked to do.
struct Engine {
    reachable: bool,
    open_channels: Vec<u16>,
    queues: Vec<(Vec<u8>, Vec<Vec<u8>>)>,
    bindings: Vec<(Vec<u8>, Vec<u8>, Vec<u8>)>,
    closes: u32,
    destroys: u32,
    envelope_releases: u32,
    waits: u32,
}

impl Engine {
    fn new() -> Engine {
        Engine {
            reachable: true,
            open_channels: Vec::new(),
            queues: Vec::new(),
            bindings: Vec::new(),
            closes: 0,
            destroys: 0,
            envelope_releases: 0,
            waits: 0,
        }
    }

    fn open_socket(&mut self, call: &SocketOpen) -> amqp_status {
        if self.reachable && call.port == 5672 {
            amqp_status { code: 0, message: String::from("(unknown error)") }
        } else {
            amqp_status { code: -9, message: String::from("socket error") }
        }
    }

    fn open_channel(&mut self, call: &ChannelOpen) -> bool {
        if self.open_channels.contains(&call.channel) {
            return false;
        }
        self.open_channels.push(call.channel);
        true
    }

    fn close_channel(&mut self, call: &ChannelClose) {
        self.open_channels.retain(|c| *c != call.channel);
    }

    fn close_connection(&mut self, _call: &ConnectionClose) {
        self.closes += 1;
    }

    fn destroy_connection(&mut self) {
        self.destroys += 1;
    }

    fn declare(&mut self, call: &SimpleRpc) -> amqp_rpc_reply<amqp_queue_declare_ok_t> {
        assert_eq!(call.request_id, 0x0032000A);
        assert_eq!(call.expected_reply_ids, [0x0032000B, 0]);
        let req = match &call.decoded_request_method {
            amqp_request::QueueDeclare(req) => req,
            _ => return amqp_rpc_reply::Missing,
        };
        let known = self.queues.iter().position(|(name, _)| *name == req.queue.bytes);
        match known {
            Some(i) => amqp_rpc_reply::Normal(amqp_queue_declare_ok_t {
                queue: req.queue.duplicate(),
                message_count: self.queues[i].1.len() as u32,
                consumer_count: 0,
            }),
            None if req.passive != 0 => amqp_rpc_reply::ServerException(0x00140028),
            None => {
                self.queues.push((req.queue.bytes.clone(), Vec::new()));
                amqp_rpc_reply::Normal(amqp_queue_declare_ok_t {
                    queue: req.queue.duplicate(),
                    message_count: 0,
                    consumer_count: 0,
                })
            }
        }
    }

    fn bind(&mut self, call: &SimpleRpc) -> amqp_rpc_reply<()> {
        assert_eq!(call.request_id, 0x00320014);
        assert_eq!(call.expected_reply_ids, [0x00320015, 0]);
        match &call.decoded_request_method {
            amqp_request::QueueBind(req) => {
                self.bindings.push((
                    req.exchange.bytes.clone(),
                    req.routing_key.bytes.clone(),
                    req.queue.bytes.clone(),
                ));
                amqp_rpc_reply::Normal(())
            }
            _ => amqp_rpc_reply::Missing,
        }
    }

    fn publish(&mut self, call: &BasicPublish) -> i32 {
        let mut targets: Vec<Vec<u8>> = Vec::new();
        for (exchange, key, queue) in self.bindings.iter() {
            if *exchange == call.exchange.bytes && *key == call.routing_key.bytes {
                targets.push(queue.clone());
            }
        }
        for target in targets {
            for (name, messages) in self.queues.iter_mut() {
                if *name == target {
                    messages.push(call.body.bytes.clone());
                }
            }
        }
        0
    }

    fn wait(&mut self, call: &ConsumeMessage, queue: &[u8]) -> amqp_rpc_reply<amqp_bytes> {
        self.waits += 1;
        for (name, messages) in self.queues.iter_mut() {
            if name.as_slice() == queue && !messages.is_empty() {
                return amqp_rpc_reply::Normal(vec_to_amqp_bytes(messages.remove(0)));
            }
        }
        match call.timeout {
            Some(_) => amqp_rpc_reply::LibraryException(amqp_status {
                code: -13,
                message: String::from("request timed out"),
            }),
            None => panic!("the wait would never end"),
        }
    }

    fn release_envelope(&mut self) {
        self.envelope_releases += 1;
    }
}

fn connect(engine: &mut Engine) -> Connection {
    let mut c = Connection::new(SocketType::TcpSocket, true, true).unwrap();
    let call = c.socket_open("localhost", None);
    let status = engine.open_socket(&call);
    c.socket_open_reply(status).unwrap();
    let _ = c.login("/", 0, None, 0, AMQP_SASL_METHOD_PLAIN, "guest", "guest");
    c.login_reply(amqp_rpc_reply::Normal(())).unwrap();
    c
}

fn open_channel(c: &Connection, engine: &mut Engine, id: u16) -> Option<Channel> {
    let call = c.channel_open(id);
    let accepted = engine.open_channel(&call);
    c.channel_open_reply(call, accepted)
}

fn declare(
    c: &Connection,
    engine: &mut Engine,
    channel: u16,
    queue: &str,
    passive: bool,
) -> Result<amqp_queue_declare_ok, String> {
    let call = c.queue_declare(Channel { id: channel }, queue, passive, false, false, false, None);
    let reply = engine.declare(&call);
    c.queue_declare_reply(reply)
}

fn consume(
    c: &Connection,
    engine: &mut Engine,
    queue: &str,
    timeout: Option<timeval>,
) -> Result<amqp_message, String> {
    let call = c.consume_message(timeout, None);
    let reply = engine.wait(&call, queue.as_bytes());
    let out = c.consume_message_reply(reply);
    if out.release_envelope {
        engine.release_envelope();
    }
    out.result
}

fn take_down(c: Connection, engine: &mut Engine) {
    for step in c.teardown() {
        match step {
            TeardownStep::CloseConnection(code) => {
                engine.close_connection(&ConnectionClose { code })
            }
            TeardownStep::DestroyConnection => engine.destroy_connection(),
        }
    }
}

#[test]
fn socket_open_failure_reports_code_and_text() {
    let mut engine = Engine::new();
    engine.reachable = false;
    let mut c = Connection::new(SocketType::TcpSocket, true, true).unwrap();
    let call = c.socket_open("nowhere.invalid", Some(5672));
    let status = engine.open_socket(&call);
    assert_eq!(c.socket_open_reply(status), Err((String::from("socket error"), -9)));
    assert!(!c.is_open());
    engine.reachable = true;
    let call = c.socket_open("localhost", None);
    let status = engine.open_socket(&call);
    assert_eq!(c.socket_open_reply(status), Ok(()));
    assert!(c.is_open());
}

#[test]
fn channel_sequences_reuse_numbers_after_close() {
    let mut engine = Engine::new();
    let c = connect(&mut engine);
    let first = open_channel(&c, &mut engine, 1).unwrap();
    let second = open_channel(&c, &mut engine, 2).unwrap();
    assert_eq!((first.id, second.id), (1, 2));
    assert!(open_channel(&c, &mut engine, 1).is_none());
    let close = c.channel_close(first, 200);
    engine.close_channel(&close);
    let again = open_channel(&c, &mut engine, 1).unwrap();
    assert_eq!(again.id, 1);
    let close = c.channel_close(again, 200);
    engine.close_channel(&close);
    let close = c.channel_close(second, 200);
    engine.close_channel(&close);
    assert!(engine.open_channels.is_empty());
    assert_eq!(open_channel(&c, &mut engine, 2).map(|ch| ch.id), Some(2));
}

#[test]
fn passive_declare_of_a_missing_queue_is_a_protocol_failure() {
    let mut engine = Engine::new();
    let c = connect(&mut engine);
    let r = declare(&c, &mut engine, 1, "absent", true);
    assert_eq!(r.err(), Some(String::from("server channel error")));
}

#[test]
fn declare_of_a_new_queue_reports_zero_counts() {
    let mut engine = Engine::new();
    let c = connect(&mut engine);
    let ok = declare(&c, &mut engine, 1, "fresh", false).unwrap();
    assert_eq!(ok.queue, "fresh");
    assert_eq!(ok.message_count, 0);
    assert_eq!(ok.consumer_count, 0);
    let ok = declare(&c, &mut engine, 1, "fresh", true).unwrap();
    assert_eq!(ok.queue, "fresh");
    assert_eq!(ok.message_count, 0);
}

#[test]
fn publish_then_consume_is_binary_exact() {
    let mut engine = Engine::new();
    let c = connect(&mut engine);
    declare(&c, &mut engine, 1, "q", false).unwrap();
    let bind = c.queue_bind(Channel { id: 1 }, "q", "amq.direct", "k", None);
    let reply = engine.bind(&bind);
    assert_eq!(c.queue_bind_reply(reply), Ok(()));
    let body = vec![0u8, 255, 0, 0, 13, 10, 0, 128, 0];
    let publish = c.basic_publish(Channel { id: 1 }, "amq.direct", "k", false, false, None, body.clone());
    assert_eq!(engine.publish(&publish), 0);
    let _ = c.basic_consume(Channel { id: 1 }, "q", "", false, true, false, None);
    let message = consume(&c, &mut engine, "q", None).unwrap();
    assert_eq!(message.body, body);
    assert_eq!(message.str_body(), None);
    assert_eq!(engine.envelope_releases, 1);
    assert_eq!(declare(&c, &mut engine, 1, "q", true).unwrap().message_count, 0);
}

#[test]
fn publish_then_consume_keeps_order_and_empty_bodies() {
    let mut engine = Engine::new();
    let c = connect(&mut engine);
    declare(&c, &mut engine, 1, "q", false).unwrap();
    let bind = c.queue_bind(Channel { id: 1 }, "q", "ex", "k", None);
    engine.bind(&bind);
    for body in [Vec::new(), b"text".to_vec(), vec![0u8]] {
        let publish = c.basic_publish(Channel { id: 1 }, "ex", "k", false, false, None, body);
        engine.publish(&publish);
    }
    assert_eq!(declare(&c, &mut engine, 1, "q", true).unwrap().message_count, 3);
    assert_eq!(consume(&c, &mut engine, "q", None).unwrap().body, Vec::<u8>::new());
    assert_eq!(consume(&c, &mut engine, "q", None).unwrap().str_body(), Some("text"));
    assert_eq!(consume(&c, &mut engine, "q", None).unwrap().body, vec![0u8]);
    assert_eq!(engine.envelope_releases, 3);
}

#[test]
fn consume_on_an_empty_queue_times_out() {
    let mut engine = Engine::new();
    let c = connect(&mut engine);
    declare(&c, &mut engine, 1, "empty", false).unwrap();
    let zero = timeval { tv_sec: 0, tv_usec: 0 };
    let r = consume(&c, &mut engine, "empty", Some(zero));
    assert_eq!(r.err(), Some(String::from("request timed out")));
    let short = timeval { tv_sec: 0, tv_usec: 1000 };
    let r = consume(&c, &mut engine, "empty", Some(short));
    assert_eq!(r.err(), Some(String::from("request timed out")));
    assert_eq!(engine.waits, 2);
    assert_eq!(engine.envelope_releases, 2);
}

#[test]
fn teardown_of_an_open_connection_closes_once_and_releases_once() {
    let mut engine = Engine::new();
    let c = connect(&mut engine);
    assert!(c.is_open());
    take_down(c, &mut engine);
    assert_eq!(engine.closes, 1);
    assert_eq!(engine.destroys, 1);
}

#[test]
fn teardown_after_close_only_releases() {
    let mut engine = Engine::new();
    let mut c = connect(&mut engine);
    match c.connection_close(200) {
        Some(call) => engine.close_connection(&call),
        None => panic!("an open connection has a close to send"),
    }
    assert!(c.connection_close(200).is_none());
    assert_eq!(engine.closes, 1);
    take_down(c, &mut engine);
    assert_eq!(engine.closes, 1);
    assert_eq!(engine.destroys, 1);
}

#[test]
fn teardown_of_a_never_opened_connection_only_releases() {
    let mut engine = Engine::new();
    let c = Connection::new(SocketType::TcpSocket, true, true).unwrap();
    take_down(c, &mut engine);
    assert_eq!(engine.closes, 0);
    assert_eq!(engine.destroys, 1);
}

#[test]
fn truncating_numbers_are_cut_to_32_bits() {
    let mut engine = Engine::new();
    let c = connect(&mut engine);
    assert_eq!(c.socket_open("h", Some(0x8000_0000)).port, i32::MIN);
    assert_eq!(c.socket_open("h", Some(0xFFFF_FFFF)).port, -1);
    let call = c.login("/", -1, Some(-2), -3, 0, "u", "p");
    assert_eq!(call.channel_max, -1);
    assert_eq!(call.frame_max, -2);
    assert_eq!(call.heartbeat, -3);
    assert_eq!(c.consume_message(None, Some(-1)).flags, -1);
}

#[test]
fn operations_on_a_closed_connection_never_reach_the_engine() {
    let mut engine = Engine::new();
    let mut c = connect(&mut engine);
    match c.connection_close(200) {
        Some(call) => engine.close_connection(&call),
        None => panic!("an open connection has a close to send"),
    }
    let text = || String::from("connection closed");
    let declared = match c.try_queue_declare(Channel { id: 1 }, "q", false, false, false, false, None)
    {
        Some(call) => c.queue_declare_reply(engine.declare(&call)),
        None => c.queue_declare_reply(Connection::closed_reply(text())),
    };
    assert_eq!(declared.err(), Some(text()));
    let bound = match c.try_queue_bind(Channel { id: 1 }, "q", "e", "k", None) {
        Some(call) => c.queue_bind_reply(engine.bind(&call)),
        None => c.queue_bind_reply(Connection::closed_reply(text())),
    };
    assert_eq!(bound, Err(text()));
    let status = match c.try_basic_publish(Channel { id: 1 }, "e", "k", false, false, None, vec![1]) {
        Ok(call) => engine.publish(&call),
        Err(code) => code,
    };
    assert_eq!(status, -7);
    let opened = match c.try_channel_open(3) {
        Some(call) => {
            let accepted = engine.open_channel(&call);
            c.channel_open_reply(call, accepted)
        }
        None => None,
    };
    assert!(opened.is_none());
    assert!(engine.queues.is_empty());
    assert!(engine.bindings.is_empty());
    assert!(engine.open_channels.is_empty());
    assert_eq!(engine.waits, 0);
}
