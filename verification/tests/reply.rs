use rabbitmq::reply::{amqp_rpc_reply, amqp_status, decimal_string, reply_to_error, AMQPMethod};

fn all_methods() -> Vec<AMQPMethod> {
    vec![
        AMQPMethod::AMQP_QUEUE_DECLARE_METHOD,
        AMQPMethod::AMQP_QUEUE_DECLARE_OK_METHOD,
        AMQPMethod::AMQP_QUEUE_BIND_METHOD,
        AMQPMethod::AMQP_QUEUE_BIND_OK_METHOD,
        AMQPMethod::AMQP_CONNECTION_CLOSE_METHOD,
        AMQPMethod::AMQP_CONNECTION_CLOSE_OK_METHOD,
        AMQPMethod::AMQP_CHANNEL_CLOSE_METHOD,
        AMQPMethod::AMQP_CHANNEL_CLOSE_OK_METHOD,
    ]
}

#[test]
fn method_identifiers() {
    assert_eq!(AMQPMethod::AMQP_QUEUE_DECLARE_METHOD.id(), 0x0032000A);
    assert_eq!(AMQPMethod::AMQP_QUEUE_DECLARE_OK_METHOD.id(), 0x0032000B);
    assert_eq!(AMQPMethod::AMQP_QUEUE_BIND_METHOD.id(), 0x00320014);
    assert_eq!(AMQPMethod::AMQP_QUEUE_BIND_OK_METHOD.id(), 0x00320015);
    assert_eq!(AMQPMethod::AMQP_CONNECTION_CLOSE_METHOD.id(), 0x000A0032);
    assert_eq!(AMQPMethod::AMQP_CONNECTION_CLOSE_OK_METHOD.id(), 0x000A0033);
    assert_eq!(AMQPMethod::AMQP_CHANNEL_CLOSE_METHOD.id(), 0x00140028);
    assert_eq!(AMQPMethod::AMQP_CHANNEL_CLOSE_OK_METHOD.id(), 0x00140029);
}

#[test]
fn method_identifiers_round_trip_and_differ() {
    let methods = all_methods();
    for (i, a) in methods.iter().enumerate() {
        assert_eq!(AMQPMethod::from_id(a.id()), Some(*a));
        for (j, b) in methods.iter().enumerate() {
            assert_eq!(a.id() == b.id(), i == j);
        }
    }
    assert_eq!(AMQPMethod::from_id(0), None);
    assert_eq!(AMQPMethod::from_id(0x0032000C), None);
    assert_eq!(AMQPMethod::from_id(u32::MAX), None);
}

#[test]
fn decimal_numerals() {
    assert_eq!(decimal_string(0), "0");
    assert_eq!(decimal_string(7), "7");
    assert_eq!(decimal_string(10), "10");
    assert_eq!(decimal_string(109), "109");
    assert_eq!(decimal_string(3276810), "3276810");
    assert_eq!(decimal_string(1234567890), "1234567890");
    assert_eq!(decimal_string(u32::MAX), "4294967295");
}

#[test]
fn error_text_missing_reply_type() {
    let reply: amqp_rpc_reply<()> = amqp_rpc_reply::Missing;
    assert_eq!(reply_to_error(&reply), "missing RPC reply type");
}

#[test]
fn error_text_library_exception_is_the_engines_text() {
    let reply: amqp_rpc_reply<()> = amqp_rpc_reply::LibraryException(amqp_status {
        code: -7,
        message: String::from("socket error"),
    });
    assert_eq!(reply_to_error(&reply), "socket error");
}

#[test]
fn error_text_server_exception() {
    let connection: amqp_rpc_reply<()> = amqp_rpc_reply::ServerException(0x000A0032);
    assert_eq!(reply_to_error(&connection), "server connection error");
    let channel: amqp_rpc_reply<()> = amqp_rpc_reply::ServerException(0x00140028);
    assert_eq!(reply_to_error(&channel), "server channel error");
    let other: amqp_rpc_reply<()> = amqp_rpc_reply::ServerException(0x0032000B);
    assert_eq!(reply_to_error(&other), "unknown server error, method id=3276811");
    let zero: amqp_rpc_reply<()> = amqp_rpc_reply::ServerException(0);
    assert_eq!(reply_to_error(&zero), "unknown server error, method id=0");
    let close_ok: amqp_rpc_reply<()> = amqp_rpc_reply::ServerException(0x000A0033);
    assert_eq!(reply_to_error(&close_ok), "unknown server error, method id=655411");
}

#[test]
fn error_text_normal_and_unknown() {
    let normal: amqp_rpc_reply<u8> = amqp_rpc_reply::Normal(1);
    assert_eq!(reply_to_error(&normal), "No error");
    let unknown: amqp_rpc_reply<()> = amqp_rpc_reply::Unknown(9);
    assert_eq!(reply_to_error(&unknown), "Unknown reply_type");
}

#[test]
fn into_result_reads_every_reply() {
    let normal: amqp_rpc_reply<u32> = amqp_rpc_reply::Normal(42);
    assert_eq!(normal.into_result(), Ok(42));
    let unit: amqp_rpc_reply<()> = amqp_rpc_reply::Normal(());
    assert_eq!(unit.into_result(), Ok(()));
    let library: amqp_rpc_reply<u32> = amqp_rpc_reply::LibraryException(amqp_status {
        code: -13,
        message: String::from("request timed out"),
    });
    assert_eq!(library.into_result(), Err(String::from("request timed out")));
    let server: amqp_rpc_reply<u32> = amqp_rpc_reply::ServerException(0x00140028);
    assert_eq!(server.into_result(), Err(String::from("server channel error")));
    let missing: amqp_rpc_reply<u32> = amqp_rpc_reply::Missing;
    assert_eq!(missing.into_result(), Err(String::from("missing RPC reply type")));
    let unknown: amqp_rpc_reply<u32> = amqp_rpc_reply::Unknown(77);
    assert_eq!(unknown.into_result(), Err(String::from("Unknown reply_type")));
}
