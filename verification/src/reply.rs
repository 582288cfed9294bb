//! Method identifiers, the replies of the transport engine, and their
//! reading as results and error texts.

use vstd::prelude::*;
use vstd::string::StringExecFns;

verus! {

/// The protocol methods this library sends, expects or recognises.
#[derive(Debug, Clone, Copy, PartialEq, Eq, Structural)]
pub enum AMQPMethod {
    AMQP_QUEUE_DECLARE_METHOD,
    AMQP_QUEUE_DECLARE_OK_METHOD,
    AMQP_QUEUE_BIND_METHOD,
    AMQP_QUEUE_BIND_OK_METHOD,
    AMQP_CONNECTION_CLOSE_METHOD,
    AMQP_CONNECTION_CLOSE_OK_METHOD,
    AMQP_CHANNEL_CLOSE_METHOD,
    AMQP_CHANNEL_CLOSE_OK_METHOD,
}

impl AMQPMethod {
    /// The 32-bit identifier of the method: class in the upper half, method in the lower.
    pub open spec fn spec_id(self) -> u32 {
        match self {
            AMQPMethod::AMQP_QUEUE_DECLARE_METHOD => 0x0032000A,
            AMQPMethod::AMQP_QUEUE_DECLARE_OK_METHOD => 0x0032000B,
            AMQPMethod::AMQP_QUEUE_BIND_METHOD => 0x00320014,
            AMQPMethod::AMQP_QUEUE_BIND_OK_METHOD => 0x00320015,
            AMQPMethod::AMQP_CONNECTION_CLOSE_METHOD => 0x000A0032,
            AMQPMethod::AMQP_CONNECTION_CLOSE_OK_METHOD => 0x000A0033,
            AMQPMethod::AMQP_CHANNEL_CLOSE_METHOD => 0x00140028,
            AMQPMethod::AMQP_CHANNEL_CLOSE_OK_METHOD => 0x00140029,
        }
    }

    /// The method that an identifier names, if it is one of those listed.
    pub open spec fn spec_from_id(id: u32) -> Option<AMQPMethod> {
        if id == 0x0032000A {
            Some(AMQPMethod::AMQP_QUEUE_DECLARE_METHOD)
        } else if id == 0x0032000B {
            Some(AMQPMethod::AMQP_QUEUE_DECLARE_OK_METHOD)
        } else if id == 0x00320014 {
            Some(AMQPMethod::AMQP_QUEUE_BIND_METHOD)
        } else if id == 0x00320015 {
            Some(AMQPMethod::AMQP_QUEUE_BIND_OK_METHOD)
        } else if id == 0x000A0032 {
            Some(AMQPMethod::AMQP_CONNECTION_CLOSE_METHOD)
        } else if id == 0x000A0033 {
            Some(AMQPMethod::AMQP_CONNECTION_CLOSE_OK_METHOD)
        } else if id == 0x00140028 {
            Some(AMQPMethod::AMQP_CHANNEL_CLOSE_METHOD)
        } else if id == 0x00140029 {
            Some(AMQPMethod::AMQP_CHANNEL_CLOSE_OK_METHOD)
        } else {
            None
        }
    }

    /// The identifier of the method.
    pub fn id(self) -> (r: u32)
        ensures
            r == self.spec_id(),
    {
        match self {
            AMQPMethod::AMQP_QUEUE_DECLARE_METHOD => 0x0032000A,
            AMQPMethod::AMQP_QUEUE_DECLARE_OK_METHOD => 0x0032000B,
            AMQPMethod::AMQP_QUEUE_BIND_METHOD => 0x00320014,
            AMQPMethod::AMQP_QUEUE_BIND_OK_METHOD => 0x00320015,
            AMQPMethod::AMQP_CONNECTION_CLOSE_METHOD => 0x000A0032,
            AMQPMethod::AMQP_CONNECTION_CLOSE_OK_METHOD => 0x000A0033,
            AMQPMethod::AMQP_CHANNEL_CLOSE_METHOD => 0x00140028,
            AMQPMethod::AMQP_CHANNEL_CLOSE_OK_METHOD => 0x00140029,
        }
    }

    /// The method that an identifier names, or `None` for one that names none of them.
    pub fn from_id(id: u32) -> (r: Option<AMQPMethod>)
        ensures
            r == Self::spec_from_id(id),
    {
        if id == 0x0032000A {
            Some(AMQPMethod::AMQP_QUEUE_DECLARE_METHOD)
        } else if id == 0x0032000B {
            Some(AMQPMethod::AMQP_QUEUE_DECLARE_OK_METHOD)
        } else if id == 0x00320014 {
            Some(AMQPMethod::AMQP_QUEUE_BIND_METHOD)
        } else if id == 0x00320015 {
            Some(AMQPMethod::AMQP_QUEUE_BIND_OK_METHOD)
        } else if id == 0x000A0032 {
            Some(AMQPMethod::AMQP_CONNECTION_CLOSE_METHOD)
        } else if id == 0x000A0033 {
            Some(AMQPMethod::AMQP_CONNECTION_CLOSE_OK_METHOD)
        } else if id == 0x00140028 {
            Some(AMQPMethod::AMQP_CHANNEL_CLOSE_METHOD)
        } else if id == 0x00140029 {
            Some(AMQPMethod::AMQP_CHANNEL_CLOSE_OK_METHOD)
        } else {
            None
        }
    }
}

/// Methods and identifiers correspond one to one: no two methods share an
/// identifier, and an identifier names a method only if it is that method's own.
pub proof fn method_ids_are_distinct(a: AMQPMethod, b: AMQPMethod, id: u32)
    ensures
        AMQPMethod::spec_from_id(a.spec_id()) == Some(a),
        a.spec_id() == b.spec_id() ==> a == b,
        AMQPMethod::spec_from_id(id) == Some(a) <==> id == a.spec_id(),
{
}

/// The character of one decimal digit.
pub open spec fn digit_char(d: nat) -> char {
    if d == 0 {
        '0'
    } else if d == 1 {
        '1'
    } else if d == 2 {
        '2'
    } else if d == 3 {
        '3'
    } else if d == 4 {
        '4'
    } else if d == 5 {
        '5'
    } else if d == 6 {
        '6'
    } else if d == 7 {
        '7'
    } else if d == 8 {
        '8'
    } else {
        '9'
    }
}

/// The decimal numeral of a number: most significant digit first, no leading
/// zero, and `0` for zero.
pub open spec fn decimal(n: nat) -> Seq<char>
    decreases n,
{
    if n < 10 {
        seq![digit_char(n)]
    } else {
        decimal(n / 10).push(digit_char(n % 10))
    }
}

fn digit_str(d: u32) -> (r: &'static str)
    requires
        d < 10,
    ensures
        r@ == seq![digit_char(d as nat)],
{
    proof {
        reveal_strlit("0");
        reveal_strlit("1");
        reveal_strlit("2");
        reveal_strlit("3");
        reveal_strlit("4");
        reveal_strlit("5");
        reveal_strlit("6");
        reveal_strlit("7");
        reveal_strlit("8");
        reveal_strlit("9");
    }
    let r = if d == 0 {
        "0"
    } else if d == 1 {
        "1"
    } else if d == 2 {
        "2"
    } else if d == 3 {
        "3"
    } else if d == 4 {
        "4"
    } else if d == 5 {
        "5"
    } else if d == 6 {
        "6"
    } else if d == 7 {
        "7"
    } else if d == 8 {
        "8"
    } else {
        "9"
    };
    assert(r@ =~= seq![digit_char(d as nat)]);
    r
}

/// Writes a number as its decimal numeral.
pub fn decimal_string(n: u32) -> (r: String)
    ensures
        r@ == decimal(n as nat),
    decreases n,
{
    if n < 10 {
        String::from_str(digit_str(n))
    } else {
        let mut s = decimal_string(n / 10);
        s.append(digit_str(n % 10));
        assert(s@ =~= decimal(n as nat));
        s
    }
}

/// A status code of the transport engine, beside the engine's own text for it.
#[derive(Debug)]
pub struct amqp_status {
    pub code: i32,
    pub message: String,
}

/// What the transport engine answers to a request. `D` is what a normal reply
/// carries once decoded; `()` where it carries nothing of interest.
#[derive(Debug)]
pub enum amqp_rpc_reply<D> {
    /// The request succeeded.
    Normal(D),
    /// The engine itself failed; the status holds its code and its text for the code.
    LibraryException(amqp_status),
    /// The broker answered with the method of this identifier in place of the expected one.
    ServerException(u32),
    /// The engine gave no reply type.
    Missing,
    /// The engine gave a reply type, kept here, that is none of the above.
    Unknown(u32),
}

/// The text for a server exception: which of connection and channel the
/// broker closed, or the foreign method identifier in decimal.
pub open spec fn server_error_text(id: u32) -> Seq<char> {
    if id == AMQPMethod::AMQP_CONNECTION_CLOSE_METHOD.spec_id() {
        "server connection error"@
    } else if id == AMQPMethod::AMQP_CHANNEL_CLOSE_METHOD.spec_id() {
        "server channel error"@
    } else {
        "unknown server error, method id="@ + decimal(id as nat)
    }
}

/// The text that describes a reply as an error.
pub open spec fn reply_error_text<D>(reply: amqp_rpc_reply<D>) -> Seq<char> {
    match reply {
        amqp_rpc_reply::Missing => "missing RPC reply type"@,
        amqp_rpc_reply::LibraryException(status) => status.message@,
        amqp_rpc_reply::ServerException(id) => server_error_text(id),
        amqp_rpc_reply::Normal(_) => "No error"@,
        amqp_rpc_reply::Unknown(_) => "Unknown reply_type"@,
    }
}

/// Describes a reply as an error text.
pub fn reply_to_error<D>(reply: &amqp_rpc_reply<D>) -> (r: String)
    ensures
        r@ == reply_error_text(*reply),
{
    match reply {
        amqp_rpc_reply::Missing => String::from_str("missing RPC reply type"),
        amqp_rpc_reply::LibraryException(status) => status.message.clone(),
        amqp_rpc_reply::ServerException(id) => {
            match AMQPMethod::from_id(*id) {
                Some(AMQPMethod::AMQP_CONNECTION_CLOSE_METHOD) => String::from_str(
                    "server connection error",
                ),
                Some(AMQPMethod::AMQP_CHANNEL_CLOSE_METHOD) => String::from_str(
                    "server channel error",
                ),
                _ => {
                    let mut text = String::from_str("unknown server error, method id=");
                    let digits = decimal_string(*id);
                    text.append(digits.as_str());
                    text
                },
            }
        },
        amqp_rpc_reply::Normal(_) => String::from_str("No error"),
        amqp_rpc_reply::Unknown(_) => String::from_str("Unknown reply_type"),
    }
}

/// The result that a reply amounts to: what it carries if it is normal, else
/// the text that describes it.
pub open spec fn reply_result<D>(reply: amqp_rpc_reply<D>) -> Result<D, Seq<char>> {
    match reply {
        amqp_rpc_reply::Normal(decoded) => Ok(decoded),
        _ => Err(reply_error_text(reply)),
    }
}

/// The same result with the error as characters.
pub open spec fn result_view<T>(r: Result<T, String>) -> Result<T, Seq<char>> {
    match r {
        Ok(v) => Ok(v),
        Err(e) => Err(e@),
    }
}

impl<D> amqp_rpc_reply<D> {
    /// Reads the reply as a result: success with what a normal reply carries, and for
    /// every other reply the error text that describes it.
    pub fn into_result(self) -> (r: Result<D, String>)
        ensures
            result_view(r) == reply_result(self),
    {
        match self {
            amqp_rpc_reply::Normal(decoded) => Ok(decoded),
            other => Err(reply_to_error(&other)),
        }
    }
}

/// Only a normal reply succeeds: every other reply, whatever it holds, is
/// an error and never a value.
pub proof fn only_normal_replies_succeed<D>(reply: amqp_rpc_reply<D>)
    ensures
        reply_result(reply) is Ok <==> reply is Normal,
        reply matches amqp_rpc_reply::Normal(decoded) ==> reply_result(reply) == Ok::<
            D,
            Seq<char>,
        >(decoded),
        !(reply is Normal) ==> reply_result(reply) == Err::<D, Seq<char>>(reply_error_text(reply)),
{
}

} // verus!
