//! The connection: its two states, the requests that open it, log in and
//! close it, and what the transport engine's answers make of it.

use vstd::prelude::*;
use vstd::string::StringExecFns;
use crate::reply::{amqp_rpc_reply, amqp_status, reply_result, result_view};
use crate::transport::{ConnectionClose, Login, SocketOpen, TeardownStep};

verus! {


/// The SASL mechanism PLAIN.
pub const AMQP_SASL_METHOD_PLAIN: u32 = 0;

/// The reply code of a regular close.
pub const AMQP_REPLY_SUCCESS: i32 = 200;

/// The engine's status for a connection that is closed. An operation that
/// finds the connection closed is answered with it, and the engine is not asked.
pub const AMQP_STATUS_CONNECTION_CLOSED: i32 = -7;

/// The port that brokers listen on unless told otherwise.
pub const AMQP_DEFAULT_PORT: i32 = 5672;

/// The largest frame proposed at login unless told otherwise.
pub const AMQP_DEFAULT_FRAME_MAX: i32 = 131072;

/// The kinds of socket a connection can run over.
#[derive(Debug, Clone, Copy, PartialEq, Eq, Structural)]
pub enum SocketType {
    TcpSocket,
}

/// Whether the socket of a connection is open.
#[derive(Debug, Clone, Copy, PartialEq, Eq, Structural)]
pub enum ConnectionState {
    ConnectionOpen,
    ConnectionClosed,
}

/// One connection to a broker. It starts closed, is opened by a successful
/// socket open and closed again by a close or by teardown. Requests to the
/// broker are made on an open connection only. Each operation that issues one
/// comes in two forms: under its plain name it requires the connection to be
/// open, so that code verified against this library never issues a request
/// on a closed connection; under `try_` it looks at the state itself and
/// issues nothing where the connection is closed. Opening the socket, closing
/// and teardown are possible in either state.
#[derive(Debug)]
pub struct Connection {
    connection_state: ConnectionState,
}

impl View for Connection {
    type V = ConnectionState;

    closed spec fn view(&self) -> ConnectionState {
        self.connection_state
    }
}

/// The port to connect to: the given one cut to 32 bits, or the default.
pub open spec fn port_or_default(port: Option<usize>) -> i32 {
    match port {
        Some(p) => p as i32,
        None => AMQP_DEFAULT_PORT,
    }
}

/// What the two allocations at construction amount to: a closed connection if
/// both succeeded, else the text for the first that failed.
pub open spec fn allocation_result(connection_allocated: bool, socket_created: bool) -> Result<
    ConnectionState,
    Seq<char>,
> {
    if !connection_allocated {
        Err("Error allocating new connection"@)
    } else if !socket_created {
        Err("Error creating socket"@)
    } else {
        Ok(ConnectionState::ConnectionClosed)
    }
}

/// A construction result with the connection as its state and the error as characters.
pub open spec fn new_result_view(r: Result<Connection, String>) -> Result<
    ConnectionState,
    Seq<char>,
> {
    match r {
        Ok(c) => Ok(c@),
        Err(e) => Err(e@),
    }
}

/// What the engine's status makes of a socket open: success for zero, else
/// the engine's text beside the code.
pub open spec fn socket_open_result(status: amqp_status) -> Result<(), (Seq<char>, i32)> {
    if status.code == 0 {
        Ok(())
    } else {
        Err((status.message@, status.code))
    }
}

/// A socket-open result with the text as characters.
pub open spec fn socket_result_view(r: Result<(), (String, i32)>) -> Result<(), (Seq<char>, i32)> {
    match r {
        Ok(()) => Ok(()),
        Err((message, code)) => Err((message@, code)),
    }
}

/// The socket to ask the engine for once it has tried to allocate the handle:
/// one of the requested kind on that handle, and none where no handle was had.
pub open spec fn socket_wanted(socket_type: SocketType, connection_allocated: bool) -> Option<
    SocketType,
> {
    if connection_allocated {
        Some(socket_type)
    } else {
        None
    }
}

/// Whether a reply is the one that stands in for the engine on a closed
/// connection: a library exception with the status for a closed connection
/// and the given text.
pub open spec fn is_closed_reply<D>(reply: amqp_rpc_reply<D>, message: Seq<char>) -> bool {
    reply matches amqp_rpc_reply::LibraryException(status) && status.code
        == AMQP_STATUS_CONNECTION_CLOSED && status.message@ == message
}

/// The handshake request for the given arguments: the numbers cut to 32 bits,
/// the frame size the default unless one is given.
pub open spec fn is_login(
    call: Login,
    vhost: Seq<char>,
    channel_max: isize,
    frame_max: Option<isize>,
    heartbeat: isize,
    sasl_method: u32,
    login: Seq<char>,
    password: Seq<char>,
) -> bool {
    &&& call.vhost@ == vhost
    &&& call.channel_max == channel_max as i32
    &&& call.frame_max == frame_max_or_default(frame_max)
    &&& call.heartbeat == heartbeat as i32
    &&& call.sasl_method == sasl_method
    &&& call.login@ == login
    &&& call.password@ == password
}

/// A checked request: there is one exactly when the connection is open.
pub open spec fn issued<T>(state: ConnectionState, call: Option<T>) -> bool {
    call is Some <==> state == ConnectionState::ConnectionOpen
}

/// What a close makes of a connection in the given state: the state after
/// it, and the reply code to send to the broker if there is anything to send.
pub open spec fn close_step(state: ConnectionState, code: i32) -> (ConnectionState, Option<i32>) {
    match state {
        ConnectionState::ConnectionOpen => (ConnectionState::ConnectionClosed, Some(code)),
        ConnectionState::ConnectionClosed => (ConnectionState::ConnectionClosed, None),
    }
}

/// The reply code of an optional close request.
pub open spec fn close_code(call: Option<ConnectionClose>) -> Option<i32> {
    match call {
        Some(call) => Some(call.code),
        None => None,
    }
}

/// The steps that take a connection in the given state down: a close with the
/// success code if it is open, then in every case the release of the handle.
pub open spec fn teardown_steps(state: ConnectionState) -> Seq<TeardownStep> {
    match state {
        ConnectionState::ConnectionOpen => seq![
            TeardownStep::CloseConnection(AMQP_REPLY_SUCCESS),
            TeardownStep::DestroyConnection,
        ],
        ConnectionState::ConnectionClosed => seq![TeardownStep::DestroyConnection],
    }
}

impl Connection {
    /// Says which socket to ask the engine for, once it has tried to allocate
    /// the handle: one of the requested kind if the handle came back
    /// non-null, and none if it did not.
    pub fn socket_request(socket_type: SocketType, connection_allocated: bool) -> (r: Option<
        SocketType,
    >)
        ensures
            r == socket_wanted(socket_type, connection_allocated),
    {
        if connection_allocated {
            Some(socket_type)
        } else {
            None
        }
    }

    /// Makes the connection once the transport engine has tried to allocate a
    /// handle and, where [`Connection::socket_request`] asked for one, a
    /// socket on that handle. `connection_allocated` and `socket_created` say
    /// whether each came back non-null.
    pub fn new(socket_type: SocketType, connection_allocated: bool, socket_created: bool) -> (r:
        Result<Connection, String>)
        ensures
            new_result_view(r) == allocation_result(connection_allocated, socket_created),
    {
        if !connection_allocated {
            return Err(String::from_str("Error allocating new connection"));
        }
        match socket_type {
            SocketType::TcpSocket => {
                if !socket_created {
                    return Err(String::from_str("Error creating socket"));
                }
            },
        }
        Ok(Connection { connection_state: ConnectionState::ConnectionClosed })
    }

    /// Whether the socket is open.
    pub fn is_open(&self) -> (r: bool)
        ensures
            r == (self@ == ConnectionState::ConnectionOpen),
    {
        match self.connection_state {
            ConnectionState::ConnectionOpen => true,
            ConnectionState::ConnectionClosed => false,
        }
    }

    /// What stands in for the engine's reply where an operation found the
    /// connection closed and issued no request: a library exception with the
    /// status for a closed connection. `message` is the engine's text for
    /// that status.
    pub fn closed_reply<D>(message: String) -> (r: amqp_rpc_reply<D>)
        ensures
            is_closed_reply(r, message@),
    {
        amqp_rpc_reply::LibraryException(
            amqp_status { code: AMQP_STATUS_CONNECTION_CLOSED, message },
        )
    }

    /// The request to open the socket to `hostname`, on `port` or on the
    /// default port.
    pub fn socket_open(&self, hostname: &str, port: Option<usize>) -> (r: SocketOpen)
        ensures
            r.hostname@ == hostname@,
            r.port == port_or_default(port),
    {
        let port: i32 = match port {
            Some(p) => p as i32,
            None => AMQP_DEFAULT_PORT,
        };
        SocketOpen { hostname: String::from_str(hostname), port }
    }

    /// Takes the engine's status for a socket open. Zero opens the connection;
    /// any other code leaves it as it was and is returned beside its text.
    pub fn socket_open_reply(&mut self, status: amqp_status) -> (r: Result<(), (String, i32)>)
        ensures
            socket_result_view(r) == socket_open_result(status),
            final(self)@ == (if status.code == 0 {
                ConnectionState::ConnectionOpen
            } else {
                old(self)@
            }),
    {
        if status.code == 0 {
            self.connection_state = ConnectionState::ConnectionOpen;
            Ok(())
        } else {
            Err((status.message, status.code))
        }
    }

    /// Closes the connection. If it is open it becomes closed, and the close
    /// request with `code` is returned for the engine to send; if it is closed
    /// already, nothing changes and there is nothing to send.
    pub fn connection_close(&mut self, code: i32) -> (r: Option<ConnectionClose>)
        ensures
            (final(self)@, close_code(r)) == close_step(old(self)@, code),
    {
        match self.connection_state {
            ConnectionState::ConnectionOpen => {
                self.connection_state = ConnectionState::ConnectionClosed;
                Some(ConnectionClose { code })
            },
            ConnectionState::ConnectionClosed => None,
        }
    }

    /// Takes the connection down for good. An open connection is closed with
    /// the success code first; the handle is released in every case, last and
    /// once. Whatever the close is answered is of no account.
    pub fn teardown(self) -> (r: Vec<TeardownStep>)
        ensures
            r@ == teardown_steps(self@),
    {
        let mut connection = self;
        let mut steps: Vec<TeardownStep> = Vec::new();
        match connection.connection_close(AMQP_REPLY_SUCCESS) {
            Some(call) => {
                steps.push(TeardownStep::CloseConnection(call.code));
            },
            None => {},
        }
        steps.push(TeardownStep::DestroyConnection);
        assert(steps@ =~= teardown_steps(self@));
        steps
    }
}

/// The largest frame to propose: the given one cut to 32 bits, or the default.
pub open spec fn frame_max_or_default(frame_max: Option<isize>) -> i32 {
    match frame_max {
        Some(f) => f as i32,
        None => AMQP_DEFAULT_FRAME_MAX,
    }
}

impl Connection {
    /// The handshake request. The numbers are cut to 32 bits; the frame size
    /// is the default unless one is given.
    pub fn login(
        &self,
        vhost: &str,
        channel_max: isize,
        frame_max: Option<isize>,
        heartbeat: isize,
        sasl_method: u32,
        login: &str,
        password: &str,
    ) -> (r: Login)
        requires
            self@ == ConnectionState::ConnectionOpen,
        ensures
            is_login(r, vhost@, channel_max, frame_max, heartbeat, sasl_method, login@, password@),
    {
        let frame_max: i32 = match frame_max {
            Some(f) => f as i32,
            None => AMQP_DEFAULT_FRAME_MAX,
        };
        Login {
            vhost: String::from_str(vhost),
            channel_max: channel_max as i32,
            frame_max,
            heartbeat: heartbeat as i32,
            sasl_method,
            login: String::from_str(login),
            password: String::from_str(password),
        }
    }

    /// The handshake request if the connection is open, and none if it is
    /// closed.
    pub fn try_login(
        &self,
        vhost: &str,
        channel_max: isize,
        frame_max: Option<isize>,
        heartbeat: isize,
        sasl_method: u32,
        login: &str,
        password: &str,
    ) -> (r: Option<Login>)
        ensures
            issued(self@, r),
            r matches Some(call) ==> is_login(
                call,
                vhost@,
                channel_max,
                frame_max,
                heartbeat,
                sasl_method,
                login@,
                password@,
            ),
    {
        if self.is_open() {
            Some(self.login(vhost, channel_max, frame_max, heartbeat, sasl_method, login, password))
        } else {
            None
        }
    }

    /// Takes the engine's reply to the handshake: success if it is normal, else
    /// the text that describes it.
    pub fn login_reply(&self, reply: amqp_rpc_reply<()>) -> (r: Result<(), String>)
        ensures
            result_view(r) == reply_result(reply),
    {
        reply.into_result()
    }
}

/// Closing twice closes once: the first close of an open connection yields
/// the request with its code, and a second close, with whatever code, yields
/// nothing and leaves the connection closed.
pub proof fn close_is_idempotent(state: ConnectionState, first: i32, second: i32)
    ensures
        state == ConnectionState::ConnectionOpen ==> close_step(state, first) == (
            ConnectionState::ConnectionClosed,
            Some(first),
        ),
        close_step(close_step(state, first).0, second) == (
            ConnectionState::ConnectionClosed,
            None::<i32>,
        ),
{
}

/// Taking a connection down releases the handle exactly once, as the last
/// step, and tells the broker exactly once if the connection was open and not
/// at all if it was closed.
pub proof fn teardown_closes_and_releases_once(state: ConnectionState)
    ensures
        forall|i: int|
            0 <= i < teardown_steps(state).len() ==> (#[trigger] teardown_steps(state)[i]
                == TeardownStep::DestroyConnection <==> i == teardown_steps(state).len() - 1),
        forall|i: int|
            0 <= i < teardown_steps(state).len() ==> (#[trigger] teardown_steps(state)[i]
                is CloseConnection <==> state == ConnectionState::ConnectionOpen && i == 0),
        state == ConnectionState::ConnectionOpen ==> teardown_steps(state)[0]
            == TeardownStep::CloseConnection(AMQP_REPLY_SUCCESS),
{
}

/// An operation that finds the connection closed fails with the engine's text
/// for a closed connection: the reply that stands in for the engine is never
/// read as success.
pub proof fn closed_reply_is_an_error<D>(reply: amqp_rpc_reply<D>, message: Seq<char>)
    requires
        is_closed_reply(reply, message),
    ensures
        reply_result(reply) == Err::<D, Seq<char>>(message),
{
}

} // verus!
