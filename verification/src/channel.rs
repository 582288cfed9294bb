//! Channels, and the synchronous call that requests with a reply are made of.

use vstd::prelude::*;
use crate::connection::{issued, Connection, ConnectionState};
use crate::reply::AMQPMethod;
use crate::transport::{amqp_request, ChannelClose, ChannelOpen, SimpleRpc};

verus! {

/// A channel of a connection, known by its number. It is a token for a
/// resource on the broker and owns nothing; closing it uses it up.
#[derive(Debug)]
pub struct Channel {
    pub id: u16,
}

/// What the engine's answer makes of a channel open: the channel of the
/// requested number if the engine accepted, nothing if it answered null.
pub open spec fn channel_open_result(channel: u16, accepted: bool) -> Option<Channel> {
    if accepted {
        Some(Channel { id: channel })
    } else {
        None
    }
}

/// Whether a call sends `request_id` and awaits `reply_id` alone: the list of
/// expected identifiers is that one and the closing zero.
pub open spec fn awaits(call: SimpleRpc, request_id: AMQPMethod, reply_id: AMQPMethod) -> bool {
    &&& call.request_id == request_id.spec_id()
    &&& call.expected_reply_ids@ == seq![reply_id.spec_id(), 0u32]
}

/// The synchronous call on a channel that sends `request_id` with its decoded
/// arguments and awaits `reply_id` alone.
pub open spec fn is_simple_rpc(
    call: SimpleRpc,
    channel: u16,
    request_id: AMQPMethod,
    reply_id: AMQPMethod,
    decoded_request_method: amqp_request,
) -> bool {
    &&& call.channel == channel
    &&& awaits(call, request_id, reply_id)
    &&& call.decoded_request_method == decoded_request_method
}

/// The request that closes a channel: its number and the reply code.
pub open spec fn channel_close_request(channel: Channel, code: i32) -> ChannelClose {
    ChannelClose { channel: channel.id, code }
}

impl Connection {
    /// The request to open the channel of the given number. The number is the
    /// caller's choice; whether it is in use is not looked at.
    pub fn channel_open(&self, channel: u16) -> (r: ChannelOpen)
        requires
            self@ == ConnectionState::ConnectionOpen,
        ensures
            r.channel == channel,
    {
        ChannelOpen { channel }
    }

    /// The request to open the channel of the given number if the connection
    /// is open, and none if it is closed.
    pub fn try_channel_open(&self, channel: u16) -> (r: Option<ChannelOpen>)
        ensures
            issued(self@, r),
            r matches Some(call) ==> call.channel == channel,
    {
        if self.is_open() {
            Some(self.channel_open(channel))
        } else {
            None
        }
    }

    /// Takes the engine's answer to a channel open: `accepted` says whether it
    /// came back non-null.
    pub fn channel_open_reply(&self, call: ChannelOpen, accepted: bool) -> (r: Option<Channel>)
        ensures
            r == channel_open_result(call.channel, accepted),
    {
        if accepted {
            Some(Channel { id: call.channel })
        } else {
            None
        }
    }

    /// The request to close a channel. The channel is used up.
    pub fn channel_close(&self, channel: Channel, code: i32) -> (r: ChannelClose)
        requires
            self@ == ConnectionState::ConnectionOpen,
        ensures
            r == channel_close_request(channel, code),
    {
        ChannelClose { channel: channel.id, code }
    }

    /// The request to close a channel if the connection is open, and none if
    /// it is closed. The channel is used up either way.
    pub fn try_channel_close(&self, channel: Channel, code: i32) -> (r: Option<ChannelClose>)
        ensures
            issued(self@, r),
            r matches Some(call) ==> call == channel_close_request(channel, code),
    {
        if self.is_open() {
            Some(self.channel_close(channel, code))
        } else {
            None
        }
    }

    /// The synchronous call that every request with a reply is made of: send
    /// `request_id` with its decoded arguments on the channel and wait for
    /// `reply_id`, the one expected reply.
    pub fn simple_rpc(
        &self,
        channel: Channel,
        request_id: AMQPMethod,
        reply_id: AMQPMethod,
        decoded_request_method: amqp_request,
    ) -> (r: SimpleRpc)
        requires
            self@ == ConnectionState::ConnectionOpen,
        ensures
            is_simple_rpc(r, channel.id, request_id, reply_id, decoded_request_method),
    {
        let expected_reply_ids: [u32; 2] = [reply_id.id(), 0];
        assert(expected_reply_ids@ =~= seq![reply_id.spec_id(), 0u32]);
        SimpleRpc {
            channel: channel.id,
            request_id: request_id.id(),
            expected_reply_ids,
            decoded_request_method,
        }
    }

    /// The synchronous call if the connection is open, and none if it is
    /// closed.
    pub fn try_simple_rpc(
        &self,
        channel: Channel,
        request_id: AMQPMethod,
        reply_id: AMQPMethod,
        decoded_request_method: amqp_request,
    ) -> (r: Option<SimpleRpc>)
        ensures
            issued(self@, r),
            r matches Some(call) ==> is_simple_rpc(
                call,
                channel.id,
                request_id,
                reply_id,
                decoded_request_method,
            ),
    {
        if self.is_open() {
            Some(self.simple_rpc(channel, request_id, reply_id, decoded_request_method))
        } else {
            None
        }
    }
}

/// A channel number can be used again as soon as its channel is closed: an
/// open is decided by the engine's answer alone, whatever was opened or
/// closed on the connection before, and it yields the channel of the number
/// asked for.
pub proof fn channel_number_is_reusable(id: u16, code: i32)
    ensures
        channel_open_result(id, true) == Some(Channel { id }),
        channel_open_result(id, false) == None::<Channel>,
        channel_close_request(Channel { id }, code).channel == id,
        channel_open_result(channel_close_request(Channel { id }, code).channel, true) == Some(
            Channel { id },
        ),
{
}

} // verus!
