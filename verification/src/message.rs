//! Inbound deliveries: the message handed to the caller, and the life cycle of
//! the transport-owned envelope it arrives in.

use vstd::prelude::*;
use crate::codec::{amqp_bytes, amqp_bytes_to_vec, bytes_as_str, str_of_wire};

verus! {

/// An inbound message. The body is owned and depends on the transport no longer.
#[derive(Debug)]
pub struct amqp_message {
    pub body: Vec<u8>,
}

impl View for amqp_message {
    type V = Seq<u8>;

    open spec fn view(&self) -> Seq<u8> {
        self.body@
    }
}

/// The characters of an optional string slice.
pub open spec fn opt_slice_view(s: Option<&str>) -> Option<Seq<char>> {
    match s {
        Some(s) => Some(s@),
        None => None,
    }
}

impl amqp_message {
    /// The body as text, where it is well-formed UTF-8; bodies need not be.
    pub fn str_body<'a>(&'a self) -> (r: Option<&'a str>)
        ensures
            opt_slice_view(r) == str_of_wire(self@),
    {
        bytes_as_str(self.body.as_slice())
    }
}

/// Where an envelope stands between delivery and release.
#[derive(Debug, Clone, Copy, PartialEq, Eq, Structural)]
pub enum EnvelopeState {
    /// Delivered by the transport engine; the body has not been copied out.
    Pending,
    /// The body has been copied into a message.
    Extracted,
    /// The transport's resources behind the envelope have been given back.
    Released,
}

/// One inbound delivery as the transport engine holds it.
#[derive(Debug)]
pub struct amqp_envelope {
    pub state: EnvelopeState,
    pub body: amqp_bytes,
}

/// What extraction makes of an envelope in the given state: the state after
/// it, and whether a message comes out. Only a pending envelope gives one.
pub open spec fn extract_step(state: EnvelopeState) -> (EnvelopeState, bool) {
    match state {
        EnvelopeState::Pending => (EnvelopeState::Extracted, true),
        _ => (state, false),
    }
}

/// What release makes of an envelope in the given state: it is released
/// afterwards, and the engine's release is due unless it was released before.
pub open spec fn release_step(state: EnvelopeState) -> (EnvelopeState, bool) {
    (EnvelopeState::Released, state != EnvelopeState::Released)
}

impl amqp_envelope {
    /// The envelope of a fresh delivery with this body.
    pub fn new(body: amqp_bytes) -> (r: amqp_envelope)
        ensures
            r.state == EnvelopeState::Pending,
            r.body@ == body@,
    {
        amqp_envelope { state: EnvelopeState::Pending, body }
    }

    /// Copies the body out into an owned message. Only a pending envelope
    /// yields one, byte for byte, and is extracted afterwards; any other is
    /// left as it is.
    pub fn extract(&mut self) -> (r: Option<amqp_message>)
        ensures
            (final(self).state, r is Some) == extract_step(old(self).state),
            r matches Some(message) ==> message@ == old(self).body@,
            final(self).body@ == old(self).body@,
    {
        match self.state {
            EnvelopeState::Pending => {
                let message = amqp_message { body: amqp_bytes_to_vec(&self.body) };
                self.state = EnvelopeState::Extracted;
                Some(message)
            },
            _ => None,
        }
    }
}

/// Gives the envelope back. The result says whether the transport engine's
/// release is due now: `true` the first time, whether or not the body was
/// extracted, and `false` ever after. A released envelope holds no bytes.
pub fn destroy_envelope(envelope: &mut amqp_envelope) -> (due: bool)
    ensures
        (final(envelope).state, due) == release_step(old(envelope).state),
        final(envelope).body@ == Seq::<u8>::empty(),
{
    let due = match envelope.state {
        EnvelopeState::Released => false,
        _ => true,
    };
    envelope.state = EnvelopeState::Released;
    envelope.body = amqp_bytes::empty();
    due
}

/// An envelope is released exactly once, whether or not its body was
/// extracted: from any state the first release falls due unless one was made
/// before, a second never does, and a released envelope gives no message.
pub proof fn envelope_is_released_once(state: EnvelopeState)
    ensures
        release_step(extract_step(state).0).1 == (state != EnvelopeState::Released),
        release_step(state).1 == (state != EnvelopeState::Released),
        release_step(release_step(state).0) == (EnvelopeState::Released, false),
        extract_step(release_step(state).0) == (EnvelopeState::Released, false),
        extract_step(extract_step(state).0).1 == false,
{
}

} // verus!
