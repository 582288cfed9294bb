//! Byte strings as they travel to and from the transport engine, and the
//! conversions between them and host strings.

use vstd::prelude::*;
use vstd::slice::slice_to_vec;
use vstd::string::StrSliceExecFns;
use vstd::string::StringSliceAdditionalSpecFns;
use vstd::utf8::{
    decode_utf8, encode_utf8, encode_utf8_decode_utf8, encode_utf8_valid_utf8, valid_utf8,
};

verus! {

/// A byte string in wire form: exactly the bytes to transmit, with their count
/// available through [`amqp_bytes::len`]. No terminator is added and nothing is cut.
#[derive(Debug)]
pub struct amqp_bytes {
    pub bytes: Vec<u8>,
}

impl View for amqp_bytes {
    type V = Seq<u8>;

    open spec fn view(&self) -> Seq<u8> {
        self.bytes@
    }
}

/// The wire bytes of a host string: its UTF-8 encoding.
pub open spec fn wire_of_str(s: Seq<char>) -> Seq<u8> {
    encode_utf8(s)
}

/// The host string that wire bytes stand for, where they are well-formed UTF-8.
pub open spec fn str_of_wire(bytes: Seq<u8>) -> Option<Seq<char>> {
    if valid_utf8(bytes) {
        Some(decode_utf8(bytes))
    } else {
        None
    }
}

/// The characters of an optional string.
pub open spec fn opt_str_view(s: Option<String>) -> Option<Seq<char>> {
    match s {
        Some(s) => Some(s@),
        None => None,
    }
}

impl amqp_bytes {
    /// The explicit length that accompanies the bytes on the wire.
    pub fn len(&self) -> (n: u64)
        ensures
            n == self@.len(),
    {
        self.bytes.len() as u64
    }

    /// The empty byte string, which stands for an unset string field.
    pub fn empty() -> (r: amqp_bytes)
        ensures
            r@ == Seq::<u8>::empty(),
    {
        amqp_bytes { bytes: Vec::new() }
    }

    /// An independent copy of the same bytes.
    pub fn duplicate(&self) -> (r: amqp_bytes)
        ensures
            r@ == self@,
    {
        amqp_bytes { bytes: slice_to_vec(self.bytes.as_slice()) }
    }
}

/// `core::str::from_utf8`: succeeds exactly on well-formed UTF-8, and the string
/// slice it then returns consists of the very bytes it was given.
#[verifier::external_body]
fn utf8_str(bytes: &[u8]) -> (r: Option<&str>)
    ensures
        r is Some <==> valid_utf8(bytes@),
        r matches Some(s) ==> s.spec_bytes() == bytes@,
{
    core::str::from_utf8(bytes).ok()
}

/// Reads a byte slice as a string slice without copying; `None` where the bytes
/// are not well-formed UTF-8.
pub fn bytes_as_str(bytes: &[u8]) -> (r: Option<&str>)
    ensures
        r is Some <==> valid_utf8(bytes@),
        r matches Some(s) ==> s@ == decode_utf8(bytes@) && s.spec_bytes() == bytes@,
{
    let r = utf8_str(bytes);
    proof {
        if let Some(s) = r {
            encode_utf8_decode_utf8(s@);
        }
    }
    r
}

/// Encodes a host string for the wire: the bytes of its UTF-8 form, all of them
/// and nothing after them.
pub fn str_to_amqp_bytes(string: &String) -> (r: amqp_bytes)
    ensures
        r@ == wire_of_str(string@),
{
    vec_to_amqp_bytes(string.as_str().as_bytes_vec())
}

/// Wraps a byte vector for the wire without touching its contents.
pub fn vec_to_amqp_bytes(vec: Vec<u8>) -> (r: amqp_bytes)
    ensures
        r@ == vec@,
{
    amqp_bytes { bytes: vec }
}

/// Decodes wire bytes into an owned host string. Succeeds exactly when the bytes
/// are well-formed UTF-8.
pub fn amqp_bytes_to_str(bytes: &amqp_bytes) -> (r: Option<String>)
    ensures
        opt_str_view(r) == str_of_wire(bytes@),
{
    match bytes_as_str(bytes.bytes.as_slice()) {
        Some(s) => Some(s.to_owned()),
        None => None,
    }
}

/// Copies wire bytes into an owned binary sequence; any bytes are accepted.
pub fn amqp_bytes_to_vec(bytes: &amqp_bytes) -> (r: Vec<u8>)
    ensures
        r@ == bytes@,
{
    slice_to_vec(bytes.bytes.as_slice())
}

/// A truth value as the wire integer 1 or 0.
pub open spec fn wire_flag(b: bool) -> i32 {
    if b {
        1
    } else {
        0
    }
}

/// Writes a truth value as the wire integer 1 or 0.
pub fn flag_to_wire(b: bool) -> (r: i32)
    ensures
        r == wire_flag(b),
{
    if b {
        1
    } else {
        0
    }
}

/// Encoding a string and decoding the result gives the string back, for every
/// string: the empty one and those with characters outside ASCII included.
pub proof fn str_round_trip(s: Seq<char>)
    ensures
        str_of_wire(wire_of_str(s)) == Some(s),
{
    encode_utf8_valid_utf8(s);
    encode_utf8_decode_utf8(s);
}

} // verus!
