//! The fixed set of message properties and their wire form.

use vstd::prelude::*;
use crate::codec::{amqp_bytes, str_to_amqp_bytes, wire_of_str};
use crate::table::{amqp_table, amqp_table_t, table_to_wire, EntryView, WireTableView};

verus! {

/// The properties that may accompany a published message. `_flags` says which
/// of them are meant; it is the caller's to set and is passed on as it is.
#[derive(Debug)]
pub struct amqp_basic_properties {
    pub _flags: u32,
    pub content_type: String,
    pub content_encoding: String,
    pub headers: amqp_table,
    pub delivery_mode: u8,
    pub priority: u8,
    pub correlation_id: String,
    pub reply_to: String,
    pub expiration: String,
    pub message_id: String,
    pub timestamp: u64,
    pub _type: String,
    pub user_id: String,
    pub app_id: String,
    pub cluster_id: String,
}

/// What a set of properties says.
pub struct PropertiesView {
    pub flags: u32,
    pub content_type: Seq<char>,
    pub content_encoding: Seq<char>,
    pub headers: Seq<EntryView>,
    pub delivery_mode: u8,
    pub priority: u8,
    pub correlation_id: Seq<char>,
    pub reply_to: Seq<char>,
    pub expiration: Seq<char>,
    pub message_id: Seq<char>,
    pub timestamp: u64,
    pub type_: Seq<char>,
    pub user_id: Seq<char>,
    pub app_id: Seq<char>,
    pub cluster_id: Seq<char>,
}

impl View for amqp_basic_properties {
    type V = PropertiesView;

    open spec fn view(&self) -> PropertiesView {
        PropertiesView {
            flags: self._flags,
            content_type: self.content_type@,
            content_encoding: self.content_encoding@,
            headers: self.headers@,
            delivery_mode: self.delivery_mode,
            priority: self.priority,
            correlation_id: self.correlation_id@,
            reply_to: self.reply_to@,
            expiration: self.expiration@,
            message_id: self.message_id@,
            timestamp: self.timestamp,
            type_: self._type@,
            user_id: self.user_id@,
            app_id: self.app_id@,
            cluster_id: self.cluster_id@,
        }
    }
}

/// The properties in wire form: every string as bytes, the headers as a wire table.
#[derive(Debug)]
pub struct amqp_basic_properties_t {
    pub _flags: u32,
    pub content_type: amqp_bytes,
    pub content_encoding: amqp_bytes,
    pub headers: amqp_table_t,
    pub delivery_mode: u8,
    pub priority: u8,
    pub correlation_id: amqp_bytes,
    pub reply_to: amqp_bytes,
    pub expiration: amqp_bytes,
    pub message_id: amqp_bytes,
    pub timestamp: u64,
    pub _type: amqp_bytes,
    pub user_id: amqp_bytes,
    pub app_id: amqp_bytes,
    pub cluster_id: amqp_bytes,
}

/// What a set of wire properties says.
pub struct WirePropertiesView {
    pub flags: u32,
    pub content_type: Seq<u8>,
    pub content_encoding: Seq<u8>,
    pub headers: WireTableView,
    pub delivery_mode: u8,
    pub priority: u8,
    pub correlation_id: Seq<u8>,
    pub reply_to: Seq<u8>,
    pub expiration: Seq<u8>,
    pub message_id: Seq<u8>,
    pub timestamp: u64,
    pub type_: Seq<u8>,
    pub user_id: Seq<u8>,
    pub app_id: Seq<u8>,
    pub cluster_id: Seq<u8>,
}

impl View for amqp_basic_properties_t {
    type V = WirePropertiesView;

    open spec fn view(&self) -> WirePropertiesView {
        WirePropertiesView {
            flags: self._flags,
            content_type: self.content_type@,
            content_encoding: self.content_encoding@,
            headers: self.headers@,
            delivery_mode: self.delivery_mode,
            priority: self.priority,
            correlation_id: self.correlation_id@,
            reply_to: self.reply_to@,
            expiration: self.expiration@,
            message_id: self.message_id@,
            timestamp: self.timestamp,
            type_: self._type@,
            user_id: self.user_id@,
            app_id: self.app_id@,
            cluster_id: self.cluster_id@,
        }
    }
}

/// The wire form of a set of properties, field by field. Numbers and the flags
/// pass unchanged; a string becomes its bytes, so an unset (empty) string
/// becomes the empty byte string and never a null marker.
pub open spec fn properties_to_wire(p: PropertiesView) -> WirePropertiesView {
    WirePropertiesView {
        flags: p.flags,
        content_type: wire_of_str(p.content_type),
        content_encoding: wire_of_str(p.content_encoding),
        headers: table_to_wire(p.headers),
        delivery_mode: p.delivery_mode,
        priority: p.priority,
        correlation_id: wire_of_str(p.correlation_id),
        reply_to: wire_of_str(p.reply_to),
        expiration: wire_of_str(p.expiration),
        message_id: wire_of_str(p.message_id),
        timestamp: p.timestamp,
        type_: wire_of_str(p.type_),
        user_id: wire_of_str(p.user_id),
        app_id: wire_of_str(p.app_id),
        cluster_id: wire_of_str(p.cluster_id),
    }
}

/// The properties with nothing set: no flag, every string empty, every number zero.
pub open spec fn unset_properties() -> PropertiesView {
    PropertiesView {
        flags: 0,
        content_type: Seq::empty(),
        content_encoding: Seq::empty(),
        headers: Seq::empty(),
        delivery_mode: 0,
        priority: 0,
        correlation_id: Seq::empty(),
        reply_to: Seq::empty(),
        expiration: Seq::empty(),
        message_id: Seq::empty(),
        timestamp: 0,
        type_: Seq::empty(),
        user_id: Seq::empty(),
        app_id: Seq::empty(),
        cluster_id: Seq::empty(),
    }
}

impl Default for amqp_basic_properties {
    fn default() -> (r: amqp_basic_properties)
        ensures
            r@ == unset_properties(),
    {
        amqp_basic_properties {
            _flags: 0,
            content_type: String::new(),
            content_encoding: String::new(),
            headers: amqp_table::default(),
            delivery_mode: 0,
            priority: 0,
            correlation_id: String::new(),
            reply_to: String::new(),
            expiration: String::new(),
            message_id: String::new(),
            timestamp: 0,
            _type: String::new(),
            user_id: String::new(),
            app_id: String::new(),
            cluster_id: String::new(),
        }
    }
}

impl amqp_basic_properties {
    /// Encodes every property for the wire, the nested headers included.
    pub fn to_rabbit(&self) -> (r: amqp_basic_properties_t)
        ensures
            r@ == properties_to_wire(self@),
    {
        amqp_basic_properties_t {
            _flags: self._flags,
            content_type: str_to_amqp_bytes(&self.content_type),
            content_encoding: str_to_amqp_bytes(&self.content_encoding),
            headers: self.headers.to_rabbit(),
            delivery_mode: self.delivery_mode,
            priority: self.priority,
            correlation_id: str_to_amqp_bytes(&self.correlation_id),
            reply_to: str_to_amqp_bytes(&self.reply_to),
            expiration: str_to_amqp_bytes(&self.expiration),
            message_id: str_to_amqp_bytes(&self.message_id),
            timestamp: self.timestamp,
            _type: str_to_amqp_bytes(&self._type),
            user_id: str_to_amqp_bytes(&self.user_id),
            app_id: str_to_amqp_bytes(&self.app_id),
            cluster_id: str_to_amqp_bytes(&self.cluster_id),
        }
    }
}

/// Unset properties travel as empty byte strings and an empty table: their
/// wire form holds no byte and no entry.
pub proof fn unset_properties_on_wire()
    ensures
        ({
            let w = properties_to_wire(unset_properties());
            &&& w.flags == 0
            &&& w.content_type.len() == 0
            &&& w.content_encoding.len() == 0
            &&& w.headers.num_entries == 0
            &&& w.headers.entries.len() == 0
            &&& w.correlation_id.len() == 0
            &&& w.reply_to.len() == 0
            &&& w.expiration.len() == 0
            &&& w.message_id.len() == 0
            &&& w.type_.len() == 0
            &&& w.user_id.len() == 0
            &&& w.app_id.len() == 0
            &&& w.cluster_id.len() == 0
        }),
{
}

} // verus!
