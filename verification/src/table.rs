//! Tables: ordered lists of keyed, typed field values, and their wire form.

use vstd::prelude::*;
use crate::codec::{amqp_bytes, str_to_amqp_bytes, wire_of_str};

verus! {

/// A field value in wire form: a one-byte kind and two raw words.
#[derive(Debug, Clone, Copy)]
pub struct amqp_field_value {
    pub kind: u8,
    pub value: [u64; 2],
}

/// What a field value says, as plain mathematics.
pub struct FieldView {
    pub kind: u8,
    pub words: (u64, u64),
}

impl View for amqp_field_value {
    type V = FieldView;

    open spec fn view(&self) -> FieldView {
        FieldView { kind: self.kind, words: (self.value@[0], self.value@[1]) }
    }
}

/// A host type that can stand as a table field.
pub trait TableField {
    /// The two raw words that carry the value.
    spec fn spec_value(&self) -> (u64, u64);

    /// The one-byte kind discriminant.
    spec fn spec_kind(&self) -> u8;

    /// The raw words, first word first.
    fn value(&self) -> (r: [u64; 2])
        ensures
            r@[0] == self.spec_value().0,
            r@[1] == self.spec_value().1,
    ;

    /// The kind discriminant.
    fn kind(&self) -> (r: u8)
        ensures
            r == self.spec_kind(),
    ;

    /// The wire form: the kind beside the raw words.
    fn to_rabbit(&self) -> (r: amqp_field_value)
        ensures
            r@ == (FieldView { kind: self.spec_kind(), words: self.spec_value() }),
    {
        amqp_field_value { value: self.value(), kind: self.kind() }
    }
}

/// An unsigned 32-bit number travels under the kind `I`, in the first word.
impl TableField for u32 {
    open spec fn spec_value(&self) -> (u64, u64) {
        (*self as u64, 0)
    }

    open spec fn spec_kind(&self) -> u8 {
        0x49
    }

    fn value(&self) -> (r: [u64; 2]) {
        [*self as u64, 0]
    }

    fn kind(&self) -> (r: u8) {
        'I' as u8
    }
}

/// A signed 32-bit number travels under the kind `I`, in two's complement in
/// the low 32 bits of the first word.
impl TableField for i32 {
    open spec fn spec_value(&self) -> (u64, u64) {
        ((*self as u32) as u64, 0)
    }

    open spec fn spec_kind(&self) -> u8 {
        0x49
    }

    fn value(&self) -> (r: [u64; 2]) {
        [(*self as u32) as u64, 0]
    }

    fn kind(&self) -> (r: u8) {
        'I' as u8
    }
}

/// One table entry: a key beside a typed value.
#[derive(Debug)]
pub struct amqp_table_entry {
    pub key: amqp_bytes,
    pub value: amqp_field_value,
}

/// What a table entry says: its key bytes, and the kind and raw words of its value.
pub struct EntryView {
    pub key: Seq<u8>,
    pub value: FieldView,
}

impl View for amqp_table_entry {
    type V = EntryView;

    open spec fn view(&self) -> EntryView {
        EntryView { key: self.key@, value: self.value@ }
    }
}

/// What a run of entries says, in order.
pub open spec fn entries_view(entries: Seq<amqp_table_entry>) -> Seq<EntryView> {
    Seq::new(entries.len(), |i: int| entries[i]@)
}

/// An ordered list of entries. Keys may repeat; nothing here removes or reorders one.
#[derive(Debug)]
pub struct amqp_table {
    pub entries: Vec<amqp_table_entry>,
}

impl View for amqp_table {
    type V = Seq<EntryView>;

    open spec fn view(&self) -> Seq<EntryView> {
        entries_view(self.entries@)
    }
}

/// A table in wire form: a signed 32-bit entry count beside the entries.
#[derive(Debug)]
pub struct amqp_table_t {
    pub num_entries: i32,
    pub entries: Vec<amqp_table_entry>,
}

/// What a wire table says.
pub struct WireTableView {
    pub num_entries: i32,
    pub entries: Seq<EntryView>,
}

impl View for amqp_table_t {
    type V = WireTableView;

    open spec fn view(&self) -> WireTableView {
        WireTableView { num_entries: self.num_entries, entries: entries_view(self.entries@) }
    }
}

/// The wire form of a table: every entry in order, and their number cut to 32 bits.
pub open spec fn table_to_wire(table: Seq<EntryView>) -> WireTableView {
    WireTableView { num_entries: table.len() as i32, entries: table }
}

/// The table a wire table stands for, where its count is the number of its entries.
pub open spec fn table_of_wire(wire: WireTableView) -> Option<Seq<EntryView>> {
    if 0 <= wire.num_entries && wire.num_entries == wire.entries.len() {
        Some(wire.entries)
    } else {
        None
    }
}

/// The views of an optional table.
pub open spec fn opt_table_view(table: Option<amqp_table>) -> Option<Seq<EntryView>> {
    match table {
        Some(t) => Some(t@),
        None => None,
    }
}

/// Copies a run of entries, each key byte for byte.
fn copy_entries(src: &Vec<amqp_table_entry>) -> (r: Vec<amqp_table_entry>)
    ensures
        entries_view(r@) == entries_view(src@),
{
    let mut entries: Vec<amqp_table_entry> = Vec::new();
    let mut i: usize = 0;
    while i < src.len()
        invariant
            i <= src.len(),
            entries.len() == i,
            forall|j: int| 0 <= j < i ==> entries@[j]@ == src@[j]@,
        decreases src.len() - i,
    {
        let e = &src[i];
        entries.push(amqp_table_entry { key: e.key.duplicate(), value: e.value });
        i += 1;
    }
    assert(entries_view(entries@) =~= entries_view(src@));
    entries
}

impl Default for amqp_table {
    fn default() -> (r: amqp_table)
        ensures
            r@ == Seq::<EntryView>::empty(),
    {
        let r = amqp_table { entries: Vec::new() };
        assert(r@ =~= Seq::<EntryView>::empty());
        r
    }
}

impl amqp_table {
    /// Encodes the table for one transport call. The entries are copied, so the
    /// wire form shares nothing with the table.
    pub fn to_rabbit(&self) -> (r: amqp_table_t)
        ensures
            r@ == table_to_wire(self@),
    {
        amqp_table_t { num_entries: self.entries.len() as i32, entries: copy_entries(&self.entries) }
    }

    /// Decodes a wire table. Succeeds exactly when the announced count is the
    /// number of entries present.
    pub fn from_rabbit(wire: &amqp_table_t) -> (r: Option<amqp_table>)
        ensures
            opt_table_view(r) == table_of_wire(wire@),
    {
        if wire.num_entries >= 0 && wire.entries.len() <= 0x7fff_ffff
            && wire.entries.len() as i32 == wire.num_entries {
            Some(amqp_table { entries: copy_entries(&wire.entries) })
        } else {
            None
        }
    }

    /// Appends one entry at the end. Earlier entries stay as they are, whether
    /// or not one of them has the same key.
    pub fn add_entry<T: TableField>(&mut self, key: &str, value: T)
        ensures
            final(self)@ == old(self)@.push(
                EntryView {
                    key: wire_of_str(key@),
                    value: FieldView { kind: value.spec_kind(), words: value.spec_value() },
                },
            ),
    {
        let owned = key.to_owned();
        let entry = amqp_table_entry { key: str_to_amqp_bytes(&owned), value: value.to_rabbit() };
        self.entries.push(entry);
        assert(self@ =~= old(self)@.push(entry@));
    }
}

/// The entries of optional arguments: none where no table is given.
pub open spec fn optional_table(arguments: Option<amqp_table>) -> Seq<EntryView> {
    match arguments {
        Some(table) => table@,
        None => Seq::empty(),
    }
}

/// Encodes optional arguments: the wire form of the table, or of the empty
/// table where none is given.
pub fn optional_table_to_rabbit(arguments: Option<amqp_table>) -> (r: amqp_table_t)
    ensures
        r@ == table_to_wire(optional_table(arguments)),
{
    match arguments {
        Some(args) => args.to_rabbit(),
        None => amqp_table::default().to_rabbit(),
    }
}

/// Encoding a table and decoding the result gives the same keys, kinds and
/// values in the order of insertion, for the empty table and for any other
/// whose entry count fits the signed 32-bit field.
pub proof fn table_round_trip(table: Seq<EntryView>)
    requires
        table.len() <= i32::MAX,
    ensures
        table_of_wire(table_to_wire(table)) == Some(table),
{
}

} // verus!
