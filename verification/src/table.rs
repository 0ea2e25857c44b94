//! Tables, the top level containers of the packet filter. A table has a name
//! and a protocol family, and holds chains.

use crate::frame::{build_frame, frame, ObjectKind};
use crate::keys::{NFTA_TABLE_FLAGS, NFTA_TABLE_NAME};
use crate::netlink::{
    attr_str, attr_u32, build_object_message, find_attr, lemma_find_first_attr,
    lemma_message_read_back, locate_attr, locate_payload, message_payload, object_message,
    push_attr_str, push_attr_u32, str_fits, strz, text,
};
use crate::sys;
use crate::util::{find, lemma_find};
use crate::{MsgType, NlMsg, ProtoFamily};
use vstd::prelude::*;

verus! {

/// A table of the packet filter.
#[derive(Debug)]
pub struct Table {
    name: String,
    family: ProtoFamily,
}

/// What a [`Table`] stands for: its name and its family.
pub struct TableView {
    pub name: Seq<char>,
    pub family: ProtoFamily,
}

impl View for Table {
    type V = TableView;

    closed spec fn view(&self) -> TableView {
        TableView { name: self.name@, family: self.family }
    }
}

/// The attributes of a table: its name, and no flags.
pub open spec fn table_payload(t: TableView) -> Seq<u8> {
    attr_str(NFTA_TABLE_NAME, t.name) + attr_u32(NFTA_TABLE_FLAGS, 0)
}

impl Table {
    /// A table with the given name and family.
    pub fn new(name: &str, family: ProtoFamily) -> (r: Table)
        ensures
            r@.name == name@,
            r@.family == family,
    {
        Table { name: name.to_owned(), family }
    }

    /// The name of this table.
    pub fn get_name(&self) -> (r: &str)
        ensures
            r@ == self@.name,
    {
        self.name.as_str()
    }

    /// The protocol family of this table.
    pub fn get_family(&self) -> (r: ProtoFamily)
        ensures
            r == self@.family,
    {
        self.family
    }

    /// A table with the same name and family.
    pub fn duplicate(&self) -> (r: Table)
        ensures
            r@ == self@,
    {
        Table { name: self.name.clone(), family: self.family }
    }
}

impl NlMsg for Table {
    /// The message names the table. It exists unless the name is too long for
    /// an attribute.
    open spec fn message(&self, seq: u32, msg_type: MsgType) -> Option<Seq<u8>> {
        if str_fits(self@.name) {
            Some(frame(ObjectKind::Table, msg_type, self@.family, seq, table_payload(self@)))
        } else {
            None
        }
    }

    fn write(&self, seq: u32, msg_type: MsgType) -> (r: Option<Vec<u8>>) {
        let mut payload: Vec<u8> = Vec::new();
        if !push_attr_str(&mut payload, NFTA_TABLE_NAME, self.name.as_str()) {
            return None;
        }
        push_attr_u32(&mut payload, NFTA_TABLE_FLAGS, 0);
        build_frame(ObjectKind::Table, msg_type, self.family, seq, payload.as_slice())
    }
}

/// The bytes of the message that asks the kernel for all its tables.
pub open spec fn tables_request(seq: u32) -> Seq<u8> {
    object_message(1, 0, 0x0301, seq, Seq::empty())
}

/// The text of a string attribute: what stands before its first zero byte.
pub open spec fn c_string(payload: Seq<u8>) -> Seq<u8> {
    payload.take(find(payload, 0))
}

/// The name of the table that a message from the kernel tells of. `None`
/// where the bytes are no whole message, or where the message names no table.
pub open spec fn table_name_in(msg: Seq<u8>) -> Option<Seq<u8>> {
    match message_payload(msg) {
        None => None,
        Some(payload) => match find_attr(payload, NFTA_TABLE_NAME) {
            None => None,
            Some(value) => Some(c_string(value)),
        },
    }
}

/// A list of names with `name` in it: the list itself where it has the name
/// already, and the list with the name at its end where it has not.
pub open spec fn with_name(names: Seq<Seq<u8>>, name: Seq<u8>) -> Seq<Seq<u8>> {
    if names.contains(name) {
        names
    } else {
        names.push(name)
    }
}

/// The names that a list of byte vectors stands for.
pub open spec fn names_of(tables: Seq<Vec<u8>>) -> Seq<Seq<u8>> {
    tables.map_values(|n: Vec<u8>| n@)
}

/// The message that asks the kernel for all its tables, under the given
/// sequence number.
pub fn get_tables_nlmsg(seq: u32) -> (r: Vec<u8>)
    ensures
        r@ == tables_request(seq),
{
    let flags: u16 = sys::nlm_f_request() | sys::nlm_f_root() | sys::nlm_f_match();
    assert(1u16 | 0x100u16 | 0x200u16 == 0x301u16) by (bit_vector);
    let empty: Vec<u8> = Vec::new();
    match build_object_message(
        sys::msg_gettable(),
        ProtoFamily::Unspec.to_raw(),
        flags,
        seq,
        empty.as_slice(),
    ) {
        Some(bytes) => bytes,
        None => Vec::new(),
    }
}

/// Whether two runs of bytes are the same.
fn same_bytes(a: &[u8], b: &[u8]) -> (r: bool)
    ensures
        r == (a@ == b@),
{
    if a.len() != b.len() {
        return false;
    }
    let mut i: usize = 0;
    while i < a.len()
        invariant
            i <= a@.len(),
            a@.len() == b@.len(),
            forall|k: int| 0 <= k < i ==> a@[k] == b@[k],
        decreases a@.len() - i,
    {
        if a[i] != b[i] {
            return false;
        }
        i += 1;
    }
    assert(a@ =~= b@);
    true
}

/// Takes the name of a table out of a message from the kernel and puts it
/// into `tables`, unless it is there already. Returns 1 where the message
/// names a table, and -1, with `tables` as it was, where it does not.
pub fn get_tables_cb(msg: &[u8], tables: &mut Vec<Vec<u8>>) -> (r: i32)
    ensures
        match table_name_in(msg@) {
            Some(name) => r == 1 && names_of(final(tables)@) == with_name(
                names_of(old(tables)@),
                name,
            ),
            None => r == -1 && final(tables)@ == old(tables)@,
        },
        names_of(old(tables)@).no_duplicates() ==> names_of(final(tables)@).no_duplicates(),
{
    let (start, stop) = match locate_payload(msg) {
        Some(bounds) => bounds,
        None => return -1,
    };
    assert(msg@.subrange(start as int, stop as int) == message_payload(msg@).unwrap());
    let (from, to) = match locate_attr(msg, start, stop, NFTA_TABLE_NAME) {
        Some(bounds) => bounds,
        None => return -1,
    };
    let ghost value = msg@.subrange(from as int, to as int);
    let mut end: usize = from;
    while end < to && msg[end] != 0
        invariant
            from <= end <= to <= msg@.len(),
            value == msg@.subrange(from as int, to as int),
            forall|k: int| 0 <= k < end - from ==> value[k] != 0,
        decreases to - end,
    {
        end += 1;
    }
    proof {
        lemma_find(value, 0, end - from);
    }
    let mut name: Vec<u8> = Vec::new();
    let mut i: usize = from;
    while i < end
        invariant
            from <= i <= end <= msg@.len(),
            name@ == msg@.subrange(from as int, i as int),
        decreases end - i,
    {
        name.push(msg[i]);
        i += 1;
        assert(name@ =~= msg@.subrange(from as int, i as int));
    }
    assert(name@ =~= c_string(value));
    assert(table_name_in(msg@) == Some(name@));
    let ghost before = names_of(tables@);
    let mut k: usize = 0;
    while k < tables.len()
        invariant
            k <= tables@.len(),
            before == names_of(tables@),
            tables@ == old(tables)@,
            table_name_in(msg@) == Some(name@),
            forall|j: int| 0 <= j < k ==> before[j] != name@,
        decreases tables@.len() - k,
    {
        assert(before[k as int] == tables@[k as int]@);
        if same_bytes(tables[k].as_slice(), name.as_slice()) {
            assert(before.contains(name@));
            return 1;
        }
        k += 1;
    }
    assert(!before.contains(name@));
    tables.push(name);
    assert(names_of(tables@) =~= before.push(name@));
    1
}

/// The name of a table is read back from the message that was written for
/// the table, as long as the name holds no zero character: such a one would
/// end the name where it stands.
pub proof fn lemma_table_name_read_back(t: TableView, seq: u32, msg_type: MsgType)
    requires
        str_fits(t.name),
        !text(t.name).contains(0u8),
    ensures
        table_name_in(frame(ObjectKind::Table, msg_type, t.family, seq, table_payload(t))) == Some(
            text(t.name),
        ),
{
    let payload = table_payload(t);
    let value = strz(text(t.name));
    lemma_message_read_back(
        crate::netlink::nft_type(crate::frame::opcode(ObjectKind::Table, msg_type)),
        crate::frame::flags(ObjectKind::Table, msg_type),
        seq,
        t.family.raw() as u8,
        0,
        payload,
    );
    lemma_find_first_attr(NFTA_TABLE_NAME, value, attr_u32(NFTA_TABLE_FLAGS, 0));
    assert forall|k: int| 0 <= k < text(t.name).len() implies value[k] != 0 by {
        assert(text(t.name)[k] == value[k]);
        assert(text(t.name).contains(value[k]));
    }
    lemma_find(value, 0, text(t.name).len() as int);
    assert(c_string(value) =~= text(t.name));
}

} // verus!
