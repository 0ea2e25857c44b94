//! Sets: collections of keys of one type that a rule can look a value up in.
//!
//! A set is created by one message. Its elements follow in messages of their
//! own, each of which holds one page of elements: as many as the list of
//! elements in a message has room for.

use crate::frame::{build_frame, frame, ObjectKind};
use crate::keys::{
    NFTA_DATA_VALUE, NFTA_LIST_ELEM, NFTA_SET_ELEM_KEY, NFTA_SET_ELEM_LIST_ELEMENTS,
    NFTA_SET_ELEM_LIST_SET, NFTA_SET_ELEM_LIST_SET_ID, NFTA_SET_ELEM_LIST_TABLE, NFTA_SET_FLAGS,
    NFTA_SET_ID, NFTA_SET_KEY_LEN, NFTA_SET_KEY_TYPE, NFTA_SET_NAME, NFTA_SET_TABLE,
};
use crate::netlink::{
    attr, attr_fits, attr_str, attr_u32, lemma_attr_len, nested, push_attr, push_attr_str,
    push_attr_u32, push_bytes, push_nested, str_fits, MAX_ATTR_PAYLOAD, NESTED,
};
use crate::sys;
use crate::table::{Table, TableView};
use crate::{MsgType, NlMsg, ProtoFamily};
use std::marker::PhantomData;
use vstd::prelude::*;

verus! {

/// A type whose values can be the keys of a set.
pub trait SetKey {
    /// The number of the type of the keys.
    const TYPE: u32;

    /// The number of bytes of every key.
    const LEN: u32;

    /// The bytes that stand for this key.
    spec fn key_bytes(&self) -> Seq<u8>;

    /// The bytes that stand for this key.
    fn data(&self) -> (r: Vec<u8>)
        ensures
            r@ == self.key_bytes(),
            r@.len() == Self::LEN,
    ;
}

impl SetKey for [u8; 4] {
    /// An IPv4 address.
    const TYPE: u32 = 7;

    const LEN: u32 = 4;

    open spec fn key_bytes(&self) -> Seq<u8> {
        self@
    }

    fn data(&self) -> (r: Vec<u8>) {
        let mut r: Vec<u8> = Vec::new();
        push_bytes(&mut r, self.as_slice());
        r
    }
}

impl SetKey for [u8; 16] {
    /// An IPv6 address.
    const TYPE: u32 = 8;

    const LEN: u32 = 16;

    open spec fn key_bytes(&self) -> Seq<u8> {
        self@
    }

    fn data(&self) -> (r: Vec<u8>) {
        let mut r: Vec<u8> = Vec::new();
        push_bytes(&mut r, self.as_slice());
        r
    }
}

/// A set of keys of type `K`.
#[derive(Debug)]
pub struct NftSet<K> {
    name: String,
    id: u32,
    table: Table,
    family: ProtoFamily,
    key_type: u32,
    key_len: u32,
    elems: Vec<Vec<u8>>,
    _marker: PhantomData<K>,
}

/// What an [`NftSet`] stands for: its name and number, the table it lives in,
/// its family, the type and length of its keys, and the bytes of its elements
/// in the order in which they were added.
pub struct SetView {
    pub name: Seq<char>,
    pub id: u32,
    pub table: TableView,
    pub family: ProtoFamily,
    pub key_type: u32,
    pub key_len: u32,
    pub elems: Seq<Seq<u8>>,
}

/// The flags of every set made here: it has no name of its own in the
/// ruleset, and its content does not change.
pub const SET_FLAGS: u32 = 3;

/// The bytes of one element in a list of elements: its key as a value.
pub open spec fn elem_wire(key: Seq<u8>) -> Seq<u8> {
    nested(NFTA_LIST_ELEM, nested(NFTA_SET_ELEM_KEY, attr(NFTA_DATA_VALUE, key)))
}

/// Whether an element with the given key can be written.
pub open spec fn elem_encodable(key: Seq<u8>) -> bool {
    &&& attr_fits(key)
    &&& attr_fits(attr(NFTA_DATA_VALUE, key))
    &&& attr_fits(nested(NFTA_SET_ELEM_KEY, attr(NFTA_DATA_VALUE, key)))
}

/// Whether each of the elements can be written.
pub open spec fn elems_encodable(elems: Seq<Seq<u8>>) -> bool {
    forall|i: int| 0 <= i < elems.len() ==> elem_encodable(#[trigger] elems[i])
}

/// The bytes of the elements, one after the other.
pub open spec fn elems_wire(elems: Seq<Seq<u8>>) -> Seq<u8>
    decreases elems.len(),
{
    if elems.len() == 0 {
        Seq::empty()
    } else {
        elems_wire(elems.drop_last()) + elem_wire(elems.last())
    }
}

/// How many bytes an element takes whose key has `key_len` bytes: three
/// attribute headers, the key, and the key's padding.
pub open spec fn elem_size(key_len: u32) -> int {
    12 + key_len + (4 - key_len % 4) % 4
}

/// How many elements go into one message: as many as fit into an attribute,
/// and one where not even one fits.
pub open spec fn page_capacity(key_len: u32) -> int {
    if elem_size(key_len) > MAX_ATTR_PAYLOAD {
        1
    } else {
        MAX_ATTR_PAYLOAD as int / elem_size(key_len)
    }
}

impl SetView {
    /// The attributes that create the set.
    pub open spec fn payload(self) -> Seq<u8> {
        attr_str(NFTA_SET_TABLE, self.table.name) + attr_str(NFTA_SET_NAME, self.name) + attr_u32(
            NFTA_SET_FLAGS,
            SET_FLAGS,
        ) + attr_u32(NFTA_SET_KEY_TYPE, self.key_type) + attr_u32(NFTA_SET_KEY_LEN, self.key_len)
            + attr_u32(NFTA_SET_ID, self.id)
    }

    /// Where the page of elements ends that starts at `start`.
    pub open spec fn page_end(self, start: int) -> int {
        if start + page_capacity(self.key_len) < self.elems.len() {
            start + page_capacity(self.key_len)
        } else {
            self.elems.len() as int
        }
    }

    /// The attributes of the message that carries the elements from `start`
    /// up to `end`: the set by name and number, its table, and the elements.
    pub open spec fn page_payload(self, start: int, end: int) -> Seq<u8> {
        attr_str(NFTA_SET_ELEM_LIST_SET, self.name) + attr_u32(NFTA_SET_ELEM_LIST_SET_ID, self.id)
            + attr_str(NFTA_SET_ELEM_LIST_TABLE, self.table.name) + nested(
            NFTA_SET_ELEM_LIST_ELEMENTS,
            elems_wire(self.elems.subrange(start, end)),
        )
    }

    /// Whether every element has as many bytes as the set says its keys have.
    pub open spec fn uniform(self) -> bool {
        forall|i: int| 0 <= i < self.elems.len() ==> (#[trigger] self.elems[i]).len() == self.key_len
    }

    /// Whether the elements from `start` up to `end` can be written into one
    /// message.
    pub open spec fn page_encodable(self, start: int, end: int) -> bool {
        &&& str_fits(self.name)
        &&& str_fits(self.table.name)
        &&& elems_encodable(self.elems.subrange(start, end))
        &&& attr_fits(elems_wire(self.elems.subrange(start, end)))
    }
}

/// Elements whose keys all have the same length take the same room each.
pub proof fn lemma_elems_wire_len(elems: Seq<Seq<u8>>, key_len: u32)
    requires
        forall|i: int| 0 <= i < elems.len() ==> (#[trigger] elems[i]).len() == key_len,
        elem_size(key_len) <= MAX_ATTR_PAYLOAD,
    ensures
        elems_wire(elems).len() == elems.len() * elem_size(key_len),
        elems_encodable(elems),
    decreases elems.len(),
{
    if elems.len() > 0 {
        let front = elems.drop_last();
        assert forall|i: int| 0 <= i < front.len() implies (#[trigger] front[i]).len()
            == key_len by {
            assert(front[i] == elems[i]);
        }
        lemma_elems_wire_len(front, key_len);
        let key = elems.last();
        assert(key.len() == key_len);
        lemma_elem_wire_len(key);
        assert(elems.len() * elem_size(key_len) == front.len() * elem_size(key_len) + elem_size(
            key_len,
        )) by (nonlinear_arith)
            requires
                elems.len() == front.len() + 1,
        ;
        assert forall|i: int| 0 <= i < elems.len() implies elem_encodable(
            #[trigger] elems[i],
        ) by {
            assert(elems[i].len() == key_len);
            lemma_elem_wire_len(elems[i]);
        }
    }
}

/// An element takes three attribute headers, its key and the key's padding,
/// and can be written where that is no more than an attribute holds.
pub proof fn lemma_elem_wire_len(key: Seq<u8>)
    requires
        key.len() <= u32::MAX,
    ensures
        elem_wire(key).len() == elem_size(key.len() as u32),
        elem_size(key.len() as u32) <= MAX_ATTR_PAYLOAD ==> elem_encodable(key),
{
    let value = attr(NFTA_DATA_VALUE, key);
    let inner = attr((NFTA_SET_ELEM_KEY + NESTED) as u16, value);
    lemma_attr_len(NFTA_DATA_VALUE, key);
    lemma_attr_len((NFTA_SET_ELEM_KEY + NESTED) as u16, value);
    lemma_attr_len((NFTA_LIST_ELEM + NESTED) as u16, inner);
    assert(elem_wire(key) == attr((NFTA_LIST_ELEM + NESTED) as u16, inner));
}

/// Every page that is handed out can be written: where the names of a set
/// and of its table are short enough for an attribute, every element has the
/// length that the set says, and one element fits into an attribute, the
/// elements of each page fit into one attribute together.
pub proof fn lemma_pages_are_encodable(v: SetView, start: int)
    requires
        v.uniform(),
        elem_size(v.key_len) <= MAX_ATTR_PAYLOAD,
        str_fits(v.name),
        str_fits(v.table.name),
        0 <= start < v.elems.len(),
    ensures
        start < v.page_end(start) <= v.elems.len(),
        v.page_encodable(start, v.page_end(start)),
{
    let end = v.page_end(start);
    let size = elem_size(v.key_len);
    let capacity = page_capacity(v.key_len);
    assert(capacity >= 1 && capacity * size <= MAX_ATTR_PAYLOAD) by (nonlinear_arith)
        requires
            0 < size <= 65531,
            capacity == 65531int / size,
    ;
    let page = v.elems.subrange(start, end);
    assert forall|i: int| 0 <= i < page.len() implies (#[trigger] page[i]).len() == v.key_len by {
        assert(page[i] == v.elems[start + i]);
    }
    lemma_elems_wire_len(page, v.key_len);
    assert(page.len() * size <= capacity * size) by (nonlinear_arith)
        requires
            0 <= page.len() <= capacity,
            size > 0,
    ;
}

impl<K> View for NftSet<K> {
    type V = SetView;

    closed spec fn view(&self) -> SetView {
        SetView {
            name: self.name@,
            id: self.id,
            table: self.table@,
            family: self.family,
            key_type: self.key_type,
            key_len: self.key_len,
            elems: self.elems@.map_values(|e: Vec<u8>| e@),
        }
    }
}

impl<K> NftSet<K> {
    /// An empty set with the given name and number in the given table, for
    /// keys of type `K`.
    pub fn new(name: &str, id: u32, table: &Table, family: ProtoFamily) -> (r: Self) where
        K: SetKey,

        ensures
            r@ == (SetView {
                name: name@,
                id,
                table: table@,
                family,
                key_type: K::TYPE,
                key_len: K::LEN,
                elems: Seq::empty(),
            }),
            r@.uniform(),
    {
        let r = NftSet {
            name: name.to_owned(),
            id,
            table: table.duplicate(),
            family,
            key_type: K::TYPE,
            key_len: K::LEN,
            elems: Vec::new(),
            _marker: PhantomData,
        };
        assert(r@.elems =~= Seq::empty());
        r
    }

    /// Adds a key to this set, behind those that are in it.
    pub fn add(&mut self, key: &K) where K: SetKey
        ensures
            final(self)@ == (SetView {
                elems: old(self)@.elems.push(key.key_bytes()),
                ..old(self)@
            }),
            key.key_bytes().len() == K::LEN,
            old(self)@.uniform() && old(self)@.key_len == K::LEN ==> final(self)@.uniform(),
    {
        let data = key.data();
        self.elems.push(data);
        assert(self@.elems =~= old(self)@.elems.push(key.key_bytes()));
    }

    /// The protocol family of this set.
    pub fn get_family(&self) -> (r: ProtoFamily)
        ensures
            r == self@.family,
    {
        self.family
    }

    /// The name of this set.
    pub fn get_name(&self) -> (r: &str)
        ensures
            r@ == self@.name,
    {
        self.name.as_str()
    }

    /// The number of this set.
    pub fn get_id(&self) -> (r: u32)
        ensures
            r == self@.id,
    {
        self.id
    }
    /// The messages that add or remove the elements of this set, page by
    /// page.
    pub fn elems_iter(&self) -> (r: SetElemsIter<'_, K>)
        ensures
            r.set()@ == self@,
            r.position() == 0,
    {
        SetElemsIter::new(self)
    }

    /// How many elements go into one message.
    fn capacity(&self) -> (r: usize)
        ensures
            r == page_capacity(self@.key_len),
            r >= 1,
    {
        let key_len = self.key_len as u64;
        let size: u64 = 12 + key_len + (4 - key_len % 4) % 4;
        if size > MAX_ATTR_PAYLOAD as u64 {
            1
        } else {
            assert(65531u64 / size >= 1) by (nonlinear_arith)
                requires
                    0 < size <= 65531,
            ;
            (MAX_ATTR_PAYLOAD as u64 / size) as usize
        }
    }

    /// Where the page of elements ends that starts at `start`.
    fn end_of_page(&self, start: usize) -> (r: usize)
        requires
            start <= self@.elems.len(),
        ensures
            r == self@.page_end(start as int),
            start <= r <= self@.elems.len(),
            start < self@.elems.len() ==> start < r,
    {
        let capacity = self.capacity();
        if capacity < self.elems.len() - start {
            start + capacity
        } else {
            self.elems.len()
        }
    }

    /// The bytes of the elements from `start` up to `end`, if each of them
    /// can be written.
    fn encode_elems(&self, start: usize, end: usize) -> (r: Option<Vec<u8>>)
        requires
            start <= end <= self@.elems.len(),
        ensures
            r.is_some() == elems_encodable(self@.elems.subrange(start as int, end as int)),
            r matches Some(bytes) ==> bytes@ == elems_wire(
                self@.elems.subrange(start as int, end as int),
            ),
    {
        let ghost elems = self@.elems.subrange(start as int, end as int);
        let mut buf: Vec<u8> = Vec::new();
        let mut i: usize = start;
        while i < end
            invariant
                start <= i <= end <= self.elems.len(),
                elems == self@.elems.subrange(start as int, end as int),
                elems_encodable(elems.subrange(0, i - start)),
                buf@ == elems_wire(elems.subrange(0, i - start)),
            decreases end - i,
        {
            assert(elems[i - start] == self.elems[i as int]@);
            assert(elems.subrange(0, i + 1 - start).drop_last() =~= elems.subrange(0, i - start));
            let mut value: Vec<u8> = Vec::new();
            if !push_attr(&mut value, NFTA_DATA_VALUE, self.elems[i].as_slice()) {
                return None;
            }
            let mut key: Vec<u8> = Vec::new();
            if !push_nested(&mut key, NFTA_SET_ELEM_KEY, value.as_slice()) {
                return None;
            }
            if !push_nested(&mut buf, NFTA_LIST_ELEM, key.as_slice()) {
                return None;
            }
            i += 1;
        }
        assert(elems.subrange(0, i - start) =~= elems);
        Some(buf)
    }
}

impl<K> NlMsg for NftSet<K> {
    /// The message names the set and its table and gives its flags, the type
    /// and length of its keys, and its number. The elements are not part of
    /// it. It exists unless a name is too long for an attribute.
    open spec fn message(&self, seq: u32, msg_type: MsgType) -> Option<Seq<u8>> {
        if str_fits(self@.table.name) && str_fits(self@.name) {
            Some(frame(ObjectKind::NftSet, msg_type, self@.table.family, seq, self@.payload()))
        } else {
            None
        }
    }

    fn write(&self, seq: u32, msg_type: MsgType) -> (r: Option<Vec<u8>>) {
        let mut payload: Vec<u8> = Vec::new();
        if !push_attr_str(&mut payload, NFTA_SET_TABLE, self.table.get_name()) {
            return None;
        }
        if !push_attr_str(&mut payload, NFTA_SET_NAME, self.name.as_str()) {
            return None;
        }
        let flags: u32 = sys::set_anonymous() | sys::set_constant();
        assert(1u32 | 2u32 == 3u32) by (bit_vector);
        push_attr_u32(&mut payload, NFTA_SET_FLAGS, flags);
        push_attr_u32(&mut payload, NFTA_SET_KEY_TYPE, self.key_type);
        push_attr_u32(&mut payload, NFTA_SET_KEY_LEN, self.key_len);
        push_attr_u32(&mut payload, NFTA_SET_ID, self.id);
        assert(payload@ =~= self@.payload());
        build_frame(
            ObjectKind::NftSet,
            msg_type,
            self.table.get_family(),
            seq,
            payload.as_slice(),
        )
    }
}

/// Walks over the elements of a set and hands out one message for each page
/// of them.
pub struct SetElemsIter<'a, K> {
    set: &'a NftSet<K>,
    position: usize,
}

impl<'a, K> SetElemsIter<'a, K> {
    #[verifier::type_invariant]
    spec fn well_formed(self) -> bool {
        self.position <= self.set@.elems.len()
    }

    /// The set whose elements are walked over.
    pub closed spec fn set(&self) -> &NftSet<K> {
        self.set
    }

    /// How many elements have been handed out.
    pub closed spec fn position(&self) -> int {
        self.position as int
    }

    fn new(set: &'a NftSet<K>) -> (r: Self)
        ensures
            r.set() == set,
            r.position() == 0,
    {
        SetElemsIter { set, position: 0 }
    }

    /// The message for the next page of elements, or `None` when every
    /// element has been handed out. A set without elements gives no message.
    pub fn next(&mut self) -> (r: Option<SetElemsMsg<'a, K>>)
        ensures
            final(self).set() == old(self).set(),
            old(self).position() <= old(self).set()@.elems.len(),
            r.is_some() == (old(self).position() < old(self).set()@.elems.len()),
            r.is_none() ==> final(self).position() == old(self).position(),
            r matches Some(msg) ==> {
                &&& msg.set()@ == old(self).set()@
                &&& msg.start() == old(self).position()
                &&& msg.end() == old(self).set()@.page_end(old(self).position())
                &&& final(self).position() == msg.end()
                &&& msg.start() < msg.end() <= old(self).set()@.elems.len()
            },
    {
        proof {
            use_type_invariant(&*self);
        }
        if self.position >= self.set.elems.len() {
            return None;
        }
        let start = self.position;
        let end = self.set.end_of_page(start);
        self.position = end;
        Some(SetElemsMsg { set: self.set, start, end })
    }
}

/// One page of the elements of a set.
pub struct SetElemsMsg<'a, K> {
    set: &'a NftSet<K>,
    start: usize,
    end: usize,
}

impl<'a, K> SetElemsMsg<'a, K> {
    #[verifier::type_invariant]
    spec fn well_formed(self) -> bool {
        self.start <= self.end <= self.set@.elems.len()
    }

    /// The set that the elements belong to.
    pub closed spec fn set(&self) -> &NftSet<K> {
        self.set
    }

    /// The index of the first element of the page.
    pub closed spec fn start(&self) -> int {
        self.start as int
    }

    /// The index behind the last element of the page.
    pub closed spec fn end(&self) -> int {
        self.end as int
    }

    /// Whether elements of the set are left behind this page: 1 if so, 0 if
    /// this page is the last.
    pub fn ret(&self) -> (r: i32)
        ensures
            r == if self.end() < self.set()@.elems.len() {
                1i32
            } else {
                0i32
            },
    {
        if self.end < self.set.elems.len() {
            1
        } else {
            0
        }
    }
}

impl<'a, K> NlMsg for SetElemsMsg<'a, K> {
    /// The message names the set and its table and lists the elements of the
    /// page. It exists unless a name or an element is too long, or the
    /// elements together are too long for one attribute.
    open spec fn message(&self, seq: u32, msg_type: MsgType) -> Option<Seq<u8>> {
        if self.set()@.page_encodable(self.start(), self.end()) {
            Some(
                frame(
                    ObjectKind::SetElements,
                    msg_type,
                    self.set()@.family,
                    seq,
                    self.set()@.page_payload(self.start(), self.end()),
                ),
            )
        } else {
            None
        }
    }

    fn write(&self, seq: u32, msg_type: MsgType) -> (r: Option<Vec<u8>>) {
        proof {
            use_type_invariant(self);
        }
        let mut payload: Vec<u8> = Vec::new();
        if !push_attr_str(&mut payload, NFTA_SET_ELEM_LIST_SET, self.set.get_name()) {
            return None;
        }
        push_attr_u32(&mut payload, NFTA_SET_ELEM_LIST_SET_ID, self.set.get_id());
        if !push_attr_str(&mut payload, NFTA_SET_ELEM_LIST_TABLE, self.set.table.get_name()) {
            return None;
        }
        let elems = match self.set.encode_elems(self.start, self.end) {
            Some(elems) => elems,
            None => return None,
        };
        if !push_nested(&mut payload, NFTA_SET_ELEM_LIST_ELEMENTS, elems.as_slice()) {
            return None;
        }
        assert(payload@ =~= self.set()@.page_payload(self.start(), self.end()));
        build_frame(
            ObjectKind::SetElements,
            msg_type,
            self.set.get_family(),
            seq,
            payload.as_slice(),
        )
    }
}

} // verus!
