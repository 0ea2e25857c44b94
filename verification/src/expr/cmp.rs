//! Comparison of what a register holds with a value, and the ways in which
//! values turn into the bytes that a register holds.

use crate::expr::{Attr, AttrValue, AttrView, Expression, RawExpr, RawExprView, ValueView};
use crate::keys::{NFTA_CMP_DATA, NFTA_CMP_OP, NFTA_CMP_SREG, NFTA_DATA_VALUE};
use crate::netlink::{
    attr, find_attr, first_attr, le16, le32, lemma_attr_read_back, lemma_find_first_attr,
    locate_attr, push_bytes, read_attr, text, to_unsigned32, unsigned32, NESTED,
};
use crate::rule::Rule;
use crate::sys;
use crate::ProtoFamily;
use vstd::prelude::*;

verus! {

/// A comparison operator.
#[derive(Debug, Copy, Clone, PartialEq, Eq, Hash, Structural)]
pub enum CmpOp {
    /// Equal.
    Eq,
    /// Not equal.
    Neq,
    /// Less than.
    Lt,
    /// Less than or equal.
    Lte,
    /// Greater than.
    Gt,
    /// Greater than or equal.
    Gte,
}

impl CmpOp {
    /// The number of the operator.
    pub open spec fn raw(self) -> u32 {
        match self {
            CmpOp::Eq => 0,
            CmpOp::Neq => 1,
            CmpOp::Lt => 2,
            CmpOp::Lte => 3,
            CmpOp::Gt => 4,
            CmpOp::Gte => 5,
        }
    }

    /// The number of the operator, as the kernel knows it.
    pub fn to_raw(self) -> (r: u32)
        ensures
            r == self.raw(),
    {
        match self {
            CmpOp::Eq => sys::compare_eq(),
            CmpOp::Neq => sys::compare_neq(),
            CmpOp::Lt => sys::compare_lt(),
            CmpOp::Lte => sys::compare_lte(),
            CmpOp::Gt => sys::compare_gt(),
            CmpOp::Gte => sys::compare_gte(),
        }
    }
}

/// A value that can be written as the bytes that a register holds.
pub trait ToSlice {
    /// The bytes that stand for this value.
    spec fn bytes(&self) -> Seq<u8>;

    /// The bytes that stand for this value.
    fn to_slice(&self) -> (r: Vec<u8>)
        ensures
            r@ == self.bytes(),
    ;
}

/// A value that can be read back from the bytes it was written as.
pub trait FromSlice: ToSlice + Sized {
    /// The value that the bytes stand for, if they stand for one.
    spec fn parsed(data: Seq<u8>) -> Option<Self>;

    /// Reads a value from the bytes that stand for it.
    fn from_slice(data: &[u8]) -> (r: Option<Self>)
        ensures
            r == Self::parsed(data@),
    ;

    /// Reading what was written gives the value back.
    proof fn written_then_parsed(&self)
        ensures
            Self::parsed(self.bytes()) == Some(*self),
    ;
}

impl ToSlice for u8 {
    /// One byte.
    open spec fn bytes(&self) -> Seq<u8> {
        seq![*self]
    }

    fn to_slice(&self) -> (r: Vec<u8>) {
        let mut r: Vec<u8> = Vec::new();
        r.push(*self);
        assert(r@ =~= seq![*self]);
        r
    }
}

impl FromSlice for u8 {
    open spec fn parsed(data: Seq<u8>) -> Option<u8> {
        if data.len() == 1 {
            Some(data[0])
        } else {
            None
        }
    }

    fn from_slice(data: &[u8]) -> (r: Option<u8>) {
        if data.len() == 1 {
            Some(data[0])
        } else {
            None
        }
    }

    proof fn written_then_parsed(&self) {
    }
}

impl ToSlice for u16 {
    /// Two bytes, the least significant first.
    open spec fn bytes(&self) -> Seq<u8> {
        le16(*self)
    }

    fn to_slice(&self) -> (r: Vec<u8>) {
        let x: u16 = *self;
        let b0: u8 = (x & 0x00ff) as u8;
        let b1: u8 = (x >> 8) as u8;
        assert(x & 0x00ff == x % 256) by (bit_vector);
        assert(x >> 8 == x / 256) by (bit_vector);
        let mut r: Vec<u8> = Vec::new();
        r.push(b0);
        r.push(b1);
        assert(r@ =~= le16(x));
        r
    }
}

impl FromSlice for u16 {
    open spec fn parsed(data: Seq<u8>) -> Option<u16> {
        if data.len() == 2 {
            Some((data[0] + data[1] * 256) as u16)
        } else {
            None
        }
    }

    fn from_slice(data: &[u8]) -> (r: Option<u16>) {
        if data.len() == 2 {
            let low: u16 = data[0] as u16;
            let high: u16 = data[1] as u16;
            Some(low + high * 256)
        } else {
            None
        }
    }

    proof fn written_then_parsed(&self) {
    }
}

impl ToSlice for u32 {
    /// Four bytes, the least significant first.
    open spec fn bytes(&self) -> Seq<u8> {
        le32(*self)
    }

    fn to_slice(&self) -> (r: Vec<u8>) {
        u32_bytes(*self)
    }
}

impl FromSlice for u32 {
    open spec fn parsed(data: Seq<u8>) -> Option<u32> {
        if data.len() == 4 {
            Some((data[0] + data[1] * 256 + data[2] * 65536 + data[3] * 16777216) as u32)
        } else {
            None
        }
    }

    fn from_slice(data: &[u8]) -> (r: Option<u32>) {
        if data.len() == 4 {
            let b0: u32 = data[0] as u32;
            let b1: u32 = data[1] as u32;
            let b2: u32 = data[2] as u32;
            let b3: u32 = data[3] as u32;
            Some(b0 + b1 * 256 + b2 * 65536 + b3 * 16777216)
        } else {
            None
        }
    }

    proof fn written_then_parsed(&self) {
    }
}

impl ToSlice for i32 {
    /// Four bytes of the number in two's complement, the least significant
    /// first.
    open spec fn bytes(&self) -> Seq<u8> {
        le32(unsigned32(*self))
    }

    fn to_slice(&self) -> (r: Vec<u8>) {
        u32_bytes(to_unsigned32(*self))
    }
}

impl FromSlice for i32 {
    open spec fn parsed(data: Seq<u8>) -> Option<i32> {
        if data.len() == 4 {
            let x = data[0] + data[1] * 256 + data[2] * 65536 + data[3] * 16777216;
            if x < 0x8000_0000 {
                Some(x as i32)
            } else {
                Some((x - 0x1_0000_0000) as i32)
            }
        } else {
            None
        }
    }

    fn from_slice(data: &[u8]) -> (r: Option<i32>) {
        if data.len() == 4 {
            let b0: i64 = data[0] as i64;
            let b1: i64 = data[1] as i64;
            let b2: i64 = data[2] as i64;
            let b3: i64 = data[3] as i64;
            let x: i64 = b0 + b1 * 256 + b2 * 65536 + b3 * 16777216;
            if x < 0x8000_0000 {
                Some(x as i32)
            } else {
                Some((x - 0x1_0000_0000) as i32)
            }
        } else {
            None
        }
    }

    proof fn written_then_parsed(&self) {
    }
}

/// The four bytes of `x`, the least significant first.
fn u32_bytes(x: u32) -> (r: Vec<u8>)
    ensures
        r@ == le32(x),
{
    let b0: u8 = (x & 0xff) as u8;
    let b1: u8 = ((x >> 8) & 0xff) as u8;
    let b2: u8 = ((x >> 16) & 0xff) as u8;
    let b3: u8 = (x >> 24) as u8;
    assert(x & 0xff == x % 256) by (bit_vector);
    assert((x >> 8) & 0xff == x / 256 % 256) by (bit_vector);
    assert((x >> 16) & 0xff == x / 65536 % 256) by (bit_vector);
    assert(x >> 24 == x / 16777216) by (bit_vector);
    let mut r: Vec<u8> = Vec::new();
    r.push(b0);
    r.push(b1);
    r.push(b2);
    r.push(b3);
    assert(r@ =~= le32(x));
    r
}

impl<const N: usize> ToSlice for [u8; N] {
    /// The bytes themselves: the four of an IPv4 address, the sixteen of an
    /// IPv6 address, the six of a hardware address.
    open spec fn bytes(&self) -> Seq<u8> {
        self@
    }

    fn to_slice(&self) -> (r: Vec<u8>) {
        let mut r: Vec<u8> = Vec::new();
        push_bytes(&mut r, self.as_slice());
        r
    }
}

impl FromSlice for [u8; 4] {
    open spec fn parsed(data: Seq<u8>) -> Option<[u8; 4]> {
        if data.len() == 4 {
            Some([data[0], data[1], data[2], data[3]])
        } else {
            None
        }
    }

    fn from_slice(data: &[u8]) -> (r: Option<[u8; 4]>) {
        if data.len() == 4 {
            Some([data[0], data[1], data[2], data[3]])
        } else {
            None
        }
    }

    proof fn written_then_parsed(&self) {
        assert(Self::parsed(self.bytes()).unwrap()@ =~= self@);
    }
}

impl FromSlice for [u8; 16] {
    open spec fn parsed(data: Seq<u8>) -> Option<[u8; 16]> {
        if data.len() == 16 {
            Some(
                [
                    data[0],
                    data[1],
                    data[2],
                    data[3],
                    data[4],
                    data[5],
                    data[6],
                    data[7],
                    data[8],
                    data[9],
                    data[10],
                    data[11],
                    data[12],
                    data[13],
                    data[14],
                    data[15],
                ],
            )
        } else {
            None
        }
    }

    fn from_slice(data: &[u8]) -> (r: Option<[u8; 16]>) {
        if data.len() == 16 {
            Some(
                [
                    data[0],
                    data[1],
                    data[2],
                    data[3],
                    data[4],
                    data[5],
                    data[6],
                    data[7],
                    data[8],
                    data[9],
                    data[10],
                    data[11],
                    data[12],
                    data[13],
                    data[14],
                    data[15],
                ],
            )
        } else {
            None
        }
    }

    proof fn written_then_parsed(&self) {
        assert(Self::parsed(self.bytes()).unwrap()@ =~= self@);
    }
}

impl<'a> ToSlice for &'a [u8] {
    /// The bytes themselves.
    open spec fn bytes(&self) -> Seq<u8> {
        self@
    }

    fn to_slice(&self) -> (r: Vec<u8>) {
        let mut r: Vec<u8> = Vec::new();
        push_bytes(&mut r, *self);
        r
    }
}

impl<'a> ToSlice for &'a str {
    /// The bytes of the text, without a closing zero byte.
    open spec fn bytes(&self) -> Seq<u8> {
        text(self@)
    }

    fn to_slice(&self) -> (r: Vec<u8>) {
        let mut r: Vec<u8> = Vec::new();
        push_bytes(&mut r, self.as_bytes());
        r
    }
}

/// The name of a network interface, to compare with what the metadata keys
/// for interface names load.
#[derive(Debug, Clone, PartialEq, Eq, Hash)]
pub enum InterfaceName {
    /// The interface has exactly this name.
    Exact(String),
    /// The name of the interface starts with this text.
    StartingWith(String),
}

impl ToSlice for InterfaceName {
    /// The bytes of the text. An exact name ends in a zero byte, so that
    /// nothing may follow it; the start of a name does not.
    open spec fn bytes(&self) -> Seq<u8> {
        match self {
            InterfaceName::Exact(name) => text(name@).push(0u8),
            InterfaceName::StartingWith(name) => text(name@),
        }
    }

    fn to_slice(&self) -> (r: Vec<u8>) {
        let mut r: Vec<u8> = Vec::new();
        match self {
            InterfaceName::Exact(name) => {
                push_bytes(&mut r, name.as_str().as_bytes());
                r.push(0u8);
            },
            InterfaceName::StartingWith(name) => {
                push_bytes(&mut r, name.as_str().as_bytes());
            },
        }
        assert(r@ =~= self.bytes());
        r
    }
}

impl<'a> ToSlice for &'a InterfaceName {
    open spec fn bytes(&self) -> Seq<u8> {
        (**self).bytes()
    }

    fn to_slice(&self) -> (r: Vec<u8>) {
        (**self).to_slice()
    }
}

/// Compares what the first register holds with a value.
pub struct Cmp<T: ToSlice> {
    op: CmpOp,
    data: T,
}

impl<T: ToSlice> Cmp<T> {
    /// The comparison of the register with `data` by `op`.
    pub fn new(op: CmpOp, data: T) -> (r: Self)
        ensures
            r.op() == op,
            r.data() == data,
    {
        Cmp { op, data }
    }

    /// The operator of this comparison.
    pub closed spec fn op(&self) -> CmpOp {
        self.op
    }

    /// The value that the register is compared with.
    pub closed spec fn data(&self) -> T {
        self.data
    }
}

impl<T: ToSlice> Expression for Cmp<T> {
    /// Source register one, the operator, and the bytes of the value.
    open spec fn compiled(&self, family: ProtoFamily) -> RawExprView {
        RawExprView {
            name: "cmp"@,
            attrs: seq![
                AttrView { key: NFTA_CMP_SREG, value: ValueView::U32(1) },
                AttrView { key: NFTA_CMP_OP, value: ValueView::U32(self.op().raw()) },
                AttrView { key: NFTA_CMP_DATA, value: ValueView::Data(self.data().bytes()) },
            ],
        }
    }

    fn to_expr(&self, rule: &Rule) -> (r: RawExpr) {
        let mut attrs: Vec<Attr> = Vec::new();
        attrs.push(Attr { key: NFTA_CMP_SREG, value: AttrValue::U32(sys::reg_1()) });
        attrs.push(Attr { key: NFTA_CMP_OP, value: AttrValue::U32(self.op.to_raw()) });
        attrs.push(Attr { key: NFTA_CMP_DATA, value: AttrValue::Data(self.data.to_slice()) });
        let r = RawExpr { name: "cmp", attrs };
        assert(r@.attrs =~= self.compiled(rule@.chain.table.family).attrs);
        r
    }
}

/// The bytes of a register that an attribute holds: what stands as a value
/// inside the attribute at the front of `wire`. `None` where `wire` does not
/// start with a whole attribute, or where that attribute holds no value.
pub open spec fn data_in(wire: Seq<u8>) -> Option<Seq<u8>> {
    match first_attr(wire) {
        None => None,
        Some((_, inner, _)) => find_attr(inner, NFTA_DATA_VALUE),
    }
}

/// The value that an attribute holds as the bytes of a register, read as a
/// `T`.
pub open spec fn operand_in<T: FromSlice>(wire: Seq<u8>) -> Option<T> {
    match data_in(wire) {
        None => None,
        Some(data) => T::parsed(data),
    }
}

/// Reads the value that the attribute at the front of `wire` holds as the
/// bytes of a register.
pub fn read_operand<T: FromSlice>(wire: &[u8]) -> (r: Option<T>)
    ensures
        r == operand_in::<T>(wire@),
{
    assert(wire@.subrange(0, wire@.len() as int) =~= wire@);
    let (from, to) = match read_attr(wire, 0, wire.len()) {
        Some((_, from, to, _)) => (from, to),
        None => return None,
    };
    let (start, stop) = match locate_attr(wire, from, to, NFTA_DATA_VALUE) {
        Some(bounds) => bounds,
        None => return None,
    };
    let mut data: Vec<u8> = Vec::new();
    let mut i: usize = start;
    while i < stop
        invariant
            start <= i <= stop <= wire@.len(),
            data@ == wire@.subrange(start as int, i as int),
        decreases stop - i,
    {
        data.push(wire[i]);
        i += 1;
        assert(data@ =~= wire@.subrange(start as int, i as int));
    }
    T::from_slice(data.as_slice())
}

/// A value that is written into an attribute as the bytes of a register is
/// read back from the attribute as the same value.
pub proof fn lemma_operand_read_back<T: FromSlice>(x: T, key: u16)
    requires
        key < NESTED,
        ValueView::Data(x.bytes()).fits(),
    ensures
        data_in(ValueView::Data(x.bytes()).wire(key)) == Some(x.bytes()),
        operand_in::<T>(ValueView::Data(x.bytes()).wire(key)) == Some(x),
{
    let inner = attr(NFTA_DATA_VALUE, x.bytes());
    let outer = ValueView::Data(x.bytes()).wire(key);
    lemma_attr_read_back((key + NESTED) as u16, inner, Seq::empty());
    assert(outer + Seq::<u8>::empty() =~= outer);
    lemma_find_first_attr(NFTA_DATA_VALUE, x.bytes(), Seq::empty());
    assert(inner + Seq::<u8>::empty() =~= inner);
    x.written_then_parsed();
}

/// A number of one byte is read back as it was written, under every key.
pub proof fn lemma_u8_read_back(x: u8, key: u16)
    requires
        key < NESTED,
    ensures
        operand_in::<u8>(ValueView::Data(x.bytes()).wire(key)) == Some(x),
{
    lemma_operand_read_back::<u8>(x, key);
}

/// A number of two bytes is written least significant byte first and read
/// back as it was written, under every key.
pub proof fn lemma_u16_read_back(x: u16, key: u16)
    requires
        key < NESTED,
    ensures
        x.bytes() == seq![(x % 256) as u8, (x / 256) as u8],
        operand_in::<u16>(ValueView::Data(x.bytes()).wire(key)) == Some(x),
{
    lemma_operand_read_back::<u16>(x, key);
}

/// A number of four bytes is written least significant byte first and read
/// back as it was written, under every key.
pub proof fn lemma_u32_read_back(x: u32, key: u16)
    requires
        key < NESTED,
    ensures
        x.bytes() == seq![
            (x % 256) as u8,
            (x / 256 % 256) as u8,
            (x / 65536 % 256) as u8,
            (x / 16777216) as u8,
        ],
        operand_in::<u32>(ValueView::Data(x.bytes()).wire(key)) == Some(x),
{
    lemma_operand_read_back::<u32>(x, key);
}

/// An address of sixteen bytes is read back as it was written, under every
/// key.
pub proof fn lemma_ipv6_read_back(x: [u8; 16], key: u16)
    requires
        key < NESTED,
    ensures
        operand_in::<[u8; 16]>(ValueView::Data(x.bytes()).wire(key)) == Some(x),
{
    lemma_operand_read_back::<[u8; 16]>(x, key);
}

} // verus!
