//! The expressions that make up a rule, and what each one compiles to.
//!
//! The packet filter runs a rule as a small program. Its expressions load
//! data from the packet into registers, compare and change what the registers
//! hold, and end in a verdict. Every kind of expression here turns into the
//! name of a kernel operation and the attributes that this operation reads: a
//! [`RawExpr`].

use crate::keys::{
    NFTA_DATA_VALUE, NFTA_DATA_VERDICT_NEST, NFTA_EXPR_DATA, NFTA_EXPR_NAME, NFTA_LIST_ELEM,
    NFTA_VERDICT_CHAIN, NFTA_VERDICT_CODE,
};
use crate::netlink::{
    attr, attr_fits, attr_str, attr_u16, attr_u32, attr_u64, attr_u8, nested, push_attr,
    push_attr_str, push_attr_u16, push_attr_u32, push_attr_u64, push_attr_u8, push_nested,
    str_fits, to_unsigned32, unsigned32, NESTED,
};
use crate::rule::Rule;
use crate::sys;
use crate::ProtoFamily;
use vstd::prelude::*;

mod bitwise;
mod cmp;
mod counter;
pub mod ct;
mod fib;
mod immediate;
mod log;
mod lookup;
mod masquerade;
mod meta;
mod nat_expr;
mod payload;
mod socket;
mod verdict;

pub use self::bitwise::Bitwise;
pub use self::cmp::{
    data_in, operand_in, read_operand, Cmp, CmpOp, FromSlice, InterfaceName, ToSlice,
};
pub use self::counter::Counter;
pub use self::ct::Conntrack;
pub use self::fib::{lowercased, trimmed, Fib, FibResult};
pub use self::immediate::Immediate;
pub use self::log::Log;
pub use self::lookup::Lookup;
pub use self::masquerade::Masquerade;
pub use self::meta::Meta;
pub use self::nat_expr::{Nat, NatType};
pub use self::payload::{
    HeaderField, Icmpv6HeaderField, Ipv4HeaderField, Ipv6HeaderField, LLHeaderField,
    NetworkHeaderField, Payload, TcpHeaderField, TransportHeaderField, UdpHeaderField,
};
pub use self::socket::{Socket, SocketKey};
pub use self::verdict::{IcmpCode, RejectionType, Verdict};

verus! {

/// A data register. Expressions pass values to each other through these.
#[derive(Debug, Copy, Clone, PartialEq, Eq, Hash, Structural)]
pub enum Register {
    Reg1,
    Reg2,
    Reg3,
    Reg4,
}

impl Register {
    /// The number of the register.
    pub open spec fn raw(self) -> u32 {
        match self {
            Register::Reg1 => 1,
            Register::Reg2 => 2,
            Register::Reg3 => 3,
            Register::Reg4 => 4,
        }
    }

    /// The number of the register, as the kernel knows it.
    pub fn to_raw(self) -> (r: u32)
        ensures
            r == self.raw(),
    {
        match self {
            Register::Reg1 => sys::reg_1(),
            Register::Reg2 => sys::reg_2(),
            Register::Reg3 => sys::reg_3(),
            Register::Reg4 => sys::reg_4(),
        }
    }
}

/// What an attribute of an expression holds.
#[derive(Debug, Clone, PartialEq, Eq, Hash)]
pub enum AttrValue {
    U8(u8),
    U16(u16),
    U32(u32),
    U64(u64),
    /// A piece of text, such as the name of a set.
    Str(String),
    /// Bytes that go into a data register, or are compared with one.
    Data(Vec<u8>),
    /// What goes into the verdict register: a verdict and, for a jump or a
    /// goto, the name of the chain to go to.
    Verdict { code: i32, chain: Option<String> },
}

/// What an [`AttrValue`] stands for.
pub enum ValueView {
    U8(u8),
    U16(u16),
    U32(u32),
    U64(u64),
    Str(Seq<char>),
    Data(Seq<u8>),
    Verdict { code: i32, chain: Option<Seq<char>> },
}

impl View for AttrValue {
    type V = ValueView;

    open spec fn view(&self) -> ValueView {
        match self {
            AttrValue::U8(x) => ValueView::U8(*x),
            AttrValue::U16(x) => ValueView::U16(*x),
            AttrValue::U32(x) => ValueView::U32(*x),
            AttrValue::U64(x) => ValueView::U64(*x),
            AttrValue::Str(s) => ValueView::Str(s@),
            AttrValue::Data(d) => ValueView::Data(d@),
            AttrValue::Verdict { code, chain } => ValueView::Verdict {
                code: *code,
                chain: match chain {
                    Some(c) => Some(c@),
                    None => None,
                },
            },
        }
    }
}

/// The attributes that spell a verdict, which are its code and, if there is one, the
/// chain to go to.
pub open spec fn verdict_payload(code: i32, chain: Option<Seq<char>>) -> Seq<u8> {
    attr_u32(NFTA_VERDICT_CODE, unsigned32(code)) + (match chain {
        Some(c) => attr_str(NFTA_VERDICT_CHAIN, c),
        None => Seq::empty(),
    })
}

impl ValueView {
    /// Whether every attribute that the value turns into has room for what it
    /// holds.
    pub open spec fn fits(self) -> bool {
        match self {
            ValueView::Str(s) => str_fits(s),
            ValueView::Data(d) => attr_fits(d) && attr_fits(attr(NFTA_DATA_VALUE, d)),
            ValueView::Verdict { code, chain } => {
                &&& chain matches Some(c) ==> str_fits(c)
                &&& attr_fits(verdict_payload(code, chain))
                &&& attr_fits(nested(NFTA_DATA_VERDICT_NEST, verdict_payload(code, chain)))
            },
            _ => true,
        }
    }

    /// The bytes of the attribute with the given key that holds the value.
    /// Numbers are in network byte order, text ends in a zero byte, and what
    /// goes into a register is wrapped once more, data as a value and a
    /// verdict as a verdict.
    pub open spec fn wire(self, key: u16) -> Seq<u8> {
        match self {
            ValueView::U8(x) => attr_u8(key, x),
            ValueView::U16(x) => attr_u16(key, x),
            ValueView::U32(x) => attr_u32(key, x),
            ValueView::U64(x) => attr_u64(key, x),
            ValueView::Str(s) => attr_str(key, s),
            ValueView::Data(d) => nested(key, attr(NFTA_DATA_VALUE, d)),
            ValueView::Verdict { code, chain } => nested(
                key,
                nested(NFTA_DATA_VERDICT_NEST, verdict_payload(code, chain)),
            ),
        }
    }
}

/// One attribute of an expression: a key and what is stored under it.
#[derive(Debug, Clone, PartialEq, Eq, Hash)]
pub struct Attr {
    pub key: u16,
    pub value: AttrValue,
}

/// What an [`Attr`] stands for.
pub struct AttrView {
    pub key: u16,
    pub value: ValueView,
}

impl View for Attr {
    type V = AttrView;

    open spec fn view(&self) -> AttrView {
        AttrView { key: self.key, value: self.value@ }
    }
}

impl AttrView {
    /// Whether the attribute can be written: its key leaves the flag bit
    /// free, and its value fits.
    pub open spec fn encodable(self) -> bool {
        self.key < NESTED && self.value.fits()
    }

    /// The bytes of the attribute.
    pub open spec fn wire(self) -> Seq<u8> {
        self.value.wire(self.key)
    }
}

/// Whether each of the attributes can be written.
pub open spec fn attrs_encodable(attrs: Seq<AttrView>) -> bool {
    forall|i: int| 0 <= i < attrs.len() ==> (#[trigger] attrs[i]).encodable()
}

/// The bytes of the attributes, one after the other.
pub open spec fn attrs_wire(attrs: Seq<AttrView>) -> Seq<u8>
    decreases attrs.len(),
{
    if attrs.len() == 0 {
        Seq::empty()
    } else {
        attrs_wire(attrs.drop_last()) + attrs.last().wire()
    }
}

/// A compiled expression: the name of the kernel operation and its
/// attributes, in the order in which they were set.
#[derive(Debug, Clone, PartialEq, Eq, Hash)]
pub struct RawExpr {
    pub name: &'static str,
    pub attrs: Vec<Attr>,
}

/// What a [`RawExpr`] stands for.
pub struct RawExprView {
    pub name: Seq<char>,
    pub attrs: Seq<AttrView>,
}

impl View for RawExpr {
    type V = RawExprView;

    open spec fn view(&self) -> RawExprView {
        RawExprView { name: self.name@, attrs: self.attrs@.map_values(|a: Attr| a@) }
    }
}

impl RawExprView {
    /// The name of the operation and, wrapped as its data, the attributes.
    pub open spec fn body(self) -> Seq<u8> {
        attr_str(NFTA_EXPR_NAME, self.name) + nested(NFTA_EXPR_DATA, attrs_wire(self.attrs))
    }

    /// Whether the expression can be written as one element of a rule's list
    /// of expressions.
    pub open spec fn encodable(self) -> bool {
        &&& str_fits(self.name)
        &&& attrs_encodable(self.attrs)
        &&& attr_fits(attrs_wire(self.attrs))
        &&& attr_fits(self.body())
    }

    /// The bytes of the expression as one element of a rule's list of
    /// expressions.
    pub open spec fn wire(self) -> Seq<u8> {
        nested(NFTA_LIST_ELEM, self.body())
    }
}

/// Whether each of the expressions can be written.
pub open spec fn exprs_encodable(exprs: Seq<RawExprView>) -> bool {
    forall|i: int| 0 <= i < exprs.len() ==> (#[trigger] exprs[i]).encodable()
}

/// The bytes of the expressions, one after the other.
pub open spec fn exprs_wire(exprs: Seq<RawExprView>) -> Seq<u8>
    decreases exprs.len(),
{
    if exprs.len() == 0 {
        Seq::empty()
    } else {
        exprs_wire(exprs.drop_last()) + exprs.last().wire()
    }
}

impl Attr {
    /// Appends the bytes of this attribute, or leaves `buf` alone where the
    /// attribute cannot be written.
    pub fn encode(&self, buf: &mut Vec<u8>) -> (ok: bool)
        ensures
            ok == self@.encodable(),
            ok ==> final(buf)@ == old(buf)@ + self@.wire(),
            !ok ==> final(buf)@ == old(buf)@,
    {
        if self.key >= NESTED {
            return false;
        }
        match &self.value {
            AttrValue::U8(x) => {
                push_attr_u8(buf, self.key, *x);
                true
            },
            AttrValue::U16(x) => {
                push_attr_u16(buf, self.key, *x);
                true
            },
            AttrValue::U32(x) => {
                push_attr_u32(buf, self.key, *x);
                true
            },
            AttrValue::U64(x) => {
                push_attr_u64(buf, self.key, *x);
                true
            },
            AttrValue::Str(s) => push_attr_str(buf, self.key, s.as_str()),
            AttrValue::Data(d) => {
                let mut inner: Vec<u8> = Vec::new();
                if !push_attr(&mut inner, NFTA_DATA_VALUE, d.as_slice()) {
                    return false;
                }
                push_nested(buf, self.key, inner.as_slice())
            },
            AttrValue::Verdict { code, chain } => {
                let mut verdict: Vec<u8> = Vec::new();
                push_attr_u32(&mut verdict, NFTA_VERDICT_CODE, to_unsigned32(*code));
                if let Some(c) = chain {
                    if !push_attr_str(&mut verdict, NFTA_VERDICT_CHAIN, c.as_str()) {
                        return false;
                    }
                }
                assert(verdict@ =~= verdict_payload(self@.value->code, self@.value->chain));
                let mut inner: Vec<u8> = Vec::new();
                if !push_nested(&mut inner, NFTA_DATA_VERDICT_NEST, verdict.as_slice()) {
                    return false;
                }
                push_nested(buf, self.key, inner.as_slice())
            },
        }
    }
}

impl RawExpr {
    /// The bytes of the attributes of this expression, if each can be written.
    fn encode_attrs(&self) -> (r: Option<Vec<u8>>)
        ensures
            r.is_some() == attrs_encodable(self@.attrs),
            r matches Some(bytes) ==> bytes@ == attrs_wire(self@.attrs),
    {
        let ghost attrs = self@.attrs;
        let mut buf: Vec<u8> = Vec::new();
        let mut i: usize = 0;
        while i < self.attrs.len()
            invariant
                i <= self.attrs.len(),
                attrs == self@.attrs,
                attrs.len() == self.attrs.len(),
                attrs_encodable(attrs.subrange(0, i as int)),
                buf@ == attrs_wire(attrs.subrange(0, i as int)),
            decreases self.attrs.len() - i,
        {
            assert(attrs[i as int] == self.attrs[i as int]@);
            assert(attrs.subrange(0, i + 1).drop_last() =~= attrs.subrange(0, i as int));
            if !self.attrs[i].encode(&mut buf) {
                return None;
            }
            i += 1;
        }
        assert(attrs.subrange(0, i as int) =~= attrs);
        Some(buf)
    }

    /// The bytes of this expression as one element of a rule's list of
    /// expressions; `None` where one of its attributes, or all of them
    /// together, are too long to be written.
    pub fn encode(&self) -> (r: Option<Vec<u8>>)
        ensures
            r.is_some() == self@.encodable(),
            r matches Some(bytes) ==> bytes@ == self@.wire(),
    {
        let mut body: Vec<u8> = Vec::new();
        if !push_attr_str(&mut body, NFTA_EXPR_NAME, self.name) {
            return None;
        }
        let attrs = match self.encode_attrs() {
            Some(attrs) => attrs,
            None => return None,
        };
        if !push_nested(&mut body, NFTA_EXPR_DATA, attrs.as_slice()) {
            return None;
        }
        let mut buf: Vec<u8> = Vec::new();
        if !push_nested(&mut buf, NFTA_LIST_ELEM, body.as_slice()) {
            return None;
        }
        Some(buf)
    }
}

/// What can stand in a rule: every kind of expression compiles to a
/// [`RawExpr`].
pub trait Expression {
    /// What this expression compiles to in a rule of the given family.
    spec fn compiled(&self, family: ProtoFamily) -> RawExprView;

    /// Compiles this expression for the given rule.
    fn to_expr(&self, rule: &Rule) -> (r: RawExpr)
        ensures
            r@ == self.compiled(rule@.chain.table.family),
    ;
}

} // verus!
