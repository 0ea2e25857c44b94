//! What is known of the local socket that a packet belongs to.

use crate::expr::{
    Attr, AttrValue, AttrView, Expression, RawExpr, RawExprView, Register, ValueView,
};
use crate::keys::{NFTA_SOCKET_DREG, NFTA_SOCKET_KEY, NFTA_SOCKET_LEVEL};
use crate::rule::Rule;
use crate::ProtoFamily;
use vstd::prelude::*;

verus! {

/// A fact about a socket.
#[derive(Debug, Copy, Clone, PartialEq, Eq, Hash, Structural)]
pub enum SocketKey {
    /// Whether the socket is transparent.
    Transparent,
    /// The mark of the socket.
    Mark,
    /// Whether the socket is bound to a wildcard address.
    Wildcard,
    /// The control group of the socket, version two.
    CgroupV2,
}

impl SocketKey {
    /// The number of the key.
    pub open spec fn raw(self) -> u32 {
        match self {
            SocketKey::Transparent => 0,
            SocketKey::Mark => 1,
            SocketKey::Wildcard => 2,
            SocketKey::CgroupV2 => 3,
        }
    }

    /// The number of the key, as the kernel knows it.
    pub fn to_raw(self) -> (r: u32)
        ensures
            r == self.raw(),
    {
        match self {
            SocketKey::Transparent => 0,
            SocketKey::Mark => 1,
            SocketKey::Wildcard => 2,
            SocketKey::CgroupV2 => 3,
        }
    }
}

/// Loads a fact about the socket of a packet into a register.
pub struct Socket {
    key: SocketKey,
    register: Register,
    level: u32,
}

impl Socket {
    /// The expression that loads `key` into the first register, which is wide
    /// enough for each of the facts. `level` says which ancestor of the
    /// socket's control group is meant, and matters for that key only.
    pub fn new(key: SocketKey, level: u32) -> (r: Self)
        ensures
            r.key() == key,
            r.register() == Register::Reg1,
            r.level() == level,
    {
        Socket { key, register: Register::Reg1, level }
    }

    /// The key.
    pub closed spec fn key(&self) -> SocketKey {
        self.key
    }

    /// The register that the fact is loaded into.
    pub closed spec fn register(&self) -> Register {
        self.register
    }

    /// The level of the control group.
    pub closed spec fn level(&self) -> u32 {
        self.level
    }
}

impl Expression for Socket {
    /// The key, the destination register and the level.
    open spec fn compiled(&self, family: ProtoFamily) -> RawExprView {
        RawExprView {
            name: "socket"@,
            attrs: seq![
                AttrView { key: NFTA_SOCKET_KEY, value: ValueView::U32(self.key().raw()) },
                AttrView { key: NFTA_SOCKET_DREG, value: ValueView::U32(self.register().raw()) },
                AttrView { key: NFTA_SOCKET_LEVEL, value: ValueView::U32(self.level()) },
            ],
        }
    }

    fn to_expr(&self, rule: &Rule) -> (r: RawExpr) {
        let mut attrs: Vec<Attr> = Vec::new();
        attrs.push(Attr { key: NFTA_SOCKET_KEY, value: AttrValue::U32(self.key.to_raw()) });
        attrs.push(Attr { key: NFTA_SOCKET_DREG, value: AttrValue::U32(self.register.to_raw()) });
        attrs.push(Attr { key: NFTA_SOCKET_LEVEL, value: AttrValue::U32(self.level) });
        let r = RawExpr { name: "socket", attrs };
        assert(r@.attrs =~= self.compiled(rule@.chain.table.family).attrs);
        r
    }
}

} // verus!
