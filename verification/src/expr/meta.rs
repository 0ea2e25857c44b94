//! What the kernel knows of a packet beyond its bytes.

use crate::expr::{Attr, AttrValue, AttrView, Expression, RawExpr, RawExprView, ValueView};
use crate::keys::{NFTA_META_DREG, NFTA_META_KEY};
use crate::rule::Rule;
use crate::sys;
use crate::ProtoFamily;
use vstd::prelude::*;

verus! {

/// A piece of metadata of a packet. The expression loads it into the first
/// register.
#[derive(Debug, Copy, Clone, PartialEq, Eq, Hash, Structural)]
pub enum Meta {
    /// The ethertype of the packet. Not known in the output hook.
    Protocol,
    /// The index of the input interface.
    Iif,
    /// The index of the output interface.
    Oif,
    /// The name of the input interface.
    IifName,
    /// The name of the output interface.
    OifName,
    /// The type of the input interface.
    IifType,
    /// The type of the output interface.
    OifType,
    /// The protocol family that the packet is handled under.
    NfProto,
    /// The number of the layer 4 protocol.
    L4Proto,
    /// The control group of the socket.
    Cgroup,
    /// A pseudo-random number of thirty-two bits.
    PRandom,
}

impl Meta {
    /// The number of the key.
    pub open spec fn key(&self) -> u32 {
        match self {
            Meta::Protocol => 1,
            Meta::Iif => 4,
            Meta::Oif => 5,
            Meta::IifName => 6,
            Meta::OifName => 7,
            Meta::IifType => 8,
            Meta::OifType => 9,
            Meta::NfProto => 15,
            Meta::L4Proto => 16,
            Meta::Cgroup => 23,
            Meta::PRandom => 24,
        }
    }

    /// The number of the key, as the kernel knows it.
    pub fn to_raw_key(&self) -> (r: u32)
        ensures
            r == self.key(),
    {
        match self {
            Meta::Protocol => sys::meta_protocol(),
            Meta::Iif => sys::meta_iif(),
            Meta::Oif => sys::meta_oif(),
            Meta::IifName => sys::meta_iifname(),
            Meta::OifName => sys::meta_oifname(),
            Meta::IifType => sys::meta_iiftype(),
            Meta::OifType => sys::meta_oiftype(),
            Meta::NfProto => sys::meta_nfproto(),
            Meta::L4Proto => sys::meta_l4proto(),
            Meta::Cgroup => sys::meta_cgroup(),
            Meta::PRandom => sys::meta_prandom(),
        }
    }
}

impl Expression for Meta {
    /// Destination register one, and the key.
    open spec fn compiled(&self, family: ProtoFamily) -> RawExprView {
        RawExprView {
            name: "meta"@,
            attrs: seq![
                AttrView { key: NFTA_META_DREG, value: ValueView::U32(1) },
                AttrView { key: NFTA_META_KEY, value: ValueView::U32(self.key()) },
            ],
        }
    }

    fn to_expr(&self, rule: &Rule) -> (r: RawExpr) {
        let mut attrs: Vec<Attr> = Vec::new();
        attrs.push(Attr { key: NFTA_META_DREG, value: AttrValue::U32(sys::reg_1()) });
        attrs.push(Attr { key: NFTA_META_KEY, value: AttrValue::U32(self.to_raw_key()) });
        let r = RawExpr { name: "meta", attrs };
        assert(r@.attrs =~= self.compiled(rule@.chain.table.family).attrs);
        r
    }
}

/// No two pieces of metadata share a key.
pub proof fn lemma_meta_keys_differ(a: Meta, b: Meta)
    requires
        a.key() == b.key(),
    ensures
        a == b,
{
}

} // verus!
