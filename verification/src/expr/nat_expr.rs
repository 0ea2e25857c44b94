//! Translating the source or destination address of a packet.

use crate::expr::{
    Attr, AttrValue, AttrView, Expression, RawExpr, RawExprView, Register, ValueView,
};
use crate::keys::{
    NFTA_NAT_FAMILY, NFTA_NAT_REG_ADDR_MIN, NFTA_NAT_REG_PROTO_MIN, NFTA_NAT_TYPE,
};
use crate::rule::Rule;
use crate::sys;
use crate::ProtoFamily;
use vstd::prelude::*;

verus! {

/// Which address of a packet is translated.
#[derive(Debug, Copy, Clone, PartialEq, Eq, Hash, Structural)]
pub enum NatType {
    /// The source address.
    SNat,
    /// The destination address.
    DNat,
}

impl NatType {
    /// The number of the kind of translation.
    pub open spec fn raw(self) -> u32 {
        match self {
            NatType::SNat => 0,
            NatType::DNat => 1,
        }
    }

    /// The number of the kind of translation, as the kernel knows it.
    pub fn to_raw(self) -> (r: u32)
        ensures
            r == self.raw(),
    {
        match self {
            NatType::SNat => sys::nat_snat(),
            NatType::DNat => sys::nat_dnat(),
        }
    }
}

/// Replaces the source or destination address of a packet, and its port if a
/// register for the port is given, by what the registers hold.
pub struct Nat {
    pub nat_type: NatType,
    pub family: ProtoFamily,
    pub ip_register: Register,
    pub port_register: Option<Register>,
}

impl Expression for Nat {
    /// The kind of translation, the family of the new address, the register
    /// with the address and, if there is one, the register with the port.
    open spec fn compiled(&self, family: ProtoFamily) -> RawExprView {
        let fixed = seq![
            AttrView { key: NFTA_NAT_TYPE, value: ValueView::U32(self.nat_type.raw()) },
            AttrView { key: NFTA_NAT_FAMILY, value: ValueView::U32(self.family.raw() as u32) },
            AttrView {
                key: NFTA_NAT_REG_ADDR_MIN,
                value: ValueView::U32(self.ip_register.raw()),
            },
        ];
        RawExprView {
            name: "nat"@,
            attrs: match self.port_register {
                Some(port) => fixed.push(
                    AttrView { key: NFTA_NAT_REG_PROTO_MIN, value: ValueView::U32(port.raw()) },
                ),
                None => fixed,
            },
        }
    }

    fn to_expr(&self, rule: &Rule) -> (r: RawExpr) {
        let mut attrs: Vec<Attr> = Vec::new();
        attrs.push(Attr { key: NFTA_NAT_TYPE, value: AttrValue::U32(self.nat_type.to_raw()) });
        attrs.push(Attr { key: NFTA_NAT_FAMILY, value: AttrValue::U32(self.family.to_raw() as u32) });
        attrs.push(
            Attr { key: NFTA_NAT_REG_ADDR_MIN, value: AttrValue::U32(self.ip_register.to_raw()) },
        );
        if let Some(port) = self.port_register {
            attrs.push(Attr { key: NFTA_NAT_REG_PROTO_MIN, value: AttrValue::U32(port.to_raw()) });
        }
        let r = RawExpr { name: "nat", attrs };
        assert(r@.attrs =~= self.compiled(rule@.chain.table.family).attrs);
        r
    }
}

} // verus!
