//! What connection tracking knows of the connection that a packet belongs to.

use crate::expr::{Attr, AttrValue, AttrView, Expression, RawExpr, RawExprView, ValueView};
use crate::keys::{NFTA_CT_DREG, NFTA_CT_KEY, NFTA_CT_SREG};
use crate::rule::Rule;
use crate::sys;
use crate::ProtoFamily;
use vstd::prelude::*;

verus! {

/// A fact about the connection of a packet. State and status can only be
/// read. Mark and zone can be read into the first register, or set from it.
#[derive(Debug, Copy, Clone, PartialEq, Eq, Hash, Structural)]
pub enum Conntrack {
    State,
    Status,
    Mark { set: bool },
    Zone { set: bool },
}

impl Conntrack {
    /// The number of the key.
    pub open spec fn key(&self) -> u32 {
        match self {
            Conntrack::State => 0,
            Conntrack::Status => 2,
            Conntrack::Mark { .. } => 3,
            Conntrack::Zone { .. } => 17,
        }
    }

    /// Whether the expression sets the fact from the register, rather than
    /// loading it into the register.
    pub open spec fn writes(&self) -> bool {
        match self {
            Conntrack::Mark { set } => *set,
            Conntrack::Zone { set } => *set,
            _ => false,
        }
    }

    /// The number of the key, as the kernel knows it.
    pub fn raw_key(&self) -> (r: u32)
        ensures
            r == self.key(),
    {
        match self {
            Conntrack::State => sys::ct_state(),
            Conntrack::Status => sys::ct_status(),
            Conntrack::Mark { .. } => sys::ct_mark(),
            Conntrack::Zone { .. } => sys::ct_zone(),
        }
    }

    /// Whether the expression sets the fact from the register.
    pub fn is_write(&self) -> (r: bool)
        ensures
            r == self.writes(),
    {
        match self {
            Conntrack::Mark { set } => *set,
            Conntrack::Zone { set } => *set,
            _ => false,
        }
    }
}

impl Expression for Conntrack {
    /// Register one is named as the source where the fact is set and as the
    /// destination where it is read; the key follows.
    open spec fn compiled(&self, family: ProtoFamily) -> RawExprView {
        RawExprView {
            name: "ct"@,
            attrs: seq![
                AttrView {
                    key: if self.writes() {
                        NFTA_CT_SREG
                    } else {
                        NFTA_CT_DREG
                    },
                    value: ValueView::U32(1),
                },
                AttrView { key: NFTA_CT_KEY, value: ValueView::U32(self.key()) },
            ],
        }
    }

    fn to_expr(&self, rule: &Rule) -> (r: RawExpr) {
        let mut attrs: Vec<Attr> = Vec::new();
        if self.is_write() {
            attrs.push(Attr { key: NFTA_CT_SREG, value: AttrValue::U32(sys::reg_1()) });
        } else {
            attrs.push(Attr { key: NFTA_CT_DREG, value: AttrValue::U32(sys::reg_1()) });
        }
        attrs.push(Attr { key: NFTA_CT_KEY, value: AttrValue::U32(self.raw_key()) });
        let r = RawExpr { name: "ct", attrs };
        assert(r@.attrs =~= self.compiled(rule@.chain.table.family).attrs);
        r
    }
}

/// No two facts about a connection share a key: expressions with the same
/// key name the same fact, and differ at most in whether they read or set it.
pub proof fn lemma_conntrack_keys_differ(a: Conntrack, b: Conntrack)
    requires
        a.key() == b.key(),
    ensures
        a is State <==> b is State,
        a is Status <==> b is Status,
        a is Mark <==> b is Mark,
        a is Zone <==> b is Zone,
        a.writes() == b.writes() ==> a == b,
{
}

} // verus!
