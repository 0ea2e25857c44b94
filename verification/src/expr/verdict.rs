//! The end of a rule: what happens to a packet that matched everything
//! before.

use crate::expr::{Attr, AttrValue, AttrView, Expression, RawExpr, RawExprView, ValueView};
use crate::keys::{
    NFTA_IMMEDIATE_DATA, NFTA_IMMEDIATE_DREG, NFTA_REJECT_ICMP_CODE, NFTA_REJECT_TYPE,
};
use crate::rule::Rule;
use crate::sys;
use crate::ProtoFamily;
use vstd::prelude::*;

verus! {

/// What to do with a packet.
#[derive(Debug, Clone, PartialEq, Eq, Hash)]
pub enum Verdict {
    /// Drop the packet without a word.
    Drop,
    /// Let the packet pass.
    Accept,
    /// Refuse the packet and tell the sender.
    Reject(RejectionType),
    /// Hand the packet to a program in userspace.
    Queue,
    /// Go on with the next expression.
    Continue,
    /// Leave this rule and go on with the next one.
    Break,
    /// Go on in another chain, and come back when that chain ends.
    Jump { chain: String },
    /// Go on in another chain, and do not come back.
    Goto { chain: String },
    /// Go back to the chain that jumped here.
    Return,
}

/// How the sender of a refused packet is told.
#[derive(Debug, Copy, Clone, PartialEq, Eq, Hash, Structural)]
pub enum RejectionType {
    /// By an ICMP message that says the destination cannot be reached.
    Icmp(IcmpCode),
    /// By resetting the TCP connection.
    TcpRst,
}

/// Why the destination cannot be reached.
#[derive(Debug, Copy, Clone, PartialEq, Eq, Hash, Structural)]
pub enum IcmpCode {
    NoRoute,
    PortUnreach,
    HostUnreach,
    AdminProhibited,
}

impl IcmpCode {
    /// The number of the reason.
    pub open spec fn raw(self) -> u8 {
        match self {
            IcmpCode::NoRoute => 0,
            IcmpCode::PortUnreach => 1,
            IcmpCode::HostUnreach => 2,
            IcmpCode::AdminProhibited => 3,
        }
    }

    /// The number of the reason, as the kernel knows it.
    pub fn to_raw(self) -> (r: u8)
        ensures
            r == self.raw(),
    {
        match self {
            IcmpCode::NoRoute => sys::unreach_no_route(),
            IcmpCode::PortUnreach => sys::unreach_port(),
            IcmpCode::HostUnreach => sys::unreach_host(),
            IcmpCode::AdminProhibited => sys::unreach_admin_prohibited(),
        }
    }
}

impl RejectionType {
    /// The number of the kind of rejection in a table of the given family.
    /// In the bridge and in a table for both IP versions the ICMP message is
    /// the one that fits either version; elsewhere it is the one of the
    /// table's own family.
    pub open spec fn raw(self, family: ProtoFamily) -> u32 {
        match self {
            RejectionType::Icmp(_) => if family == ProtoFamily::Bridge || family
                == ProtoFamily::Inet {
                2
            } else {
                0
            },
            RejectionType::TcpRst => 1,
        }
    }

    /// The number of the reason that goes with the rejection: that of the
    /// ICMP message, and zero for a reset.
    pub open spec fn code(self) -> u8 {
        match self {
            RejectionType::Icmp(code) => code.raw(),
            RejectionType::TcpRst => 0,
        }
    }

    /// The number of the kind of rejection in a table of the given family.
    pub fn to_raw(self, family: ProtoFamily) -> (r: u32)
        ensures
            r == self.raw(family),
    {
        match self {
            RejectionType::Icmp(_) => match family {
                ProtoFamily::Bridge | ProtoFamily::Inet => sys::reject_unreach_inet(),
                _ => sys::reject_unreach(),
            },
            RejectionType::TcpRst => sys::reject_tcp_rst(),
        }
    }

    /// The number of the reason that goes with the rejection.
    pub fn to_raw_code(self) -> (r: u8)
        ensures
            r == self.code(),
    {
        match self {
            RejectionType::Icmp(code) => code.to_raw(),
            RejectionType::TcpRst => 0,
        }
    }
}

impl Verdict {
    /// The number of the verdict. A rejection has none: it is an operation
    /// of its own.
    pub open spec fn code(&self) -> i32 {
        match self {
            Verdict::Drop => 0i32,
            Verdict::Accept => 1i32,
            Verdict::Queue => 3i32,
            Verdict::Continue => -1i32,
            Verdict::Break => -2i32,
            Verdict::Jump { .. } => -3i32,
            Verdict::Goto { .. } => -4i32,
            Verdict::Return => -5i32,
            Verdict::Reject(_) => 0i32,
        }
    }

    /// The name of the chain that a jump or a goto leads to.
    pub open spec fn target(&self) -> Option<Seq<char>> {
        match self {
            Verdict::Jump { chain } => Some(chain@),
            Verdict::Goto { chain } => Some(chain@),
            _ => None,
        }
    }

    /// The name of the chain that a jump or a goto leads to.
    pub fn chain(&self) -> (r: Option<&str>)
        ensures
            r.is_some() == self.target().is_some(),
            r matches Some(name) ==> name@ == self.target().unwrap(),
    {
        match self {
            Verdict::Jump { chain } => Some(chain.as_str()),
            Verdict::Goto { chain } => Some(chain.as_str()),
            _ => None,
        }
    }

    /// What loads the verdict with the given number into the verdict
    /// register, together with the chain of a jump or a goto.
    pub open spec fn immediate(&self, code: i32) -> RawExprView {
        RawExprView {
            name: "immediate"@,
            attrs: seq![
                AttrView { key: NFTA_IMMEDIATE_DREG, value: ValueView::U32(0) },
                AttrView {
                    key: NFTA_IMMEDIATE_DATA,
                    value: ValueView::Verdict { code, chain: self.target() },
                },
            ],
        }
    }

    /// What rejects a packet in a table of the given family.
    pub open spec fn rejection(reject_type: RejectionType, family: ProtoFamily) -> RawExprView {
        RawExprView {
            name: "reject"@,
            attrs: seq![
                AttrView { key: NFTA_REJECT_TYPE, value: ValueView::U32(reject_type.raw(family)) },
                AttrView { key: NFTA_REJECT_ICMP_CODE, value: ValueView::U8(reject_type.code()) },
            ],
        }
    }

    /// Compiles the load of a verdict into the verdict register.
    fn to_immediate_expr(&self, immediate_const: i32) -> (r: RawExpr)
        ensures
            r@ == self.immediate(immediate_const),
    {
        let chain = match self.chain() {
            Some(name) => Some(name.to_owned()),
            None => None,
        };
        let mut attrs: Vec<Attr> = Vec::new();
        attrs.push(Attr { key: NFTA_IMMEDIATE_DREG, value: AttrValue::U32(sys::reg_verdict()) });
        attrs.push(
            Attr {
                key: NFTA_IMMEDIATE_DATA,
                value: AttrValue::Verdict { code: immediate_const, chain },
            },
        );
        let r = RawExpr { name: "immediate", attrs };
        assert(r@.attrs =~= self.immediate(immediate_const).attrs);
        r
    }

    /// Compiles a rejection for a table of the given family.
    fn to_reject_expr(reject_type: RejectionType, family: ProtoFamily) -> (r: RawExpr)
        ensures
            r@ == Self::rejection(reject_type, family),
    {
        let mut attrs: Vec<Attr> = Vec::new();
        attrs.push(Attr { key: NFTA_REJECT_TYPE, value: AttrValue::U32(reject_type.to_raw(family)) });
        attrs.push(
            Attr { key: NFTA_REJECT_ICMP_CODE, value: AttrValue::U8(reject_type.to_raw_code()) },
        );
        let r = RawExpr { name: "reject", attrs };
        assert(r@.attrs =~= Self::rejection(reject_type, family).attrs);
        r
    }
}

impl Expression for Verdict {
    /// A rejection compiles to an operation of its own, which depends on the
    /// family of the table. Every other verdict is loaded into the verdict
    /// register.
    open spec fn compiled(&self, family: ProtoFamily) -> RawExprView {
        match self {
            Verdict::Reject(reject_type) => Self::rejection(*reject_type, family),
            _ => self.immediate(self.code()),
        }
    }

    fn to_expr(&self, rule: &Rule) -> (r: RawExpr) {
        let immediate_const: i32 = match self {
            Verdict::Drop => sys::verdict_drop(),
            Verdict::Accept => sys::verdict_accept(),
            Verdict::Queue => sys::verdict_queue(),
            Verdict::Continue => sys::verdict_continue(),
            Verdict::Break => sys::verdict_break(),
            Verdict::Jump { .. } => sys::verdict_jump(),
            Verdict::Goto { .. } => sys::verdict_goto(),
            Verdict::Return => sys::verdict_return(),
            Verdict::Reject(reject_type) => {
                return Self::to_reject_expr(
                    *reject_type,
                    rule.get_chain().get_table().get_family(),
                );
            },
        };
        self.to_immediate_expr(immediate_const)
    }
}

} // verus!
