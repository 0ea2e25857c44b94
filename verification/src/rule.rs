//! Rules, the entries of a chain. A rule is a list of expressions that the
//! packet filter evaluates from first to last; as soon as one of them does not
//! match, the packet goes on to the next rule.

use crate::chain::{Chain, ChainView};
use crate::expr::{exprs_encodable, exprs_wire, Expression, RawExpr, RawExprView};
use crate::frame::{build_frame, frame, ObjectKind};
use crate::keys::{
    NFTA_RULE_CHAIN, NFTA_RULE_EXPRESSIONS, NFTA_RULE_HANDLE, NFTA_RULE_POSITION, NFTA_RULE_TABLE,
};
use crate::netlink::{
    attr_fits, attr_str, attr_u64, nested, push_attr_str, push_attr_u64, push_bytes, push_nested,
    str_fits,
};
use crate::{MsgType, NlMsg};
use vstd::prelude::*;

verus! {

/// A rule of the packet filter.
#[derive(Debug)]
pub struct Rule {
    chain: Chain,
    position: Option<u64>,
    handle: Option<u64>,
    exprs: Vec<RawExpr>,
}

/// What a [`Rule`] stands for: the chain it lives in, where it goes or which
/// rule it is, as far as that was set, and its expressions in the order of
/// evaluation.
pub struct RuleView {
    pub chain: ChainView,
    pub position: Option<u64>,
    pub handle: Option<u64>,
    pub exprs: Seq<RawExprView>,
}

impl RuleView {
    /// The attributes of the rule: table, chain, handle and position as far as
    /// they were set, and the list of expressions unless it is empty.
    pub open spec fn payload(self) -> Seq<u8> {
        attr_str(NFTA_RULE_TABLE, self.chain.table.name) + attr_str(
            NFTA_RULE_CHAIN,
            self.chain.name,
        ) + (match self.handle {
            Some(handle) => attr_u64(NFTA_RULE_HANDLE, handle),
            None => Seq::empty(),
        }) + (match self.position {
            Some(position) => attr_u64(NFTA_RULE_POSITION, position),
            None => Seq::empty(),
        }) + (if self.exprs.len() > 0 {
            nested(NFTA_RULE_EXPRESSIONS, exprs_wire(self.exprs))
        } else {
            Seq::empty()
        })
    }

    /// Whether each attribute of the rule has room for what it holds.
    pub open spec fn encodable(self) -> bool {
        &&& str_fits(self.chain.table.name)
        &&& str_fits(self.chain.name)
        &&& exprs_encodable(self.exprs)
        &&& attr_fits(exprs_wire(self.exprs))
    }
}

impl View for Rule {
    type V = RuleView;

    closed spec fn view(&self) -> RuleView {
        RuleView {
            chain: self.chain@,
            position: self.position,
            handle: self.handle,
            exprs: self.exprs@.map_values(|e: RawExpr| e@),
        }
    }
}

impl Rule {
    /// A rule without expressions in the given chain.
    pub fn new(chain: &Chain) -> (r: Rule)
        ensures
            r@ == (RuleView { chain: chain@, position: None, handle: None, exprs: Seq::empty() }),
    {
        let r = Rule { chain: chain.duplicate(), position: None, handle: None, exprs: Vec::new() };
        assert(r@.exprs =~= Seq::empty());
        r
    }

    /// Sets the rule behind which this rule is added. Without it a rule goes
    /// to the end of its chain.
    pub fn set_position(&mut self, position: u64)
        ensures
            final(self)@ == (RuleView { position: Some(position), ..old(self)@ }),
    {
        self.position = Some(position);
    }

    /// Sets the handle by which the kernel knows this rule.
    pub fn set_handle(&mut self, handle: u64)
        ensures
            final(self)@ == (RuleView { handle: Some(handle), ..old(self)@ }),
    {
        self.handle = Some(handle);
    }

    /// Adds an expression at the end of this rule, compiled for the family of
    /// the rule's table.
    pub fn add_expr<E: Expression>(&mut self, expr: &E)
        ensures
            final(self)@ == (RuleView {
                exprs: old(self)@.exprs.push(expr.compiled(old(self)@.chain.table.family)),
                ..old(self)@
            }),
    {
        let compiled = expr.to_expr(&*self);
        self.exprs.push(compiled);
        assert(self@.exprs =~= old(self)@.exprs.push(compiled@));
    }

    /// The chain that this rule lives in.
    pub fn get_chain(&self) -> (r: &Chain)
        ensures
            r@ == self@.chain,
    {
        &self.chain
    }

    /// The bytes of the expressions of this rule, if each can be written.
    fn encode_exprs(&self) -> (r: Option<Vec<u8>>)
        ensures
            r.is_some() == exprs_encodable(self@.exprs),
            r matches Some(bytes) ==> bytes@ == exprs_wire(self@.exprs),
    {
        let ghost exprs = self@.exprs;
        let mut buf: Vec<u8> = Vec::new();
        let mut i: usize = 0;
        while i < self.exprs.len()
            invariant
                i <= self.exprs.len(),
                exprs == self@.exprs,
                exprs.len() == self.exprs.len(),
                exprs_encodable(exprs.subrange(0, i as int)),
                buf@ == exprs_wire(exprs.subrange(0, i as int)),
            decreases self.exprs.len() - i,
        {
            assert(exprs[i as int] == self.exprs[i as int]@);
            assert(exprs.subrange(0, i + 1).drop_last() =~= exprs.subrange(0, i as int));
            match self.exprs[i].encode() {
                Some(bytes) => push_bytes(&mut buf, bytes.as_slice()),
                None => return None,
            }
            i += 1;
        }
        assert(exprs.subrange(0, i as int) =~= exprs);
        Some(buf)
    }
}

impl NlMsg for Rule {
    /// The message names the table and the chain of the rule and lists its
    /// expressions. It exists unless one of them is too long to be written.
    open spec fn message(&self, seq: u32, msg_type: MsgType) -> Option<Seq<u8>> {
        if self@.encodable() {
            Some(frame(ObjectKind::Rule, msg_type, self@.chain.table.family, seq, self@.payload()))
        } else {
            None
        }
    }

    fn write(&self, seq: u32, msg_type: MsgType) -> (r: Option<Vec<u8>>) {
        let mut payload: Vec<u8> = Vec::new();
        if !push_attr_str(&mut payload, NFTA_RULE_TABLE, self.chain.get_table().get_name()) {
            return None;
        }
        if !push_attr_str(&mut payload, NFTA_RULE_CHAIN, self.chain.get_name()) {
            return None;
        }
        if let Some(handle) = self.handle {
            push_attr_u64(&mut payload, NFTA_RULE_HANDLE, handle);
        }
        if let Some(position) = self.position {
            push_attr_u64(&mut payload, NFTA_RULE_POSITION, position);
        }
        let exprs = match self.encode_exprs() {
            Some(exprs) => exprs,
            None => return None,
        };
        if self.exprs.len() > 0 {
            if !push_nested(&mut payload, NFTA_RULE_EXPRESSIONS, exprs.as_slice()) {
                return None;
            }
        } else {
            assert(exprs_wire(self@.exprs) =~= Seq::<u8>::empty());
        }
        assert(payload@ =~= self@.payload());
        build_frame(
            ObjectKind::Rule,
            msg_type,
            self.chain.get_table().get_family(),
            seq,
            payload.as_slice(),
        )
    }
}

} // verus!
