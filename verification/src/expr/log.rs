//! Logging the packets that reach a point of a rule.

use crate::expr::{Attr, AttrValue, AttrView, Expression, RawExpr, RawExprView, ValueView};
use crate::keys::NFTA_LOG_GROUP;
use crate::rule::Rule;
use crate::ProtoFamily;
use vstd::prelude::*;

verus! {

/// Logs the packets that reach it, to the kernel log or to a log group.
pub struct Log {
    group: Option<u16>,
}

impl Log {
    /// Logging to the kernel log.
    pub fn new() -> (r: Self)
        ensures
            r.group().is_none(),
    {
        Log { group: None }
    }

    /// Logging to the given log group.
    pub fn new_with_group(group: u16) -> (r: Self)
        ensures
            r.group() == Some(group),
    {
        Log { group: Some(group) }
    }

    /// The log group, if one was given.
    pub closed spec fn group(&self) -> Option<u16> {
        self.group
    }
}

impl Expression for Log {
    /// The log group if there is one, and nothing else.
    open spec fn compiled(&self, family: ProtoFamily) -> RawExprView {
        RawExprView {
            name: "log"@,
            attrs: match self.group() {
                Some(group) => seq![AttrView { key: NFTA_LOG_GROUP, value: ValueView::U16(group) }],
                None => Seq::empty(),
            },
        }
    }

    fn to_expr(&self, rule: &Rule) -> (r: RawExpr) {
        let mut attrs: Vec<Attr> = Vec::new();
        if let Some(group) = self.group {
            attrs.push(Attr { key: NFTA_LOG_GROUP, value: AttrValue::U16(group) });
        }
        let r = RawExpr { name: "log", attrs };
        assert(r@.attrs =~= self.compiled(rule@.chain.table.family).attrs);
        r
    }
}

} // verus!
