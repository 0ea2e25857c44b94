//! Counting the packets and bytes that reach a point of a rule.

use crate::expr::{Expression, RawExpr, RawExprView};
use crate::rule::Rule;
use crate::ProtoFamily;
use vstd::prelude::*;

verus! {

/// Counts the packets that reach it, and their bytes. The kernel keeps the
/// numbers.
pub struct Counter;

impl Expression for Counter {
    /// A counter has no attributes: it starts at zero.
    open spec fn compiled(&self, family: ProtoFamily) -> RawExprView {
        RawExprView { name: "counter"@, attrs: Seq::empty() }
    }

    fn to_expr(&self, rule: &Rule) -> (r: RawExpr) {
        let r = RawExpr { name: "counter", attrs: Vec::new() };
        assert(r@.attrs =~= Seq::empty());
        r
    }
}

} // verus!
