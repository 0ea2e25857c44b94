//! Rewriting the source address of a packet to that of the interface it
//! leaves through.

use crate::expr::{Expression, RawExpr, RawExprView};
use crate::rule::Rule;
use crate::ProtoFamily;
use vstd::prelude::*;

verus! {

/// Sets the source address of a packet to that of the output interface.
pub struct Masquerade;

impl Expression for Masquerade {
    /// Masquerading as used here has no attributes.
    open spec fn compiled(&self, family: ProtoFamily) -> RawExprView {
        RawExprView { name: "masq"@, attrs: Seq::empty() }
    }

    fn to_expr(&self, rule: &Rule) -> (r: RawExpr) {
        let r = RawExpr { name: "masq", attrs: Vec::new() };
        assert(r@.attrs =~= Seq::empty());
        r
    }
}

} // verus!
