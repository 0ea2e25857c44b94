//! Loading a constant into a register.

use crate::expr::{
    Attr, AttrValue, AttrView, Expression, RawExpr, RawExprView, Register, ToSlice, ValueView,
};
use crate::keys::{NFTA_IMMEDIATE_DATA, NFTA_IMMEDIATE_DREG};
use crate::rule::Rule;
use crate::ProtoFamily;
use vstd::prelude::*;

verus! {

/// Loads a value into a register. Verdicts have a type of their own.
pub struct Immediate<T: ToSlice> {
    pub data: T,
    pub register: Register,
}

impl<T: ToSlice> Immediate<T> {
    /// The expression that loads `data` into `register`.
    pub fn new(data: T, register: Register) -> (r: Self)
        ensures
            r.data == data,
            r.register == register,
    {
        Immediate { data, register }
    }
}

impl<T: ToSlice> Expression for Immediate<T> {
    /// The destination register and the bytes of the value.
    open spec fn compiled(&self, family: ProtoFamily) -> RawExprView {
        RawExprView {
            name: "immediate"@,
            attrs: seq![
                AttrView { key: NFTA_IMMEDIATE_DREG, value: ValueView::U32(self.register.raw()) },
                AttrView { key: NFTA_IMMEDIATE_DATA, value: ValueView::Data(self.data.bytes()) },
            ],
        }
    }

    fn to_expr(&self, rule: &Rule) -> (r: RawExpr) {
        let mut attrs: Vec<Attr> = Vec::new();
        attrs.push(Attr { key: NFTA_IMMEDIATE_DREG, value: AttrValue::U32(self.register.to_raw()) });
        attrs.push(Attr { key: NFTA_IMMEDIATE_DATA, value: AttrValue::Data(self.data.to_slice()) });
        let r = RawExpr { name: "immediate", attrs };
        assert(r@.attrs =~= self.compiled(rule@.chain.table.family).attrs);
        r
    }
}

} // verus!
