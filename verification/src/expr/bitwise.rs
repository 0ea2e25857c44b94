//! Masking and flipping the bits that a register holds.

use crate::expr::{Attr, AttrValue, AttrView, Expression, RawExpr, RawExprView, ToSlice, ValueView};
use crate::keys::{
    NFTA_BITWISE_DREG, NFTA_BITWISE_LEN, NFTA_BITWISE_MASK, NFTA_BITWISE_SREG, NFTA_BITWISE_XOR,
};
use crate::rule::Rule;
use crate::sys;
use crate::ProtoFamily;
use vstd::prelude::*;

verus! {

/// Replaces what the first register holds by its bitwise and with a mask,
/// followed by a bitwise exclusive or with a second value. Both values have
/// as many bytes as are changed.
pub struct Bitwise<M: ToSlice, X: ToSlice> {
    mask: M,
    xor: X,
}

impl<M: ToSlice, X: ToSlice> Bitwise<M, X> {
    #[verifier::type_invariant]
    spec fn well_formed(self) -> bool {
        self.mask.bytes().len() == self.xor.bytes().len() <= u32::MAX
    }

    /// The expression that masks with `mask` and then flips the bits of
    /// `xor`. The two must have the same number of bytes, and no more than a
    /// `u32` can count.
    pub fn new(mask: M, xor: X) -> (r: Self)
        requires
            mask.bytes().len() == xor.bytes().len() <= u32::MAX,
        ensures
            r.mask() == mask,
            r.xor() == xor,
    {
        Bitwise { mask, xor }
    }

    /// The mask.
    pub closed spec fn mask(&self) -> M {
        self.mask
    }

    /// The value whose bits are flipped.
    pub closed spec fn xor(&self) -> X {
        self.xor
    }
}

impl<M: ToSlice, X: ToSlice> Expression for Bitwise<M, X> {
    /// Source and destination are register one; then come the number of
    /// bytes, the mask and the value to flip.
    open spec fn compiled(&self, family: ProtoFamily) -> RawExprView {
        RawExprView {
            name: "bitwise"@,
            attrs: seq![
                AttrView { key: NFTA_BITWISE_SREG, value: ValueView::U32(1) },
                AttrView { key: NFTA_BITWISE_DREG, value: ValueView::U32(1) },
                AttrView {
                    key: NFTA_BITWISE_LEN,
                    value: ValueView::U32(self.mask().bytes().len() as u32),
                },
                AttrView { key: NFTA_BITWISE_MASK, value: ValueView::Data(self.mask().bytes()) },
                AttrView { key: NFTA_BITWISE_XOR, value: ValueView::Data(self.xor().bytes()) },
            ],
        }
    }

    fn to_expr(&self, rule: &Rule) -> (r: RawExpr) {
        proof {
            use_type_invariant(self);
        }
        let mask = self.mask.to_slice();
        let xor = self.xor.to_slice();
        let len: u32 = mask.len() as u32;
        let mut attrs: Vec<Attr> = Vec::new();
        attrs.push(Attr { key: NFTA_BITWISE_SREG, value: AttrValue::U32(sys::reg_1()) });
        attrs.push(Attr { key: NFTA_BITWISE_DREG, value: AttrValue::U32(sys::reg_1()) });
        attrs.push(Attr { key: NFTA_BITWISE_LEN, value: AttrValue::U32(len) });
        attrs.push(Attr { key: NFTA_BITWISE_MASK, value: AttrValue::Data(mask) });
        attrs.push(Attr { key: NFTA_BITWISE_XOR, value: AttrValue::Data(xor) });
        let r = RawExpr { name: "bitwise", attrs };
        assert(r@.attrs =~= self.compiled(rule@.chain.table.family).attrs);
        r
    }
}

} // verus!
