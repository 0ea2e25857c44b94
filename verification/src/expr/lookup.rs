//! Looking up what a register holds in a set.

use crate::expr::{Attr, AttrValue, AttrView, Expression, RawExpr, RawExprView, ValueView};
use crate::keys::{NFTA_LOOKUP_SET, NFTA_LOOKUP_SET_ID, NFTA_LOOKUP_SREG};
use crate::rule::Rule;
use crate::set::NftSet;
use crate::sys;
use crate::ProtoFamily;
use vstd::prelude::*;

verus! {

/// Matches where the first register holds one of the keys of a set.
pub struct Lookup {
    set_name: String,
    set_id: u32,
}

impl Lookup {
    /// The lookup in the given set, which it knows by name and number from
    /// then on.
    pub fn new<K>(set: &NftSet<K>) -> (r: Self)
        ensures
            r.set_name() == set@.name,
            r.set_id() == set@.id,
    {
        Lookup { set_name: set.get_name().to_owned(), set_id: set.get_id() }
    }

    /// The name of the set.
    pub closed spec fn set_name(&self) -> Seq<char> {
        self.set_name@
    }

    /// The number of the set.
    pub closed spec fn set_id(&self) -> u32 {
        self.set_id
    }
}

impl Expression for Lookup {
    /// Source register one, then the set by name and by number.
    open spec fn compiled(&self, family: ProtoFamily) -> RawExprView {
        RawExprView {
            name: "lookup"@,
            attrs: seq![
                AttrView { key: NFTA_LOOKUP_SREG, value: ValueView::U32(1) },
                AttrView { key: NFTA_LOOKUP_SET, value: ValueView::Str(self.set_name()) },
                AttrView { key: NFTA_LOOKUP_SET_ID, value: ValueView::U32(self.set_id()) },
            ],
        }
    }

    fn to_expr(&self, rule: &Rule) -> (r: RawExpr) {
        let mut attrs: Vec<Attr> = Vec::new();
        attrs.push(Attr { key: NFTA_LOOKUP_SREG, value: AttrValue::U32(sys::reg_1()) });
        attrs.push(Attr { key: NFTA_LOOKUP_SET, value: AttrValue::Str(self.set_name.clone()) });
        attrs.push(Attr { key: NFTA_LOOKUP_SET_ID, value: AttrValue::U32(self.set_id) });
        let r = RawExpr { name: "lookup", attrs };
        assert(r@.attrs =~= self.compiled(rule@.chain.table.family).attrs);
        r
    }
}

} // verus!
