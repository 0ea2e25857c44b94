//! Asking the routing table about a packet.

use crate::expr::{Attr, AttrValue, AttrView, Expression, RawExpr, RawExprView, ValueView};
use crate::keys::{NFTA_FIB_DREG, NFTA_FIB_FLAGS, NFTA_FIB_RESULT};
use crate::rule::Rule;
use crate::sys;
use crate::ProtoFamily;
use vstd::prelude::*;

verus! {

/// What a lookup in the routing table gives back.
#[derive(Debug, Copy, Clone, PartialEq, Eq, Hash, Structural)]
#[non_exhaustive]
pub enum FibResult {
    /// The index of the output interface.
    Oif,
    /// The name of the output interface.
    OifName,
    /// The type of the address.
    AddrType,
}

/// What `str::trim` makes of a piece of text: the text without the white
/// space at its start and its end.
pub uninterp spec fn trimmed(s: Seq<char>) -> Seq<char>;

/// What `str::to_lowercase` makes of a piece of text: the text in lower case.
pub uninterp spec fn lowercased(s: Seq<char>) -> Seq<char>;

/// `str::trim`: the text without leading and trailing white space. What
/// counts as white space is Unicode's matter; the contract only gives the
/// result its name.
#[verifier::external_body]
fn trim(s: &str) -> (r: &str)
    ensures
        r@ == trimmed(s@),
{
    s.trim()
}

/// `str::to_lowercase`: the text in lower case. Which character is the lower
/// case of which is Unicode's matter; the contract only gives the result its
/// name.
#[verifier::external_body]
fn to_lowercase(s: &str) -> (r: String)
    ensures
        r@ == lowercased(s@),
{
    s.to_lowercase()
}

impl FibResult {
    /// The result that a word names, if it names one.
    pub open spec fn named(word: Seq<char>) -> Option<FibResult> {
        if word == "oif"@ {
            Some(FibResult::Oif)
        } else if word == "oifname"@ {
            Some(FibResult::OifName)
        } else if word == "type"@ {
            Some(FibResult::AddrType)
        } else {
            None
        }
    }

    /// The number of the result.
    pub open spec fn raw(&self) -> u32 {
        match self {
            FibResult::Oif => 1,
            FibResult::OifName => 2,
            FibResult::AddrType => 3,
        }
    }

    /// The result that `word` names: `oif`, `oifname` or `type`, written just
    /// so.
    pub fn from_word(word: &str) -> (r: Option<FibResult>)
        ensures
            r == Self::named(word@),
    {
        let word = word.to_owned();
        if word == "oif".to_owned() {
            Some(FibResult::Oif)
        } else if word == "oifname".to_owned() {
            Some(FibResult::OifName)
        } else if word == "type".to_owned() {
            Some(FibResult::AddrType)
        } else {
            None
        }
    }

    /// The result that `s` names, in whatever case and with whatever white
    /// space around it.
    pub fn from_str(s: &str) -> (r: Result<FibResult, &'static str>)
        ensures
            r.is_ok() == Self::named(lowercased(trimmed(s@))).is_some(),
            r matches Ok(result) ==> Some(result) == Self::named(lowercased(trimmed(s@))),
            r matches Err(e) ==> e@ == "Invalid FibResult variant"@,
    {
        let word = to_lowercase(trim(s));
        match Self::from_word(word.as_str()) {
            Some(result) => Ok(result),
            None => Err("Invalid FibResult variant"),
        }
    }

    /// The number of the result, as the kernel knows it.
    pub fn raw_result_type(&self) -> (r: u32)
        ensures
            r == self.raw(),
    {
        match self {
            FibResult::Oif => 1,
            FibResult::OifName => 2,
            FibResult::AddrType => 3,
        }
    }
}

/// A lookup in the routing table: what of the packet is looked up, and what
/// the lookup gives back.
#[derive(Debug, Copy, Clone, PartialEq, Eq, Hash, Structural)]
#[non_exhaustive]
pub enum Fib {
    /// The source address.
    SAddr { result: FibResult },
    /// The destination address.
    DAddr { result: FibResult },
    /// The mark of the packet.
    Mark { result: FibResult },
    /// The input interface.
    Iif { result: FibResult },
    /// The output interface.
    Oif { result: FibResult },
    /// Whether there is a route at all.
    Present { result: FibResult },
}

impl Fib {
    /// The bit that says what is looked up.
    pub open spec fn selector(&self) -> u32 {
        match self {
            Fib::SAddr { .. } => 1,
            Fib::DAddr { .. } => 2,
            Fib::Mark { .. } => 4,
            Fib::Iif { .. } => 8,
            Fib::Oif { .. } => 16,
            Fib::Present { .. } => 32,
        }
    }

    /// What the lookup gives back.
    pub open spec fn wanted(&self) -> FibResult {
        match self {
            Fib::SAddr { result } => *result,
            Fib::DAddr { result } => *result,
            Fib::Mark { result } => *result,
            Fib::Iif { result } => *result,
            Fib::Oif { result } => *result,
            Fib::Present { result } => *result,
        }
    }

    /// The bit that says what is looked up.
    pub fn flags(&self) -> (r: u32)
        ensures
            r == self.selector(),
    {
        match self {
            Fib::SAddr { .. } => 1,
            Fib::DAddr { .. } => 2,
            Fib::Mark { .. } => 4,
            Fib::Iif { .. } => 8,
            Fib::Oif { .. } => 16,
            Fib::Present { .. } => 32,
        }
    }

    /// The number of what the lookup gives back.
    pub fn result(&self) -> (r: u32)
        ensures
            r == self.wanted().raw(),
    {
        match self {
            Fib::SAddr { result } => result.raw_result_type(),
            Fib::DAddr { result } => result.raw_result_type(),
            Fib::Mark { result } => result.raw_result_type(),
            Fib::Iif { result } => result.raw_result_type(),
            Fib::Oif { result } => result.raw_result_type(),
            Fib::Present { result } => result.raw_result_type(),
        }
    }
}

impl Expression for Fib {
    /// Destination register one, what the lookup gives back, and what is
    /// looked up.
    open spec fn compiled(&self, family: ProtoFamily) -> RawExprView {
        RawExprView {
            name: "fib"@,
            attrs: seq![
                AttrView { key: NFTA_FIB_DREG, value: ValueView::U32(1) },
                AttrView { key: NFTA_FIB_RESULT, value: ValueView::U32(self.wanted().raw()) },
                AttrView { key: NFTA_FIB_FLAGS, value: ValueView::U32(self.selector()) },
            ],
        }
    }

    fn to_expr(&self, rule: &Rule) -> (r: RawExpr) {
        let mut attrs: Vec<Attr> = Vec::new();
        attrs.push(Attr { key: NFTA_FIB_DREG, value: AttrValue::U32(sys::reg_1()) });
        attrs.push(Attr { key: NFTA_FIB_RESULT, value: AttrValue::U32(self.result()) });
        attrs.push(Attr { key: NFTA_FIB_FLAGS, value: AttrValue::U32(self.flags()) });
        let r = RawExpr { name: "fib", attrs };
        assert(r@.attrs =~= self.compiled(rule@.chain.table.family).attrs);
        r
    }
}

/// No two results of a lookup share a number.
pub proof fn lemma_fib_results_differ(a: FibResult, b: FibResult)
    requires
        a.raw() == b.raw(),
    ensures
        a == b,
{
}

/// No two kinds of lookup share a bit.
pub proof fn lemma_fib_selectors_differ(a: Fib, b: Fib)
    requires
        a.selector() == b.selector(),
        a.wanted() == b.wanted(),
    ensures
        a == b,
{
}

} // verus!
