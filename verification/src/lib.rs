//! Builds the messages that create and remove tables, chains, sets and rules
//! in the kernel's packet filter, and gathers them into batches that the kernel
//! applies as one transaction.
//!
//! A [`Table`] holds [`Chain`]s, a chain holds [`Rule`]s, and a rule is a list
//! of expressions from [`expr`], evaluated in order. Each of these objects
//! turns into the bytes of one netlink message; a [`Batch`] frames a sequence
//! of such messages and hands them out page by page.

use vstd::prelude::*;

pub mod batch;
pub mod chain;
pub mod expr;
pub mod frame;
pub mod keys;
pub mod netlink;
pub mod rule;
pub mod set;
pub mod table;
pub mod util;
mod sys;

pub use batch::{
    batch_is_supported, default_batch_page_size, Batch, BatchError, FinalizedBatch, NetlinkError,
};
pub use chain::{Chain, ChainError, ChainPriority, ChainType, Hook, Policy, Priority, PriorityName};
pub use rule::Rule;
pub use table::Table;

verus! {

/// What a message asks the kernel to do with the object it carries.
#[derive(Debug, Copy, Clone, PartialEq, Eq, Hash, Structural)]
pub enum MsgType {
    /// Add the object.
    Add,
    /// Remove the object.
    Del,
}

/// A protocol family: which kind of traffic a table or a set belongs to.
#[derive(Debug, Copy, Clone, PartialEq, Eq, Hash, Structural)]
pub enum ProtoFamily {
    Unspec,
    /// Both IPv4 and IPv6.
    Inet,
    Ipv4,
    Arp,
    NetDev,
    Bridge,
    Ipv6,
    DecNet,
}

impl ProtoFamily {
    /// The number of the family.
    pub open spec fn raw(self) -> u16 {
        match self {
            ProtoFamily::Unspec => 0,
            ProtoFamily::Inet => 1,
            ProtoFamily::Ipv4 => 2,
            ProtoFamily::Arp => 3,
            ProtoFamily::NetDev => 5,
            ProtoFamily::Bridge => 7,
            ProtoFamily::Ipv6 => 10,
            ProtoFamily::DecNet => 12,
        }
    }

    /// The number of the family, as the kernel knows it.
    pub fn to_raw(self) -> (r: u16)
        ensures
            r == self.raw(),
    {
        match self {
            ProtoFamily::Unspec => sys::nfproto_unspec(),
            ProtoFamily::Inet => sys::nfproto_inet(),
            ProtoFamily::Ipv4 => sys::nfproto_ipv4(),
            ProtoFamily::Arp => sys::nfproto_arp(),
            ProtoFamily::NetDev => sys::nfproto_netdev(),
            ProtoFamily::Bridge => sys::nfproto_bridge(),
            ProtoFamily::Ipv6 => sys::nfproto_ipv6(),
            ProtoFamily::DecNet => sys::nfproto_decnet(),
        }
    }
}

/// The size of the largest message that the packet filter takes on this
/// system: an attribute filled to its limit and one memory page. `None` where
/// the system does not tell the size of its memory pages, or where the sum is
/// more than a `u32` can hold. The system is asked for the size of a page;
/// [`util::max_message_size_from`] says what is made of its answer.
pub fn nft_nlmsg_maxsize() -> (r: Option<u32>)
    ensures
        r matches Some(size) ==> size >= 0xffff,
{
    util::max_message_size_from(sys::page_size())
}

/// What can be sent to the packet filter as one message.
pub trait NlMsg {
    /// The bytes of the message that adds or removes this object under the
    /// given sequence number; `None` where the object cannot be put into one
    /// message.
    spec fn message(&self, seq: u32, msg_type: MsgType) -> Option<Seq<u8>>;

    /// Writes the message that adds or removes this object.
    fn write(&self, seq: u32, msg_type: MsgType) -> (r: Option<Vec<u8>>)
        ensures
            r.is_some() == self.message(seq, msg_type).is_some(),
            r matches Some(bytes) ==> bytes@ == self.message(seq, msg_type).unwrap(),
    ;
}

} // verus!
