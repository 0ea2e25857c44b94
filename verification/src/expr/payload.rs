//! Loading a field of a packet's headers into a register.
//!
//! A field is named by the header it belongs to. Where it lies in that header
//! and how long it is follows from the layout of the header, and is fixed.

use crate::expr::{Attr, AttrValue, AttrView, Expression, RawExpr, RawExprView, ValueView};
use crate::keys::{NFTA_PAYLOAD_BASE, NFTA_PAYLOAD_DREG, NFTA_PAYLOAD_LEN, NFTA_PAYLOAD_OFFSET};
use crate::rule::Rule;
use crate::sys;
use crate::ProtoFamily;
use vstd::prelude::*;

verus! {

/// A field of a header: where it starts, counted in bytes from the start of
/// the header, and how many bytes it has.
pub trait HeaderField {
    /// The offset of the field in its header.
    spec fn field_offset(&self) -> u32;

    /// The length of the field.
    spec fn field_len(&self) -> u32;

    /// The offset of the field in its header.
    fn offset(&self) -> (r: u32)
        ensures
            r == self.field_offset(),
    ;

    /// The length of the field.
    fn len(&self) -> (r: u32)
        ensures
            r == self.field_len(),
    ;
}

/// A field of a packet, in one of the three headers that the packet filter
/// tells apart.
#[derive(Debug, Copy, Clone, PartialEq, Eq, Hash, Structural)]
pub enum Payload {
    LinkLayer(LLHeaderField),
    Network(NetworkHeaderField),
    Transport(TransportHeaderField),
}

impl Payload {
    /// The number of the header that the field belongs to.
    pub open spec fn base_of(self) -> u32 {
        match self {
            Payload::LinkLayer(_) => 0,
            Payload::Network(_) => 1,
            Payload::Transport(_) => 2,
        }
    }

    /// The number of the header that the field belongs to, as the kernel
    /// knows it.
    pub fn base(self) -> (r: u32)
        ensures
            r == self.base_of(),
    {
        match self {
            Payload::LinkLayer(_) => sys::payload_ll_header(),
            Payload::Network(_) => sys::payload_network_header(),
            Payload::Transport(_) => sys::payload_transport_header(),
        }
    }
}

impl HeaderField for Payload {
    open spec fn field_offset(&self) -> u32 {
        match self {
            Payload::LinkLayer(f) => f.field_offset(),
            Payload::Network(f) => f.field_offset(),
            Payload::Transport(f) => f.field_offset(),
        }
    }

    open spec fn field_len(&self) -> u32 {
        match self {
            Payload::LinkLayer(f) => f.field_len(),
            Payload::Network(f) => f.field_len(),
            Payload::Transport(f) => f.field_len(),
        }
    }

    fn offset(&self) -> (r: u32) {
        match self {
            Payload::LinkLayer(f) => f.offset(),
            Payload::Network(f) => f.offset(),
            Payload::Transport(f) => f.offset(),
        }
    }

    fn len(&self) -> (r: u32) {
        match self {
            Payload::LinkLayer(f) => f.len(),
            Payload::Network(f) => f.len(),
            Payload::Transport(f) => f.len(),
        }
    }
}

impl Expression for Payload {
    /// The header, the offset and the length of the field, and register one
    /// as the destination.
    open spec fn compiled(&self, family: ProtoFamily) -> RawExprView {
        RawExprView {
            name: "payload"@,
            attrs: seq![
                AttrView { key: NFTA_PAYLOAD_BASE, value: ValueView::U32(self.base_of()) },
                AttrView { key: NFTA_PAYLOAD_OFFSET, value: ValueView::U32(self.field_offset()) },
                AttrView { key: NFTA_PAYLOAD_LEN, value: ValueView::U32(self.field_len()) },
                AttrView { key: NFTA_PAYLOAD_DREG, value: ValueView::U32(1) },
            ],
        }
    }

    fn to_expr(&self, rule: &Rule) -> (r: RawExpr) {
        let mut attrs: Vec<Attr> = Vec::new();
        attrs.push(Attr { key: NFTA_PAYLOAD_BASE, value: AttrValue::U32(self.base()) });
        attrs.push(Attr { key: NFTA_PAYLOAD_OFFSET, value: AttrValue::U32(self.offset()) });
        attrs.push(Attr { key: NFTA_PAYLOAD_LEN, value: AttrValue::U32(self.len()) });
        attrs.push(Attr { key: NFTA_PAYLOAD_DREG, value: AttrValue::U32(sys::reg_1()) });
        let r = RawExpr { name: "payload", attrs };
        assert(r@.attrs =~= self.compiled(rule@.chain.table.family).attrs);
        r
    }
}

/// A field of the ethernet header.
#[derive(Debug, Copy, Clone, PartialEq, Eq, Hash, Structural)]
#[non_exhaustive]
pub enum LLHeaderField {
    /// The destination address.
    Daddr,
    /// The source address.
    Saddr,
    /// The type of what the frame carries.
    EtherType,
}

impl HeaderField for LLHeaderField {
    open spec fn field_offset(&self) -> u32 {
        match self {
            LLHeaderField::Daddr => 0,
            LLHeaderField::Saddr => 6,
            LLHeaderField::EtherType => 12,
        }
    }

    open spec fn field_len(&self) -> u32 {
        match self {
            LLHeaderField::Daddr => 6,
            LLHeaderField::Saddr => 6,
            LLHeaderField::EtherType => 2,
        }
    }

    fn offset(&self) -> (r: u32) {
        match self {
            LLHeaderField::Daddr => 0,
            LLHeaderField::Saddr => 6,
            LLHeaderField::EtherType => 12,
        }
    }

    fn len(&self) -> (r: u32) {
        match self {
            LLHeaderField::Daddr => 6,
            LLHeaderField::Saddr => 6,
            LLHeaderField::EtherType => 2,
        }
    }
}

/// A field of the network header.
#[derive(Debug, Copy, Clone, PartialEq, Eq, Hash, Structural)]
pub enum NetworkHeaderField {
    Ipv4(Ipv4HeaderField),
    Ipv6(Ipv6HeaderField),
}

impl HeaderField for NetworkHeaderField {
    open spec fn field_offset(&self) -> u32 {
        match self {
            NetworkHeaderField::Ipv4(f) => f.field_offset(),
            NetworkHeaderField::Ipv6(f) => f.field_offset(),
        }
    }

    open spec fn field_len(&self) -> u32 {
        match self {
            NetworkHeaderField::Ipv4(f) => f.field_len(),
            NetworkHeaderField::Ipv6(f) => f.field_len(),
        }
    }

    fn offset(&self) -> (r: u32) {
        match self {
            NetworkHeaderField::Ipv4(f) => f.offset(),
            NetworkHeaderField::Ipv6(f) => f.offset(),
        }
    }

    fn len(&self) -> (r: u32) {
        match self {
            NetworkHeaderField::Ipv4(f) => f.len(),
            NetworkHeaderField::Ipv6(f) => f.len(),
        }
    }
}

/// A field of the IPv4 header.
#[derive(Debug, Copy, Clone, PartialEq, Eq, Hash, Structural)]
#[non_exhaustive]
pub enum Ipv4HeaderField {
    /// The time to live.
    Ttl,
    /// The protocol of what the packet carries.
    Protocol,
    /// The source address.
    Saddr,
    /// The destination address.
    Daddr,
}

impl HeaderField for Ipv4HeaderField {
    open spec fn field_offset(&self) -> u32 {
        match self {
            Ipv4HeaderField::Ttl => 8,
            Ipv4HeaderField::Protocol => 9,
            Ipv4HeaderField::Saddr => 12,
            Ipv4HeaderField::Daddr => 16,
        }
    }

    open spec fn field_len(&self) -> u32 {
        match self {
            Ipv4HeaderField::Ttl => 1,
            Ipv4HeaderField::Protocol => 1,
            Ipv4HeaderField::Saddr => 4,
            Ipv4HeaderField::Daddr => 4,
        }
    }

    fn offset(&self) -> (r: u32) {
        match self {
            Ipv4HeaderField::Ttl => 8,
            Ipv4HeaderField::Protocol => 9,
            Ipv4HeaderField::Saddr => 12,
            Ipv4HeaderField::Daddr => 16,
        }
    }

    fn len(&self) -> (r: u32) {
        match self {
            Ipv4HeaderField::Ttl => 1,
            Ipv4HeaderField::Protocol => 1,
            Ipv4HeaderField::Saddr => 4,
            Ipv4HeaderField::Daddr => 4,
        }
    }
}

/// A field of the IPv6 header.
#[derive(Debug, Copy, Clone, PartialEq, Eq, Hash, Structural)]
#[non_exhaustive]
pub enum Ipv6HeaderField {
    /// The kind of the header that follows.
    NextHeader,
    /// The hop limit.
    HopLimit,
    /// The source address.
    Saddr,
    /// The destination address.
    Daddr,
}

impl HeaderField for Ipv6HeaderField {
    open spec fn field_offset(&self) -> u32 {
        match self {
            Ipv6HeaderField::NextHeader => 6,
            Ipv6HeaderField::HopLimit => 7,
            Ipv6HeaderField::Saddr => 8,
            Ipv6HeaderField::Daddr => 24,
        }
    }

    open spec fn field_len(&self) -> u32 {
        match self {
            Ipv6HeaderField::NextHeader => 1,
            Ipv6HeaderField::HopLimit => 1,
            Ipv6HeaderField::Saddr => 16,
            Ipv6HeaderField::Daddr => 16,
        }
    }

    fn offset(&self) -> (r: u32) {
        match self {
            Ipv6HeaderField::NextHeader => 6,
            Ipv6HeaderField::HopLimit => 7,
            Ipv6HeaderField::Saddr => 8,
            Ipv6HeaderField::Daddr => 24,
        }
    }

    fn len(&self) -> (r: u32) {
        match self {
            Ipv6HeaderField::NextHeader => 1,
            Ipv6HeaderField::HopLimit => 1,
            Ipv6HeaderField::Saddr => 16,
            Ipv6HeaderField::Daddr => 16,
        }
    }
}

/// A field of the transport header.
#[derive(Debug, Copy, Clone, PartialEq, Eq, Hash, Structural)]
#[non_exhaustive]
pub enum TransportHeaderField {
    Tcp(TcpHeaderField),
    Udp(UdpHeaderField),
    Icmpv6(Icmpv6HeaderField),
}

impl HeaderField for TransportHeaderField {
    open spec fn field_offset(&self) -> u32 {
        match self {
            TransportHeaderField::Tcp(f) => f.field_offset(),
            TransportHeaderField::Udp(f) => f.field_offset(),
            TransportHeaderField::Icmpv6(f) => f.field_offset(),
        }
    }

    open spec fn field_len(&self) -> u32 {
        match self {
            TransportHeaderField::Tcp(f) => f.field_len(),
            TransportHeaderField::Udp(f) => f.field_len(),
            TransportHeaderField::Icmpv6(f) => f.field_len(),
        }
    }

    fn offset(&self) -> (r: u32) {
        match self {
            TransportHeaderField::Tcp(f) => f.offset(),
            TransportHeaderField::Udp(f) => f.offset(),
            TransportHeaderField::Icmpv6(f) => f.offset(),
        }
    }

    fn len(&self) -> (r: u32) {
        match self {
            TransportHeaderField::Tcp(f) => f.len(),
            TransportHeaderField::Udp(f) => f.len(),
            TransportHeaderField::Icmpv6(f) => f.len(),
        }
    }
}

/// A field of the TCP header.
#[derive(Debug, Copy, Clone, PartialEq, Eq, Hash, Structural)]
#[non_exhaustive]
pub enum TcpHeaderField {
    /// The source port.
    Sport,
    /// The destination port.
    Dport,
}

impl HeaderField for TcpHeaderField {
    open spec fn field_offset(&self) -> u32 {
        match self {
            TcpHeaderField::Sport => 0,
            TcpHeaderField::Dport => 2,
        }
    }

    open spec fn field_len(&self) -> u32 {
        match self {
            TcpHeaderField::Sport => 2,
            TcpHeaderField::Dport => 2,
        }
    }

    fn offset(&self) -> (r: u32) {
        match self {
            TcpHeaderField::Sport => 0,
            TcpHeaderField::Dport => 2,
        }
    }

    fn len(&self) -> (r: u32) {
        match self {
            TcpHeaderField::Sport => 2,
            TcpHeaderField::Dport => 2,
        }
    }
}

/// A field of the UDP header.
#[derive(Debug, Copy, Clone, PartialEq, Eq, Hash, Structural)]
#[non_exhaustive]
pub enum UdpHeaderField {
    /// The source port.
    Sport,
    /// The destination port.
    Dport,
    /// The length of the datagram.
    Len,
}

impl HeaderField for UdpHeaderField {
    open spec fn field_offset(&self) -> u32 {
        match self {
            UdpHeaderField::Sport => 0,
            UdpHeaderField::Dport => 2,
            UdpHeaderField::Len => 4,
        }
    }

    open spec fn field_len(&self) -> u32 {
        match self {
            UdpHeaderField::Sport => 2,
            UdpHeaderField::Dport => 2,
            UdpHeaderField::Len => 2,
        }
    }

    fn offset(&self) -> (r: u32) {
        match self {
            UdpHeaderField::Sport => 0,
            UdpHeaderField::Dport => 2,
            UdpHeaderField::Len => 4,
        }
    }

    fn len(&self) -> (r: u32) {
        match self {
            UdpHeaderField::Sport => 2,
            UdpHeaderField::Dport => 2,
            UdpHeaderField::Len => 2,
        }
    }
}

/// A field of the ICMPv6 header.
#[derive(Debug, Copy, Clone, PartialEq, Eq, Hash, Structural)]
#[non_exhaustive]
pub enum Icmpv6HeaderField {
    /// The type of the message.
    Type,
    /// The code of the message.
    Code,
    /// The checksum.
    Checksum,
}

impl HeaderField for Icmpv6HeaderField {
    open spec fn field_offset(&self) -> u32 {
        match self {
            Icmpv6HeaderField::Type => 0,
            Icmpv6HeaderField::Code => 1,
            Icmpv6HeaderField::Checksum => 2,
        }
    }

    open spec fn field_len(&self) -> u32 {
        match self {
            Icmpv6HeaderField::Type => 1,
            Icmpv6HeaderField::Code => 1,
            Icmpv6HeaderField::Checksum => 2,
        }
    }

    fn offset(&self) -> (r: u32) {
        match self {
            Icmpv6HeaderField::Type => 0,
            Icmpv6HeaderField::Code => 1,
            Icmpv6HeaderField::Checksum => 2,
        }
    }

    fn len(&self) -> (r: u32) {
        match self {
            Icmpv6HeaderField::Type => 1,
            Icmpv6HeaderField::Code => 1,
            Icmpv6HeaderField::Checksum => 2,
        }
    }
}

/// No two fields of the ethernet header start at the same offset.
pub proof fn lemma_ll_fields_differ(a: LLHeaderField, b: LLHeaderField)
    requires
        a.field_offset() == b.field_offset(),
    ensures
        a == b,
{
}

/// No two fields of the IPv4 header start at the same offset.
pub proof fn lemma_ipv4_fields_differ(a: Ipv4HeaderField, b: Ipv4HeaderField)
    requires
        a.field_offset() == b.field_offset(),
    ensures
        a == b,
{
}

/// No two fields of the IPv6 header start at the same offset.
pub proof fn lemma_ipv6_fields_differ(a: Ipv6HeaderField, b: Ipv6HeaderField)
    requires
        a.field_offset() == b.field_offset(),
    ensures
        a == b,
{
}

/// No two fields of the network header share offset and length: the offsets
/// tell the fields of one IP version apart, and where a field of IPv4 starts
/// where one of IPv6 does, the two differ in length.
pub proof fn lemma_network_fields_differ(a: NetworkHeaderField, b: NetworkHeaderField)
    requires
        a.field_offset() == b.field_offset(),
        a.field_len() == b.field_len(),
    ensures
        a == b,
{
}

/// No two fields of the TCP header start at the same offset.
pub proof fn lemma_tcp_fields_differ(a: TcpHeaderField, b: TcpHeaderField)
    requires
        a.field_offset() == b.field_offset(),
    ensures
        a == b,
{
}

/// No two fields of the UDP header start at the same offset.
pub proof fn lemma_udp_fields_differ(a: UdpHeaderField, b: UdpHeaderField)
    requires
        a.field_offset() == b.field_offset(),
    ensures
        a == b,
{
}

/// No two fields of the ICMPv6 header start at the same offset.
pub proof fn lemma_icmpv6_fields_differ(a: Icmpv6HeaderField, b: Icmpv6HeaderField)
    requires
        a.field_offset() == b.field_offset(),
    ensures
        a == b,
{
}

/// The three headers have numbers of their own: fields with the same number
/// belong to the same header.
pub proof fn lemma_payload_bases_differ(a: Payload, b: Payload)
    requires
        a.base_of() == b.base_of(),
    ensures
        a is LinkLayer <==> b is LinkLayer,
        a is Network <==> b is Network,
        a is Transport <==> b is Transport,
{
}

} // verus!
