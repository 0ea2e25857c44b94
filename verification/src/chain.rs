//! Chains, the lists of rules inside a table.
//!
//! A chain that is registered with a hook is a base chain: packets enter the
//! filter there. A chain without a hook is a regular chain, reached only
//! through jump and goto verdicts. Not every type of base chain can be
//! registered with every hook in every family; [`validate`] says which can,
//! and [`resolve`] turns a named priority into its number.

use crate::frame::{build_frame, frame, ObjectKind};
use crate::keys::{
    NFTA_CHAIN_HOOK, NFTA_CHAIN_NAME, NFTA_CHAIN_POLICY, NFTA_CHAIN_TABLE, NFTA_CHAIN_TYPE,
    NFTA_HOOK_DEV, NFTA_HOOK_HOOKNUM, NFTA_HOOK_PRIORITY,
};
use crate::netlink::{
    attr_fits, attr_str, attr_u32, message_fits, nested, push_attr_str, push_attr_u32,
    push_nested, str_fits, text, to_unsigned32, unsigned32,
};
use crate::sys;
use crate::table::{Table, TableView};
use crate::{MsgType, NlMsg, ProtoFamily};
use vstd::prelude::*;

verus! {

/// The priority of a base chain as a plain number. Chains with a lower number
/// see a packet first.
pub type Priority = i32;

/// The hooks of the network stack that a base chain can register with.
#[derive(Debug, Copy, Clone, PartialEq, Eq, Hash, Structural)]
pub enum Hook {
    /// Before the routing decision.
    PreRouting,
    /// Packets for the local host.
    In,
    /// Packets that pass through the host.
    Forward,
    /// Packets from the local host.
    Out,
    /// After the routing decision.
    PostRouting,
    /// Packets as they arrive at a device.
    Ingress,
}

impl Hook {
    /// The number of the hook.
    pub open spec fn raw(self) -> u16 {
        match self {
            Hook::PreRouting => 0,
            Hook::In => 1,
            Hook::Forward => 2,
            Hook::Out => 3,
            Hook::PostRouting => 4,
            Hook::Ingress => 5,
        }
    }

    /// The number of the hook, as the kernel knows it.
    pub fn to_raw(self) -> (r: u16)
        ensures
            r == self.raw(),
    {
        match self {
            Hook::PreRouting => sys::hook_pre_routing(),
            Hook::In => sys::hook_local_in(),
            Hook::Forward => sys::hook_forward(),
            Hook::Out => sys::hook_local_out(),
            Hook::PostRouting => sys::hook_post_routing(),
            Hook::Ingress => sys::hook_ingress(),
        }
    }
}

/// What happens to a packet that went through a base chain and met no verdict.
#[derive(Debug, Copy, Clone, PartialEq, Eq, Hash, Structural)]
pub enum Policy {
    /// Accept the packet.
    Accept,
    /// Drop the packet.
    Drop,
}

impl Policy {
    /// The number of the policy.
    pub open spec fn raw(self) -> u32 {
        match self {
            Policy::Accept => 1,
            Policy::Drop => 0,
        }
    }

    /// The number of the policy, as the kernel knows it.
    pub fn to_raw(self) -> (r: u32)
        ensures
            r == self.raw(),
    {
        match self {
            Policy::Accept => unsigned(sys::verdict_accept()),
            Policy::Drop => unsigned(sys::verdict_drop()),
        }
    }
}

/// The type of a base chain.
#[derive(Debug, Copy, Clone, PartialEq, Eq, Hash, Structural)]
pub enum ChainType {
    /// Filters packets.
    Filter,
    /// Reroutes packets whose headers or marks were changed.
    Route,
    /// Translates addresses.
    Nat,
}

impl ChainType {
    /// The name of the type.
    pub open spec fn name(self) -> Seq<char> {
        match self {
            ChainType::Filter => "filter"@,
            ChainType::Route => "route"@,
            ChainType::Nat => "nat"@,
        }
    }

    /// The name of the type, as the kernel knows it.
    pub fn as_str(self) -> (r: &'static str)
        ensures
            r@ == self.name(),
    {
        match self {
            ChainType::Filter => "filter",
            ChainType::Route => "route",
            ChainType::Nat => "nat",
        }
    }
}

/// The names that stand for the usual priorities.
#[derive(Debug, Copy, Clone, PartialEq, Eq, Hash, Structural)]
pub enum PriorityName {
    Raw,
    Mangle,
    DestinationNat,
    Filter,
    Security,
    SourceNat,
    Output,
}

/// A priority as a user writes it: a number, a name, or a name and a distance
/// from it.
#[derive(Debug, Copy, Clone, PartialEq, Eq, Hash, Structural)]
pub enum ChainPriority {
    Value(Priority),
    Name(PriorityName),
    NameOffset(PriorityName, i32),
}

/// Why a chain cannot be a base chain.
#[derive(Debug, Copy, Clone, PartialEq, Eq, Hash, Structural)]
pub enum ChainError {
    /// A base chain needs a type.
    MissingType,
    /// A base chain needs a hook.
    MissingHook,
    /// A base chain needs a priority.
    MissingPriority,
    /// The name stands for no priority at this hook in this family.
    UndefinedPriority,
    /// The name's number and the distance from it do not add up to a priority.
    PriorityOutOfRange,
    /// No chain of this type can be registered with this hook in this family.
    InvalidCombination,
    /// The priority is kept for connection tracking.
    InvalidPriority,
}

/// No chain that translates addresses may have this priority or a lower one.
pub const NAT_PRIORITY_FLOOR: Priority = -200;

/// Whether a family is one of the three that carry IP.
pub open spec fn is_ip_family(family: ProtoFamily) -> bool {
    family == ProtoFamily::Inet || family == ProtoFamily::Ipv4 || family == ProtoFamily::Ipv6
}

/// The number that a name stands for at a hook in a family, if any.
///
/// The bridge has numbers of its own and is the only family that knows
/// `Output`. Elsewhere `Filter` is known to the IP families, ARP and network
/// devices, and the other names to the IP families only. The two names for
/// address translation are tied to the hook where that translation happens:
/// the destination's before routing, the source's after it.
pub open spec fn named_priority(name: PriorityName, family: ProtoFamily, hook: Hook) -> Option<
    Priority,
> {
    if family == ProtoFamily::Bridge {
        match name {
            PriorityName::DestinationNat => if hook == Hook::PreRouting {
                Some(-300i32)
            } else {
                None
            },
            PriorityName::Filter => Some(-200i32),
            PriorityName::Output => if hook == Hook::Out {
                Some(100i32)
            } else {
                None
            },
            PriorityName::SourceNat => if hook == Hook::PostRouting {
                Some(300i32)
            } else {
                None
            },
            _ => None,
        }
    } else {
        match name {
            PriorityName::Raw => if is_ip_family(family) {
                Some(-300i32)
            } else {
                None
            },
            PriorityName::Mangle => if is_ip_family(family) {
                Some(-150i32)
            } else {
                None
            },
            PriorityName::DestinationNat => if is_ip_family(family) && hook == Hook::PreRouting {
                Some(-100i32)
            } else {
                None
            },
            PriorityName::Filter => if is_ip_family(family) || family == ProtoFamily::Arp || family
                == ProtoFamily::NetDev {
                Some(0i32)
            } else {
                None
            },
            PriorityName::Security => if is_ip_family(family) {
                Some(50i32)
            } else {
                None
            },
            PriorityName::SourceNat => if is_ip_family(family) && hook == Hook::PostRouting {
                Some(100i32)
            } else {
                None
            },
            PriorityName::Output => None,
        }
    }
}

/// The number of a priority at a hook in a family, or why it has none.
pub open spec fn resolved(priority: ChainPriority, family: ProtoFamily, hook: Hook) -> Result<
    Priority,
    ChainError,
> {
    match priority {
        ChainPriority::Value(value) => Ok(value),
        ChainPriority::Name(name) => match named_priority(name, family, hook) {
            Some(value) => Ok(value),
            None => Err(ChainError::UndefinedPriority),
        },
        ChainPriority::NameOffset(name, offset) => match named_priority(name, family, hook) {
            Some(value) => if i32::MIN <= value + offset <= i32::MAX {
                Ok((value + offset) as i32)
            } else {
                Err(ChainError::PriorityOutOfRange)
            },
            None => Err(ChainError::UndefinedPriority),
        },
    }
}

/// Whether a chain of the given type can be registered with the hook in the
/// family.
///
/// A filter chain can be registered with every hook of every family, except
/// with ARP, which has only input and output. A chain that translates
/// addresses belongs to an IP family and to one of the four hooks around
/// routing. A route chain belongs to an IP family and to the output hook.
pub open spec fn legal(chain_type: ChainType, family: ProtoFamily, hook: Hook) -> bool {
    match chain_type {
        ChainType::Filter => family != ProtoFamily::Arp || hook == Hook::In || hook == Hook::Out,
        ChainType::Nat => is_ip_family(family) && (hook == Hook::PreRouting || hook == Hook::In
            || hook == Hook::Out || hook == Hook::PostRouting),
        ChainType::Route => is_ip_family(family) && hook == Hook::Out,
    }
}

/// Whether a base chain is acceptable. The combination of type, family and
/// hook is looked at first, then the priority of a chain that translates
/// addresses.
pub open spec fn validated(
    chain_type: ChainType,
    family: ProtoFamily,
    hook: Hook,
    priority: Priority,
) -> Result<(), ChainError> {
    if !legal(chain_type, family, hook) {
        Err(ChainError::InvalidCombination)
    } else if chain_type == ChainType::Nat && priority <= NAT_PRIORITY_FLOOR {
        Err(ChainError::InvalidPriority)
    } else {
        Ok(())
    }
}

/// Whether what is known of a base chain is complete and acceptable. What is
/// missing is reported first: the type, then the hook, then the priority.
pub open spec fn base_validated(
    chain_type: Option<ChainType>,
    family: ProtoFamily,
    hook: Option<Hook>,
    priority: Option<ChainPriority>,
) -> Result<Priority, ChainError> {
    if chain_type.is_none() {
        Err(ChainError::MissingType)
    } else if hook.is_none() {
        Err(ChainError::MissingHook)
    } else if priority.is_none() {
        Err(ChainError::MissingPriority)
    } else {
        match resolved(priority.unwrap(), family, hook.unwrap()) {
            Err(e) => Err(e),
            Ok(value) => match validated(chain_type.unwrap(), family, hook.unwrap(), value) {
                Err(e) => Err(e),
                Ok(()) => Ok(value),
            },
        }
    }
}

/// A chain of the packet filter.
#[derive(Debug)]
pub struct Chain {
    name: String,
    table: Table,
    chain_type: Option<ChainType>,
    hook: Option<Hook>,
    priority: Option<Priority>,
    policy: Option<Policy>,
    device: Option<String>,
}

/// What a [`Chain`] stands for: its name, the table it lives in, and what
/// makes it a base chain, as far as it was set.
pub struct ChainView {
    pub name: Seq<char>,
    pub table: TableView,
    pub chain_type: Option<ChainType>,
    pub hook: Option<Hook>,
    pub priority: Option<Priority>,
    pub policy: Option<Policy>,
    pub device: Option<Seq<char>>,
}

impl ChainView {
    /// Whether anything was set that only a base chain has.
    pub open spec fn is_base(self) -> bool {
        self.chain_type.is_some() || self.hook.is_some() || self.priority.is_some()
            || self.policy.is_some() || self.device.is_some()
    }

    /// Whether the chain may be sent. A regular chain always may; a base chain
    /// must be complete and acceptable.
    pub open spec fn checked(self) -> Result<(), ChainError> {
        if !self.is_base() {
            Ok(())
        } else {
            let priority = match self.priority {
                Some(value) => Some(ChainPriority::Value(value)),
                None => None,
            };
            match base_validated(self.chain_type, self.table.family, self.hook, priority) {
                Ok(_) => Ok(()),
                Err(e) => Err(e),
            }
        }
    }

    /// The attributes of the hook: its number, the priority and the device.
    pub open spec fn hook_payload(self) -> Seq<u8> {
        (match self.hook {
            Some(hook) => attr_u32(NFTA_HOOK_HOOKNUM, hook.raw() as u32),
            None => Seq::empty(),
        }) + (match self.priority {
            Some(priority) => attr_u32(NFTA_HOOK_PRIORITY, unsigned32(priority)),
            None => Seq::empty(),
        }) + (match self.device {
            Some(device) => attr_str(NFTA_HOOK_DEV, device),
            None => Seq::empty(),
        })
    }

    /// The attributes of the chain: table, name, hook, policy and type, each
    /// as far as it was set.
    pub open spec fn payload(self) -> Seq<u8> {
        self.head_payload() + self.tail_payload()
    }

    /// The first attributes of the chain: table, name and hook.
    pub open spec fn head_payload(self) -> Seq<u8> {
        attr_str(NFTA_CHAIN_TABLE, self.table.name) + attr_str(NFTA_CHAIN_NAME, self.name) + (
        if self.hook.is_some() || self.priority.is_some() || self.device.is_some() {
            nested(NFTA_CHAIN_HOOK, self.hook_payload())
        } else {
            Seq::empty()
        })
    }

    /// The last attributes of the chain: policy and type.
    pub open spec fn tail_payload(self) -> Seq<u8> {
        (match self.policy {
            Some(policy) => attr_u32(NFTA_CHAIN_POLICY, policy.raw()),
            None => Seq::empty(),
        }) + (match self.chain_type {
            Some(chain_type) => attr_str(NFTA_CHAIN_TYPE, chain_type.name()),
            None => Seq::empty(),
        })
    }

    /// Whether the chain may be sent and each of its attributes has room for
    /// what it holds.
    pub open spec fn encodable(self) -> bool {
        &&& self.checked().is_ok()
        &&& str_fits(self.table.name)
        &&& str_fits(self.name)
        &&& attr_fits(self.hook_payload())
    }
}

impl View for Chain {
    type V = ChainView;

    closed spec fn view(&self) -> ChainView {
        ChainView {
            name: self.name@,
            table: self.table@,
            chain_type: self.chain_type,
            hook: self.hook,
            priority: self.priority,
            policy: self.policy,
            device: match self.device {
                Some(device) => Some(device@),
                None => None,
            },
        }
    }
}

impl Chain {
    /// A regular chain with the given name in the given table.
    pub fn new(name: &str, table: &Table) -> (r: Chain)
        ensures
            r@ == (ChainView {
                name: name@,
                table: table@,
                chain_type: None,
                hook: None,
                priority: None,
                policy: None,
                device: None,
            }),
    {
        Chain {
            name: name.to_owned(),
            table: table.duplicate(),
            chain_type: None,
            hook: None,
            priority: None,
            policy: None,
            device: None,
        }
    }

    /// Registers this chain with a hook, at a priority. This makes it a base
    /// chain.
    pub fn set_hook_priority(&mut self, hook: Hook, priority: Priority)
        ensures
            final(self)@ == (ChainView { hook: Some(hook), priority: Some(priority), ..old(self)@ }),
    {
        self.hook = Some(hook);
        self.priority = Some(priority);
    }

    /// Sets the type of this base chain.
    pub fn set_type(&mut self, chain_type: ChainType)
        ensures
            final(self)@ == (ChainView { chain_type: Some(chain_type), ..old(self)@ }),
    {
        self.chain_type = Some(chain_type);
    }

    /// Sets what happens to packets that reach the end of this base chain.
    pub fn set_policy(&mut self, policy: Policy)
        ensures
            final(self)@ == (ChainView { policy: Some(policy), ..old(self)@ }),
    {
        self.policy = Some(policy);
    }

    /// Sets the device of this base chain, which an ingress hook needs.
    pub fn set_device(&mut self, device: &str)
        ensures
            final(self)@ == (ChainView { device: Some(device@), ..old(self)@ }),
    {
        self.device = Some(device.to_owned());
    }

    /// Makes this chain a base chain of the given type at the given hook and
    /// priority, if these are complete and acceptable in the chain's family.
    /// Otherwise the chain stays as it was, and the error says what is wrong.
    pub fn set_base(
        &mut self,
        chain_type: Option<ChainType>,
        hook: Option<Hook>,
        priority: Option<ChainPriority>,
    ) -> (r: Result<(), ChainError>)
        ensures
            match base_validated(chain_type, old(self)@.table.family, hook, priority) {
                Ok(value) => r.is_ok() && final(self)@ == (ChainView {
                    chain_type,
                    hook,
                    priority: Some(value),
                    ..old(self)@
                }),
                Err(e) => r == Err::<(), ChainError>(e) && final(self)@ == old(self)@,
            },
    {
        match validate_base(chain_type, self.table.get_family(), hook, priority) {
            Ok(value) => {
                self.chain_type = chain_type;
                self.hook = hook;
                self.priority = Some(value);
                Ok(())
            },
            Err(e) => Err(e),
        }
    }

    /// Whether this chain may be sent: always if it is a regular chain, and
    /// only if it is complete and acceptable if it is a base chain.
    pub fn validate(&self) -> (r: Result<(), ChainError>)
        ensures
            r == self@.checked(),
    {
        if self.chain_type.is_none() && self.hook.is_none() && self.priority.is_none()
            && self.policy.is_none() && self.device.is_none() {
            return Ok(());
        }
        let priority = match self.priority {
            Some(value) => Some(ChainPriority::Value(value)),
            None => None,
        };
        match validate_base(self.chain_type, self.table.get_family(), self.hook, priority) {
            Ok(_) => Ok(()),
            Err(e) => Err(e),
        }
    }

    /// The name of this chain.
    pub fn get_name(&self) -> (r: &str)
        ensures
            r@ == self@.name,
    {
        self.name.as_str()
    }

    /// The table that this chain lives in.
    pub fn get_table(&self) -> (r: &Table)
        ensures
            r@ == self@.table,
    {
        &self.table
    }

    /// A chain with the same name, table and settings.
    pub fn duplicate(&self) -> (r: Chain)
        ensures
            r@ == self@,
    {
        Chain {
            name: self.name.clone(),
            table: self.table.duplicate(),
            chain_type: self.chain_type,
            hook: self.hook,
            priority: self.priority,
            policy: self.policy,
            device: match &self.device {
                Some(device) => Some(device.clone()),
                None => None,
            },
        }
    }
}

impl NlMsg for Chain {
    /// The message names the chain and its table and carries what was set of
    /// hook, priority, device, policy and type. It exists only for a chain
    /// that may be sent.
    open spec fn message(&self, seq: u32, msg_type: MsgType) -> Option<Seq<u8>> {
        if self@.encodable() {
            Some(frame(ObjectKind::Chain, msg_type, self@.table.family, seq, self@.payload()))
        } else {
            None
        }
    }

    fn write(&self, seq: u32, msg_type: MsgType) -> (r: Option<Vec<u8>>) {
        if self.validate().is_err() {
            return None;
        }
        match self.encode_payload() {
            Some(payload) => build_frame(
                ObjectKind::Chain,
                msg_type,
                self.table.get_family(),
                seq,
                payload.as_slice(),
            ),
            None => None,
        }
    }
}

impl Chain {
    /// The attributes of the hook, if the name of the device fits.
    fn encode_hook(&self) -> (r: Option<Vec<u8>>)
        ensures
            r.is_some() == (self@.device matches Some(device) ==> str_fits(device)),
            r matches Some(bytes) ==> bytes@ == self@.hook_payload(),
    {
        let mut buf: Vec<u8> = Vec::new();
        if let Some(hook) = self.hook {
            push_attr_u32(&mut buf, NFTA_HOOK_HOOKNUM, hook.to_raw() as u32);
        }
        if let Some(priority) = self.priority {
            push_attr_u32(&mut buf, NFTA_HOOK_PRIORITY, to_unsigned32(priority));
        }
        if let Some(device) = &self.device {
            if !push_attr_str(&mut buf, NFTA_HOOK_DEV, device.as_str()) {
                return None;
            }
        }
        assert(buf@ =~= self@.hook_payload());
        Some(buf)
    }

    /// The policy and the type, as far as they were set.
    fn encode_tail(&self, buf: &mut Vec<u8>)
        ensures
            final(buf)@ == old(buf)@ + self@.tail_payload(),
            self@.tail_payload().len() <= 20,
    {
        if let Some(policy) = self.policy {
            push_attr_u32(buf, NFTA_CHAIN_POLICY, policy.to_raw());
        }
        if let Some(chain_type) = self.chain_type {
            proof {
                type_name_fits(chain_type);
            }
            push_attr_str(buf, NFTA_CHAIN_TYPE, chain_type.as_str());
        }
        assert(buf@ =~= old(buf)@ + self@.tail_payload());
        assert(self@.tail_payload().len() <= 20) by {
            if let Some(chain_type) = self.chain_type {
                type_name_fits(chain_type);
            }
        }
    }

    /// The attributes of this chain, if each has room for what it holds.
    fn encode_payload(&self) -> (r: Option<Vec<u8>>)
        ensures
            r.is_some() == (str_fits(self@.table.name) && str_fits(self@.name) && attr_fits(
                self@.hook_payload(),
            )),
            r matches Some(bytes) ==> bytes@ == self@.payload() && message_fits(bytes@),
    {
        let mut payload: Vec<u8> = Vec::new();
        if !push_attr_str(&mut payload, NFTA_CHAIN_TABLE, self.table.get_name()) {
            return None;
        }
        if !push_attr_str(&mut payload, NFTA_CHAIN_NAME, self.name.as_str()) {
            return None;
        }
        let hook = match self.encode_hook() {
            Some(hook) => hook,
            None => {
                proof {
                    device_too_long(self@);
                }
                return None;
            },
        };
        if self.hook.is_some() || self.priority.is_some() || self.device.is_some() {
            if !push_nested(&mut payload, NFTA_CHAIN_HOOK, hook.as_slice()) {
                return None;
            }
        } else {
            assert(hook@.len() == 0);
        }
        assert(payload@ =~= self@.head_payload());
        assert(payload@.len() <= 3 * 65540);
        self.encode_tail(&mut payload);
        Some(payload)
    }
}

/// A hook whose device has a name too long for an attribute is itself too
/// long for one.
proof fn device_too_long(v: ChainView)
    requires
        v.device matches Some(device) && !str_fits(device),
    ensures
        !attr_fits(v.hook_payload()),
{
}

/// The name of every type of chain is short enough for an attribute.
proof fn type_name_fits(chain_type: ChainType)
    ensures
        str_fits(chain_type.name()),
        text(chain_type.name()).len() <= 6,
{
    reveal_strlit("filter");
    reveal_strlit("route");
    reveal_strlit("nat");
    vstd::utf8::is_ascii_chars_encode_utf8(chain_type.name());
}

/// A base chain is acceptable exactly where its type fits the hook and the
/// family and, if it translates addresses, its priority is above the floor.
pub proof fn lemma_validated_iff(
    chain_type: ChainType,
    family: ProtoFamily,
    hook: Hook,
    priority: Priority,
)
    ensures
        validated(chain_type, family, hook, priority).is_ok() <==> legal(chain_type, family, hook)
            && (chain_type == ChainType::Nat ==> priority > NAT_PRIORITY_FLOOR),
{
}

/// Where a chain that translates addresses fits the hook and the family, its
/// priority alone decides: at the floor and below it is refused as an invalid
/// priority, above it is accepted.
pub proof fn lemma_nat_priority_decides(family: ProtoFamily, hook: Hook, priority: Priority)
    requires
        legal(ChainType::Nat, family, hook),
    ensures
        priority <= -200 ==> validated(ChainType::Nat, family, hook, priority) == Err::<
            (),
            ChainError,
        >(ChainError::InvalidPriority),
        priority > -200 ==> validated(ChainType::Nat, family, hook, priority).is_ok(),
{
}

/// A base chain without a hook is refused for that, whatever its type and
/// its priority are.
pub proof fn lemma_missing_hook_is_reported(
    chain_type: ChainType,
    family: ProtoFamily,
    priority: Option<ChainPriority>,
)
    ensures
        base_validated(Some(chain_type), family, None, priority) == Err::<Priority, ChainError>(
            ChainError::MissingHook,
        ),
{
}

/// The names for address translation stand for a priority at one hook only:
/// the destination's before routing, and the source's after it. `Output`
/// stands for a priority in the bridge at the output hook, and nowhere else.
pub proof fn lemma_names_are_tied_to_hooks(family: ProtoFamily, hook: Hook)
    ensures
        named_priority(PriorityName::DestinationNat, family, hook).is_some() ==> hook
            == Hook::PreRouting,
        named_priority(PriorityName::SourceNat, family, hook).is_some() ==> hook
            == Hook::PostRouting,
        named_priority(PriorityName::Output, family, hook).is_some() <==> family
            == ProtoFamily::Bridge && hook == Hook::Out,
        named_priority(PriorityName::Output, family, hook).is_some() ==> named_priority(
            PriorityName::Output,
            family,
            hook,
        ) == Some(100i32),
{
}

/// A number of the kernel's that is not negative, as an unsigned one.
fn unsigned(x: i32) -> (r: u32)
    requires
        x >= 0,
    ensures
        r == x,
{
    x as u32
}

/// Whether a family is one of the three that carry IP.
pub fn ip_family(family: ProtoFamily) -> (r: bool)
    ensures
        r == is_ip_family(family),
{
    match family {
        ProtoFamily::Inet | ProtoFamily::Ipv4 | ProtoFamily::Ipv6 => true,
        _ => false,
    }
}

/// The number that a name stands for at a hook in a family, if any.
pub fn resolve_name(name: PriorityName, family: ProtoFamily, hook: Hook) -> (r: Option<Priority>)
    ensures
        r == named_priority(name, family, hook),
{
    let ip = ip_family(family);
    match family {
        ProtoFamily::Bridge => match name {
            PriorityName::DestinationNat => match hook {
                Hook::PreRouting => Some(-300),
                _ => None,
            },
            PriorityName::Filter => Some(-200),
            PriorityName::Output => match hook {
                Hook::Out => Some(100),
                _ => None,
            },
            PriorityName::SourceNat => match hook {
                Hook::PostRouting => Some(300),
                _ => None,
            },
            _ => None,
        },
        _ => match name {
            PriorityName::Raw => if ip {
                Some(-300)
            } else {
                None
            },
            PriorityName::Mangle => if ip {
                Some(-150)
            } else {
                None
            },
            PriorityName::DestinationNat => match hook {
                Hook::PreRouting => if ip {
                    Some(-100)
                } else {
                    None
                },
                _ => None,
            },
            PriorityName::Filter => match family {
                ProtoFamily::Inet | ProtoFamily::Ipv4 | ProtoFamily::Ipv6 | ProtoFamily::Arp
                | ProtoFamily::NetDev => Some(0),
                _ => None,
            },
            PriorityName::Security => if ip {
                Some(50)
            } else {
                None
            },
            PriorityName::SourceNat => match hook {
                Hook::PostRouting => if ip {
                    Some(100)
                } else {
                    None
                },
                _ => None,
            },
            PriorityName::Output => None,
        },
    }
}

/// The number of a priority at a hook in a family.
///
/// A plain number stands for itself. A name is looked up; it fails with
/// `UndefinedPriority` where it stands for nothing at this hook in this
/// family. A distance is added to the name's number, and fails with
/// `PriorityOutOfRange` where the sum is no `i32`.
pub fn resolve(priority: ChainPriority, family: ProtoFamily, hook: Hook) -> (r: Result<
    Priority,
    ChainError,
>)
    ensures
        r == resolved(priority, family, hook),
{
    match priority {
        ChainPriority::Value(value) => Ok(value),
        ChainPriority::Name(name) => match resolve_name(name, family, hook) {
            Some(value) => Ok(value),
            None => Err(ChainError::UndefinedPriority),
        },
        ChainPriority::NameOffset(name, offset) => match resolve_name(name, family, hook) {
            Some(value) => match value.checked_add(offset) {
                Some(sum) => Ok(sum),
                None => Err(ChainError::PriorityOutOfRange),
            },
            None => Err(ChainError::UndefinedPriority),
        },
    }
}

/// Whether a chain of the given type can be registered with the hook in the
/// family.
pub fn is_legal(chain_type: ChainType, family: ProtoFamily, hook: Hook) -> (r: bool)
    ensures
        r == legal(chain_type, family, hook),
{
    match chain_type {
        ChainType::Filter => match family {
            ProtoFamily::Arp => match hook {
                Hook::In | Hook::Out => true,
                _ => false,
            },
            _ => true,
        },
        ChainType::Nat => ip_family(family) && match hook {
            Hook::PreRouting | Hook::In | Hook::Out | Hook::PostRouting => true,
            _ => false,
        },
        ChainType::Route => ip_family(family) && match hook {
            Hook::Out => true,
            _ => false,
        },
    }
}

/// Decides whether a base chain is acceptable: `InvalidCombination` where no
/// chain of this type can be registered with this hook in this family, else
/// `InvalidPriority` where a chain that translates addresses has a priority of
/// -200 or lower.
pub fn validate(chain_type: ChainType, family: ProtoFamily, hook: Hook, priority: Priority) -> (r:
    Result<(), ChainError>)
    ensures
        r == validated(chain_type, family, hook, priority),
{
    if !is_legal(chain_type, family, hook) {
        return Err(ChainError::InvalidCombination);
    }
    match chain_type {
        ChainType::Nat => if priority <= NAT_PRIORITY_FLOOR {
            Err(ChainError::InvalidPriority)
        } else {
            Ok(())
        },
        _ => Ok(()),
    }
}

/// Decides whether what is known of a base chain is complete and acceptable,
/// and gives the number of its priority if it is.
pub fn validate_base(
    chain_type: Option<ChainType>,
    family: ProtoFamily,
    hook: Option<Hook>,
    priority: Option<ChainPriority>,
) -> (r: Result<Priority, ChainError>)
    ensures
        r == base_validated(chain_type, family, hook, priority),
{
    let chain_type = match chain_type {
        Some(t) => t,
        None => return Err(ChainError::MissingType),
    };
    let hook = match hook {
        Some(h) => h,
        None => return Err(ChainError::MissingHook),
    };
    let priority = match priority {
        Some(p) => p,
        None => return Err(ChainError::MissingPriority),
    };
    let value = match resolve(priority, family, hook) {
        Ok(v) => v,
        Err(e) => return Err(e),
    };
    match validate(chain_type, family, hook, value) {
        Ok(()) => Ok(value),
        Err(e) => Err(e),
    }
}

} // verus!
