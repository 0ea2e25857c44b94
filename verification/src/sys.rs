//! The numbers that the kernel's packet filter assigns to registers, operators,
//! keys, hooks, families, verdicts and message types, as the `libc` crate
//! publishes them, and what the `nix` crate tells about the running system.
//!
//! Nothing in this file is proved: each function returns a value of an outside
//! crate, and its contract repeats what that crate's source says.

use vstd::prelude::*;

verus! {

// Data registers.

/// `libc::NFT_REG_VERDICT`, the number for the verdict register: 0.
#[verifier::external_body]
pub(crate) fn reg_verdict() -> (r: u32)
    ensures
        r == 0,
{
    libc::NFT_REG_VERDICT as u32
}

/// `libc::NFT_REG_1`, the number for the first 128-bit data register: 1.
#[verifier::external_body]
pub(crate) fn reg_1() -> (r: u32)
    ensures
        r == 1,
{
    libc::NFT_REG_1 as u32
}

/// `libc::NFT_REG_2`, the number for the second 128-bit data register: 2.
#[verifier::external_body]
pub(crate) fn reg_2() -> (r: u32)
    ensures
        r == 2,
{
    libc::NFT_REG_2 as u32
}

/// `libc::NFT_REG_3`, the number for the third 128-bit data register: 3.
#[verifier::external_body]
pub(crate) fn reg_3() -> (r: u32)
    ensures
        r == 3,
{
    libc::NFT_REG_3 as u32
}

/// `libc::NFT_REG_4`, the number for the fourth 128-bit data register: 4.
#[verifier::external_body]
pub(crate) fn reg_4() -> (r: u32)
    ensures
        r == 4,
{
    libc::NFT_REG_4 as u32
}

// Comparison operators.

/// `libc::NFT_CMP_EQ`, the number for equal: 0.
#[verifier::external_body]
pub(crate) fn compare_eq() -> (r: u32)
    ensures
        r == 0,
{
    libc::NFT_CMP_EQ as u32
}

/// `libc::NFT_CMP_NEQ`, the number for not equal: 1.
#[verifier::external_body]
pub(crate) fn compare_neq() -> (r: u32)
    ensures
        r == 1,
{
    libc::NFT_CMP_NEQ as u32
}

/// `libc::NFT_CMP_LT`, the number for less than: 2.
#[verifier::external_body]
pub(crate) fn compare_lt() -> (r: u32)
    ensures
        r == 2,
{
    libc::NFT_CMP_LT as u32
}

/// `libc::NFT_CMP_LTE`, the number for less than or equal: 3.
#[verifier::external_body]
pub(crate) fn compare_lte() -> (r: u32)
    ensures
        r == 3,
{
    libc::NFT_CMP_LTE as u32
}

/// `libc::NFT_CMP_GT`, the number for greater than: 4.
#[verifier::external_body]
pub(crate) fn compare_gt() -> (r: u32)
    ensures
        r == 4,
{
    libc::NFT_CMP_GT as u32
}

/// `libc::NFT_CMP_GTE`, the number for greater than or equal: 5.
#[verifier::external_body]
pub(crate) fn compare_gte() -> (r: u32)
    ensures
        r == 5,
{
    libc::NFT_CMP_GTE as u32
}

// Packet metadata keys.

/// `libc::NFT_META_PROTOCOL`, the number for the ethertype of the packet: 1.
#[verifier::external_body]
pub(crate) fn meta_protocol() -> (r: u32)
    ensures
        r == 1,
{
    libc::NFT_META_PROTOCOL as u32
}

/// `libc::NFT_META_IIF`, the number for the index of the input interface: 4.
#[verifier::external_body]
pub(crate) fn meta_iif() -> (r: u32)
    ensures
        r == 4,
{
    libc::NFT_META_IIF as u32
}

/// `libc::NFT_META_OIF`, the number for the index of the output interface: 5.
#[verifier::external_body]
pub(crate) fn meta_oif() -> (r: u32)
    ensures
        r == 5,
{
    libc::NFT_META_OIF as u32
}

/// `libc::NFT_META_IIFNAME`, the number for the name of the input interface: 6.
#[verifier::external_body]
pub(crate) fn meta_iifname() -> (r: u32)
    ensures
        r == 6,
{
    libc::NFT_META_IIFNAME as u32
}

/// `libc::NFT_META_OIFNAME`, the number for the name of the output interface: 7.
#[verifier::external_body]
pub(crate) fn meta_oifname() -> (r: u32)
    ensures
        r == 7,
{
    libc::NFT_META_OIFNAME as u32
}

/// `libc::NFT_META_IIFTYPE`, the number for the type of the input interface: 8.
#[verifier::external_body]
pub(crate) fn meta_iiftype() -> (r: u32)
    ensures
        r == 8,
{
    libc::NFT_META_IIFTYPE as u32
}

/// `libc::NFT_META_OIFTYPE`, the number for the type of the output interface: 9.
#[verifier::external_body]
pub(crate) fn meta_oiftype() -> (r: u32)
    ensures
        r == 9,
{
    libc::NFT_META_OIFTYPE as u32
}

/// `libc::NFT_META_NFPROTO`, the number for the netfilter protocol family: 15.
#[verifier::external_body]
pub(crate) fn meta_nfproto() -> (r: u32)
    ensures
        r == 15,
{
    libc::NFT_META_NFPROTO as u32
}

/// `libc::NFT_META_L4PROTO`, the number for the layer 4 protocol number: 16.
#[verifier::external_body]
pub(crate) fn meta_l4proto() -> (r: u32)
    ensures
        r == 16,
{
    libc::NFT_META_L4PROTO as u32
}

/// `libc::NFT_META_CGROUP`, the number for the control group of the socket: 23.
#[verifier::external_body]
pub(crate) fn meta_cgroup() -> (r: u32)
    ensures
        r == 23,
{
    libc::NFT_META_CGROUP as u32
}

/// `libc::NFT_META_PRANDOM`, the number for a pseudo-random 32-bit number: 24.
#[verifier::external_body]
pub(crate) fn meta_prandom() -> (r: u32)
    ensures
        r == 24,
{
    libc::NFT_META_PRANDOM as u32
}

// Connection tracking keys.

/// `libc::NFT_CT_STATE`, the number for the state of the connection: 0.
#[verifier::external_body]
pub(crate) fn ct_state() -> (r: u32)
    ensures
        r == 0,
{
    libc::NFT_CT_STATE as u32
}

/// `libc::NFT_CT_STATUS`, the number for the status of the connection: 2.
#[verifier::external_body]
pub(crate) fn ct_status() -> (r: u32)
    ensures
        r == 2,
{
    libc::NFT_CT_STATUS as u32
}

/// `libc::NFT_CT_MARK`, the number for the mark of the connection: 3.
#[verifier::external_body]
pub(crate) fn ct_mark() -> (r: u32)
    ensures
        r == 3,
{
    libc::NFT_CT_MARK as u32
}

/// `libc::NFT_CT_ZONE`, the number for the zone of the connection: 17.
#[verifier::external_body]
pub(crate) fn ct_zone() -> (r: u32)
    ensures
        r == 17,
{
    libc::NFT_CT_ZONE as u32
}

// Payload bases.

/// `libc::NFT_PAYLOAD_LL_HEADER`, the number for the link layer header: 0.
#[verifier::external_body]
pub(crate) fn payload_ll_header() -> (r: u32)
    ensures
        r == 0,
{
    libc::NFT_PAYLOAD_LL_HEADER as u32
}

/// `libc::NFT_PAYLOAD_NETWORK_HEADER`, the number for the network header: 1.
#[verifier::external_body]
pub(crate) fn payload_network_header() -> (r: u32)
    ensures
        r == 1,
{
    libc::NFT_PAYLOAD_NETWORK_HEADER as u32
}

/// `libc::NFT_PAYLOAD_TRANSPORT_HEADER`, the number for the transport header: 2.
#[verifier::external_body]
pub(crate) fn payload_transport_header() -> (r: u32)
    ensures
        r == 2,
{
    libc::NFT_PAYLOAD_TRANSPORT_HEADER as u32
}

// Address translation kinds.

/// `libc::NFT_NAT_SNAT`, the number for source address translation: 0.
#[verifier::external_body]
pub(crate) fn nat_snat() -> (r: u32)
    ensures
        r == 0,
{
    libc::NFT_NAT_SNAT as u32
}

/// `libc::NFT_NAT_DNAT`, the number for destination address translation: 1.
#[verifier::external_body]
pub(crate) fn nat_dnat() -> (r: u32)
    ensures
        r == 1,
{
    libc::NFT_NAT_DNAT as u32
}

// Protocol families.

/// `libc::NFPROTO_UNSPEC`, the number for no particular family: 0.
#[verifier::external_body]
pub(crate) fn nfproto_unspec() -> (r: u16)
    ensures
        r == 0,
{
    libc::NFPROTO_UNSPEC as u16
}

/// `libc::NFPROTO_INET`, the number for IPv4 and IPv6 together: 1.
#[verifier::external_body]
pub(crate) fn nfproto_inet() -> (r: u16)
    ensures
        r == 1,
{
    libc::NFPROTO_INET as u16
}

/// `libc::NFPROTO_IPV4`, the number for IPv4: 2.
#[verifier::external_body]
pub(crate) fn nfproto_ipv4() -> (r: u16)
    ensures
        r == 2,
{
    libc::NFPROTO_IPV4 as u16
}

/// `libc::NFPROTO_ARP`, the number for ARP: 3.
#[verifier::external_body]
pub(crate) fn nfproto_arp() -> (r: u16)
    ensures
        r == 3,
{
    libc::NFPROTO_ARP as u16
}

/// `libc::NFPROTO_NETDEV`, the number for a network device: 5.
#[verifier::external_body]
pub(crate) fn nfproto_netdev() -> (r: u16)
    ensures
        r == 5,
{
    libc::NFPROTO_NETDEV as u16
}

/// `libc::NFPROTO_BRIDGE`, the number for the bridge: 7.
#[verifier::external_body]
pub(crate) fn nfproto_bridge() -> (r: u16)
    ensures
        r == 7,
{
    libc::NFPROTO_BRIDGE as u16
}

/// `libc::NFPROTO_IPV6`, the number for IPv6: 10.
#[verifier::external_body]
pub(crate) fn nfproto_ipv6() -> (r: u16)
    ensures
        r == 10,
{
    libc::NFPROTO_IPV6 as u16
}

/// `libc::NFPROTO_DECNET`, the number for DECnet: 12.
#[verifier::external_body]
pub(crate) fn nfproto_decnet() -> (r: u16)
    ensures
        r == 12,
{
    libc::NFPROTO_DECNET as u16
}

// Hooks.

/// `libc::NF_INET_PRE_ROUTING`, the number for the pre-routing hook: 0.
#[verifier::external_body]
pub(crate) fn hook_pre_routing() -> (r: u16)
    ensures
        r == 0,
{
    libc::NF_INET_PRE_ROUTING as u16
}

/// `libc::NF_INET_LOCAL_IN`, the number for the input hook: 1.
#[verifier::external_body]
pub(crate) fn hook_local_in() -> (r: u16)
    ensures
        r == 1,
{
    libc::NF_INET_LOCAL_IN as u16
}

/// `libc::NF_INET_FORWARD`, the number for the forward hook: 2.
#[verifier::external_body]
pub(crate) fn hook_forward() -> (r: u16)
    ensures
        r == 2,
{
    libc::NF_INET_FORWARD as u16
}

/// `libc::NF_INET_LOCAL_OUT`, the number for the output hook: 3.
#[verifier::external_body]
pub(crate) fn hook_local_out() -> (r: u16)
    ensures
        r == 3,
{
    libc::NF_INET_LOCAL_OUT as u16
}

/// `libc::NF_INET_POST_ROUTING`, the number for the post-routing hook: 4.
#[verifier::external_body]
pub(crate) fn hook_post_routing() -> (r: u16)
    ensures
        r == 4,
{
    libc::NF_INET_POST_ROUTING as u16
}

/// `libc::NF_INET_INGRESS`, the number for the ingress hook: 5.
#[verifier::external_body]
pub(crate) fn hook_ingress() -> (r: u16)
    ensures
        r == 5,
{
    libc::NF_INET_INGRESS as u16
}

// Verdicts.

/// `libc::NF_DROP`, the number for dropping the packet: 0.
#[verifier::external_body]
pub(crate) fn verdict_drop() -> (r: i32)
    ensures
        r == 0,
{
    libc::NF_DROP
}

/// `libc::NF_ACCEPT`, the number for accepting the packet: 1.
#[verifier::external_body]
pub(crate) fn verdict_accept() -> (r: i32)
    ensures
        r == 1,
{
    libc::NF_ACCEPT
}

/// `libc::NF_QUEUE`, the number for queueing the packet to userspace: 3.
#[verifier::external_body]
pub(crate) fn verdict_queue() -> (r: i32)
    ensures
        r == 3,
{
    libc::NF_QUEUE
}

/// `libc::NFT_CONTINUE`, the number for continuing with the next expression: -1.
#[verifier::external_body]
pub(crate) fn verdict_continue() -> (r: i32)
    ensures
        r == -1,
{
    libc::NFT_CONTINUE
}

/// `libc::NFT_BREAK`, the number for leaving the current rule: -2.
#[verifier::external_body]
pub(crate) fn verdict_break() -> (r: i32)
    ensures
        r == -2,
{
    libc::NFT_BREAK
}

/// `libc::NFT_JUMP`, the number for jumping to a chain: -3.
#[verifier::external_body]
pub(crate) fn verdict_jump() -> (r: i32)
    ensures
        r == -3,
{
    libc::NFT_JUMP
}

/// `libc::NFT_GOTO`, the number for going to a chain without return: -4.
#[verifier::external_body]
pub(crate) fn verdict_goto() -> (r: i32)
    ensures
        r == -4,
{
    libc::NFT_GOTO
}

/// `libc::NFT_RETURN`, the number for returning to the calling chain: -5.
#[verifier::external_body]
pub(crate) fn verdict_return() -> (r: i32)
    ensures
        r == -5,
{
    libc::NFT_RETURN
}

// Rejections.

/// `libc::NFT_REJECT_ICMP_UNREACH`, the number for an ICMP unreachable reply of the packet's own family: 0.
#[verifier::external_body]
pub(crate) fn reject_unreach() -> (r: u32)
    ensures
        r == 0,
{
    libc::NFT_REJECT_ICMP_UNREACH as u32
}

/// `libc::NFT_REJECT_TCP_RST`, the number for a TCP reset: 1.
#[verifier::external_body]
pub(crate) fn reject_tcp_rst() -> (r: u32)
    ensures
        r == 1,
{
    libc::NFT_REJECT_TCP_RST as u32
}

/// `libc::NFT_REJECT_ICMPX_UNREACH`, the number for an ICMP unreachable reply that fits either IP family: 2.
#[verifier::external_body]
pub(crate) fn reject_unreach_inet() -> (r: u32)
    ensures
        r == 2,
{
    libc::NFT_REJECT_ICMPX_UNREACH as u32
}

// Rejection codes.

/// `libc::NFT_REJECT_ICMPX_NO_ROUTE`, the number for no route to the destination: 0.
#[verifier::external_body]
pub(crate) fn unreach_no_route() -> (r: u8)
    ensures
        r == 0,
{
    libc::NFT_REJECT_ICMPX_NO_ROUTE as u8
}

/// `libc::NFT_REJECT_ICMPX_PORT_UNREACH`, the number for port unreachable: 1.
#[verifier::external_body]
pub(crate) fn unreach_port() -> (r: u8)
    ensures
        r == 1,
{
    libc::NFT_REJECT_ICMPX_PORT_UNREACH as u8
}

/// `libc::NFT_REJECT_ICMPX_HOST_UNREACH`, the number for host unreachable: 2.
#[verifier::external_body]
pub(crate) fn unreach_host() -> (r: u8)
    ensures
        r == 2,
{
    libc::NFT_REJECT_ICMPX_HOST_UNREACH as u8
}

/// `libc::NFT_REJECT_ICMPX_ADMIN_PROHIBITED`, the number for administratively prohibited: 3.
#[verifier::external_body]
pub(crate) fn unreach_admin_prohibited() -> (r: u8)
    ensures
        r == 3,
{
    libc::NFT_REJECT_ICMPX_ADMIN_PROHIBITED as u8
}

// Message types.

/// `libc::NFT_MSG_NEWTABLE`, the number for creating a table: 0.
#[verifier::external_body]
pub(crate) fn msg_newtable() -> (r: u16)
    ensures
        r == 0,
{
    libc::NFT_MSG_NEWTABLE as u16
}

/// `libc::NFT_MSG_GETTABLE`, the number for listing tables: 1.
#[verifier::external_body]
pub(crate) fn msg_gettable() -> (r: u16)
    ensures
        r == 1,
{
    libc::NFT_MSG_GETTABLE as u16
}

/// `libc::NFT_MSG_DELTABLE`, the number for deleting a table: 2.
#[verifier::external_body]
pub(crate) fn msg_deltable() -> (r: u16)
    ensures
        r == 2,
{
    libc::NFT_MSG_DELTABLE as u16
}

/// `libc::NFT_MSG_NEWCHAIN`, the number for creating a chain: 3.
#[verifier::external_body]
pub(crate) fn msg_newchain() -> (r: u16)
    ensures
        r == 3,
{
    libc::NFT_MSG_NEWCHAIN as u16
}

/// `libc::NFT_MSG_DELCHAIN`, the number for deleting a chain: 5.
#[verifier::external_body]
pub(crate) fn msg_delchain() -> (r: u16)
    ensures
        r == 5,
{
    libc::NFT_MSG_DELCHAIN as u16
}

/// `libc::NFT_MSG_NEWRULE`, the number for creating a rule: 6.
#[verifier::external_body]
pub(crate) fn msg_newrule() -> (r: u16)
    ensures
        r == 6,
{
    libc::NFT_MSG_NEWRULE as u16
}

/// `libc::NFT_MSG_DELRULE`, the number for deleting a rule: 8.
#[verifier::external_body]
pub(crate) fn msg_delrule() -> (r: u16)
    ensures
        r == 8,
{
    libc::NFT_MSG_DELRULE as u16
}

/// `libc::NFT_MSG_NEWSET`, the number for creating a set: 9.
#[verifier::external_body]
pub(crate) fn msg_newset() -> (r: u16)
    ensures
        r == 9,
{
    libc::NFT_MSG_NEWSET as u16
}

/// `libc::NFT_MSG_DELSET`, the number for deleting a set: 11.
#[verifier::external_body]
pub(crate) fn msg_delset() -> (r: u16)
    ensures
        r == 11,
{
    libc::NFT_MSG_DELSET as u16
}

/// `libc::NFT_MSG_NEWSETELEM`, the number for adding elements to a set: 12.
#[verifier::external_body]
pub(crate) fn msg_newsetelem() -> (r: u16)
    ensures
        r == 12,
{
    libc::NFT_MSG_NEWSETELEM as u16
}

/// `libc::NFT_MSG_DELSETELEM`, the number for removing elements from a set: 14.
#[verifier::external_body]
pub(crate) fn msg_delsetelem() -> (r: u16)
    ensures
        r == 14,
{
    libc::NFT_MSG_DELSETELEM as u16
}

// Message flags.

/// `libc::NLM_F_REQUEST`, the number for marking a request: 1.
#[verifier::external_body]
pub(crate) fn nlm_f_request() -> (r: u16)
    ensures
        r == 1,
{
    libc::NLM_F_REQUEST as u16
}

/// `libc::NLM_F_ACK`, the number for asking for an acknowledgement: 4.
#[verifier::external_body]
pub(crate) fn nlm_f_ack() -> (r: u16)
    ensures
        r == 4,
{
    libc::NLM_F_ACK as u16
}

/// `libc::NLM_F_ROOT`, the number for asking for the whole table of objects: 256.
#[verifier::external_body]
pub(crate) fn nlm_f_root() -> (r: u16)
    ensures
        r == 256,
{
    libc::NLM_F_ROOT as u16
}

/// `libc::NLM_F_MATCH`, the number for asking for all matching objects: 512.
#[verifier::external_body]
pub(crate) fn nlm_f_match() -> (r: u16)
    ensures
        r == 512,
{
    libc::NLM_F_MATCH as u16
}

/// `libc::NLM_F_EXCL`, the number for failing if the object exists: 512.
#[verifier::external_body]
pub(crate) fn nlm_f_excl() -> (r: u16)
    ensures
        r == 512,
{
    libc::NLM_F_EXCL as u16
}

/// `libc::NLM_F_CREATE`, the number for creating the object if it does not exist: 1024.
#[verifier::external_body]
pub(crate) fn nlm_f_create() -> (r: u16)
    ensures
        r == 1024,
{
    libc::NLM_F_CREATE as u16
}

/// `libc::NLM_F_APPEND`, the number for adding at the end of the list: 2048.
#[verifier::external_body]
pub(crate) fn nlm_f_append() -> (r: u16)
    ensures
        r == 2048,
{
    libc::NLM_F_APPEND as u16
}

// Set flags.

/// `libc::NFT_SET_ANONYMOUS`, the number for a set without a name of its own: 1.
#[verifier::external_body]
pub(crate) fn set_anonymous() -> (r: u32)
    ensures
        r == 1,
{
    libc::NFT_SET_ANONYMOUS as u32
}

/// `libc::NFT_SET_CONSTANT`, the number for a set whose content never changes: 2.
#[verifier::external_body]
pub(crate) fn set_constant() -> (r: u32)
    ensures
        r == 2,
{
    libc::NFT_SET_CONSTANT as u32
}
// The running system.

/// `nix::sys::utsname::uname` followed by `UtsName::release`: the release
/// string of the running kernel, or `None` where the call fails or the string
/// is not UTF-8. It differs from machine to machine, so nothing is claimed of
/// the string.
#[verifier::external_body]
pub(crate) fn kernel_release() -> Option<String> {
    let uname = nix::sys::utsname::uname().ok()?;
    Some(uname.release().to_str()?.to_owned())
}

/// `nix::unistd::sysconf` asked for `SysconfVar::PAGE_SIZE`: the size of a
/// memory page in bytes, or `None` where the system gives no answer. It differs
/// from machine to machine, so nothing is claimed of the number.
#[verifier::external_body]
pub(crate) fn page_size() -> Option<i64> {
    let size = nix::unistd::sysconf(nix::unistd::SysconfVar::PAGE_SIZE).ok()?;
    Some(i64::from(size?))
}

} // verus!
