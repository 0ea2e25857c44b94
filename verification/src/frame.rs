//! The header in front of every object that is sent to the packet filter:
//! which operation the message asks for, with which flags, for which family
//! and under which sequence number.

use crate::netlink::{build_object_message, message_fits, object_message};
use crate::sys;
use crate::{MsgType, ProtoFamily};
use vstd::prelude::*;

verus! {

/// The kinds of object that a message can carry.
#[derive(Debug, Copy, Clone, PartialEq, Eq, Hash, Structural)]
pub enum ObjectKind {
    Table,
    Chain,
    Rule,
    /// A set, without its elements.
    NftSet,
    /// One page of the elements of a set.
    SetElements,
}

/// The operation that adds or removes an object of the given kind.
pub open spec fn opcode(kind: ObjectKind, msg_type: MsgType) -> u16 {
    match (kind, msg_type) {
        (ObjectKind::Table, MsgType::Add) => 0,
        (ObjectKind::Table, MsgType::Del) => 2,
        (ObjectKind::Chain, MsgType::Add) => 3,
        (ObjectKind::Chain, MsgType::Del) => 5,
        (ObjectKind::Rule, MsgType::Add) => 6,
        (ObjectKind::Rule, MsgType::Del) => 8,
        (ObjectKind::NftSet, MsgType::Add) => 9,
        (ObjectKind::NftSet, MsgType::Del) => 11,
        (ObjectKind::SetElements, MsgType::Add) => 12,
        (ObjectKind::SetElements, MsgType::Del) => 14,
    }
}

/// The flags of a message. Every message is a request that asks for an
/// acknowledgement. One that adds an object also asks to create it if it is
/// not there; a rule is moreover added at the end of its chain, and only if no
/// rule like it exists.
pub open spec fn flags(kind: ObjectKind, msg_type: MsgType) -> u16 {
    match msg_type {
        MsgType::Add => if kind == ObjectKind::Rule {
            0x0e05
        } else {
            0x0405
        },
        MsgType::Del => 0x0005,
    }
}

/// The bytes of the message that adds or removes an object, given the bytes of
/// the object's attributes.
pub open spec fn frame(
    kind: ObjectKind,
    msg_type: MsgType,
    family: ProtoFamily,
    seq: u32,
    payload: Seq<u8>,
) -> Seq<u8>
    recommends
        message_fits(payload),
{
    object_message(opcode(kind, msg_type), family.raw(), flags(kind, msg_type), seq, payload)
}

/// The operation that adds or removes an object of the given kind.
pub fn raw_opcode(kind: ObjectKind, msg_type: MsgType) -> (r: u16)
    ensures
        r == opcode(kind, msg_type),
{
    match (kind, msg_type) {
        (ObjectKind::Table, MsgType::Add) => sys::msg_newtable(),
        (ObjectKind::Table, MsgType::Del) => sys::msg_deltable(),
        (ObjectKind::Chain, MsgType::Add) => sys::msg_newchain(),
        (ObjectKind::Chain, MsgType::Del) => sys::msg_delchain(),
        (ObjectKind::Rule, MsgType::Add) => sys::msg_newrule(),
        (ObjectKind::Rule, MsgType::Del) => sys::msg_delrule(),
        (ObjectKind::NftSet, MsgType::Add) => sys::msg_newset(),
        (ObjectKind::NftSet, MsgType::Del) => sys::msg_delset(),
        (ObjectKind::SetElements, MsgType::Add) => sys::msg_newsetelem(),
        (ObjectKind::SetElements, MsgType::Del) => sys::msg_delsetelem(),
    }
}

/// The flags of the message that adds or removes an object of the given kind.
pub fn raw_flags(kind: ObjectKind, msg_type: MsgType) -> (r: u16)
    ensures
        r == flags(kind, msg_type),
{
    let request: u16 = sys::nlm_f_request() | sys::nlm_f_ack();
    assert(1u16 | 4u16 == 5u16) by (bit_vector);
    match msg_type {
        MsgType::Add => {
            let create: u16 = request | sys::nlm_f_create();
            assert(5u16 | 0x400u16 == 0x405u16) by (bit_vector);
            match kind {
                ObjectKind::Rule => {
                    assert(0x405u16 | 0x800u16 | 0x200u16 == 0xe05u16) by (bit_vector);
                    create | sys::nlm_f_append() | sys::nlm_f_excl()
                },
                _ => create,
            }
        },
        MsgType::Del => request,
    }
}

/// The bytes of the message that adds or removes an object, given the bytes of
/// the object's attributes; `None` where these are too many for one message.
pub fn build_frame(
    kind: ObjectKind,
    msg_type: MsgType,
    family: ProtoFamily,
    seq: u32,
    payload: &[u8],
) -> (r: Option<Vec<u8>>)
    ensures
        r.is_some() == message_fits(payload@),
        r matches Some(bytes) ==> bytes@ == frame(kind, msg_type, family, seq, payload@),
{
    build_object_message(
        raw_opcode(kind, msg_type),
        family.to_raw(),
        raw_flags(kind, msg_type),
        seq,
        payload,
    )
}

} // verus!
