//! The byte layout of netlink messages and of the attributes they carry.
//!
//! A message is a fixed header of twenty bytes followed by attributes. An
//! attribute is a length, a key and a payload, padded with zero bytes to a
//! multiple of four. Header fields are laid out least significant byte first,
//! as the kernel reads them on a little-endian host; the numbers inside
//! attributes are in network byte order on every host.

use vstd::prelude::*;

verus! {

/// Bytes of the netlink header together with the netfilter header behind it.
pub const HEADER_LEN: usize = 20;

/// Bytes of the length and key in front of an attribute's payload.
pub const ATTR_HEADER_LEN: usize = 4;

/// The longest payload whose attribute length still fits in sixteen bits.
pub const MAX_ATTR_PAYLOAD: usize = 65531;

/// The bit in an attribute's key that marks a payload made of attributes.
pub const NESTED: u16 = 0x8000;

/// The subsystem number of the packet filter, the high byte of its message types.
pub const SUBSYS_NFTABLES: u16 = 10;

/// The message type that opens a batch.
pub const MSG_BATCH_BEGIN: u16 = 16;

/// The message type that closes a batch.
pub const MSG_BATCH_END: u16 = 17;

/// `x` in two bytes, least significant first.
pub open spec fn le16(x: u16) -> Seq<u8> {
    seq![(x % 256) as u8, (x / 256) as u8]
}

/// `x` in four bytes, least significant first.
pub open spec fn le32(x: u32) -> Seq<u8> {
    seq![
        (x % 256) as u8,
        (x / 256 % 256) as u8,
        (x / 65536 % 256) as u8,
        (x / 16777216) as u8,
    ]
}

/// `x` in two bytes, most significant first.
pub open spec fn be16(x: u16) -> Seq<u8> {
    seq![(x / 256) as u8, (x % 256) as u8]
}

/// `x` in four bytes, most significant first.
pub open spec fn be32(x: u32) -> Seq<u8> {
    seq![
        (x / 16777216) as u8,
        (x / 65536 % 256) as u8,
        (x / 256 % 256) as u8,
        (x % 256) as u8,
    ]
}

/// `x` in eight bytes, most significant first.
pub open spec fn be64(x: u64) -> Seq<u8> {
    be32((x / 4294967296) as u32) + be32((x % 4294967296) as u32)
}

/// `n` zero bytes.
pub open spec fn zeros(n: nat) -> Seq<u8> {
    Seq::new(n, |i: int| 0u8)
}

/// How many bytes bring a length of `n` up to a multiple of four.
pub open spec fn pad_len(n: nat) -> nat {
    ((4 - n % 4) % 4) as nat
}

/// Whether a payload is short enough for one attribute.
pub open spec fn attr_fits(payload: Seq<u8>) -> bool {
    payload.len() <= MAX_ATTR_PAYLOAD
}

/// The bytes of one attribute: its length without padding, its key, the
/// payload, and the padding.
pub open spec fn attr(key: u16, payload: Seq<u8>) -> Seq<u8>
    recommends
        attr_fits(payload),
{
    le16((ATTR_HEADER_LEN + payload.len()) as u16) + le16(key) + payload + zeros(
        pad_len(payload.len()),
    )
}

/// The bytes of an attribute whose payload is itself a run of attributes.
pub open spec fn nested(key: u16, inner: Seq<u8>) -> Seq<u8>
    recommends
        attr_fits(inner),
        key < NESTED,
{
    attr((key + NESTED) as u16, inner)
}

/// The payload of a string attribute: the text and a closing zero byte.
pub open spec fn strz(text: Seq<u8>) -> Seq<u8> {
    text.push(0u8)
}

/// Whether a payload is short enough for one message.
pub open spec fn message_fits(payload: Seq<u8>) -> bool {
    HEADER_LEN + payload.len() <= u32::MAX
}

/// The bytes of one message: total length, type, flags, sequence number, a
/// port id of zero, then family, version zero and resource id, then the
/// payload.
pub open spec fn message(
    msg_type: u16,
    flags: u16,
    seq: u32,
    family: u8,
    res_id: u16,
    payload: Seq<u8>,
) -> Seq<u8>
    recommends
        message_fits(payload),
{
    le32((HEADER_LEN + payload.len()) as u32) + le16(msg_type) + le16(flags) + le32(seq) + le32(0)
        + seq![family, 0u8] + be16(res_id) + payload
}

/// The type field of a message of the packet filter: the subsystem in the
/// high byte, the operation in the low byte.
pub open spec fn nft_type(op: u16) -> u16
    recommends
        op < 256,
{
    (SUBSYS_NFTABLES * 256 + op) as u16
}

/// The bytes of a message that carries one object of the packet filter.
pub open spec fn object_message(
    op: u16,
    family: u16,
    flags: u16,
    seq: u32,
    payload: Seq<u8>,
) -> Seq<u8>
    recommends
        op < 256,
        family < 256,
        message_fits(payload),
{
    message(nft_type(op), flags, seq, family as u8, 0, payload)
}

/// The unsigned number with the same thirty-two bits as `x`.
pub open spec fn unsigned32(x: i32) -> u32 {
    if x >= 0 {
        x as u32
    } else {
        (x + 0x1_0000_0000) as u32
    }
}

/// The unsigned number with the same thirty-two bits as `x`.
pub fn to_unsigned32(x: i32) -> (r: u32)
    ensures
        r == unsigned32(x),
{
    if x >= 0 {
        x as u32
    } else {
        (x as i64 + 0x1_0000_0000) as u32
    }
}

/// Appends `x`, least significant byte first.
pub fn push_le16(buf: &mut Vec<u8>, x: u16)
    ensures
        final(buf)@ == old(buf)@ + le16(x),
{
    buf.push((x % 256) as u8);
    buf.push((x / 256) as u8);
    assert(buf@ =~= old(buf)@ + le16(x));
}

/// Appends `x`, least significant byte first.
pub fn push_le32(buf: &mut Vec<u8>, x: u32)
    ensures
        final(buf)@ == old(buf)@ + le32(x),
{
    buf.push((x % 256) as u8);
    buf.push((x / 256 % 256) as u8);
    buf.push((x / 65536 % 256) as u8);
    buf.push((x / 16777216) as u8);
    assert(buf@ =~= old(buf)@ + le32(x));
}

/// Appends `x`, most significant byte first.
pub fn push_be16(buf: &mut Vec<u8>, x: u16)
    ensures
        final(buf)@ == old(buf)@ + be16(x),
{
    buf.push((x / 256) as u8);
    buf.push((x % 256) as u8);
    assert(buf@ =~= old(buf)@ + be16(x));
}

/// Appends `x`, most significant byte first.
pub fn push_be32(buf: &mut Vec<u8>, x: u32)
    ensures
        final(buf)@ == old(buf)@ + be32(x),
{
    buf.push((x / 16777216) as u8);
    buf.push((x / 65536 % 256) as u8);
    buf.push((x / 256 % 256) as u8);
    buf.push((x % 256) as u8);
    assert(buf@ =~= old(buf)@ + be32(x));
}

/// Appends `x`, most significant byte first.
pub fn push_be64(buf: &mut Vec<u8>, x: u64)
    ensures
        final(buf)@ == old(buf)@ + be64(x),
{
    push_be32(buf, (x / 4294967296) as u32);
    push_be32(buf, (x % 4294967296) as u32);
    assert(buf@ =~= old(buf)@ + be64(x));
}

/// Appends a copy of `data`.
pub fn push_bytes(buf: &mut Vec<u8>, data: &[u8])
    ensures
        final(buf)@ == old(buf)@ + data@,
{
    let mut i: usize = 0;
    while i < data.len()
        invariant
            i <= data.len(),
            buf@ == old(buf)@ + data@.subrange(0, i as int),
        decreases data.len() - i,
    {
        buf.push(data[i]);
        i += 1;
        assert(buf@ =~= old(buf)@ + data@.subrange(0, i as int));
    }
    assert(data@.subrange(0, data.len() as int) =~= data@);
}

/// Appends the zero bytes that pad a payload of `len` bytes.
fn push_padding(buf: &mut Vec<u8>, len: usize)
    ensures
        final(buf)@ == old(buf)@ + zeros(pad_len(len as nat)),
{
    let pad: usize = (4 - len % 4) % 4;
    let mut i: usize = 0;
    while i < pad
        invariant
            i <= pad,
            pad == pad_len(len as nat),
            buf@ == old(buf)@ + zeros(i as nat),
        decreases pad - i,
    {
        buf.push(0u8);
        i += 1;
        assert(buf@ =~= old(buf)@ + zeros(i as nat));
    }
}

/// Appends one attribute, or leaves `buf` alone where the payload is too long
/// for the sixteen bits of an attribute's length.
pub fn push_attr(buf: &mut Vec<u8>, key: u16, payload: &[u8]) -> (ok: bool)
    ensures
        ok == attr_fits(payload@),
        ok ==> final(buf)@ == old(buf)@ + attr(key, payload@),
        !ok ==> final(buf)@ == old(buf)@,
{
    if payload.len() > MAX_ATTR_PAYLOAD {
        return false;
    }
    push_le16(buf, (ATTR_HEADER_LEN + payload.len()) as u16);
    push_le16(buf, key);
    push_bytes(buf, payload);
    push_padding(buf, payload.len());
    assert(buf@ =~= old(buf)@ + attr(key, payload@));
    true
}

/// Appends an attribute whose payload is the run of attributes in `inner`, or
/// leaves `buf` alone where that run is too long.
pub fn push_nested(buf: &mut Vec<u8>, key: u16, inner: &[u8]) -> (ok: bool)
    requires
        key < NESTED,
    ensures
        ok == attr_fits(inner@),
        ok ==> final(buf)@ == old(buf)@ + nested(key, inner@),
        !ok ==> final(buf)@ == old(buf)@,
{
    push_attr(buf, key + NESTED, inner)
}

/// The bytes of a piece of text.
pub open spec fn text(chars: Seq<char>) -> Seq<u8> {
    vstd::utf8::encode_utf8(chars)
}

/// The bytes of an attribute that holds one byte.
pub open spec fn attr_u8(key: u16, x: u8) -> Seq<u8> {
    attr(key, seq![x])
}

/// The bytes of an attribute that holds a number of sixteen bits.
pub open spec fn attr_u16(key: u16, x: u16) -> Seq<u8> {
    attr(key, be16(x))
}

/// The bytes of an attribute that holds a number of thirty-two bits.
pub open spec fn attr_u32(key: u16, x: u32) -> Seq<u8> {
    attr(key, be32(x))
}

/// The bytes of an attribute that holds a number of sixty-four bits.
pub open spec fn attr_u64(key: u16, x: u64) -> Seq<u8> {
    attr(key, be64(x))
}

/// The bytes of an attribute that holds a piece of text.
pub open spec fn attr_str(key: u16, chars: Seq<char>) -> Seq<u8>
    recommends
        str_fits(chars),
{
    attr(key, strz(text(chars)))
}

/// Whether a piece of text, with its closing zero byte, is short enough for
/// one attribute.
pub open spec fn str_fits(chars: Seq<char>) -> bool {
    attr_fits(strz(text(chars)))
}

/// Appends an attribute that holds one byte.
pub fn push_attr_u8(buf: &mut Vec<u8>, key: u16, x: u8)
    ensures
        final(buf)@ == old(buf)@ + attr_u8(key, x),
{
    push_le16(buf, 5);
    push_le16(buf, key);
    buf.push(x);
    push_padding(buf, 1);
    assert(buf@ =~= old(buf)@ + attr_u8(key, x));
}

/// Appends an attribute that holds a number of sixteen bits.
pub fn push_attr_u16(buf: &mut Vec<u8>, key: u16, x: u16)
    ensures
        final(buf)@ == old(buf)@ + attr_u16(key, x),
{
    push_le16(buf, 6);
    push_le16(buf, key);
    push_be16(buf, x);
    push_padding(buf, 2);
    assert(buf@ =~= old(buf)@ + attr_u16(key, x));
}

/// Appends an attribute that holds a number of thirty-two bits.
pub fn push_attr_u32(buf: &mut Vec<u8>, key: u16, x: u32)
    ensures
        final(buf)@ == old(buf)@ + attr_u32(key, x),
{
    push_le16(buf, 8);
    push_le16(buf, key);
    push_be32(buf, x);
    assert(zeros(pad_len(4)) =~= Seq::<u8>::empty());
    assert(buf@ =~= old(buf)@ + attr_u32(key, x));
}

/// Appends an attribute that holds a number of sixty-four bits.
pub fn push_attr_u64(buf: &mut Vec<u8>, key: u16, x: u64)
    ensures
        final(buf)@ == old(buf)@ + attr_u64(key, x),
{
    push_le16(buf, 12);
    push_le16(buf, key);
    push_be64(buf, x);
    assert(zeros(pad_len(8)) =~= Seq::<u8>::empty());
    assert(buf@ =~= old(buf)@ + attr_u64(key, x));
}

/// Appends an attribute that holds a piece of text, or leaves `buf` alone
/// where the text is too long.
pub fn push_attr_str(buf: &mut Vec<u8>, key: u16, s: &str) -> (ok: bool)
    ensures
        ok == str_fits(s@),
        ok ==> final(buf)@ == old(buf)@ + attr_str(key, s@),
        !ok ==> final(buf)@ == old(buf)@,
{
    let mut payload: Vec<u8> = Vec::new();
    push_bytes(&mut payload, s.as_bytes());
    payload.push(0u8);
    assert(payload@ =~= strz(text(s@)));
    push_attr(buf, key, payload.as_slice())
}

/// The key of an attribute without the two flag bits above it.
pub open spec fn plain_key(key: u16) -> u16 {
    (key % 0x4000) as u16
}

/// How many bytes an attribute of the given length takes with its padding.
pub open spec fn aligned(len: int) -> int {
    len + (4 - len % 4) % 4
}

/// One attribute as it is read from the front of `b`: its key as written,
/// its payload, and how many bytes it takes with its padding, cut down to
/// what is there. `None` where `b` does not start with a whole attribute.
pub open spec fn first_attr(b: Seq<u8>) -> Option<(u16, Seq<u8>, int)> {
    if b.len() < ATTR_HEADER_LEN {
        None
    } else {
        let len = b[0] + b[1] * 256;
        if len < ATTR_HEADER_LEN || len > b.len() {
            None
        } else {
            Some(
                (
                    (b[2] + b[3] * 256) as u16,
                    b.subrange(ATTR_HEADER_LEN as int, len),
                    if aligned(len) <= b.len() {
                        aligned(len)
                    } else {
                        b.len() as int
                    },
                ),
            )
        }
    }
}

/// The payload of the first attribute in `b` that has the given key, flag
/// bits aside. `None` where there is none before the end of `b` or before
/// something that is no whole attribute.
#[verifier::opaque]
pub open spec fn find_attr(b: Seq<u8>, key: u16) -> Option<Seq<u8>>
    decreases b.len(),
{
    match first_attr(b) {
        None => None,
        Some((found, payload, next)) => if plain_key(found) == key {
            Some(payload)
        } else {
            find_attr(b.subrange(next, b.len() as int), key)
        },
    }
}

/// The attributes of a message: what stands behind its header, as far as the
/// length in the header says. `None` where there is no whole header, or where
/// the length says more than is there or less than a header.
pub open spec fn message_payload(msg: Seq<u8>) -> Option<Seq<u8>> {
    if msg.len() < HEADER_LEN {
        None
    } else {
        let len = msg[0] + msg[1] * 256 + msg[2] * 65536 + msg[3] * 16777216;
        if len < HEADER_LEN || len > msg.len() {
            None
        } else {
            Some(msg.subrange(HEADER_LEN as int, len))
        }
    }
}

/// An attribute takes its header, its payload and the padding.
pub proof fn lemma_attr_len(key: u16, payload: Seq<u8>)
    ensures
        attr(key, payload).len() == aligned(ATTR_HEADER_LEN + payload.len()),
        attr(key, payload).len() % 4 == 0,
{
}

/// An attribute that was written is read back as it was written: the key and
/// the payload are the same, and what follows it starts behind its padding.
pub proof fn lemma_attr_read_back(key: u16, payload: Seq<u8>, rest: Seq<u8>)
    requires
        attr_fits(payload),
    ensures
        first_attr(attr(key, payload) + rest) == Some(
            (key, payload, attr(key, payload).len() as int),
        ),
        attr(key, payload).len() == aligned(ATTR_HEADER_LEN + payload.len()),
{
    let a = attr(key, payload);
    let b = a + rest;
    let len = ATTR_HEADER_LEN + payload.len();
    assert(b[0] == a[0] && b[1] == a[1] && b[2] == a[2] && b[3] == a[3]);
    assert(b[0] + b[1] * 256 == len);
    assert(b[2] + b[3] * 256 == key);
    assert(b.subrange(ATTR_HEADER_LEN as int, len as int) =~= payload);
}

/// The first attribute of a run is found under its own key.
pub proof fn lemma_find_first_attr(key: u16, payload: Seq<u8>, rest: Seq<u8>)
    requires
        attr_fits(payload),
        key < 0x4000,
    ensures
        find_attr(attr(key, payload) + rest, key) == Some(payload),
{
    lemma_attr_read_back(key, payload, rest);
    lemma_find_key(attr(key, payload) + rest, key, payload, attr(key, payload).len() as int);
}

/// Where a run starts with an attribute under the wanted key, the payload of
/// that attribute is what is found.
proof fn lemma_find_key(b: Seq<u8>, key: u16, payload: Seq<u8>, next: int)
    requires
        first_attr(b) == Some((key, payload, next)),
        key < 0x4000,
    ensures
        find_attr(b, key) == Some(payload),
{
    reveal(find_attr);
}

/// Where a run starts with an attribute that has the wanted key, that
/// attribute is the one found.
pub proof fn lemma_find_here(b: Seq<u8>, key: u16)
    requires
        first_attr(b) matches Some((found, _, _)) && plain_key(found) == key,
    ensures
        find_attr(b, key) == Some(first_attr(b).unwrap().1),
{
    reveal(find_attr);
}

/// Where a run starts with an attribute that has another key, the wanted one
/// is looked for behind it.
pub proof fn lemma_find_behind(b: Seq<u8>, key: u16)
    requires
        first_attr(b) matches Some((found, _, _)) && plain_key(found) != key,
    ensures
        find_attr(b, key) == find_attr(
            b.subrange(first_attr(b).unwrap().2, b.len() as int),
            key,
        ),
{
    reveal(find_attr);
}

/// Where a run does not start with a whole attribute, nothing is found in it.
pub proof fn lemma_find_nothing(b: Seq<u8>, key: u16)
    requires
        first_attr(b).is_none(),
    ensures
        find_attr(b, key).is_none(),
{
    reveal(find_attr);
}

/// A message that was written has its payload read back as it was written.
pub proof fn lemma_message_read_back(
    msg_type: u16,
    flags: u16,
    seq: u32,
    family: u8,
    res_id: u16,
    payload: Seq<u8>,
)
    requires
        message_fits(payload),
    ensures
        message_payload(message(msg_type, flags, seq, family, res_id, payload)) == Some(payload),
{
    let msg = message(msg_type, flags, seq, family, res_id, payload);
    let len = (HEADER_LEN + payload.len()) as u32;
    let head = le32(len) + le16(msg_type) + le16(flags) + le32(seq) + le32(0) + seq![family, 0u8]
        + be16(res_id);
    assert(head.len() == HEADER_LEN);
    assert(msg =~= head + payload);
    assert(msg[0] == le32(len)[0] && msg[1] == le32(len)[1] && msg[2] == le32(len)[2] && msg[3]
        == le32(len)[3]);
    lemma_le32_read_back(len);
    assert(msg.subrange(HEADER_LEN as int, len as int) =~= payload);
}

/// The four bytes of a number spell that number.
proof fn lemma_le32_read_back(x: u32)
    ensures
        le32(x)[0] + le32(x)[1] * 256 + le32(x)[2] * 65536 + le32(x)[3] * 16777216 == x,
{
}

/// Reads the attribute that starts at `pos` in `buf`: its key as written,
/// where its payload starts and ends, and where the next attribute starts.
pub fn read_attr(buf: &[u8], pos: usize, end: usize) -> (r: Option<(u16, usize, usize, usize)>)
    requires
        pos <= end <= buf@.len(),
    ensures
        match first_attr(buf@.subrange(pos as int, end as int)) {
            None => r.is_none(),
            Some((key, payload, next)) => {
                &&& r matches Some((k, from, to, after))
                &&& k == key
                &&& pos <= from <= to <= after <= end
                &&& buf@.subrange(from as int, to as int) == payload
                &&& after == pos + next
                &&& pos < after
            },
        },
{
    let ghost b = buf@.subrange(pos as int, end as int);
    if end - pos < ATTR_HEADER_LEN {
        return None;
    }
    assert(b[0] == buf@[pos as int] && b[1] == buf@[pos + 1] && b[2] == buf@[pos + 2] && b[3]
        == buf@[pos + 3]);
    let len: usize = buf[pos] as usize + buf[pos + 1] as usize * 256;
    if len < ATTR_HEADER_LEN || len > end - pos {
        return None;
    }
    let key: u16 = buf[pos + 2] as u16 + buf[pos + 3] as u16 * 256;
    let padded: usize = len + (4 - len % 4) % 4;
    let after: usize = if padded <= end - pos {
        pos + padded
    } else {
        end
    };
    assert(buf@.subrange(pos + ATTR_HEADER_LEN, pos + len) =~= b.subrange(
        ATTR_HEADER_LEN as int,
        len as int,
    ));
    Some((key, pos + ATTR_HEADER_LEN, pos + len, after))
}

/// Looks for the first attribute with the given key between `from` and `end`
/// and says where its payload starts and ends.
pub fn locate_attr(buf: &[u8], from: usize, end: usize, key: u16) -> (r: Option<(usize, usize)>)
    requires
        from <= end <= buf@.len(),
    ensures
        match find_attr(buf@.subrange(from as int, end as int), key) {
            None => r.is_none(),
            Some(payload) => {
                &&& r matches Some((start, stop))
                &&& from <= start <= stop <= end
                &&& buf@.subrange(start as int, stop as int) == payload
            },
        },
{
    let mut pos: usize = from;
    loop
        invariant
            from <= pos <= end <= buf@.len(),
            find_attr(buf@.subrange(from as int, end as int), key) == find_attr(
                buf@.subrange(pos as int, end as int),
                key,
            ),
        decreases end - pos,
    {
        let ghost here = buf@.subrange(pos as int, end as int);
        match read_attr(buf, pos, end) {
            None => {
                proof {
                    lemma_find_nothing(here, key);
                }
                return None;
            },
            Some((found, start, stop, after)) => {
                if found % 0x4000 == key {
                    proof {
                        lemma_find_here(here, key);
                    }
                    return Some((start, stop));
                }
                proof {
                    lemma_find_behind(here, key);
                }
                assert(here.subrange(after - pos, here.len() as int) =~= buf@.subrange(
                    after as int,
                    end as int,
                ));
                pos = after;
            },
        }
    }
}

/// Says where the attributes of the message in `buf` start and end, if `buf`
/// starts with a whole message.
pub fn locate_payload(buf: &[u8]) -> (r: Option<(usize, usize)>)
    ensures
        match message_payload(buf@) {
            None => r.is_none(),
            Some(payload) => {
                &&& r matches Some((start, stop))
                &&& start <= stop <= buf@.len()
                &&& buf@.subrange(start as int, stop as int) == payload
            },
        },
{
    if buf.len() < HEADER_LEN {
        return None;
    }
    let len: u64 = buf[0] as u64 + buf[1] as u64 * 256 + buf[2] as u64 * 65536 + buf[3] as u64
        * 16777216;
    if len < HEADER_LEN as u64 || len > buf.len() as u64 {
        return None;
    }
    Some((HEADER_LEN, len as usize))
}

/// The bytes of one message, or `None` where the payload is too long for the
/// thirty-two bits of a message's length.
pub fn build_message(
    msg_type: u16,
    flags: u16,
    seq: u32,
    family: u8,
    res_id: u16,
    payload: &[u8],
) -> (r: Option<Vec<u8>>)
    ensures
        r.is_some() == message_fits(payload@),
        r matches Some(bytes) ==> bytes@ == message(msg_type, flags, seq, family, res_id, payload@),
{
    if payload.len() > u32::MAX as usize - HEADER_LEN {
        return None;
    }
    let mut buf: Vec<u8> = Vec::new();
    push_le32(&mut buf, (HEADER_LEN + payload.len()) as u32);
    push_le16(&mut buf, msg_type);
    push_le16(&mut buf, flags);
    push_le32(&mut buf, seq);
    push_le32(&mut buf, 0);
    buf.push(family);
    buf.push(0u8);
    push_be16(&mut buf, res_id);
    push_bytes(&mut buf, payload);
    assert(buf@ =~= message(msg_type, flags, seq, family, res_id, payload@));
    Some(buf)
}

/// The bytes of a message that carries one object of the packet filter, or
/// `None` where the payload is too long.
pub fn build_object_message(op: u16, family: u16, flags: u16, seq: u32, payload: &[u8]) -> (r:
    Option<Vec<u8>>)
    requires
        op < 256,
        family < 256,
    ensures
        r.is_some() == message_fits(payload@),
        r matches Some(bytes) ==> bytes@ == object_message(op, family, flags, seq, payload@),
{
    build_message(SUBSYS_NFTABLES * 256 + op, flags, seq, family as u8, 0, payload)
}

} // verus!
