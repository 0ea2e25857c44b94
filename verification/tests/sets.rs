use nftnl::set::{NftSet, SetKey};
use nftnl::{MsgType, NlMsg, ProtoFamily, Table};

#[test]
fn address_keys_know_their_type_and_length() {
    assert_eq!(<[u8; 4] as SetKey>::TYPE, 7);
    assert_eq!(<[u8; 4] as SetKey>::LEN, 4);
    assert_eq!(<[u8; 16] as SetKey>::TYPE, 8);
    assert_eq!(<[u8; 16] as SetKey>::LEN, 16);
    assert_eq!([10u8, 0, 0, 1].data(), vec![10, 0, 0, 1]);
    assert_eq!([7u8; 16].data(), vec![7; 16]);
}

#[test]
fn a_set_is_created_without_its_elements() {
    let table = Table::new("t", ProtoFamily::Inet);
    let mut set: NftSet<[u8; 4]> = NftSet::new("s", 0x0102, &table, ProtoFamily::Ipv4);
    set.add(&[10, 0, 0, 1]);
    let flags = (libc::NFT_SET_ANONYMOUS | libc::NFT_SET_CONSTANT) as u8;
    let expected: Vec<u8> = vec![
        68, 0, 0, 0, 9, 10, 5, 4, 3, 0, 0, 0, 0, 0, 0, 0, 1, 0, 0, 0, // the header
        6, 0, 1, 0, b't', 0, 0, 0, // the table
        6, 0, 2, 0, b's', 0, 0, 0, // the name
        8, 0, 3, 0, 0, 0, 0, flags, // the flags
        8, 0, 4, 0, 0, 0, 0, 7, // the type of the keys
        8, 0, 5, 0, 0, 0, 0, 4, // the length of the keys
        8, 0, 10, 0, 0, 0, 1, 2, // the number of the set
    ];
    assert_eq!(set.write(3, MsgType::Add), Some(expected));
    assert_eq!(set.get_name(), "s");
    assert_eq!(set.get_id(), 0x0102);
    assert_eq!(set.get_family(), ProtoFamily::Ipv4);
    assert_eq!(&set.write(3, MsgType::Del).unwrap()[4..8], &[11, 10, 5, 0]);
}

#[test]
fn a_set_without_elements_has_no_element_messages() {
    let table = Table::new("t", ProtoFamily::Inet);
    let set: NftSet<[u8; 4]> = NftSet::new("s", 1, &table, ProtoFamily::Inet);
    let mut iter = set.elems_iter();
    assert!(iter.next().is_none());
    assert!(iter.next().is_none());
}

#[test]
fn a_few_elements_go_into_one_message() {
    let table = Table::new("t", ProtoFamily::Inet);
    let mut set: NftSet<[u8; 4]> = NftSet::new("s", 1, &table, ProtoFamily::Ipv4);
    set.add(&[10, 0, 0, 1]);
    set.add(&[10, 0, 0, 2]);
    let mut iter = set.elems_iter();
    let msg = iter.next().unwrap();
    assert_eq!(msg.ret(), 0);
    let expected: Vec<u8> = vec![
        80, 0, 0, 0, 12, 10, 5, 4, 4, 0, 0, 0, 0, 0, 0, 0, 2, 0, 0, 0, // the header
        6, 0, 2, 0, b's', 0, 0, 0, // the set
        8, 0, 4, 0, 0, 0, 0, 1, // its number
        6, 0, 1, 0, b't', 0, 0, 0, // the table
        36, 0, 3, 0x80, // the elements
        16, 0, 1, 0x80, 12, 0, 1, 0x80, 8, 0, 1, 0, 10, 0, 0, 1, // the first
        16, 0, 1, 0x80, 12, 0, 1, 0x80, 8, 0, 1, 0, 10, 0, 0, 2, // the second
    ];
    assert_eq!(msg.write(4, MsgType::Add), Some(expected));
    assert_eq!(&msg.write(4, MsgType::Del).unwrap()[4..8], &[14, 10, 5, 0]);
    assert!(iter.next().is_none());
}

#[test]
fn many_elements_are_spread_over_pages() {
    let table = Table::new("t", ProtoFamily::Inet);
    let mut set: NftSet<[u8; 4]> = NftSet::new("s", 1, &table, ProtoFamily::Ipv4);
    // An element takes 16 bytes, so 4095 of them fit into one attribute.
    let per_page = 65531 / 16;
    assert_eq!(per_page, 4095);
    let total = 2 * per_page + 10;
    for i in 0..total {
        set.add(&[(i >> 16) as u8, (i >> 8) as u8, i as u8, 1]);
    }
    let mut iter = set.elems_iter();
    let mut sizes = Vec::new();
    let mut rets = Vec::new();
    let mut first_keys = Vec::new();
    while let Some(msg) = iter.next() {
        let bytes = msg.write(1, MsgType::Add).unwrap();
        // Header, set, number, table, and the header of the list of elements.
        let elements = bytes.len() - 20 - 8 - 8 - 8 - 4;
        assert_eq!(elements % 16, 0);
        sizes.push(elements / 16);
        rets.push(msg.ret());
        first_keys.push(bytes[48 + 12..48 + 16].to_vec());
    }
    assert_eq!(sizes, vec![per_page, per_page, 10]);
    assert_eq!(rets, vec![1, 1, 0]);
    assert_eq!(first_keys[0], vec![0, 0, 0, 1]);
    assert_eq!(first_keys[1], vec![0, 0x0f, 0xff, 1]);
    assert_eq!(first_keys[2], vec![0, 0x1f, 0xfe, 1]);
}

#[test]
fn sixteen_byte_keys_take_more_room() {
    let table = Table::new("t", ProtoFamily::Inet);
    let mut set: NftSet<[u8; 16]> = NftSet::new("s", 1, &table, ProtoFamily::Ipv6);
    let per_page = 65531 / 28;
    for i in 0..(per_page + 1) {
        let mut key = [0u8; 16];
        key[14] = (i >> 8) as u8;
        key[15] = i as u8;
        set.add(&key);
    }
    let mut iter = set.elems_iter();
    let first = iter.next().unwrap();
    assert_eq!(first.ret(), 1);
    assert_eq!(first.write(1, MsgType::Add).unwrap().len(), 48 + per_page * 28);
    let second = iter.next().unwrap();
    assert_eq!(second.ret(), 0);
    assert_eq!(second.write(2, MsgType::Add).unwrap().len(), 48 + 28);
    assert!(iter.next().is_none());
}
