use nftnl::expr::{
    Attr, AttrValue, Bitwise, Cmp, CmpOp, Conntrack, Counter, Expression, Fib, FibResult,
    HeaderField, Icmpv6HeaderField, IcmpCode, Immediate, Ipv4HeaderField, Ipv6HeaderField,
    LLHeaderField, Log, Lookup, Masquerade, Meta, Nat, NatType, NetworkHeaderField, Payload,
    RawExpr, Register, RejectionType, Socket, SocketKey, TcpHeaderField, TransportHeaderField,
    UdpHeaderField, Verdict,
};
use nftnl::set::NftSet;
use nftnl::{Chain, ProtoFamily, Rule, Table};

fn rule_in(family: ProtoFamily) -> Rule {
    let table = Table::new("t", family);
    let chain = Chain::new("c", &table);
    Rule::new(&chain)
}

fn u32_attr(key: u16, value: u32) -> Attr {
    Attr { key, value: AttrValue::U32(value) }
}

fn data_attr(key: u16, value: &[u8]) -> Attr {
    Attr { key, value: AttrValue::Data(value.to_vec()) }
}

#[test]
fn comparison_compiles_to_register_operator_and_data() {
    let rule = rule_in(ProtoFamily::Inet);
    assert_eq!(
        Cmp::new(CmpOp::Eq, 6u8).to_expr(&rule),
        RawExpr { name: "cmp", attrs: vec![u32_attr(1, 1), u32_attr(2, 0), data_attr(3, &[6])] }
    );
    assert_eq!(
        Cmp::new(CmpOp::Neq, 0x0050u16).to_expr(&rule),
        RawExpr {
            name: "cmp",
            attrs: vec![u32_attr(1, 1), u32_attr(2, 1), data_attr(3, &[0x50, 0])]
        }
    );
    assert_eq!(Cmp::new(CmpOp::Lt, 1u32).to_expr(&rule).attrs[1], u32_attr(2, 2));
    assert_eq!(Cmp::new(CmpOp::Lte, 1u32).to_expr(&rule).attrs[1], u32_attr(2, 3));
    assert_eq!(Cmp::new(CmpOp::Gt, 1u32).to_expr(&rule).attrs[1], u32_attr(2, 4));
    assert_eq!(Cmp::new(CmpOp::Gte, 1u32).to_expr(&rule).attrs[1], u32_attr(2, 5));
    assert_eq!(
        Cmp::new(CmpOp::Eq, "lo").to_expr(&rule).attrs[2],
        data_attr(3, b"lo")
    );
}

#[test]
fn bitwise_compiles_to_registers_length_mask_and_xor() {
    let rule = rule_in(ProtoFamily::Inet);
    let mask: [u8; 4] = [0xff, 0xff, 0xff, 0];
    let xor: [u8; 4] = [0, 0, 0, 0];
    assert_eq!(
        Bitwise::new(mask, xor).to_expr(&rule),
        RawExpr {
            name: "bitwise",
            attrs: vec![
                u32_attr(1, 1),
                u32_attr(2, 1),
                u32_attr(3, 4),
                data_attr(4, &[0xff, 0xff, 0xff, 0]),
                data_attr(5, &[0, 0, 0, 0]),
            ]
        }
    );
    let compiled = Bitwise::new(0x00ffu16, 0x0100u16).to_expr(&rule);
    assert_eq!(compiled.attrs[2], u32_attr(3, 2));
    assert_eq!(compiled.attrs[3], data_attr(4, &[0xff, 0]));
    assert_eq!(compiled.attrs[4], data_attr(5, &[0, 1]));
}

#[test]
fn counter_and_masquerade_have_no_attributes() {
    let rule = rule_in(ProtoFamily::Ipv4);
    assert_eq!(Counter.to_expr(&rule), RawExpr { name: "counter", attrs: vec![] });
    assert_eq!(Masquerade.to_expr(&rule), RawExpr { name: "masq", attrs: vec![] });
}

#[test]
fn conntrack_reads_into_and_sets_from_register_one() {
    let rule = rule_in(ProtoFamily::Inet);
    assert_eq!(
        Conntrack::State.to_expr(&rule),
        RawExpr { name: "ct", attrs: vec![u32_attr(1, 1), u32_attr(2, 0)] }
    );
    assert_eq!(
        Conntrack::Status.to_expr(&rule),
        RawExpr { name: "ct", attrs: vec![u32_attr(1, 1), u32_attr(2, 2)] }
    );
    assert_eq!(
        Conntrack::Mark { set: false }.to_expr(&rule),
        RawExpr { name: "ct", attrs: vec![u32_attr(1, 1), u32_attr(2, 3)] }
    );
    assert_eq!(
        Conntrack::Mark { set: true }.to_expr(&rule),
        RawExpr { name: "ct", attrs: vec![u32_attr(4, 1), u32_attr(2, 3)] }
    );
    assert_eq!(
        Conntrack::Zone { set: true }.to_expr(&rule),
        RawExpr { name: "ct", attrs: vec![u32_attr(4, 1), u32_attr(2, 17)] }
    );
    assert_eq!(
        Conntrack::Zone { set: false }.to_expr(&rule),
        RawExpr { name: "ct", attrs: vec![u32_attr(1, 1), u32_attr(2, 17)] }
    );
    assert!(Conntrack::Mark { set: true }.is_write());
    assert!(!Conntrack::Mark { set: false }.is_write());
    assert!(!Conntrack::State.is_write());
}

#[test]
fn fib_names_result_and_selector() {
    let rule = rule_in(ProtoFamily::Inet);
    assert_eq!(
        Fib::SAddr { result: FibResult::Oif }.to_expr(&rule),
        RawExpr { name: "fib", attrs: vec![u32_attr(1, 1), u32_attr(2, 1), u32_attr(3, 1)] }
    );
    assert_eq!(
        Fib::DAddr { result: FibResult::AddrType }.to_expr(&rule),
        RawExpr { name: "fib", attrs: vec![u32_attr(1, 1), u32_attr(2, 3), u32_attr(3, 2)] }
    );
    assert_eq!(Fib::SAddr { result: FibResult::Oif }.flags(), 1);
    assert_eq!(Fib::DAddr { result: FibResult::Oif }.flags(), 2);
    assert_eq!(Fib::Mark { result: FibResult::Oif }.flags(), 4);
    assert_eq!(Fib::Iif { result: FibResult::Oif }.flags(), 8);
    assert_eq!(Fib::Oif { result: FibResult::Oif }.flags(), 16);
    assert_eq!(Fib::Present { result: FibResult::Oif }.flags(), 32);
    assert_eq!(Fib::Mark { result: FibResult::OifName }.result(), 2);
    assert_eq!(Fib::Iif { result: FibResult::AddrType }.result(), 3);
    assert_eq!(Fib::Oif { result: FibResult::Oif }.result(), 1);
    assert_eq!(Fib::Present { result: FibResult::OifName }.result(), 2);
}

#[test]
fn fib_results_have_numbers_of_their_own() {
    assert_eq!(FibResult::Oif.raw_result_type(), 1);
    assert_eq!(FibResult::OifName.raw_result_type(), 2);
    assert_eq!(FibResult::AddrType.raw_result_type(), 3);
}

#[test]
fn fib_results_are_read_in_any_case_and_with_white_space() {
    assert_eq!(FibResult::from_str("oif"), Ok(FibResult::Oif));
    assert_eq!(FibResult::from_str("oifname"), Ok(FibResult::OifName));
    assert_eq!(FibResult::from_str("type"), Ok(FibResult::AddrType));
    assert_eq!(FibResult::from_str("  OIF\t"), Ok(FibResult::Oif));
    assert_eq!(FibResult::from_str("OifName\n"), Ok(FibResult::OifName));
    assert_eq!(FibResult::from_str(" Type "), Ok(FibResult::AddrType));
    assert_eq!(FibResult::from_str("\u{2003}oif\u{2003}"), Ok(FibResult::Oif));
    assert_eq!(FibResult::from_str("o if"), Err("Invalid FibResult variant"));
    assert_eq!(FibResult::from_str(""), Err("Invalid FibResult variant"));
    assert_eq!(FibResult::from_str("addrtype"), Err("Invalid FibResult variant"));
}

#[test]
fn fib_results_are_named_exactly() {
    assert_eq!(FibResult::from_word("oif"), Some(FibResult::Oif));
    assert_eq!(FibResult::from_word("oifname"), Some(FibResult::OifName));
    assert_eq!(FibResult::from_word("type"), Some(FibResult::AddrType));
    assert_eq!(FibResult::from_word("OIF"), None);
    assert_eq!(FibResult::from_word(" oif"), None);
    assert_eq!(FibResult::from_word(""), None);
}

#[test]
fn immediate_loads_data_into_its_register() {
    let rule = rule_in(ProtoFamily::Inet);
    assert_eq!(
        Immediate::new(0x11223344u32, Register::Reg2).to_expr(&rule),
        RawExpr {
            name: "immediate",
            attrs: vec![u32_attr(1, 2), data_attr(2, &[0x44, 0x33, 0x22, 0x11])]
        }
    );
    let immediate = Immediate::new(7u8, Register::Reg4);
    assert_eq!(immediate.data, 7);
    assert_eq!(immediate.register, Register::Reg4);
    assert_eq!(immediate.to_expr(&rule).attrs[0], u32_attr(1, 4));
}

#[test]
fn log_carries_its_group_if_it_has_one() {
    let rule = rule_in(ProtoFamily::Inet);
    assert_eq!(Log::new().to_expr(&rule), RawExpr { name: "log", attrs: vec![] });
    assert_eq!(
        Log::new_with_group(5).to_expr(&rule),
        RawExpr { name: "log", attrs: vec![Attr { key: 1, value: AttrValue::U16(5) }] }
    );
}

#[test]
fn lookup_names_the_set() {
    let table = Table::new("t", ProtoFamily::Inet);
    let chain = Chain::new("c", &table);
    let rule = Rule::new(&chain);
    let set: NftSet<[u8; 4]> = NftSet::new("allowed", 42, &table, ProtoFamily::Inet);
    assert_eq!(
        Lookup::new(&set).to_expr(&rule),
        RawExpr {
            name: "lookup",
            attrs: vec![
                u32_attr(2, 1),
                Attr { key: 1, value: AttrValue::Str("allowed".to_string()) },
                u32_attr(4, 42),
            ]
        }
    );
}

#[test]
fn meta_loads_into_register_one() {
    let rule = rule_in(ProtoFamily::Inet);
    assert_eq!(
        Meta::L4Proto.to_expr(&rule),
        RawExpr { name: "meta", attrs: vec![u32_attr(1, 1), u32_attr(2, 16)] }
    );
    assert_eq!(Meta::Protocol.to_expr(&rule).attrs[1], u32_attr(2, 1));
    assert_eq!(Meta::Iif.to_expr(&rule).attrs[1], u32_attr(2, 4));
    assert_eq!(Meta::Oif.to_expr(&rule).attrs[1], u32_attr(2, 5));
    assert_eq!(Meta::IifName.to_expr(&rule).attrs[1], u32_attr(2, 6));
    assert_eq!(Meta::OifName.to_expr(&rule).attrs[1], u32_attr(2, 7));
    assert_eq!(Meta::IifType.to_expr(&rule).attrs[1], u32_attr(2, 8));
    assert_eq!(Meta::OifType.to_expr(&rule).attrs[1], u32_attr(2, 9));
    assert_eq!(Meta::NfProto.to_expr(&rule).attrs[1], u32_attr(2, 15));
    assert_eq!(Meta::Cgroup.to_expr(&rule).attrs[1], u32_attr(2, 23));
    assert_eq!(Meta::PRandom.to_expr(&rule).attrs[1], u32_attr(2, 24));
}

#[test]
fn nat_names_type_family_and_registers() {
    let rule = rule_in(ProtoFamily::Ipv4);
    let without_port = Nat {
        nat_type: NatType::SNat,
        family: ProtoFamily::Ipv4,
        ip_register: Register::Reg1,
        port_register: None,
    };
    assert_eq!(
        without_port.to_expr(&rule),
        RawExpr { name: "nat", attrs: vec![u32_attr(1, 0), u32_attr(2, 2), u32_attr(3, 1)] }
    );
    let with_port = Nat {
        nat_type: NatType::DNat,
        family: ProtoFamily::Ipv6,
        ip_register: Register::Reg1,
        port_register: Some(Register::Reg2),
    };
    assert_eq!(
        with_port.to_expr(&rule),
        RawExpr {
            name: "nat",
            attrs: vec![u32_attr(1, 1), u32_attr(2, 10), u32_attr(3, 1), u32_attr(5, 2)]
        }
    );
}

fn fields() -> Vec<(Payload, u32, u32, u32)> {
    let ll = |f| Payload::LinkLayer(f);
    let v4 = |f| Payload::Network(NetworkHeaderField::Ipv4(f));
    let v6 = |f| Payload::Network(NetworkHeaderField::Ipv6(f));
    let tcp = |f| Payload::Transport(TransportHeaderField::Tcp(f));
    let udp = |f| Payload::Transport(TransportHeaderField::Udp(f));
    let icmpv6 = |f| Payload::Transport(TransportHeaderField::Icmpv6(f));
    vec![
        (ll(LLHeaderField::Daddr), 0, 0, 6),
        (ll(LLHeaderField::Saddr), 0, 6, 6),
        (ll(LLHeaderField::EtherType), 0, 12, 2),
        (v4(Ipv4HeaderField::Ttl), 1, 8, 1),
        (v4(Ipv4HeaderField::Protocol), 1, 9, 1),
        (v4(Ipv4HeaderField::Saddr), 1, 12, 4),
        (v4(Ipv4HeaderField::Daddr), 1, 16, 4),
        (v6(Ipv6HeaderField::NextHeader), 1, 6, 1),
        (v6(Ipv6HeaderField::HopLimit), 1, 7, 1),
        (v6(Ipv6HeaderField::Saddr), 1, 8, 16),
        (v6(Ipv6HeaderField::Daddr), 1, 24, 16),
        (tcp(TcpHeaderField::Sport), 2, 0, 2),
        (tcp(TcpHeaderField::Dport), 2, 2, 2),
        (udp(UdpHeaderField::Sport), 2, 0, 2),
        (udp(UdpHeaderField::Dport), 2, 2, 2),
        (udp(UdpHeaderField::Len), 2, 4, 2),
        (icmpv6(Icmpv6HeaderField::Type), 2, 0, 1),
        (icmpv6(Icmpv6HeaderField::Code), 2, 1, 1),
        (icmpv6(Icmpv6HeaderField::Checksum), 2, 2, 2),
    ]
}

#[test]
fn header_fields_lie_where_the_headers_put_them() {
    let rule = rule_in(ProtoFamily::Inet);
    for (field, base, offset, len) in fields() {
        assert_eq!(field.base(), base);
        assert_eq!(field.offset(), offset);
        assert_eq!(field.len(), len);
        assert_eq!(
            field.to_expr(&rule),
            RawExpr {
                name: "payload",
                attrs: vec![
                    u32_attr(2, base),
                    u32_attr(3, offset),
                    u32_attr(4, len),
                    u32_attr(1, 1)
                ]
            }
        );
    }
}

#[test]
fn fields_of_one_header_start_at_different_offsets() {
    let ll = [LLHeaderField::Daddr, LLHeaderField::Saddr, LLHeaderField::EtherType];
    let v4 = [
        Ipv4HeaderField::Ttl,
        Ipv4HeaderField::Protocol,
        Ipv4HeaderField::Saddr,
        Ipv4HeaderField::Daddr,
    ];
    let v6 = [
        Ipv6HeaderField::NextHeader,
        Ipv6HeaderField::HopLimit,
        Ipv6HeaderField::Saddr,
        Ipv6HeaderField::Daddr,
    ];
    let tcp = [TcpHeaderField::Sport, TcpHeaderField::Dport];
    let udp = [UdpHeaderField::Sport, UdpHeaderField::Dport, UdpHeaderField::Len];
    let icmpv6 =
        [Icmpv6HeaderField::Type, Icmpv6HeaderField::Code, Icmpv6HeaderField::Checksum];
    let offsets: Vec<Vec<u32>> = vec![
        ll.iter().map(|f| f.offset()).collect(),
        v4.iter().map(|f| f.offset()).collect(),
        v6.iter().map(|f| f.offset()).collect(),
        tcp.iter().map(|f| f.offset()).collect(),
        udp.iter().map(|f| f.offset()).collect(),
        icmpv6.iter().map(|f| f.offset()).collect(),
    ];
    for group in offsets {
        for i in 0..group.len() {
            for j in 0..group.len() {
                assert_eq!(group[i] == group[j], i == j);
            }
        }
    }
}

#[test]
fn socket_loads_into_register_one() {
    let rule = rule_in(ProtoFamily::Inet);
    assert_eq!(
        Socket::new(SocketKey::CgroupV2, 1).to_expr(&rule),
        RawExpr { name: "socket", attrs: vec![u32_attr(1, 3), u32_attr(2, 1), u32_attr(3, 1)] }
    );
    assert_eq!(SocketKey::Transparent.to_raw(), 0);
    assert_eq!(SocketKey::Mark.to_raw(), 1);
    assert_eq!(SocketKey::Wildcard.to_raw(), 2);
    assert_eq!(SocketKey::CgroupV2.to_raw(), 3);
}

#[test]
fn verdicts_are_loaded_into_the_verdict_register() {
    let rule = rule_in(ProtoFamily::Inet);
    assert_eq!(
        Verdict::Accept.to_expr(&rule),
        RawExpr {
            name: "immediate",
            attrs: vec![
                u32_attr(1, 0),
                Attr { key: 2, value: AttrValue::Verdict { code: 1, chain: None } }
            ]
        }
    );
    assert_eq!(
        Verdict::Jump { chain: "other".to_string() }.to_expr(&rule),
        RawExpr {
            name: "immediate",
            attrs: vec![
                u32_attr(1, 0),
                Attr {
                    key: 2,
                    value: AttrValue::Verdict { code: -3, chain: Some("other".to_string()) }
                }
            ]
        }
    );
    assert_eq!(Verdict::Goto { chain: "x".to_string() }.chain(), Some("x"));
    assert_eq!(Verdict::Jump { chain: "y".to_string() }.chain(), Some("y"));
    assert_eq!(Verdict::Drop.chain(), None);
}

#[test]
fn rejection_depends_on_the_family_of_the_table() {
    let reject = Verdict::Reject(RejectionType::Icmp(IcmpCode::AdminProhibited));
    let expected = |kind: u32| RawExpr {
        name: "reject",
        attrs: vec![u32_attr(1, kind), Attr { key: 2, value: AttrValue::U8(3) }],
    };
    assert_eq!(reject.to_expr(&rule_in(ProtoFamily::Inet)), expected(2));
    assert_eq!(reject.to_expr(&rule_in(ProtoFamily::Bridge)), expected(2));
    assert_eq!(reject.to_expr(&rule_in(ProtoFamily::Ipv4)), expected(0));
    assert_eq!(reject.to_expr(&rule_in(ProtoFamily::Ipv6)), expected(0));
    assert_eq!(reject.to_expr(&rule_in(ProtoFamily::NetDev)), expected(0));
    let reset = Verdict::Reject(RejectionType::TcpRst);
    assert_eq!(
        reset.to_expr(&rule_in(ProtoFamily::Inet)),
        RawExpr {
            name: "reject",
            attrs: vec![u32_attr(1, 1), Attr { key: 2, value: AttrValue::U8(0) }]
        }
    );
}

#[test]
fn an_expression_is_written_as_a_list_element() {
    let rule = rule_in(ProtoFamily::Inet);
    let wire = Meta::L4Proto.to_expr(&rule).encode().unwrap();
    let expected: Vec<u8> = vec![
        36, 0, 1, 0x80, // an element of the list
        9, 0, 1, 0, b'm', b'e', b't', b'a', 0, 0, 0, 0, // the name, padded
        20, 0, 2, 0x80, // the data of the expression
        8, 0, 1, 0, 0, 0, 0, 1, // destination register one
        8, 0, 2, 0, 0, 0, 0, 16, // the key, in network byte order
    ];
    assert_eq!(wire, expected);
    let counter = Counter.to_expr(&rule).encode().unwrap();
    assert_eq!(
        counter,
        vec![20, 0, 1, 0x80, 12, 0, 1, 0, b'c', b'o', b'u', b'n', b't', b'e', b'r', 0, 4, 0, 2, 0x80]
    );
}

#[test]
fn a_verdict_is_written_nested_twice() {
    let attr = Attr { key: 2, value: AttrValue::Verdict { code: -1, chain: None } };
    let mut wire = Vec::new();
    assert!(attr.encode(&mut wire));
    assert_eq!(
        wire,
        vec![16, 0, 2, 0x80, 12, 0, 2, 0x80, 8, 0, 1, 0, 0xff, 0xff, 0xff, 0xff]
    );
    let jump =
        Attr { key: 2, value: AttrValue::Verdict { code: -3, chain: Some("ab".to_string()) } };
    let mut wire = Vec::new();
    assert!(jump.encode(&mut wire));
    assert_eq!(
        wire,
        vec![
            24, 0, 2, 0x80, 20, 0, 2, 0x80, 8, 0, 1, 0, 0xff, 0xff, 0xff, 0xfd, 7, 0, 2, 0, b'a',
            b'b', 0, 0
        ]
    );
}

#[test]
fn plain_attributes_are_written_in_network_byte_order() {
    let mut wire = Vec::new();
    assert!(Attr { key: 7, value: AttrValue::U8(0xab) }.encode(&mut wire));
    assert_eq!(wire, vec![5, 0, 7, 0, 0xab, 0, 0, 0]);
    let mut wire = Vec::new();
    assert!(Attr { key: 1, value: AttrValue::U16(0x1234) }.encode(&mut wire));
    assert_eq!(wire, vec![6, 0, 1, 0, 0x12, 0x34, 0, 0]);
    let mut wire = Vec::new();
    assert!(Attr { key: 2, value: AttrValue::U32(0x01020304) }.encode(&mut wire));
    assert_eq!(wire, vec![8, 0, 2, 0, 1, 2, 3, 4]);
    let mut wire = Vec::new();
    assert!(Attr { key: 3, value: AttrValue::U64(0x0102030405060708) }.encode(&mut wire));
    assert_eq!(wire, vec![12, 0, 3, 0, 1, 2, 3, 4, 5, 6, 7, 8]);
    let mut wire = Vec::new();
    assert!(Attr { key: 4, value: AttrValue::Str("abc".to_string()) }.encode(&mut wire));
    assert_eq!(wire, vec![8, 0, 4, 0, b'a', b'b', b'c', 0]);
}
