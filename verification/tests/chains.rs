use nftnl::chain::{resolve, resolve_name, validate, validate_base, is_legal};
use nftnl::{
    Chain, ChainError, ChainPriority, ChainType, Hook, MsgType, NlMsg, Policy, PriorityName,
    ProtoFamily, Table,
};

const FAMILIES: [ProtoFamily; 8] = [
    ProtoFamily::Unspec,
    ProtoFamily::Inet,
    ProtoFamily::Ipv4,
    ProtoFamily::Arp,
    ProtoFamily::NetDev,
    ProtoFamily::Bridge,
    ProtoFamily::Ipv6,
    ProtoFamily::DecNet,
];

const HOOKS: [Hook; 6] =
    [Hook::PreRouting, Hook::In, Hook::Forward, Hook::Out, Hook::PostRouting, Hook::Ingress];

fn is_ip(family: ProtoFamily) -> bool {
    matches!(family, ProtoFamily::Inet | ProtoFamily::Ipv4 | ProtoFamily::Ipv6)
}

#[test]
fn destination_nat_is_a_priority_before_routing_only() {
    let name = ChainPriority::Name(PriorityName::DestinationNat);
    assert_eq!(resolve(name, ProtoFamily::Inet, Hook::PreRouting), Ok(-100));
    assert_eq!(resolve(name, ProtoFamily::Inet, Hook::PreRouting), Ok(libc::NF_IP_PRI_NAT_DST));
    assert_eq!(
        resolve(name, ProtoFamily::Inet, Hook::Out),
        Err(ChainError::UndefinedPriority)
    );
    assert_eq!(resolve(name, ProtoFamily::Ipv4, Hook::PreRouting), Ok(-100));
    assert_eq!(resolve(name, ProtoFamily::Ipv6, Hook::PreRouting), Ok(-100));
    assert_eq!(
        resolve(name, ProtoFamily::Arp, Hook::PreRouting),
        Err(ChainError::UndefinedPriority)
    );
}

#[test]
fn output_is_a_priority_of_the_bridge_only() {
    let name = ChainPriority::Name(PriorityName::Output);
    assert_eq!(resolve(name, ProtoFamily::Bridge, Hook::Out), Ok(100));
    assert_eq!(resolve(name, ProtoFamily::Bridge, Hook::Out), Ok(libc::NF_BR_PRI_NAT_DST_OTHER));
    assert_eq!(resolve(name, ProtoFamily::Inet, Hook::Out), Err(ChainError::UndefinedPriority));
    assert_eq!(
        resolve(name, ProtoFamily::Bridge, Hook::In),
        Err(ChainError::UndefinedPriority)
    );
}

#[test]
fn source_nat_is_a_priority_after_routing_only() {
    let name = ChainPriority::Name(PriorityName::SourceNat);
    assert_eq!(resolve(name, ProtoFamily::Inet, Hook::PostRouting), Ok(100));
    assert_eq!(resolve(name, ProtoFamily::Inet, Hook::PostRouting), Ok(libc::NF_IP_PRI_NAT_SRC));
    assert_eq!(resolve(name, ProtoFamily::Bridge, Hook::PostRouting), Ok(300));
    assert_eq!(resolve(name, ProtoFamily::Bridge, Hook::PostRouting), Ok(libc::NF_BR_PRI_NAT_SRC));
    assert_eq!(
        resolve(name, ProtoFamily::Inet, Hook::PreRouting),
        Err(ChainError::UndefinedPriority)
    );
}

#[test]
fn every_name_has_its_number_where_it_is_known() {
    for family in FAMILIES {
        for hook in HOOKS {
            let bridge = family == ProtoFamily::Bridge;
            let ip = is_ip(family);
            let raw = resolve_name(PriorityName::Raw, family, hook);
            assert_eq!(raw, if ip { Some(libc::NF_IP_PRI_RAW) } else { None });
            let mangle = resolve_name(PriorityName::Mangle, family, hook);
            assert_eq!(mangle, if ip { Some(libc::NF_IP_PRI_MANGLE) } else { None });
            let security = resolve_name(PriorityName::Security, family, hook);
            assert_eq!(security, if ip { Some(libc::NF_IP_PRI_SECURITY) } else { None });
            let filter = resolve_name(PriorityName::Filter, family, hook);
            let expected = if bridge {
                Some(libc::NF_BR_PRI_FILTER_BRIDGED)
            } else if ip || family == ProtoFamily::Arp || family == ProtoFamily::NetDev {
                Some(libc::NF_IP_PRI_FILTER)
            } else {
                None
            };
            assert_eq!(filter, expected);
            let dstnat = resolve_name(PriorityName::DestinationNat, family, hook);
            let expected = if hook != Hook::PreRouting {
                None
            } else if bridge {
                Some(libc::NF_BR_PRI_NAT_DST_BRIDGED)
            } else if ip {
                Some(libc::NF_IP_PRI_NAT_DST)
            } else {
                None
            };
            assert_eq!(dstnat, expected);
        }
    }
}

#[test]
fn a_number_stands_for_itself() {
    assert_eq!(resolve(ChainPriority::Value(0), ProtoFamily::Arp, Hook::Ingress), Ok(0));
    assert_eq!(resolve(ChainPriority::Value(-7), ProtoFamily::DecNet, Hook::In), Ok(-7));
    assert_eq!(
        resolve(ChainPriority::Value(i32::MIN), ProtoFamily::Inet, Hook::In),
        Ok(i32::MIN)
    );
}

#[test]
fn a_distance_is_added_to_the_number_of_the_name() {
    let family = ProtoFamily::Inet;
    let filter = |offset| ChainPriority::NameOffset(PriorityName::Filter, offset);
    assert_eq!(resolve(filter(10), family, Hook::In), Ok(10));
    assert_eq!(resolve(filter(-5), family, Hook::In), Ok(-5));
    let mangle = |offset| ChainPriority::NameOffset(PriorityName::Mangle, offset);
    assert_eq!(resolve(mangle(1), family, Hook::In), Ok(-149));
    assert_eq!(resolve(mangle(i32::MAX), family, Hook::In), Ok(i32::MAX - 150));
    assert_eq!(resolve(mangle(i32::MIN), family, Hook::In), Err(ChainError::PriorityOutOfRange));
    let security = |offset| ChainPriority::NameOffset(PriorityName::Security, offset);
    assert_eq!(
        resolve(security(i32::MAX), family, Hook::In),
        Err(ChainError::PriorityOutOfRange)
    );
    assert_eq!(resolve(security(i32::MAX - 50), family, Hook::In), Ok(i32::MAX));
    let output = ChainPriority::NameOffset(PriorityName::Output, 1);
    assert_eq!(resolve(output, family, Hook::Out), Err(ChainError::UndefinedPriority));
    assert_eq!(resolve(output, ProtoFamily::Bridge, Hook::Out), Ok(101));
}

#[test]
fn filter_chains_fit_everywhere_but_arp_has_two_hooks() {
    assert_eq!(
        validate(ChainType::Filter, ProtoFamily::Arp, Hook::Forward, 0),
        Err(ChainError::InvalidCombination)
    );
    assert_eq!(validate(ChainType::Filter, ProtoFamily::Arp, Hook::In, 0), Ok(()));
    assert_eq!(validate(ChainType::Filter, ProtoFamily::Arp, Hook::Out, 0), Ok(()));
    for family in FAMILIES {
        for hook in HOOKS {
            let legal = family != ProtoFamily::Arp || hook == Hook::In || hook == Hook::Out;
            assert_eq!(is_legal(ChainType::Filter, family, hook), legal);
            assert_eq!(
                validate(ChainType::Filter, family, hook, -500),
                if legal { Ok(()) } else { Err(ChainError::InvalidCombination) }
            );
        }
    }
}

#[test]
fn nat_chains_need_an_ip_family_a_hook_around_routing_and_a_priority_above_the_floor() {
    assert_eq!(validate(ChainType::Nat, ProtoFamily::Ipv4, Hook::PreRouting, 0), Ok(()));
    assert_eq!(validate(ChainType::Nat, ProtoFamily::Ipv4, Hook::PreRouting, -100), Ok(()));
    assert_eq!(validate(ChainType::Nat, ProtoFamily::Ipv4, Hook::PreRouting, -199), Ok(()));
    assert_eq!(
        validate(ChainType::Nat, ProtoFamily::Ipv4, Hook::PreRouting, -200),
        Err(ChainError::InvalidPriority)
    );
    assert_eq!(
        validate(ChainType::Nat, ProtoFamily::Ipv4, Hook::PreRouting, -201),
        Err(ChainError::InvalidPriority)
    );
    assert_eq!(
        validate(ChainType::Nat, ProtoFamily::Ipv4, Hook::PreRouting, i32::MIN),
        Err(ChainError::InvalidPriority)
    );
    for family in FAMILIES {
        for hook in HOOKS {
            let legal = is_ip(family) && hook != Hook::Forward && hook != Hook::Ingress;
            assert_eq!(is_legal(ChainType::Nat, family, hook), legal);
            assert_eq!(
                validate(ChainType::Nat, family, hook, 0),
                if legal { Ok(()) } else { Err(ChainError::InvalidCombination) }
            );
            assert_eq!(
                validate(ChainType::Nat, family, hook, -300),
                if legal {
                    Err(ChainError::InvalidPriority)
                } else {
                    Err(ChainError::InvalidCombination)
                }
            );
        }
    }
}

#[test]
fn route_chains_need_an_ip_family_and_the_output_hook() {
    for family in FAMILIES {
        for hook in HOOKS {
            let legal = is_ip(family) && hook == Hook::Out;
            assert_eq!(is_legal(ChainType::Route, family, hook), legal);
            assert_eq!(
                validate(ChainType::Route, family, hook, -300),
                if legal { Ok(()) } else { Err(ChainError::InvalidCombination) }
            );
        }
    }
}

#[test]
fn what_is_missing_is_reported_before_anything_else() {
    let family = ProtoFamily::Arp;
    let priority = Some(ChainPriority::Value(0));
    assert_eq!(
        validate_base(Some(ChainType::Filter), family, None, priority),
        Err(ChainError::MissingHook)
    );
    assert_eq!(
        validate_base(None, family, Some(Hook::Forward), priority),
        Err(ChainError::MissingType)
    );
    assert_eq!(validate_base(None, family, None, None), Err(ChainError::MissingType));
    assert_eq!(
        validate_base(Some(ChainType::Filter), family, None, None),
        Err(ChainError::MissingHook)
    );
    assert_eq!(
        validate_base(Some(ChainType::Filter), family, Some(Hook::Forward), None),
        Err(ChainError::MissingPriority)
    );
    assert_eq!(
        validate_base(Some(ChainType::Filter), family, Some(Hook::Forward), priority),
        Err(ChainError::InvalidCombination)
    );
    assert_eq!(
        validate_base(Some(ChainType::Filter), family, Some(Hook::In), priority),
        Ok(0)
    );
    let named = Some(ChainPriority::Name(PriorityName::Raw));
    assert_eq!(
        validate_base(Some(ChainType::Filter), family, Some(Hook::In), named),
        Err(ChainError::UndefinedPriority)
    );
    assert_eq!(
        validate_base(Some(ChainType::Nat), ProtoFamily::Inet, Some(Hook::PreRouting), named),
        Err(ChainError::InvalidPriority)
    );
    let dstnat = Some(ChainPriority::Name(PriorityName::DestinationNat));
    assert_eq!(
        validate_base(Some(ChainType::Nat), ProtoFamily::Inet, Some(Hook::PreRouting), dstnat),
        Ok(-100)
    );
}

#[test]
fn a_base_chain_is_set_whole_or_not_at_all() {
    let table = Table::new("t", ProtoFamily::Inet);
    let mut chain = Chain::new("c", &table);
    assert_eq!(chain.validate(), Ok(()));
    let before = chain.write(1, MsgType::Add).unwrap();
    let priority = Some(ChainPriority::Value(0));
    assert_eq!(
        chain.set_base(Some(ChainType::Filter), None, priority),
        Err(ChainError::MissingHook)
    );
    assert_eq!(chain.write(1, MsgType::Add).unwrap(), before);
    assert_eq!(
        chain.set_base(Some(ChainType::Route), Some(Hook::In), priority),
        Err(ChainError::InvalidCombination)
    );
    assert_eq!(chain.write(1, MsgType::Add).unwrap(), before);
    assert_eq!(
        chain.set_base(
            Some(ChainType::Nat),
            Some(Hook::PostRouting),
            Some(ChainPriority::Name(PriorityName::SourceNat))
        ),
        Ok(())
    );
    assert_eq!(chain.validate(), Ok(()));
    let mut same = Chain::new("c", &table);
    same.set_type(ChainType::Nat);
    same.set_hook_priority(Hook::PostRouting, 100);
    assert_eq!(chain.write(1, MsgType::Add), same.write(1, MsgType::Add));
    assert_ne!(chain.write(1, MsgType::Add).unwrap(), before);
}

#[test]
fn a_chain_with_half_of_what_a_base_chain_needs_is_not_sent() {
    let table = Table::new("t", ProtoFamily::Inet);
    let mut chain = Chain::new("c", &table);
    chain.set_policy(Policy::Accept);
    assert_eq!(chain.validate(), Err(ChainError::MissingType));
    assert_eq!(chain.write(1, MsgType::Add), None);
    chain.set_type(ChainType::Filter);
    assert_eq!(chain.validate(), Err(ChainError::MissingHook));
    assert_eq!(chain.write(1, MsgType::Add), None);
    chain.set_hook_priority(Hook::Out, 0);
    assert_eq!(chain.validate(), Ok(()));
    assert!(chain.write(1, MsgType::Add).is_some());

    let arp = Table::new("a", ProtoFamily::Arp);
    let mut chain = Chain::new("c", &arp);
    chain.set_type(ChainType::Filter);
    chain.set_hook_priority(Hook::Forward, 0);
    assert_eq!(chain.validate(), Err(ChainError::InvalidCombination));
    assert_eq!(chain.write(1, MsgType::Add), None);

    let v4 = Table::new("n", ProtoFamily::Ipv4);
    let mut chain = Chain::new("c", &v4);
    chain.set_type(ChainType::Nat);
    chain.set_hook_priority(Hook::PreRouting, -200);
    assert_eq!(chain.validate(), Err(ChainError::InvalidPriority));
    assert_eq!(chain.write(1, MsgType::Add), None);

    let mut chain = Chain::new("c", &v4);
    chain.set_device("eth0");
    assert_eq!(chain.validate(), Err(ChainError::MissingType));
}

#[test]
fn getters_give_the_same_answer_every_time() {
    let table = Table::new("filter", ProtoFamily::Ipv6);
    assert_eq!(table.get_name(), "filter");
    assert_eq!(table.get_name(), "filter");
    assert_eq!(table.get_family(), ProtoFamily::Ipv6);
    assert_eq!(table.get_family(), ProtoFamily::Ipv6);
    let mut chain = Chain::new("input", &table);
    assert_eq!(chain.get_name(), "input");
    assert_eq!(chain.get_name(), "input");
    assert_eq!(chain.get_table().get_name(), "filter");
    assert_eq!(chain.get_table().get_family(), ProtoFamily::Ipv6);
    let before = chain.write(3, MsgType::Add);
    let _ = (chain.get_name(), chain.get_table().get_name(), chain.get_table().get_family());
    assert_eq!(chain.write(3, MsgType::Add), before);
    chain.set_policy(Policy::Drop);
    assert_eq!(chain.get_name(), "input");
    assert_eq!(chain.get_table().get_name(), "filter");
}

#[test]
fn a_regular_chain_names_itself_and_its_table() {
    let table = Table::new("t", ProtoFamily::Inet);
    let chain = Chain::new("c", &table);
    let expected: Vec<u8> = vec![
        36, 0, 0, 0, // the length of the message
        3, 10, // a new chain, for the packet filter
        5, 4, // a request that asks for an acknowledgement and creates
        9, 0, 0, 0, // the sequence number
        0, 0, 0, 0, // no port
        1, 0, 0, 0, // the family, version zero, no resource
        6, 0, 1, 0, b't', 0, 0, 0, // the table
        6, 0, 3, 0, b'c', 0, 0, 0, // the name
    ];
    assert_eq!(chain.write(9, MsgType::Add), Some(expected));
    let deleted = chain.write(9, MsgType::Del).unwrap();
    assert_eq!(&deleted[4..8], &[5, 10, 5, 0]);
}

#[test]
fn a_base_chain_carries_hook_policy_and_type() {
    let table = Table::new("t", ProtoFamily::Inet);
    let mut chain = Chain::new("c", &table);
    chain.set_hook_priority(Hook::Out, -1);
    chain.set_type(ChainType::Filter);
    chain.set_policy(Policy::Accept);
    chain.set_device("lo");
    let expected: Vec<u8> = vec![
        84, 0, 0, 0, 3, 10, 5, 4, 2, 0, 0, 0, 0, 0, 0, 0, 1, 0, 0, 0, // the header
        6, 0, 1, 0, b't', 0, 0, 0, // the table
        6, 0, 3, 0, b'c', 0, 0, 0, // the name
        28, 0, 4, 0x80, // the hook
        8, 0, 1, 0, 0, 0, 0, 3, // its number
        8, 0, 2, 0, 0xff, 0xff, 0xff, 0xff, // the priority
        7, 0, 3, 0, b'l', b'o', 0, 0, // the device
        8, 0, 5, 0, 0, 0, 0, 1, // the policy
        11, 0, 7, 0, b'f', b'i', b'l', b't', b'e', b'r', 0, 0, // the type
    ];
    assert_eq!(chain.write(2, MsgType::Add), Some(expected));
    assert_eq!(ChainType::Filter.as_str(), "filter");
    assert_eq!(ChainType::Route.as_str(), "route");
    assert_eq!(ChainType::Nat.as_str(), "nat");
}

#[test]
fn a_name_too_long_for_an_attribute_gives_no_message() {
    let long = "x".repeat(65531);
    let table = Table::new(&long, ProtoFamily::Inet);
    assert_eq!(table.write(1, MsgType::Add), None);
    let chain = Chain::new("c", &table);
    assert_eq!(chain.write(1, MsgType::Add), None);
    let fits = "x".repeat(65530);
    let table = Table::new(&fits, ProtoFamily::Inet);
    assert_eq!(table.write(1, MsgType::Add).unwrap().len(), 20 + 65536 + 8);
}
