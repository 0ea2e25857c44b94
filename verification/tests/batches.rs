use nftnl::expr::{Cmp, CmpOp, Counter, Meta, Verdict};
use nftnl::set::NftSet;
use nftnl::{
    Batch, BatchError, Chain, ChainType, FinalizedBatch, Hook, MsgType, NlMsg, Policy,
    ProtoFamily, Rule, Table,
};

/// The messages of a finalized batch, one after the other.
fn messages(batch: &FinalizedBatch) -> Vec<Vec<u8>> {
    let mut bytes = Vec::new();
    let mut iter = batch.iter();
    while let Some(page) = iter.next() {
        bytes.extend_from_slice(page);
    }
    let mut found = Vec::new();
    let mut at = 0;
    while at < bytes.len() {
        let len = u32::from_le_bytes([bytes[at], bytes[at + 1], bytes[at + 2], bytes[at + 3]]);
        found.push(bytes[at..at + len as usize].to_vec());
        at += len as usize;
    }
    found
}

fn kind(msg: &[u8]) -> u16 {
    u16::from_le_bytes([msg[4], msg[5]])
}

fn flags(msg: &[u8]) -> u16 {
    u16::from_le_bytes([msg[6], msg[7]])
}

fn seq(msg: &[u8]) -> u32 {
    u32::from_le_bytes([msg[8], msg[9], msg[10], msg[11]])
}

fn three_tables(ack: bool) -> FinalizedBatch {
    let mut batch = Batch::with_limits(4096, 65535 + 4096, ack).unwrap();
    for name in ["a", "b", "c"] {
        let table = Table::new(name, ProtoFamily::Inet);
        assert_eq!(batch.add(&table, MsgType::Add), Ok(()));
    }
    batch.finalize()
}

#[test]
fn with_acknowledged_frames_five_numbers_are_used() {
    let batch = three_tables(true);
    assert_eq!(batch.sequence_numbers(), 1..6);
    assert_eq!(batch.sequence_numbers().count(), 5);
    let found = messages(&batch);
    assert_eq!(found.len(), 5);
    let numbers: Vec<u32> = found.iter().map(|m| seq(m)).collect();
    assert_eq!(numbers, vec![1, 2, 3, 4, 5]);
    for msg in &found {
        assert_eq!(flags(msg) & libc::NLM_F_ACK as u16, libc::NLM_F_ACK as u16);
    }
}

#[test]
fn without_acknowledged_frames_three_numbers_are_used() {
    let batch = three_tables(false);
    assert_eq!(batch.sequence_numbers(), 1..4);
    assert_eq!(batch.sequence_numbers().count(), 3);
    let found = messages(&batch);
    assert_eq!(found.len(), 5);
    let numbers: Vec<u32> = found.iter().map(|m| seq(m)).collect();
    assert_eq!(numbers, vec![0, 1, 2, 3, 0]);
    assert_eq!(flags(&found[0]), libc::NLM_F_REQUEST as u16);
    assert_eq!(flags(&found[4]), libc::NLM_F_REQUEST as u16);
    for msg in &found[1..4] {
        assert_eq!(flags(msg) & libc::NLM_F_ACK as u16, libc::NLM_F_ACK as u16);
    }
}

#[test]
fn the_frames_of_a_batch_have_their_exact_bytes() {
    let open = Batch::with_limits(4096, 4096, true).unwrap().finalize();
    let found = messages(&open);
    assert_eq!(
        found,
        vec![
            vec![20, 0, 0, 0, 16, 0, 5, 0, 1, 0, 0, 0, 0, 0, 0, 0, 0, 0, 0, 10],
            vec![20, 0, 0, 0, 17, 0, 5, 0, 2, 0, 0, 0, 0, 0, 0, 0, 0, 0, 0, 10],
        ]
    );
    assert_eq!(open.sequence_numbers(), 1..3);
    let silent = Batch::with_limits(4096, 4096, false).unwrap().finalize();
    assert_eq!(
        messages(&silent),
        vec![
            vec![20, 0, 0, 0, 16, 0, 1, 0, 0, 0, 0, 0, 0, 0, 0, 0, 0, 0, 0, 10],
            vec![20, 0, 0, 0, 17, 0, 1, 0, 0, 0, 0, 0, 0, 0, 0, 0, 0, 0, 0, 10],
        ]
    );
    assert_eq!(silent.sequence_numbers(), 1..1);
    assert_eq!(silent.sequence_numbers().count(), 0);
}

#[test]
fn a_ruleset_goes_out_between_one_begin_and_one_end() {
    let table = Table::new("t", ProtoFamily::Inet);
    let mut chain = Chain::new("c", &table);
    chain.set_hook_priority(Hook::Out, 0);
    chain.set_type(ChainType::Filter);
    chain.set_policy(Policy::Accept);
    let mut rule = Rule::new(&chain);
    rule.add_expr(&Meta::L4Proto);
    rule.add_expr(&Cmp::new(CmpOp::Eq, 6u8));
    rule.add_expr(&Counter);
    rule.add_expr(&Verdict::Accept);

    let mut batch = Batch::with_limits(131072, 65535 + 4096, true).unwrap();
    assert_eq!(batch.add(&table, MsgType::Add), Ok(()));
    assert_eq!(batch.add(&chain, MsgType::Add), Ok(()));
    assert_eq!(batch.add(&rule, MsgType::Add), Ok(()));
    let batch = batch.finalize();

    let found = messages(&batch);
    assert_eq!(found.len(), 5);
    assert_eq!(kind(&found[0]), libc::NFNL_MSG_BATCH_BEGIN as u16);
    assert_eq!(kind(&found[4]), libc::NFNL_MSG_BATCH_END as u16);
    let subsystem = (libc::NFNL_SUBSYS_NFTABLES as u16) << 8;
    assert_eq!(kind(&found[1]), subsystem | libc::NFT_MSG_NEWTABLE as u16);
    assert_eq!(kind(&found[2]), subsystem | libc::NFT_MSG_NEWCHAIN as u16);
    assert_eq!(kind(&found[3]), subsystem | libc::NFT_MSG_NEWRULE as u16);
    for msg in &found[1..4] {
        assert_eq!(msg[16], libc::NFPROTO_INET as u8);
    }
    assert!(seq(&found[1]) < seq(&found[2]));
    assert!(seq(&found[2]) < seq(&found[3]));
    let begins = found.iter().filter(|m| kind(m) == 16).count();
    let ends = found.iter().filter(|m| kind(m) == 17).count();
    assert_eq!((begins, ends), (1, 1));
    assert_eq!(batch.sequence_numbers(), 1..6);

    assert_eq!(found[1], table.write(2, MsgType::Add).unwrap());
    assert_eq!(found[2], chain.write(3, MsgType::Add).unwrap());
    assert_eq!(found[3], rule.write(4, MsgType::Add).unwrap());
}

#[test]
fn a_rule_lists_its_expressions_in_order() {
    let table = Table::new("t", ProtoFamily::Inet);
    let chain = Chain::new("c", &table);
    let mut rule = Rule::new(&chain);
    let empty: Vec<u8> = vec![
        36, 0, 0, 0, 6, 10, 5, 14, 1, 0, 0, 0, 0, 0, 0, 0, 1, 0, 0, 0, // the header
        6, 0, 1, 0, b't', 0, 0, 0, // the table
        6, 0, 2, 0, b'c', 0, 0, 0, // the chain
    ];
    assert_eq!(rule.write(1, MsgType::Add), Some(empty));
    rule.add_expr(&Counter);
    rule.add_expr(&Verdict::Drop);
    let counter = Counter.to_expr_bytes(&rule);
    let drop = Verdict::Drop.to_expr_bytes(&rule);
    let written = rule.write(1, MsgType::Add).unwrap();
    let list_len = 4 + counter.len() + drop.len();
    assert_eq!(written.len(), 36 + list_len);
    assert_eq!(&written[36..40], &[list_len as u8, 0, 4, 0x80]);
    assert_eq!(&written[40..40 + counter.len()], &counter[..]);
    assert_eq!(&written[40 + counter.len()..], &drop[..]);
    assert_eq!(rule.get_chain().get_name(), "c");
    assert_eq!(rule.get_chain().get_table().get_name(), "t");
}

trait ToExprBytes {
    fn to_expr_bytes(&self, rule: &Rule) -> Vec<u8>;
}

impl<E: nftnl::expr::Expression> ToExprBytes for E {
    fn to_expr_bytes(&self, rule: &Rule) -> Vec<u8> {
        self.to_expr(rule).encode().unwrap()
    }
}

#[test]
fn handle_and_position_stand_before_the_expressions() {
    let table = Table::new("t", ProtoFamily::Ipv4);
    let chain = Chain::new("c", &table);
    let mut rule = Rule::new(&chain);
    rule.set_position(0x0102030405060708);
    rule.set_handle(9);
    let expected: Vec<u8> = vec![
        60, 0, 0, 0, 8, 10, 5, 0, 1, 0, 0, 0, 0, 0, 0, 0, 2, 0, 0, 0, // the header
        6, 0, 1, 0, b't', 0, 0, 0, // the table
        6, 0, 2, 0, b'c', 0, 0, 0, // the chain
        12, 0, 3, 0, 0, 0, 0, 0, 0, 0, 0, 9, // the handle
        12, 0, 6, 0, 1, 2, 3, 4, 5, 6, 7, 8, // the position
    ];
    assert_eq!(rule.write(1, MsgType::Del), Some(expected));
}

#[test]
fn a_message_that_does_not_fit_starts_a_new_page() {
    // A table with a name of one letter takes 36 bytes.
    let mut batch = Batch::with_limits(100, 100, false).unwrap();
    let table = Table::new("t", ProtoFamily::Inet);
    for _ in 0..5 {
        assert_eq!(batch.add(&table, MsgType::Add), Ok(()));
    }
    let sizes: Vec<usize> = batch.as_raw_batch().iter().map(|p| p.len()).collect();
    assert_eq!(sizes, vec![20 + 36 + 36, 36 + 36, 36]);
    let batch = batch.finalize();
    let mut iter = batch.iter();
    let mut sizes = Vec::new();
    while let Some(page) = iter.next() {
        sizes.push(page.len());
    }
    assert_eq!(sizes, vec![92, 72, 56]);
    assert!(iter.next().is_none());
    assert_eq!(messages(&batch).len(), 7);
}

#[test]
fn a_page_is_filled_to_its_last_byte() {
    let mut batch = Batch::with_limits(56, 100, false).unwrap();
    let table = Table::new("t", ProtoFamily::Inet);
    assert_eq!(batch.add(&table, MsgType::Add), Ok(()));
    assert_eq!(batch.add(&table, MsgType::Add), Ok(()));
    let sizes: Vec<usize> = batch.as_raw_batch().iter().map(|p| p.len()).collect();
    assert_eq!(sizes, vec![56, 36]);
    let batch = batch.finalize();
    let mut iter = batch.iter();
    assert_eq!(iter.next().map(|p| p.len()), Some(56));
    assert_eq!(iter.next().map(|p| p.len()), Some(56));
    assert_eq!(iter.next(), None);
}

#[test]
fn a_message_longer_than_a_page_is_refused() {
    let mut batch = Batch::with_limits(40, 100, true).unwrap();
    let short = Table::new("t", ProtoFamily::Inet);
    let long = Table::new("a-long-name", ProtoFamily::Inet);
    assert_eq!(batch.add(&long, MsgType::Add), Err(BatchError::MessageTooLarge));
    assert_eq!(batch.as_raw_batch().len(), 1);
    assert_eq!(batch.add(&short, MsgType::Add), Ok(()));
    let batch = batch.finalize();
    assert_eq!(batch.sequence_numbers(), 1..4);
    let numbers: Vec<u32> = messages(&batch).iter().map(|m| seq(m)).collect();
    assert_eq!(numbers, vec![1, 2, 3]);
}

#[test]
fn a_message_longer_than_a_message_may_be_is_refused() {
    let mut batch = Batch::with_limits(4096, 40, true).unwrap();
    let short = Table::new("t", ProtoFamily::Inet);
    let long = Table::new("a-long-name", ProtoFamily::Inet);
    assert_eq!(short.write(1, MsgType::Add).unwrap().len(), 36);
    assert_eq!(long.write(1, MsgType::Add).unwrap().len(), 44);
    assert_eq!(batch.add(&long, MsgType::Add), Err(BatchError::MessageTooLarge));
    assert_eq!(batch.add(&short, MsgType::Add), Ok(()));
    assert_eq!(batch.finalize().sequence_numbers(), 1..4);
}

#[test]
fn what_cannot_be_written_is_refused() {
    let mut batch = Batch::with_limits(4096, 4096, true).unwrap();
    let table = Table::new("t", ProtoFamily::Arp);
    let mut chain = Chain::new("c", &table);
    chain.set_type(ChainType::Filter);
    chain.set_hook_priority(Hook::Forward, 0);
    assert_eq!(batch.add(&chain, MsgType::Add), Err(BatchError::NotEncodable));
    let unnamed = Table::new(&"x".repeat(70000), ProtoFamily::Inet);
    assert_eq!(batch.add(&unnamed, MsgType::Add), Err(BatchError::NotEncodable));
    assert_eq!(batch.finalize().sequence_numbers(), 1..3);
}

#[test]
fn a_batch_needs_room_for_its_frames_and_sizes_that_add_up() {
    assert!(matches!(Batch::with_limits(19, 100, true), Err(BatchError::MessageTooLarge)));
    assert!(matches!(Batch::with_limits(0, 0, false), Err(BatchError::MessageTooLarge)));
    assert!(matches!(Batch::with_limits(20, 0, true), Err(BatchError::MessageTooLarge)));
    assert!(matches!(Batch::with_limits(20, 19, true), Err(BatchError::MessageTooLarge)));
    assert!(Batch::with_limits(20, 20, true).is_ok());
    assert!(matches!(
        Batch::with_limits(u32::MAX, 1, true),
        Err(BatchError::PageSizeOverflow)
    ));
    assert!(matches!(
        Batch::with_limits(10, u32::MAX - 9, true),
        Err(BatchError::PageSizeOverflow)
    ));
    assert!(Batch::with_limits(u32::MAX - 100, 100, true).is_ok());
    assert!(matches!(Batch::with_page_size(u32::MAX), Err(_)));
    assert!(matches!(Batch::with_page_size(5), Err(_)));
}

#[test]
fn the_usual_batch_starts_with_the_message_that_opens_it() {
    let batch = Batch::new().unwrap();
    let ack = nftnl::util::ack_batch_end_messages();
    let expected = Batch::with_limits(4096, 4096, ack).unwrap();
    assert_eq!(batch.as_raw_batch(), expected.as_raw_batch());
    let sized = Batch::with_page_size(8192).unwrap();
    assert_eq!(sized.as_raw_batch(), expected.as_raw_batch());
    let numbers = batch.finalize().sequence_numbers();
    assert_eq!(numbers, if ack { 1..3 } else { 1..1 });
}

#[test]
fn messages_are_added_up_to_the_first_that_fails() {
    let mut batch = Batch::with_limits(4096, 4096, true).unwrap();
    let tables = vec![
        Table::new("a", ProtoFamily::Inet),
        Table::new("b", ProtoFamily::Inet),
        Table::new(&"x".repeat(70000), ProtoFamily::Inet),
        Table::new("d", ProtoFamily::Inet),
    ];
    assert_eq!(batch.add_iter(&tables, MsgType::Add), Err(BatchError::NotEncodable));
    let batch = batch.finalize();
    let found = messages(&batch);
    assert_eq!(found.len(), 4);
    assert_eq!(found[1], tables[0].write(2, MsgType::Add).unwrap());
    assert_eq!(found[2], tables[1].write(3, MsgType::Add).unwrap());
    assert_eq!(batch.sequence_numbers(), 1..5);

    let mut batch = Batch::with_limits(4096, 4096, false).unwrap();
    assert_eq!(batch.add_iter(&tables[..2].to_vec_of_tables(), MsgType::Del), Ok(()));
    assert_eq!(batch.add_iter(&Vec::<Table>::new(), MsgType::Del), Ok(()));
    assert_eq!(batch.finalize().sequence_numbers(), 1..3);
}

trait ToVecOfTables {
    fn to_vec_of_tables(&self) -> Vec<Table>;
}

impl ToVecOfTables for [Table] {
    fn to_vec_of_tables(&self) -> Vec<Table> {
        self.iter().map(|t| t.duplicate()).collect()
    }
}

#[test]
fn the_elements_of_a_set_follow_the_set() {
    let table = Table::new("t", ProtoFamily::Inet);
    let mut set: NftSet<[u8; 4]> = NftSet::new("s", 1, &table, ProtoFamily::Inet);
    for i in 0..5000u32 {
        set.add(&[10, (i >> 8) as u8, i as u8, 1]);
    }
    let mut batch = Batch::with_limits(131072, 65535 + 4096, true).unwrap();
    assert_eq!(batch.add(&set, MsgType::Add), Ok(()));
    let mut pages = Vec::new();
    let mut iter = set.elems_iter();
    while let Some(page) = iter.next() {
        pages.push(page);
    }
    assert_eq!(pages.len(), 2);
    assert_eq!(batch.add_iter(&pages, MsgType::Add), Ok(()));
    let batch = batch.finalize();
    assert_eq!(batch.sequence_numbers(), 1..6);
    let found = messages(&batch);
    let subsystem = (libc::NFNL_SUBSYS_NFTABLES as u16) << 8;
    assert_eq!(kind(&found[1]), subsystem | libc::NFT_MSG_NEWSET as u16);
    assert_eq!(kind(&found[2]), subsystem | libc::NFT_MSG_NEWSETELEM as u16);
    assert_eq!(kind(&found[3]), subsystem | libc::NFT_MSG_NEWSETELEM as u16);
    assert_eq!(found[2].len(), 48 + 4095 * 16);
    assert_eq!(found[3].len(), 48 + 905 * 16);
}
