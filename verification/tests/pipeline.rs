use kafka_exex::chain::{BlockData, LogData, ReceiptData, SegmentBlock, TxData};
use kafka_exex::coordinator::{
    handle_event, process_committed_chain, segment_block_count, segment_transaction_count,
    HeightAck, SegmentEvent,
};
use kafka_exex::decimal::{u128_to_string, u64_to_string};
use kafka_exex::publish::{
    block_message, log_message, plan_block_publish, resolve_topic_prefix, transaction_message,
    RecordPayload,
};
use kafka_exex::resume::{directive_lookup_number, resolve_resumption, ResumeError, ResumePoint};
use kafka_exex::token::redact_token;
use kafka_exex::transform::{
    process_block_with_receipts, process_committed_block, process_transactions_in_block,
};

fn hash32(seed: u8) -> Vec<u8> {
    let mut v = vec![seed; 31];
    v.push(seed.wrapping_add(1));
    v
}

fn addr20(seed: u8) -> Vec<u8> {
    vec![seed; 20]
}

fn sample_tx(seed: u8, to: Option<Vec<u8>>, value: u128) -> TxData {
    TxData {
        hash: hash32(seed),
        nonce: seed as u64,
        from: addr20(seed),
        to,
        value,
        input: vec![0xde, 0xad],
        gas_limit: 21_000,
        gas_price: Some(7),
        max_fee_per_gas: 100,
        max_priority_fee_per_gas: Some(2),
        tx_type: 2,
    }
}

fn sample_block(number: u64, txs: Vec<TxData>) -> BlockData {
    BlockData {
        hash: hash32(0xaa),
        parent_hash: hash32(0xab),
        beneficiary: addr20(0x11),
        state_root: hash32(0x01),
        transactions_root: hash32(0x02),
        receipts_root: hash32(0x03),
        number,
        gas_used: 42_000,
        gas_limit: 30_000_000,
        extra_data: vec![1, 2, 3],
        logs_bloom: vec![0u8; 256],
        timestamp: 1_700_000_000,
        difficulty: 0,
        size: 1234,
        mix_hash: hash32(0x04),
        nonce: vec![0u8; 8],
        base_fee_per_gas: Some(9),
        withdrawals_root: Some(hash32(0x05)),
        transactions: txs,
    }
}

fn receipt(success: bool, gas: u64, logs: Vec<LogData>) -> ReceiptData {
    ReceiptData { success, cumulative_gas_used: gas, logs }
}

fn one_topic_log() -> LogData {
    LogData { address: addr20(0x22), topics: vec![hash32(0x33)], data: vec![5, 6, 7] }
}

#[test]
fn it_works() {
    assert_eq!(2 + 2, 4);
}

#[test]
fn decimal_rendering() {
    assert_eq!(u64_to_string(0), "0");
    assert_eq!(u64_to_string(7), "7");
    assert_eq!(u64_to_string(12345), "12345");
    assert_eq!(u64_to_string(u64::MAX), "18446744073709551615");
    assert_eq!(u128_to_string(1_000_000_000_000_000_000), "1000000000000000000");
    assert_eq!(u128_to_string(u128::MAX), "340282366920938463463374607431768211455");
}

#[test]
fn block_record_fields() {
    let block = sample_block(100, vec![]);
    let rec = process_committed_block(&block, 1);
    assert_eq!(rec.block_hash, hash32(0xaa));
    assert_eq!(rec.parent_hash, hash32(0xab));
    assert_eq!(rec.author, addr20(0x11));
    assert_eq!(rec.state_root, hash32(0x01));
    assert_eq!(rec.transactions_root, hash32(0x02));
    assert_eq!(rec.receipts_root, hash32(0x03));
    assert_eq!(rec.block_number, 100);
    assert_eq!(rec.gas_used, 42_000);
    assert_eq!(rec.gas_limit, 30_000_000);
    assert_eq!(rec.extra_data, vec![1, 2, 3]);
    assert_eq!(rec.logs_bloom, vec![0u8; 256]);
    assert_eq!(rec.timestamp, 1_700_000_000);
    assert_eq!(rec.difficulty, 0);
    assert_eq!(rec.size, 1234);
    assert_eq!(rec.base_fee_per_gas, 9);
    assert_eq!(rec.withdrawals_root, Some(hash32(0x05)));
    assert_eq!(rec.chain_id, 1);
}

#[test]
fn missing_base_fee_becomes_zero() {
    let mut block = sample_block(1, vec![]);
    block.base_fee_per_gas = None;
    let rec = process_committed_block(&block, 1);
    assert_eq!(rec.base_fee_per_gas, 0);
}

#[test]
fn zero_transaction_block_yields_empty_entries() {
    let block = sample_block(5, vec![]);
    let receipts: Vec<ReceiptData> = vec![];
    let (rec, entries) = process_block_with_receipts(&block, &receipts, 1);
    assert_eq!(rec.block_number, 5);
    assert!(entries.is_empty());
}

#[test]
fn transaction_record_fields() {
    let tx = sample_tx(0x77, Some(addr20(0x44)), 12345);
    let block = sample_block(100, vec![tx]);
    let receipts = vec![receipt(true, 21_000, vec![])];
    let entries = process_transactions_in_block(&block, &receipts, 9);
    assert_eq!(entries.len(), 1);
    let (rec, logs) = &entries[0];
    assert_eq!(rec.block_number, 100);
    assert_eq!(rec.transaction_index, 0);
    assert_eq!(rec.transaction_hash, hash32(0x77));
    assert_eq!(rec.nonce, 0x77);
    assert_eq!(rec.from_address, addr20(0x77));
    assert_eq!(rec.to_address, addr20(0x44));
    assert_eq!(rec.value_string, "12345");
    assert_eq!(rec.input, vec![0xde, 0xad]);
    assert_eq!(rec.gas_limit, 21_000);
    assert_eq!(rec.gas_used, 21_000);
    assert_eq!(rec.gas_price, Some(7));
    assert_eq!(rec.transaction_type, 2);
    assert_eq!(rec.max_priority_fee_per_gas, Some(2));
    assert_eq!(rec.max_fee_per_gas, 100);
    assert!(rec.success);
    assert_eq!(rec.chain_id, 9);
    assert_eq!(rec.block_hash, hash32(0xaa));
    assert_eq!(rec.timestamp, 1_700_000_000);
    assert!(logs.is_empty());
}

#[test]
fn contract_creation_uses_zero_address() {
    let tx = sample_tx(0x77, None, 0);
    let block = sample_block(1, vec![tx]);
    let receipts = vec![receipt(false, 50_000, vec![])];
    let entries = process_transactions_in_block(&block, &receipts, 1);
    assert_eq!(entries[0].0.to_address, vec![0u8; 20]);
    assert!(!entries[0].0.success);
}

#[test]
fn large_value_serializes_without_precision_loss() {
    let tx = sample_tx(1, None, 340_282_366_920_938_463_463_374_607_431_768_211_455);
    let block = sample_block(1, vec![tx]);
    let receipts = vec![receipt(true, 1, vec![])];
    let entries = process_transactions_in_block(&block, &receipts, 1);
    assert_eq!(entries[0].0.value_string, "340282366920938463463374607431768211455");
}

#[test]
fn single_topic_log_pads_with_zero_sentinel() {
    let tx = sample_tx(0x10, None, 1);
    let block = sample_block(100, vec![tx]);
    let receipts = vec![receipt(true, 1, vec![one_topic_log()])];
    let entries = process_transactions_in_block(&block, &receipts, 1);
    let logs = &entries[0].1;
    assert_eq!(logs.len(), 1);
    let log = &logs[0];
    assert_eq!(log.block_number, 100);
    assert_eq!(log.transaction_index, 0);
    assert_eq!(log.log_index, 0);
    assert_eq!(log.transaction_hash, hash32(0x10));
    assert_eq!(log.address, addr20(0x22));
    assert_eq!(log.topic0, hash32(0x33));
    assert_eq!(log.topic1, vec![0u8; 32]);
    assert_eq!(log.topic2, vec![0u8; 32]);
    assert_eq!(log.topic3, vec![0u8; 32]);
    assert_eq!(log.data, vec![5, 6, 7]);
    assert_eq!(log.block_hash, hash32(0xaa));
}

#[test]
fn log_indexes_are_scoped_per_transaction() {
    let tx0 = sample_tx(0x10, None, 1);
    let tx1 = sample_tx(0x20, None, 2);
    let block = sample_block(7, vec![tx0, tx1]);
    let receipts = vec![
        receipt(true, 1, vec![one_topic_log(), one_topic_log()]),
        receipt(true, 2, vec![one_topic_log()]),
    ];
    let entries = process_transactions_in_block(&block, &receipts, 1);
    assert_eq!(entries[0].1[0].log_index, 0);
    assert_eq!(entries[0].1[1].log_index, 1);
    assert_eq!(entries[1].1[0].log_index, 0);
    assert_eq!(entries[1].1[0].transaction_index, 1);
}

#[test]
fn transform_is_deterministic() {
    let tx = sample_tx(0x10, Some(addr20(1)), 55);
    let block = sample_block(3, vec![tx]);
    let receipts = vec![receipt(true, 9, vec![one_topic_log()])];
    let first = process_block_with_receipts(&block, &receipts, 1);
    let second = process_block_with_receipts(&block, &receipts, 1);
    assert_eq!(first, second);
}

#[test]
fn transaction_topic_and_key_are_exact() {
    let tx = sample_tx(0x10, None, 1);
    let block = sample_block(100, vec![tx]);
    let receipts = vec![receipt(true, 1, vec![])];
    let entries = process_transactions_in_block(&block, &receipts, 1);
    let (rec, _) = entries.into_iter().next().unwrap();
    let item = transaction_message("1-mainnet", rec);
    assert_eq!(item.topic, "1-mainnet-transactions");
    assert_eq!(item.key, "100-0");
    assert!(matches!(item.payload, RecordPayload::Transaction(_)));
}

#[test]
fn block_message_has_empty_key() {
    let block = sample_block(100, vec![]);
    let rec = process_committed_block(&block, 1);
    let item = block_message("1-mainnet", rec);
    assert_eq!(item.topic, "1-mainnet-blocks");
    assert_eq!(item.key, "");
    assert!(matches!(item.payload, RecordPayload::Block(_)));
}

#[test]
fn log_message_key_carries_all_three_indexes() {
    let tx = sample_tx(0x10, None, 1);
    let block = sample_block(100, vec![tx]);
    let receipts = vec![receipt(true, 1, vec![one_topic_log()])];
    let entries = process_transactions_in_block(&block, &receipts, 1);
    let (_, logs) = entries.into_iter().next().unwrap();
    let item = log_message("1-mainnet", logs.into_iter().next().unwrap());
    assert_eq!(item.topic, "1-mainnet-logs");
    assert_eq!(item.key, "100-0-0");
    assert!(matches!(item.payload, RecordPayload::Log(_)));
}

#[test]
fn topic_prefix_resolution() {
    assert_eq!(resolve_topic_prefix(Some("custom".to_string()), 1, Some("mainnet".to_string())), "custom");
    assert_eq!(resolve_topic_prefix(None, 1, Some("mainnet".to_string())), "1-mainnet");
    assert_eq!(resolve_topic_prefix(None, 5, None), "5-5");
}

#[test]
fn resume_directive_zero_resolves_to_genesis() {
    let genesis = hash32(0x99);
    let r = resolve_resumption(Some(0), genesis.clone(), None);
    assert_eq!(r, Ok(ResumePoint::Head { number: 0, hash: genesis }));
}

#[test]
fn resume_directive_unset_keeps_stored_head() {
    let r = resolve_resumption(None, hash32(0x99), Some(hash32(0x01)));
    assert_eq!(r, Ok(ResumePoint::Continue));
}

#[test]
fn resume_directive_sets_head_to_predecessor() {
    let prior = hash32(0x42);
    let r = resolve_resumption(Some(5), hash32(0x99), Some(prior.clone()));
    assert_eq!(r, Ok(ResumePoint::Head { number: 4, hash: prior }));
}

#[test]
fn resume_fails_without_predecessor_hash() {
    let r = resolve_resumption(Some(5), hash32(0x99), None);
    assert_eq!(r, Err(ResumeError::MissingBlockHash { number: 4 }));
}

#[test]
fn committed_segment_end_to_end() {
    let tx0 = sample_tx(0x10, Some(addr20(2)), 1);
    let tx1 = sample_tx(0x20, None, 2);
    let block = sample_block(100, vec![tx0, tx1]);
    let block_hash = block.hash.clone();
    let receipts = vec![receipt(true, 1, vec![one_topic_log()]), receipt(true, 2, vec![])];
    let segment = vec![SegmentBlock { block, receipts }];
    let event = SegmentEvent::Committed { segment };
    let (items, ack) = handle_event(&event, "1-mainnet", 1);

    assert_eq!(items.len(), 4);
    assert!(matches!(items[0].payload, RecordPayload::Block(_)));
    assert_eq!(items[0].topic, "1-mainnet-blocks");
    match &items[1].payload {
        RecordPayload::Transaction(t) => assert_eq!(t.transaction_index, 0),
        other => panic!("expected a transaction record, got {:?}", other),
    }
    assert_eq!(items[1].key, "100-0");
    match &items[2].payload {
        RecordPayload::Log(l) => {
            assert_eq!(l.block_number, 100);
            assert_eq!(l.transaction_index, 0);
            assert_eq!(l.log_index, 0);
        },
        other => panic!("expected a log record, got {:?}", other),
    }
    assert_eq!(items[2].key, "100-0-0");
    match &items[3].payload {
        RecordPayload::Transaction(t) => assert_eq!(t.transaction_index, 1),
        other => panic!("expected a transaction record, got {:?}", other),
    }
    assert_eq!(items[3].key, "100-1");

    assert_eq!(ack, Some(HeightAck { number: 100, hash: block_hash }));
}

#[test]
fn committed_record_counts_match() {
    let tx0 = sample_tx(0x10, None, 1);
    let tx1 = sample_tx(0x20, None, 2);
    let block = sample_block(100, vec![tx0, tx1]);
    let receipts = vec![receipt(true, 1, vec![one_topic_log(), one_topic_log()]), receipt(true, 2, vec![one_topic_log()])];
    let segment = vec![SegmentBlock { block, receipts }];
    let items = process_committed_chain(&segment, "p", 1);
    let blocks: usize = items.iter().filter(|i| matches!(i.payload, RecordPayload::Block(_))).count();
    let txs: usize = items.iter().filter(|i| matches!(i.payload, RecordPayload::Transaction(_))).count();
    let logs: usize = items.iter().filter(|i| matches!(i.payload, RecordPayload::Log(_))).count();
    assert_eq!(blocks, 1);
    assert_eq!(txs, 2);
    assert_eq!(logs, 3);
}

#[test]
fn zero_transaction_blocks_are_skipped() {
    let empty_block = sample_block(100, vec![]);
    let busy_block = sample_block(101, vec![sample_tx(0x10, None, 1)]);
    let segment = vec![
        SegmentBlock { block: empty_block, receipts: vec![] },
        SegmentBlock { block: busy_block, receipts: vec![receipt(true, 1, vec![])] },
    ];
    let items = process_committed_chain(&segment, "p", 1);
    assert_eq!(items.len(), 2);
    match &items[0].payload {
        RecordPayload::Block(b) => assert_eq!(b.block_number, 101),
        other => panic!("expected a block record, got {:?}", other),
    }
}

#[test]
fn reorg_publishes_nothing_but_acknowledges_new_tip() {
    let old_seg = vec![SegmentBlock { block: sample_block(10, vec![]), receipts: vec![] }];
    let mut new_block = sample_block(10, vec![sample_tx(1, None, 1)]);
    new_block.hash = hash32(0xcc);
    let new_hash = new_block.hash.clone();
    let new_seg = vec![SegmentBlock { block: new_block, receipts: vec![receipt(true, 1, vec![])] }];
    let event = SegmentEvent::Reorged { old: old_seg, new: new_seg };
    let (items, ack) = handle_event(&event, "p", 1);
    assert!(items.is_empty());
    assert_eq!(ack, Some(HeightAck { number: 10, hash: new_hash }));
}

#[test]
fn revert_publishes_nothing_and_acknowledges_nothing() {
    let old_seg = vec![SegmentBlock { block: sample_block(10, vec![]), receipts: vec![] }];
    let event = SegmentEvent::Reverted { old: old_seg };
    let (items, ack) = handle_event(&event, "p", 1);
    assert!(items.is_empty());
    assert_eq!(ack, None);
}

#[test]
fn segment_counts_for_throughput() {
    let b100 = sample_block(100, vec![sample_tx(1, None, 1)]);
    let b101 = sample_block(101, vec![sample_tx(2, None, 1), sample_tx(3, None, 2)]);
    let segment = vec![
        SegmentBlock { block: b100, receipts: vec![receipt(true, 1, vec![])] },
        SegmentBlock { block: b101, receipts: vec![receipt(true, 1, vec![]), receipt(true, 2, vec![])] },
    ];
    assert_eq!(segment_block_count(&segment), 2);
    assert_eq!(segment_transaction_count(&segment), 3);
}

#[test]
fn plan_block_publish_orders_block_first() {
    let tx = sample_tx(0x10, None, 1);
    let block = sample_block(100, vec![tx]);
    let receipts = vec![receipt(true, 1, vec![])];
    let (rec, entries) = process_block_with_receipts(&block, &receipts, 1);
    let plan = plan_block_publish("p", rec, entries);
    assert_eq!(plan.len(), 2);
    assert!(matches!(plan[0].payload, RecordPayload::Block(_)));
    assert!(matches!(plan[1].payload, RecordPayload::Transaction(_)));
}

#[test]
fn token_redaction_shows_only_edges() {
    assert_eq!(redact_token("abcdefSECRETuvwxyz"), "abcdef...uvwxyz");
    assert_eq!(redact_token("abcdef"), "abcdef...abcdef");
}

#[test]
fn multi_block_segment_keeps_ascending_order() {
    let mut b100 = sample_block(100, vec![sample_tx(1, None, 1)]);
    b100.hash = hash32(0xa0);
    let mut b101 = sample_block(101, vec![sample_tx(2, None, 2)]);
    b101.hash = hash32(0xa1);
    let tip_hash = b101.hash.clone();
    let segment = vec![
        SegmentBlock { block: b100, receipts: vec![receipt(true, 1, vec![])] },
        SegmentBlock { block: b101, receipts: vec![receipt(true, 2, vec![])] },
    ];
    let event = SegmentEvent::Committed { segment };
    let (items, ack) = handle_event(&event, "p", 1);
    assert_eq!(items.len(), 4);
    match &items[0].payload {
        RecordPayload::Block(b) => assert_eq!(b.block_number, 100),
        other => panic!("expected a block record, got {:?}", other),
    }
    assert_eq!(items[1].key, "100-0");
    match &items[2].payload {
        RecordPayload::Block(b) => assert_eq!(b.block_number, 101),
        other => panic!("expected a block record, got {:?}", other),
    }
    assert_eq!(items[3].key, "101-0");
    assert_eq!(ack, Some(HeightAck { number: 101, hash: tip_hash }));
}

#[test]
fn directive_lookup_numbers() {
    assert_eq!(directive_lookup_number(None), None);
    assert_eq!(directive_lookup_number(Some(0)), None);
    assert_eq!(directive_lookup_number(Some(5)), Some(4));
}
