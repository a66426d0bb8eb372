//! The record transformer: one finalized block plus its receipts in,
//! canonical wire records out.
//!
//! `process_block_with_receipts` is a pure function; its whole behaviour
//! is the spec function `spec_transform`, stated field by field over the
//! views of the inputs. Missing optional fields follow a fixed, documented
//! policy: absent recipient and base fee become zeros, and every log
//! record carries exactly four topics, the missing ones filled with the
//! 32-byte zero sentinel, so records always have the same shape.

use vstd::prelude::*;

use crate::chain::{BlockData, BlockDataV, LogDataV, ReceiptData, ReceiptDataV, TxDataV};
use crate::decimal::{dec_str, u128_to_string};

verus! {

/// The wire record for one finalized block.
#[derive(Clone, Debug, PartialEq)]
pub struct EmitterBlock {
    pub block_hash: Vec<u8>,
    pub parent_hash: Vec<u8>,
    pub author: Vec<u8>,
    pub state_root: Vec<u8>,
    pub transactions_root: Vec<u8>,
    pub receipts_root: Vec<u8>,
    pub block_number: u64,
    pub gas_used: u64,
    pub gas_limit: u64,
    pub extra_data: Vec<u8>,
    pub logs_bloom: Vec<u8>,
    pub timestamp: u64,
    pub difficulty: u64,
    pub size: usize,
    pub mix_hash: Vec<u8>,
    pub nonce: Vec<u8>,
    /// Zero when the block predates the fee market.
    pub base_fee_per_gas: u64,
    pub withdrawals_root: Option<Vec<u8>>,
    pub chain_id: u64,
}

/// The wire record for one transaction of a block.
#[derive(Clone, Debug, PartialEq)]
pub struct EmitterTransaction {
    pub block_number: u64,
    pub transaction_index: u64,
    pub transaction_hash: Vec<u8>,
    pub nonce: u64,
    pub from_address: Vec<u8>,
    /// The zero address when the transaction creates a contract.
    pub to_address: Vec<u8>,
    /// The transferred value written in decimal, so that amounts beyond
    /// the safe integer range of common wire encodings lose no precision.
    pub value_string: String,
    pub input: Vec<u8>,
    pub gas_limit: u64,
    /// Cumulative gas used up to and including this transaction, taken
    /// from the matching receipt.
    pub gas_used: u64,
    pub gas_price: Option<u128>,
    pub transaction_type: u32,
    pub max_priority_fee_per_gas: Option<u128>,
    pub max_fee_per_gas: u128,
    /// Whether the transaction succeeded, from the matching receipt.
    pub success: bool,
    pub chain_id: u64,
    pub block_hash: Vec<u8>,
    pub timestamp: u64,
}

/// A receipt in wire form: outcome, gas, and the transaction's logs.
#[derive(Clone, Debug, PartialEq)]
pub struct EmitterReceipt {
    pub success: bool,
    pub cumulative_gas_used: u64,
    pub logs: Vec<EmitterLog>,
}

/// The wire record for one emitted log entry.
#[derive(Clone, Debug, PartialEq)]
pub struct EmitterLog {
    pub block_number: u64,
    pub transaction_index: u64,
    /// Position of the entry within its transaction's log list.
    pub log_index: u64,
    pub transaction_hash: Vec<u8>,
    pub address: Vec<u8>,
    pub topic0: Vec<u8>,
    pub topic1: Vec<u8>,
    pub topic2: Vec<u8>,
    pub topic3: Vec<u8>,
    pub data: Vec<u8>,
    pub chain_id: u64,
    pub block_hash: Vec<u8>,
}

/// Spec view of `EmitterBlock`.
pub ghost struct EmitterBlockV {
    pub block_hash: Seq<u8>,
    pub parent_hash: Seq<u8>,
    pub author: Seq<u8>,
    pub state_root: Seq<u8>,
    pub transactions_root: Seq<u8>,
    pub receipts_root: Seq<u8>,
    pub block_number: u64,
    pub gas_used: u64,
    pub gas_limit: u64,
    pub extra_data: Seq<u8>,
    pub logs_bloom: Seq<u8>,
    pub timestamp: u64,
    pub difficulty: u64,
    pub size: usize,
    pub mix_hash: Seq<u8>,
    pub nonce: Seq<u8>,
    pub base_fee_per_gas: u64,
    pub withdrawals_root: Option<Seq<u8>>,
    pub chain_id: u64,
}

/// Spec view of `EmitterTransaction`.
pub ghost struct EmitterTransactionV {
    pub block_number: u64,
    pub transaction_index: u64,
    pub transaction_hash: Seq<u8>,
    pub nonce: u64,
    pub from_address: Seq<u8>,
    pub to_address: Seq<u8>,
    pub value_string: Seq<char>,
    pub input: Seq<u8>,
    pub gas_limit: u64,
    pub gas_used: u64,
    pub gas_price: Option<u128>,
    pub transaction_type: u32,
    pub max_priority_fee_per_gas: Option<u128>,
    pub max_fee_per_gas: u128,
    pub success: bool,
    pub chain_id: u64,
    pub block_hash: Seq<u8>,
    pub timestamp: u64,
}

/// Spec view of `EmitterReceipt`.
pub ghost struct EmitterReceiptV {
    pub success: bool,
    pub cumulative_gas_used: u64,
    pub logs: Seq<EmitterLogV>,
}

/// Spec view of `EmitterLog`.
pub ghost struct EmitterLogV {
    pub block_number: u64,
    pub transaction_index: u64,
    pub log_index: u64,
    pub transaction_hash: Seq<u8>,
    pub address: Seq<u8>,
    pub topic0: Seq<u8>,
    pub topic1: Seq<u8>,
    pub topic2: Seq<u8>,
    pub topic3: Seq<u8>,
    pub data: Seq<u8>,
    pub chain_id: u64,
    pub block_hash: Seq<u8>,
}

impl View for EmitterBlock {
    type V = EmitterBlockV;

    open spec fn view(&self) -> EmitterBlockV {
        EmitterBlockV {
            block_hash: self.block_hash@,
            parent_hash: self.parent_hash@,
            author: self.author@,
            state_root: self.state_root@,
            transactions_root: self.transactions_root@,
            receipts_root: self.receipts_root@,
            block_number: self.block_number,
            gas_used: self.gas_used,
            gas_limit: self.gas_limit,
            extra_data: self.extra_data@,
            logs_bloom: self.logs_bloom@,
            timestamp: self.timestamp,
            difficulty: self.difficulty,
            size: self.size,
            mix_hash: self.mix_hash@,
            nonce: self.nonce@,
            base_fee_per_gas: self.base_fee_per_gas,
            withdrawals_root: self.withdrawals_root.deep_view(),
            chain_id: self.chain_id,
        }
    }
}

impl DeepView for EmitterBlock {
    type V = EmitterBlockV;

    open spec fn deep_view(&self) -> EmitterBlockV {
        self@
    }
}

impl View for EmitterTransaction {
    type V = EmitterTransactionV;

    open spec fn view(&self) -> EmitterTransactionV {
        EmitterTransactionV {
            block_number: self.block_number,
            transaction_index: self.transaction_index,
            transaction_hash: self.transaction_hash@,
            nonce: self.nonce,
            from_address: self.from_address@,
            to_address: self.to_address@,
            value_string: self.value_string@,
            input: self.input@,
            gas_limit: self.gas_limit,
            gas_used: self.gas_used,
            gas_price: self.gas_price,
            transaction_type: self.transaction_type,
            max_priority_fee_per_gas: self.max_priority_fee_per_gas,
            max_fee_per_gas: self.max_fee_per_gas,
            success: self.success,
            chain_id: self.chain_id,
            block_hash: self.block_hash@,
            timestamp: self.timestamp,
        }
    }
}

impl DeepView for EmitterTransaction {
    type V = EmitterTransactionV;

    open spec fn deep_view(&self) -> EmitterTransactionV {
        self@
    }
}

impl View for EmitterReceipt {
    type V = EmitterReceiptV;

    open spec fn view(&self) -> EmitterReceiptV {
        EmitterReceiptV {
            success: self.success,
            cumulative_gas_used: self.cumulative_gas_used,
            logs: self.logs.deep_view(),
        }
    }
}

impl DeepView for EmitterReceipt {
    type V = EmitterReceiptV;

    open spec fn deep_view(&self) -> EmitterReceiptV {
        self@
    }
}

impl View for EmitterLog {
    type V = EmitterLogV;

    open spec fn view(&self) -> EmitterLogV {
        EmitterLogV {
            block_number: self.block_number,
            transaction_index: self.transaction_index,
            log_index: self.log_index,
            transaction_hash: self.transaction_hash@,
            address: self.address@,
            topic0: self.topic0@,
            topic1: self.topic1@,
            topic2: self.topic2@,
            topic3: self.topic3@,
            data: self.data@,
            chain_id: self.chain_id,
            block_hash: self.block_hash@,
        }
    }
}

impl DeepView for EmitterLog {
    type V = EmitterLogV;

    open spec fn deep_view(&self) -> EmitterLogV {
        self@
    }
}

/// The 32-byte zero sentinel that stands in for a missing log topic.
pub open spec fn zero_word() -> Seq<u8> {
    Seq::new(32, |i: int| 0u8)
}

/// The 20-byte zero address that stands in for a missing recipient.
pub open spec fn zero_address() -> Seq<u8> {
    Seq::new(20, |i: int| 0u8)
}

/// Topic `i` of a log, or the zero sentinel when the log has fewer topics.
pub open spec fn topic_or_zero(topics: Seq<Seq<u8>>, i: int) -> Seq<u8> {
    if 0 <= i < topics.len() {
        topics[i]
    } else {
        zero_word()
    }
}

/// The block record produced for block `b` on chain `chain_id`.
pub open spec fn spec_block_record(b: BlockDataV, chain_id: u64) -> EmitterBlockV {
    EmitterBlockV {
        block_hash: b.hash,
        parent_hash: b.parent_hash,
        author: b.beneficiary,
        state_root: b.state_root,
        transactions_root: b.transactions_root,
        receipts_root: b.receipts_root,
        block_number: b.number,
        gas_used: b.gas_used,
        gas_limit: b.gas_limit,
        extra_data: b.extra_data,
        logs_bloom: b.logs_bloom,
        timestamp: b.timestamp,
        difficulty: b.difficulty,
        size: b.size,
        mix_hash: b.mix_hash,
        nonce: b.nonce,
        base_fee_per_gas: if b.base_fee_per_gas is Some {
            b.base_fee_per_gas.unwrap()
        } else {
            0
        },
        withdrawals_root: b.withdrawals_root,
        chain_id: chain_id,
    }
}

/// The log record for entry `log_index` of transaction `tx_index` of block `b`.
pub open spec fn spec_log_record(
    b: BlockDataV,
    tx_hash: Seq<u8>,
    tx_index: u64,
    log_index: u64,
    l: LogDataV,
    chain_id: u64,
) -> EmitterLogV {
    EmitterLogV {
        block_number: b.number,
        transaction_index: tx_index,
        log_index: log_index,
        transaction_hash: tx_hash,
        address: l.address,
        topic0: topic_or_zero(l.topics, 0),
        topic1: topic_or_zero(l.topics, 1),
        topic2: topic_or_zero(l.topics, 2),
        topic3: topic_or_zero(l.topics, 3),
        data: l.data,
        chain_id: chain_id,
        block_hash: b.hash,
    }
}

/// The transaction record for transaction `tx_index` of block `b`, with
/// outcome and gas taken from its receipt `r`.
pub open spec fn spec_tx_record(
    b: BlockDataV,
    t: TxDataV,
    r: ReceiptDataV,
    tx_index: u64,
    chain_id: u64,
) -> EmitterTransactionV {
    EmitterTransactionV {
        block_number: b.number,
        transaction_index: tx_index,
        transaction_hash: t.hash,
        nonce: t.nonce,
        from_address: t.from,
        to_address: if t.to is Some {
            t.to.unwrap()
        } else {
            zero_address()
        },
        value_string: dec_str(t.value as nat),
        input: t.input,
        gas_limit: t.gas_limit,
        gas_used: r.cumulative_gas_used,
        gas_price: t.gas_price,
        transaction_type: t.tx_type as u32,
        max_priority_fee_per_gas: t.max_priority_fee_per_gas,
        max_fee_per_gas: t.max_fee_per_gas,
        success: r.success,
        chain_id: chain_id,
        block_hash: b.hash,
        timestamp: b.timestamp,
    }
}

/// The log records of transaction `tx_index`, one per entry of its
/// receipt, in log-index order.
pub open spec fn spec_logs_of_tx(
    b: BlockDataV,
    tx_hash: Seq<u8>,
    tx_index: u64,
    r: ReceiptDataV,
    chain_id: u64,
) -> Seq<EmitterLogV> {
    Seq::new(r.logs.len(), |i: int| spec_log_record(b, tx_hash, tx_index, i as u64, r.logs[i], chain_id))
}

/// One (transaction record, log records) pair per transaction of block
/// `b`, in transaction-index order.
pub open spec fn spec_tx_entries(
    b: BlockDataV,
    receipts: Seq<ReceiptDataV>,
    chain_id: u64,
) -> Seq<(EmitterTransactionV, Seq<EmitterLogV>)> {
    Seq::new(
        b.transactions.len(),
        |i: int|
            (
                spec_tx_record(b, b.transactions[i], receipts[i], i as u64, chain_id),
                spec_logs_of_tx(b, b.transactions[i].hash, i as u64, receipts[i], chain_id),
            ),
    )
}

/// Everything the transformer produces for one block: the block record
/// and the per-transaction records.
pub open spec fn spec_transform(
    b: BlockDataV,
    receipts: Seq<ReceiptDataV>,
    chain_id: u64,
) -> (EmitterBlockV, Seq<(EmitterTransactionV, Seq<EmitterLogV>)>) {
    (spec_block_record(b, chain_id), spec_tx_entries(b, receipts, chain_id))
}

/// Copies a byte vector.
pub(crate) fn clone_bytes(v: &Vec<u8>) -> (r: Vec<u8>)
    ensures
        r@ == v@,
{
    let r = v.clone();
    proof {
        assert(r@ =~= v@);
    }
    r
}

/// Copies an optional byte vector.
pub(crate) fn clone_opt_bytes(v: &Option<Vec<u8>>) -> (r: Option<Vec<u8>>)
    ensures
        r.deep_view() == v.deep_view(),
{
    match v {
        Some(b) => Some(clone_bytes(b)),
        None => None,
    }
}

/// A fresh 32-byte zero sentinel.
fn make_zero_word() -> (r: Vec<u8>)
    ensures
        r@ == zero_word(),
{
    let r = vec![0u8; 32];
    proof {
        assert(r@ =~= zero_word());
    }
    r
}

/// A fresh 20-byte zero address.
fn make_zero_address() -> (r: Vec<u8>)
    ensures
        r@ == zero_address(),
{
    let r = vec![0u8; 20];
    proof {
        assert(r@ =~= zero_address());
    }
    r
}

/// Topic `i` of the log, or a zero sentinel when it has fewer topics.
fn topic_at(topics: &Vec<Vec<u8>>, i: usize) -> (r: Vec<u8>)
    ensures
        r@ == topic_or_zero(topics.deep_view(), i as int),
{
    if i < topics.len() {
        clone_bytes(&topics[i])
    } else {
        make_zero_word()
    }
}

/// Builds the block record for one finalized block.
pub fn process_committed_block(block: &BlockData, chain_id: u64) -> (r: EmitterBlock)
    ensures
        r@ == spec_block_record(block@, chain_id),
{
    EmitterBlock {
        block_hash: clone_bytes(&block.hash),
        parent_hash: clone_bytes(&block.parent_hash),
        author: clone_bytes(&block.beneficiary),
        state_root: clone_bytes(&block.state_root),
        transactions_root: clone_bytes(&block.transactions_root),
        receipts_root: clone_bytes(&block.receipts_root),
        block_number: block.number,
        gas_used: block.gas_used,
        gas_limit: block.gas_limit,
        extra_data: clone_bytes(&block.extra_data),
        logs_bloom: clone_bytes(&block.logs_bloom),
        timestamp: block.timestamp,
        difficulty: block.difficulty,
        size: block.size,
        mix_hash: clone_bytes(&block.mix_hash),
        nonce: clone_bytes(&block.nonce),
        base_fee_per_gas: match &block.base_fee_per_gas {
            Some(f) => *f,
            None => 0,
        },
        withdrawals_root: clone_opt_bytes(&block.withdrawals_root),
        chain_id: chain_id,
    }
}

/// Builds the log records of one transaction from its receipt.
fn process_logs_in_receipt(
    block: &BlockData,
    tx_hash: &Vec<u8>,
    tx_index: u64,
    receipt: &ReceiptData,
    chain_id: u64,
) -> (r: Vec<EmitterLog>)
    ensures
        r.deep_view() == spec_logs_of_tx(block@, tx_hash@, tx_index, receipt@, chain_id),
{
    let ghost bv = block@;
    let ghost rv = receipt@;
    let mut r: Vec<EmitterLog> = Vec::new();
    let n = receipt.logs.len();
    proof {
        assert(r.deep_view() =~= spec_logs_of_tx(bv, tx_hash@, tx_index, rv, chain_id).take(0));
    }
    for log_index in 0..n
        invariant
            n == receipt.logs.len(),
            bv == block@,
            rv == receipt@,
            r@.len() == log_index,
            r.deep_view() == spec_logs_of_tx(bv, tx_hash@, tx_index, rv, chain_id).take(
                log_index as int,
            ),
    {
        let log = &receipt.logs[log_index];
        let rec = EmitterLog {
            block_number: block.number,
            transaction_index: tx_index,
            log_index: log_index as u64,
            transaction_hash: clone_bytes(tx_hash),
            address: clone_bytes(&log.address),
            topic0: topic_at(&log.topics, 0),
            topic1: topic_at(&log.topics, 1),
            topic2: topic_at(&log.topics, 2),
            topic3: topic_at(&log.topics, 3),
            data: clone_bytes(&log.data),
            chain_id: chain_id,
            block_hash: clone_bytes(&block.hash),
        };
        r.push(rec);
        proof {
            assert(r.deep_view() =~= spec_logs_of_tx(bv, tx_hash@, tx_index, rv, chain_id).take(
                log_index + 1,
            ));
        }
    }
    proof {
        assert(spec_logs_of_tx(bv, tx_hash@, tx_index, rv, chain_id).take(n as int)
            =~= spec_logs_of_tx(bv, tx_hash@, tx_index, rv, chain_id));
    }
    r
}

/// Builds the (transaction record, log records) pair of every transaction
/// of the block, in index order; receipt `i` must belong to transaction `i`.
pub fn process_transactions_in_block(
    block: &BlockData,
    receipts: &Vec<ReceiptData>,
    chain_id: u64,
) -> (r: Vec<(EmitterTransaction, Vec<EmitterLog>)>)
    requires
        receipts@.len() == block.transactions@.len(),
    ensures
        r.deep_view() == spec_tx_entries(block@, receipts.deep_view(), chain_id),
{
    let ghost bv = block@;
    let ghost rv = receipts.deep_view();
    let mut r: Vec<(EmitterTransaction, Vec<EmitterLog>)> = Vec::new();
    let n = block.transactions.len();
    proof {
        assert(r.deep_view() =~= spec_tx_entries(bv, rv, chain_id).take(0));
    }
    for tx_index in 0..n
        invariant
            n == block.transactions@.len(),
            receipts@.len() == n,
            bv == block@,
            rv == receipts.deep_view(),
            r@.len() == tx_index,
            r.deep_view() == spec_tx_entries(bv, rv, chain_id).take(tx_index as int),
    {
        let tx = &block.transactions[tx_index];
        let rcpt = &receipts[tx_index];
        let logs = process_logs_in_receipt(block, &tx.hash, tx_index as u64, rcpt, chain_id);
        let rec = EmitterTransaction {
            block_number: block.number,
            transaction_index: tx_index as u64,
            transaction_hash: clone_bytes(&tx.hash),
            nonce: tx.nonce,
            from_address: clone_bytes(&tx.from),
            to_address: match &tx.to {
                Some(a) => clone_bytes(a),
                None => make_zero_address(),
            },
            value_string: u128_to_string(tx.value),
            input: clone_bytes(&tx.input),
            gas_limit: tx.gas_limit,
            gas_used: rcpt.cumulative_gas_used,
            gas_price: tx.gas_price,
            transaction_type: tx.tx_type as u32,
            max_priority_fee_per_gas: tx.max_priority_fee_per_gas,
            max_fee_per_gas: tx.max_fee_per_gas,
            success: rcpt.success,
            chain_id: chain_id,
            block_hash: clone_bytes(&block.hash),
            timestamp: block.timestamp,
        };
        proof {
            let sv = spec_tx_record(
                bv,
                bv.transactions[tx_index as int],
                rv[tx_index as int],
                tx_index as u64,
                chain_id,
            );
            assert(rec@.to_address == sv.to_address);
            assert(rec@ == sv);
        }
        r.push((rec, logs));
        proof {
            assert(r.deep_view() =~~= spec_tx_entries(bv, rv, chain_id).take(tx_index + 1));
        }
    }
    proof {
        assert(spec_tx_entries(bv, rv, chain_id).take(n as int) =~= spec_tx_entries(bv, rv, chain_id));
    }
    r
}

/// Transforms one finalized block and its receipts into its block record
/// and per-transaction records; receipt `i` must belong to transaction `i`.
pub fn process_block_with_receipts(
    block: &BlockData,
    receipts: &Vec<ReceiptData>,
    chain_id: u64,
) -> (r: (EmitterBlock, Vec<(EmitterTransaction, Vec<EmitterLog>)>))
    requires
        receipts@.len() == block.transactions@.len(),
    ensures
        r.deep_view() == spec_transform(block@, receipts.deep_view(), chain_id),
{
    let emitter_block = process_committed_block(block, chain_id);
    let emitter_transactions = process_transactions_in_block(block, receipts, chain_id);
    (emitter_block, emitter_transactions)
}

/// The transformer is deterministic: two results of
/// `process_block_with_receipts` on the same block, receipts and chain
/// are the same records.
pub proof fn lemma_transform_deterministic(
    b: BlockDataV,
    receipts: Seq<ReceiptDataV>,
    chain_id: u64,
    r1: (EmitterBlockV, Seq<(EmitterTransactionV, Seq<EmitterLogV>)>),
    r2: (EmitterBlockV, Seq<(EmitterTransactionV, Seq<EmitterLogV>)>),
)
    requires
        r1 == spec_transform(b, receipts, chain_id),
        r2 == spec_transform(b, receipts, chain_id),
    ensures
        r1 == r2,
{
}

/// A log with a single topic yields a record whose `topic0` is that
/// topic and whose remaining topics are the zero sentinel: the record
/// keeps its fixed shape, fields are never absent.
pub proof fn lemma_missing_topics_zero(
    b: BlockDataV,
    tx_hash: Seq<u8>,
    tx_index: u64,
    log_index: u64,
    l: LogDataV,
    chain_id: u64,
)
    requires
        l.topics.len() == 1,
    ensures
        spec_log_record(b, tx_hash, tx_index, log_index, l, chain_id).topic0 == l.topics[0],
        spec_log_record(b, tx_hash, tx_index, log_index, l, chain_id).topic1 == zero_word(),
        spec_log_record(b, tx_hash, tx_index, log_index, l, chain_id).topic2 == zero_word(),
        spec_log_record(b, tx_hash, tx_index, log_index, l, chain_id).topic3 == zero_word(),
{
}

} // verus!
