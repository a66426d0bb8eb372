//! The chain data the pipeline consumes, modeled as plain values.
//!
//! The node hands the pipeline finalized blocks together with their
//! receipts. This module holds that data as owned byte vectors and
//! integers, with a spec-level view (`BlockDataV` and friends) that the
//! transformer's contracts are stated over, and well-formedness
//! predicates capturing the invariants the node guarantees: 32-byte
//! hashes, 20-byte addresses, one receipt per transaction, and
//! contiguous, strictly increasing block numbers within a segment.

use vstd::prelude::*;

verus! {

/// One log entry emitted during a transaction, as found in its receipt.
#[derive(Clone, Debug, PartialEq)]
pub struct LogData {
    /// Address of the emitting contract (20 bytes).
    pub address: Vec<u8>,
    /// Indexed topics, at most 4, each 32 bytes.
    pub topics: Vec<Vec<u8>>,
    /// Unindexed payload.
    pub data: Vec<u8>,
}

/// The receipt of one transaction.
#[derive(Clone, Debug, PartialEq)]
pub struct ReceiptData {
    /// Whether the transaction succeeded.
    pub success: bool,
    /// Gas used by the block up to and including this transaction.
    pub cumulative_gas_used: u64,
    /// Logs emitted by this transaction, in emission order.
    pub logs: Vec<LogData>,
}

/// One signed transaction of a finalized block, with its sender recovered.
#[derive(Clone, Debug, PartialEq)]
pub struct TxData {
    /// Transaction hash (32 bytes).
    pub hash: Vec<u8>,
    pub nonce: u64,
    /// Recovered sender address (20 bytes).
    pub from: Vec<u8>,
    /// Recipient address (20 bytes); `None` for contract creation.
    pub to: Option<Vec<u8>>,
    /// Transferred value in wei.
    pub value: u128,
    /// Call data.
    pub input: Vec<u8>,
    pub gas_limit: u64,
    /// Effective gas price; `None` for fee-market transactions.
    pub gas_price: Option<u128>,
    pub max_fee_per_gas: u128,
    pub max_priority_fee_per_gas: Option<u128>,
    /// Transaction envelope type.
    pub tx_type: u8,
}

/// One finalized block, header fields plus its transactions.
#[derive(Clone, Debug, PartialEq)]
pub struct BlockData {
    /// Block hash (32 bytes).
    pub hash: Vec<u8>,
    /// Hash of the parent block (32 bytes).
    pub parent_hash: Vec<u8>,
    /// Address of the block proposer (20 bytes).
    pub beneficiary: Vec<u8>,
    /// State root (32 bytes).
    pub state_root: Vec<u8>,
    /// Transactions trie root (32 bytes).
    pub transactions_root: Vec<u8>,
    /// Receipts trie root (32 bytes).
    pub receipts_root: Vec<u8>,
    pub number: u64,
    pub gas_used: u64,
    pub gas_limit: u64,
    pub extra_data: Vec<u8>,
    /// Bloom filter over the block's logs (256 bytes).
    pub logs_bloom: Vec<u8>,
    pub timestamp: u64,
    pub difficulty: u64,
    /// Encoded size of the block in bytes.
    pub size: usize,
    /// Proof-of-work mix hash (32 bytes); required, the pipeline fails
    /// closed on chains that do not supply one.
    pub mix_hash: Vec<u8>,
    /// Proof-of-work nonce (8 bytes).
    pub nonce: Vec<u8>,
    /// `None` before the fee market was activated.
    pub base_fee_per_gas: Option<u64>,
    /// `None` before withdrawals were activated (32 bytes otherwise).
    pub withdrawals_root: Option<Vec<u8>>,
    /// The block's transactions in index order.
    pub transactions: Vec<TxData>,
}

/// One block of a committed segment: the block and its receipts,
/// receipt `i` belonging to transaction `i`.
#[derive(Clone, Debug, PartialEq)]
pub struct SegmentBlock {
    pub block: BlockData,
    pub receipts: Vec<ReceiptData>,
}

/// Spec view of `LogData`.
pub ghost struct LogDataV {
    pub address: Seq<u8>,
    pub topics: Seq<Seq<u8>>,
    pub data: Seq<u8>,
}

/// Spec view of `ReceiptData`.
pub ghost struct ReceiptDataV {
    pub success: bool,
    pub cumulative_gas_used: u64,
    pub logs: Seq<LogDataV>,
}

/// Spec view of `TxData`.
pub ghost struct TxDataV {
    pub hash: Seq<u8>,
    pub nonce: u64,
    pub from: Seq<u8>,
    pub to: Option<Seq<u8>>,
    pub value: u128,
    pub input: Seq<u8>,
    pub gas_limit: u64,
    pub gas_price: Option<u128>,
    pub max_fee_per_gas: u128,
    pub max_priority_fee_per_gas: Option<u128>,
    pub tx_type: u8,
}

/// Spec view of `BlockData`.
pub ghost struct BlockDataV {
    pub hash: Seq<u8>,
    pub parent_hash: Seq<u8>,
    pub beneficiary: Seq<u8>,
    pub state_root: Seq<u8>,
    pub transactions_root: Seq<u8>,
    pub receipts_root: Seq<u8>,
    pub number: u64,
    pub gas_used: u64,
    pub gas_limit: u64,
    pub extra_data: Seq<u8>,
    pub logs_bloom: Seq<u8>,
    pub timestamp: u64,
    pub difficulty: u64,
    pub size: usize,
    pub mix_hash: Seq<u8>,
    pub nonce: Seq<u8>,
    pub base_fee_per_gas: Option<u64>,
    pub withdrawals_root: Option<Seq<u8>>,
    pub transactions: Seq<TxDataV>,
}

/// Spec view of `SegmentBlock`.
pub ghost struct SegmentBlockV {
    pub block: BlockDataV,
    pub receipts: Seq<ReceiptDataV>,
}

impl View for LogData {
    type V = LogDataV;

    open spec fn view(&self) -> LogDataV {
        LogDataV { address: self.address@, topics: self.topics.deep_view(), data: self.data@ }
    }
}

impl DeepView for LogData {
    type V = LogDataV;

    open spec fn deep_view(&self) -> LogDataV {
        self@
    }
}

impl View for ReceiptData {
    type V = ReceiptDataV;

    open spec fn view(&self) -> ReceiptDataV {
        ReceiptDataV {
            success: self.success,
            cumulative_gas_used: self.cumulative_gas_used,
            logs: self.logs.deep_view(),
        }
    }
}

impl DeepView for ReceiptData {
    type V = ReceiptDataV;

    open spec fn deep_view(&self) -> ReceiptDataV {
        self@
    }
}

impl View for TxData {
    type V = TxDataV;

    open spec fn view(&self) -> TxDataV {
        TxDataV {
            hash: self.hash@,
            nonce: self.nonce,
            from: self.from@,
            to: self.to.deep_view(),
            value: self.value,
            input: self.input@,
            gas_limit: self.gas_limit,
            gas_price: self.gas_price,
            max_fee_per_gas: self.max_fee_per_gas,
            max_priority_fee_per_gas: self.max_priority_fee_per_gas,
            tx_type: self.tx_type,
        }
    }
}

impl DeepView for TxData {
    type V = TxDataV;

    open spec fn deep_view(&self) -> TxDataV {
        self@
    }
}

impl View for BlockData {
    type V = BlockDataV;

    open spec fn view(&self) -> BlockDataV {
        BlockDataV {
            hash: self.hash@,
            parent_hash: self.parent_hash@,
            beneficiary: self.beneficiary@,
            state_root: self.state_root@,
            transactions_root: self.transactions_root@,
            receipts_root: self.receipts_root@,
            number: self.number,
            gas_used: self.gas_used,
            gas_limit: self.gas_limit,
            extra_data: self.extra_data@,
            logs_bloom: self.logs_bloom@,
            timestamp: self.timestamp,
            difficulty: self.difficulty,
            size: self.size,
            mix_hash: self.mix_hash@,
            nonce: self.nonce@,
            base_fee_per_gas: self.base_fee_per_gas,
            withdrawals_root: self.withdrawals_root.deep_view(),
            transactions: self.transactions.deep_view(),
        }
    }
}

impl DeepView for BlockData {
    type V = BlockDataV;

    open spec fn deep_view(&self) -> BlockDataV {
        self@
    }
}

impl View for SegmentBlock {
    type V = SegmentBlockV;

    open spec fn view(&self) -> SegmentBlockV {
        SegmentBlockV { block: self.block@, receipts: self.receipts.deep_view() }
    }
}

impl DeepView for SegmentBlock {
    type V = SegmentBlockV;

    open spec fn deep_view(&self) -> SegmentBlockV {
        self@
    }
}

/// The invariants the node guarantees of a log entry.
pub open spec fn wf_log(l: LogDataV) -> bool {
    &&& l.address.len() == 20
    &&& l.topics.len() <= 4
    &&& forall|i: int| 0 <= i < l.topics.len() ==> #[trigger] l.topics[i].len() == 32
}

/// The invariants the node guarantees of a receipt.
pub open spec fn wf_receipt(r: ReceiptDataV) -> bool {
    forall|i: int| 0 <= i < r.logs.len() ==> wf_log(#[trigger] r.logs[i])
}

/// The invariants the node guarantees of a transaction.
pub open spec fn wf_tx(t: TxDataV) -> bool {
    &&& t.hash.len() == 32
    &&& t.from.len() == 20
    &&& t.to is Some ==> t.to.unwrap().len() == 20
}

/// The invariants the node guarantees of a finalized block's own fields.
pub open spec fn wf_block(b: BlockDataV) -> bool {
    &&& b.hash.len() == 32
    &&& b.parent_hash.len() == 32
    &&& b.beneficiary.len() == 20
    &&& b.state_root.len() == 32
    &&& b.transactions_root.len() == 32
    &&& b.receipts_root.len() == 32
    &&& b.logs_bloom.len() == 256
    &&& b.mix_hash.len() == 32
    &&& b.nonce.len() == 8
    &&& b.withdrawals_root is Some ==> b.withdrawals_root.unwrap().len() == 32
    &&& forall|i: int| 0 <= i < b.transactions.len() ==> wf_tx(#[trigger] b.transactions[i])
}

/// A block of a segment is well-formed when the block is, when there is
/// exactly one receipt per transaction, and when every receipt is.
pub open spec fn wf_segment_block(sb: SegmentBlockV) -> bool {
    &&& wf_block(sb.block)
    &&& sb.receipts.len() == sb.block.transactions.len()
    &&& forall|i: int| 0 <= i < sb.receipts.len() ==> wf_receipt(#[trigger] sb.receipts[i])
}

/// A committed segment is a non-empty run of well-formed blocks whose
/// numbers are contiguous and strictly increasing.
pub open spec fn wf_segment(s: Seq<SegmentBlockV>) -> bool {
    &&& s.len() > 0
    &&& forall|i: int| 0 <= i < s.len() ==> wf_segment_block(#[trigger] s[i])
    &&& forall|i: int| 0 <= i < s.len() ==> (#[trigger] s[i].block.number) == s[0].block.number + i
}

} // verus!
