//! Planning broker messages: which topic, which key, which record.
//!
//! Topics are scoped by a per-instance prefix: `{prefix}-blocks`,
//! `{prefix}-transactions` and `{prefix}-logs`. Blocks are sent with an
//! empty key; a transaction is keyed `{block_number}-{transaction_index}`
//! and a log `{block_number}-{transaction_index}-{log_index}`, so that a
//! block's transactions and a transaction's logs share a partition when
//! the broker partitions by key. The functions here only plan messages;
//! the host serializes each record and enqueues it, best-effort, without
//! gating on broker acknowledgment.

use vstd::prelude::*;
use vstd::string::StringExecFns;

use crate::chain::{BlockDataV, ReceiptDataV};
use crate::decimal::{dec_str, u64_to_string};
use crate::transform::{
    EmitterBlock, EmitterBlockV, EmitterLog, EmitterLogV, EmitterTransaction, EmitterTransactionV,
};

verus! {

/// One wire record, tagged with the entity type that decides its topic
/// and key.
#[derive(Clone, Debug, PartialEq)]
pub enum RecordPayload {
    Block(EmitterBlock),
    Transaction(EmitterTransaction),
    Log(EmitterLog),
}

/// Spec view of `RecordPayload`.
pub ghost enum RecordPayloadV {
    Block(EmitterBlockV),
    Transaction(EmitterTransactionV),
    Log(EmitterLogV),
}

impl View for RecordPayload {
    type V = RecordPayloadV;

    open spec fn view(&self) -> RecordPayloadV {
        match self {
            RecordPayload::Block(b) => RecordPayloadV::Block(b@),
            RecordPayload::Transaction(t) => RecordPayloadV::Transaction(t@),
            RecordPayload::Log(l) => RecordPayloadV::Log(l@),
        }
    }
}

impl DeepView for RecordPayload {
    type V = RecordPayloadV;

    open spec fn deep_view(&self) -> RecordPayloadV {
        self@
    }
}

/// One planned broker message: full topic name, partitioning key, and
/// the record the host serializes as the payload.
#[derive(Clone, Debug, PartialEq)]
pub struct PublishItem {
    pub topic: String,
    pub key: String,
    pub payload: RecordPayload,
}

/// Spec view of `PublishItem`.
pub ghost struct PublishItemV {
    pub topic: Seq<char>,
    pub key: Seq<char>,
    pub payload: RecordPayloadV,
}

impl View for PublishItem {
    type V = PublishItemV;

    open spec fn view(&self) -> PublishItemV {
        PublishItemV { topic: self.topic@, key: self.key@, payload: self.payload@ }
    }
}

impl DeepView for PublishItem {
    type V = PublishItemV;

    open spec fn deep_view(&self) -> PublishItemV {
        self@
    }
}

/// The topic block records go to.
pub open spec fn spec_blocks_topic(prefix: Seq<char>) -> Seq<char> {
    prefix + "-blocks"@
}

/// The topic transaction records go to.
pub open spec fn spec_transactions_topic(prefix: Seq<char>) -> Seq<char> {
    prefix + "-transactions"@
}

/// The topic log records go to.
pub open spec fn spec_logs_topic(prefix: Seq<char>) -> Seq<char> {
    prefix + "-logs"@
}

/// The key of a transaction record: `{block_number}-{transaction_index}`.
pub open spec fn spec_tx_key(block_number: u64, tx_index: u64) -> Seq<char> {
    dec_str(block_number as nat) + "-"@ + dec_str(tx_index as nat)
}

/// The key of a log record:
/// `{block_number}-{transaction_index}-{log_index}`.
pub open spec fn spec_log_key(block_number: u64, tx_index: u64, log_index: u64) -> Seq<char> {
    dec_str(block_number as nat) + "-"@ + dec_str(tx_index as nat) + "-"@ + dec_str(
        log_index as nat,
    )
}

/// The planned message for a block record: blocks need no partitioning
/// affinity, so the key is empty.
pub open spec fn spec_block_item(prefix: Seq<char>, b: EmitterBlockV) -> PublishItemV {
    PublishItemV {
        topic: spec_blocks_topic(prefix),
        key: Seq::empty(),
        payload: RecordPayloadV::Block(b),
    }
}

/// The planned message for a transaction record.
pub open spec fn spec_tx_item(prefix: Seq<char>, t: EmitterTransactionV) -> PublishItemV {
    PublishItemV {
        topic: spec_transactions_topic(prefix),
        key: spec_tx_key(t.block_number, t.transaction_index),
        payload: RecordPayloadV::Transaction(t),
    }
}

/// The planned message for a log record.
pub open spec fn spec_log_item(prefix: Seq<char>, l: EmitterLogV) -> PublishItemV {
    PublishItemV {
        topic: spec_logs_topic(prefix),
        key: spec_log_key(l.block_number, l.transaction_index, l.log_index),
        payload: RecordPayloadV::Log(l),
    }
}

/// Plans the message for one block record.
pub fn block_message(topic_prefix: &str, block: EmitterBlock) -> (r: PublishItem)
    ensures
        r@ == spec_block_item(topic_prefix@, block@),
{
    let r = PublishItem {
        topic: String::from_str(topic_prefix).concat("-blocks"),
        key: String::new(),
        payload: RecordPayload::Block(block),
    };
    r
}

/// Plans the message for one transaction record; its key is exactly
/// `{block_number}-{transaction_index}`.
pub fn transaction_message(topic_prefix: &str, tx: EmitterTransaction) -> (r: PublishItem)
    ensures
        r@ == spec_tx_item(topic_prefix@, tx@),
{
    let key = u64_to_string(tx.block_number).concat("-").concat(
        u64_to_string(tx.transaction_index).as_str(),
    );
    let r = PublishItem {
        topic: String::from_str(topic_prefix).concat("-transactions"),
        key: key,
        payload: RecordPayload::Transaction(tx),
    };
    r
}

/// Plans the message for one log record; its key is exactly
/// `{block_number}-{transaction_index}-{log_index}`.
pub fn log_message(topic_prefix: &str, log: EmitterLog) -> (r: PublishItem)
    ensures
        r@ == spec_log_item(topic_prefix@, log@),
{
    let key = u64_to_string(log.block_number).concat("-").concat(
        u64_to_string(log.transaction_index).as_str(),
    ).concat("-").concat(u64_to_string(log.log_index).as_str());
    let r = PublishItem {
        topic: String::from_str(topic_prefix).concat("-logs"),
        key: key,
        payload: RecordPayload::Log(log),
    };
    r
}

/// The messages of the first `k` log records, in log-index order.
pub open spec fn spec_log_items_upto(prefix: Seq<char>, logs: Seq<EmitterLogV>, k: int) -> Seq<
    PublishItemV,
>
    decreases k,
{
    if k <= 0 {
        Seq::empty()
    } else {
        spec_log_items_upto(prefix, logs, k - 1).push(spec_log_item(prefix, logs[k - 1]))
    }
}

/// The messages of one (transaction record, log records) pair: the
/// transaction first, then its logs in log-index order.
pub open spec fn spec_tx_entry_items(
    prefix: Seq<char>,
    entry: (EmitterTransactionV, Seq<EmitterLogV>),
) -> Seq<PublishItemV> {
    seq![spec_tx_item(prefix, entry.0)] + spec_log_items_upto(
        prefix,
        entry.1,
        entry.1.len() as int,
    )
}

/// The messages of the first `k` transaction entries, in order.
pub open spec fn spec_entries_items_upto(
    prefix: Seq<char>,
    entries: Seq<(EmitterTransactionV, Seq<EmitterLogV>)>,
    k: int,
) -> Seq<PublishItemV>
    decreases k,
{
    if k <= 0 {
        Seq::empty()
    } else {
        spec_entries_items_upto(prefix, entries, k - 1) + spec_tx_entry_items(
            prefix,
            entries[k - 1],
        )
    }
}

/// All messages planned for one transformed block: the block record
/// first, then each transaction followed by its logs.
pub open spec fn spec_block_plan(
    prefix: Seq<char>,
    b: EmitterBlockV,
    entries: Seq<(EmitterTransactionV, Seq<EmitterLogV>)>,
) -> Seq<PublishItemV> {
    seq![spec_block_item(prefix, b)] + spec_entries_items_upto(
        prefix,
        entries,
        entries.len() as int,
    )
}

/// Plans all messages of one transformed block, in publish order.
pub fn plan_block_publish(
    topic_prefix: &str,
    block: EmitterBlock,
    entries: Vec<(EmitterTransaction, Vec<EmitterLog>)>,
) -> (r: Vec<PublishItem>)
    ensures
        r.deep_view() == spec_block_plan(topic_prefix@, block@, entries.deep_view()),
{
    let ghost ev = entries.deep_view();
    let mut r: Vec<PublishItem> = Vec::new();
    r.push(block_message(topic_prefix, block));
    proof {
        assert(r.deep_view() =~~= seq![
            spec_block_item(topic_prefix@, block@),
        ] + spec_entries_items_upto(topic_prefix@, ev, 0));
    }
    let ghost head = r.deep_view();
    let n = entries.len();
    let mut entries = entries;
    for k in 0..n
        invariant
            n == ev.len(),
            entries.deep_view() =~= ev.skip(k as int),
            r.deep_view() == seq![head[0]] + spec_entries_items_upto(topic_prefix@, ev, k as int),
            head[0] == spec_block_item(topic_prefix@, block@),
            head.len() == 1,
    {
        let ghost pre = entries.deep_view();
        let ghost pre_s = entries@;
        proof {
            assert(pre.len() == pre_s.len());
            assert(ev.skip(k as int).len() == n - k);
        }
        let (tx, logs) = entries.remove(0);
        proof {
            assert(pre_s[0].deep_view() == pre[0]);
            assert(pre[0] == ev[k as int]);
            assert(tx.deep_view() == ev[k as int].0);
            assert(logs.deep_view() == ev[k as int].1);
            assert forall|i: int| 0 <= i < entries@.len() implies entries.deep_view()[i] == ev.skip(
                k as int + 1,
            )[i] by {
                assert(entries@[i] == pre_s[i + 1]);
                assert(entries.deep_view()[i] == pre[i + 1]);
            }
            assert(entries.deep_view() =~= ev.skip(k as int + 1));
        }
        r.push(transaction_message(topic_prefix, tx));
        let ghost mid = r.deep_view();
        proof {
            assert(mid =~= seq![head[0]] + spec_entries_items_upto(topic_prefix@, ev, k as int)
                + seq![spec_tx_item(topic_prefix@, ev[k as int].0)]);
        }
        let ghost lv = logs.deep_view();
        let m = logs.len();
        let mut logs = logs;
        for j in 0..m
            invariant
                m == lv.len(),
                logs.deep_view() =~= lv.skip(j as int),
                r.deep_view() == mid + spec_log_items_upto(topic_prefix@, lv, j as int),
                mid == seq![head[0]] + spec_entries_items_upto(topic_prefix@, ev, k as int)
                    + seq![spec_tx_item(topic_prefix@, ev[k as int].0)],
        {
            let ghost lpre = logs.deep_view();
            let ghost lpre_s = logs@;
            proof {
                assert(lpre.len() == lpre_s.len());
                assert(lv.skip(j as int).len() == m - j);
            }
            let log = logs.remove(0);
            proof {
                assert(lpre_s[0].deep_view() == lpre[0]);
                assert(lpre[0] == lv[j as int]);
                assert(log.deep_view() == lv[j as int]);
                assert forall|i: int| 0 <= i < logs@.len() implies logs.deep_view()[i] == lv.skip(
                    j as int + 1,
                )[i] by {
                    assert(logs@[i] == lpre_s[i + 1]);
                    assert(logs.deep_view()[i] == lpre[i + 1]);
                }
                assert(logs.deep_view() =~= lv.skip(j as int + 1));
            }
            let ghost rpre = r.deep_view();
            let item = log_message(topic_prefix, log);
            r.push(item);
            proof {
                assert(r@.len() == rpre.len() + 1);
                assert(forall|i: int| 0 <= i < rpre.len() ==> r.deep_view()[i] == rpre[i]);
                assert(r.deep_view()[rpre.len() as int] == item@);
                assert(r.deep_view() =~= rpre.push(item@));
                assert(item@ == spec_log_item(topic_prefix@, lv[j as int]));
                assert(r.deep_view() =~~= mid + spec_log_items_upto(
                    topic_prefix@,
                    lv,
                    j as int + 1,
                ));
            }
        }
        proof {
            assert(r.deep_view() =~~= seq![head[0]] + spec_entries_items_upto(
                topic_prefix@,
                ev,
                k as int + 1,
            ));
        }
    }
    proof {
        assert(r.deep_view() =~~= spec_block_plan(topic_prefix@, block@, ev));
    }
    r
}

/// The topic prefix that scopes one running instance: the explicit
/// prefix when one was given, else `{chain_id}-{chain_name}`, or
/// `{chain_id}-{chain_id}` when the chain has no registered name.
pub open spec fn spec_topic_prefix(
    prefix_override: Option<Seq<char>>,
    chain_id: u64,
    chain_name: Option<Seq<char>>,
) -> Seq<char> {
    if prefix_override is Some {
        prefix_override.unwrap()
    } else if chain_name is Some {
        dec_str(chain_id as nat) + "-"@ + chain_name.unwrap()
    } else {
        dec_str(chain_id as nat) + "-"@ + dec_str(chain_id as nat)
    }
}

/// Resolves the topic prefix that scopes one running instance: the
/// explicit prefix when one was given, else `{chain_id}-{chain_name}`,
/// or `{chain_id}-{chain_id}` when the chain has no registered name.
pub fn resolve_topic_prefix(
    prefix_override: Option<String>,
    chain_id: u64,
    chain_name: Option<String>,
) -> (r: String)
    ensures
        r@ == spec_topic_prefix(prefix_override.deep_view(), chain_id, chain_name.deep_view()),
{
    match prefix_override {
        Some(p) => p,
        None => {
            let id = u64_to_string(chain_id);
            match chain_name {
                Some(name) => id.concat("-").concat(name.as_str()),
                None => {
                    let id2 = u64_to_string(chain_id);
                    id.concat("-").concat(id2.as_str())
                },
            }
        },
    }
}

/// The message carries a block record.
pub open spec fn is_block_item(it: PublishItemV) -> bool {
    it.payload is Block
}

/// The message carries a transaction record.
pub open spec fn is_transaction_item(it: PublishItemV) -> bool {
    it.payload is Transaction
}

/// The message carries a log record.
pub open spec fn is_log_item(it: PublishItemV) -> bool {
    it.payload is Log
}

/// How many messages of the plan carry a block record.
pub open spec fn count_blocks(items: Seq<PublishItemV>) -> nat
    decreases items.len(),
{
    if items.len() == 0 {
        0
    } else {
        count_blocks(items.drop_last()) + if is_block_item(items.last()) {
            1nat
        } else {
            0nat
        }
    }
}

/// How many messages of the plan carry a transaction record.
pub open spec fn count_transactions(items: Seq<PublishItemV>) -> nat
    decreases items.len(),
{
    if items.len() == 0 {
        0
    } else {
        count_transactions(items.drop_last()) + if is_transaction_item(items.last()) {
            1nat
        } else {
            0nat
        }
    }
}

/// How many messages of the plan carry a log record.
pub open spec fn count_logs(items: Seq<PublishItemV>) -> nat
    decreases items.len(),
{
    if items.len() == 0 {
        0
    } else {
        count_logs(items.drop_last()) + if is_log_item(items.last()) {
            1nat
        } else {
            0nat
        }
    }
}

/// The three counts distribute over concatenation.
pub proof fn lemma_counts_add(a: Seq<PublishItemV>, b: Seq<PublishItemV>)
    ensures
        count_blocks(a + b) == count_blocks(a) + count_blocks(b),
        count_transactions(a + b) == count_transactions(a) + count_transactions(b),
        count_logs(a + b) == count_logs(a) + count_logs(b),
    decreases b.len(),
{
    if b.len() == 0 {
        assert(a + b =~= a);
    } else {
        lemma_counts_add(a, b.drop_last());
        assert((a + b).drop_last() =~= a + b.drop_last());
        assert((a + b).last() == b.last());
    }
}

/// The three counts over a single-message plan.
proof fn lemma_counts_single(it: PublishItemV)
    ensures
        count_blocks(seq![it]) == if is_block_item(it) {
            1nat
        } else {
            0nat
        },
        count_transactions(seq![it]) == if is_transaction_item(it) {
            1nat
        } else {
            0nat
        },
        count_logs(seq![it]) == if is_log_item(it) {
            1nat
        } else {
            0nat
        },
{
    assert(seq![it].drop_last() =~= Seq::<PublishItemV>::empty());
    assert(seq![it].last() == it);
    assert(count_blocks(Seq::<PublishItemV>::empty()) == 0);
    assert(count_transactions(Seq::<PublishItemV>::empty()) == 0);
    assert(count_logs(Seq::<PublishItemV>::empty()) == 0);
}

/// The three counts over the push of one message.
proof fn lemma_counts_push(s: Seq<PublishItemV>, it: PublishItemV)
    ensures
        count_blocks(s.push(it)) == count_blocks(s) + if is_block_item(it) {
            1nat
        } else {
            0nat
        },
        count_transactions(s.push(it)) == count_transactions(s) + if is_transaction_item(it) {
            1nat
        } else {
            0nat
        },
        count_logs(s.push(it)) == count_logs(s) + if is_log_item(it) {
            1nat
        } else {
            0nat
        },
{
    assert(s.push(it).drop_last() =~= s);
    assert(s.push(it).last() == it);
}

/// The total number of log entries across the first `k` receipts.
pub open spec fn spec_total_logs_upto(receipts: Seq<ReceiptDataV>, k: int) -> nat
    decreases k,
{
    if k <= 0 {
        0
    } else {
        spec_total_logs_upto(receipts, k - 1) + receipts[k - 1].logs.len()
    }
}

/// The total number of log entries across a block's receipts.
pub open spec fn spec_total_logs(receipts: Seq<ReceiptDataV>) -> nat {
    spec_total_logs_upto(receipts, receipts.len() as int)
}

/// The messages of the first `k` log records are `k` log messages and
/// nothing else.
proof fn lemma_log_items_upto_counts(prefix: Seq<char>, logs: Seq<EmitterLogV>, k: int)
    requires
        0 <= k,
    ensures
        count_blocks(spec_log_items_upto(prefix, logs, k)) == 0,
        count_transactions(spec_log_items_upto(prefix, logs, k)) == 0,
        count_logs(spec_log_items_upto(prefix, logs, k)) == k,
    decreases k,
{
    if k > 0 {
        lemma_log_items_upto_counts(prefix, logs, k - 1);
        lemma_counts_push(
            spec_log_items_upto(prefix, logs, k - 1),
            spec_log_item(prefix, logs[k - 1]),
        );
    }
}

/// The total number of log records across the first `k` transaction
/// entries of the plan.
pub open spec fn spec_total_entry_logs(
    entries: Seq<(EmitterTransactionV, Seq<EmitterLogV>)>,
    k: int,
) -> nat
    decreases k,
{
    if k <= 0 {
        0
    } else {
        spec_total_entry_logs(entries, k - 1) + entries[k - 1].1.len()
    }
}

/// The messages of the first `k` transaction entries are `k` transaction
/// messages, their log messages, and no block message.
proof fn lemma_entries_items_upto_counts(
    prefix: Seq<char>,
    entries: Seq<(EmitterTransactionV, Seq<EmitterLogV>)>,
    k: int,
)
    requires
        0 <= k,
    ensures
        count_blocks(spec_entries_items_upto(prefix, entries, k)) == 0,
        count_transactions(spec_entries_items_upto(prefix, entries, k)) == k,
        count_logs(spec_entries_items_upto(prefix, entries, k)) == spec_total_entry_logs(
            entries,
            k,
        ),
    decreases k,
{
    if k > 0 {
        lemma_entries_items_upto_counts(prefix, entries, k - 1);
        let s = spec_entries_items_upto(prefix, entries, k - 1);
        let e = spec_tx_entry_items(prefix, entries[k - 1]);
        let txs = seq![spec_tx_item(prefix, entries[k - 1].0)];
        let ls = spec_log_items_upto(prefix, entries[k - 1].1, entries[k - 1].1.len() as int);
        lemma_counts_single(spec_tx_item(prefix, entries[k - 1].0));
        lemma_log_items_upto_counts(prefix, entries[k - 1].1, entries[k - 1].1.len() as int);
        lemma_counts_add(txs, ls);
        lemma_counts_add(s, e);
    }
}

/// For every block handed to the transformer, the plan holds exactly one
/// block message, exactly one transaction message per transaction, and
/// exactly one log message per log entry of the block's receipts.
pub proof fn lemma_block_plan_counts(
    prefix: Seq<char>,
    b: BlockDataV,
    receipts: Seq<ReceiptDataV>,
    chain_id: u64,
)
    requires
        receipts.len() == b.transactions.len(),
    ensures
        ({
            let plan = spec_block_plan(
                prefix,
                crate::transform::spec_block_record(b, chain_id),
                crate::transform::spec_tx_entries(b, receipts, chain_id),
            );
            &&& count_blocks(plan) == 1
            &&& count_transactions(plan) == b.transactions.len()
            &&& count_logs(plan) == spec_total_logs(receipts)
        }),
{
    let entries = crate::transform::spec_tx_entries(b, receipts, chain_id);
    let head = seq![
        spec_block_item(prefix, crate::transform::spec_block_record(b, chain_id)),
    ];
    let tail = spec_entries_items_upto(prefix, entries, entries.len() as int);
    lemma_counts_single(spec_block_item(prefix, crate::transform::spec_block_record(b, chain_id)));
    lemma_entries_items_upto_counts(prefix, entries, entries.len() as int);
    lemma_counts_add(head, tail);
    lemma_total_entry_logs_match(b, receipts, chain_id, receipts.len() as int);
}

/// Entry `i` of the plan holds as many log records as receipt `i` holds
/// log entries, so the totals agree.
proof fn lemma_total_entry_logs_match(
    b: BlockDataV,
    receipts: Seq<ReceiptDataV>,
    chain_id: u64,
    k: int,
)
    requires
        receipts.len() == b.transactions.len(),
        k <= receipts.len(),
    ensures
        spec_total_entry_logs(crate::transform::spec_tx_entries(b, receipts, chain_id), k)
            == spec_total_logs_upto(receipts, k),
    decreases k,
{
    if k > 0 {
        lemma_total_entry_logs_match(b, receipts, chain_id, k - 1);
    }
}

} // verus!
