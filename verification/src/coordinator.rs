//! The pipeline coordinator's decisions.
//!
//! The host drives an event loop: it suspends on the node's notification
//! stream, hands each event to `handle_event`, enqueues the planned
//! messages on the broker, and sends the returned height acknowledgment
//! back to the node. All decisions live here and are verified; the host
//! only performs them. A committed segment plans every block that holds
//! at least one transaction, in ascending block order; reorgs and
//! reverts plan nothing and are observed for operability only, so
//! downstream consumers receive no retraction of records already
//! published for reorganized blocks.

use vstd::prelude::*;

use crate::chain::{wf_segment, wf_segment_block, SegmentBlock, SegmentBlockV};
use crate::publish::{
    count_blocks, count_logs, count_transactions, plan_block_publish, spec_block_plan,
    spec_total_logs, PublishItem, PublishItemV,
};
use crate::transform::{
    clone_bytes, process_block_with_receipts, spec_block_record, spec_tx_entries,
};

verus! {

/// One event of the node's ordered notification stream.
#[derive(Clone, Debug, PartialEq)]
pub enum SegmentEvent {
    /// A new run of blocks became canonical.
    Committed { segment: Vec<SegmentBlock> },
    /// The chain switched from the `old` run to the `new` one.
    Reorged { old: Vec<SegmentBlock>, new: Vec<SegmentBlock> },
    /// The chain wound back, dropping the `old` run.
    Reverted { old: Vec<SegmentBlock> },
}

/// Spec view of `SegmentEvent`.
pub ghost enum SegmentEventV {
    Committed { segment: Seq<SegmentBlockV> },
    Reorged { old: Seq<SegmentBlockV>, new: Seq<SegmentBlockV> },
    Reverted { old: Seq<SegmentBlockV> },
}

impl View for SegmentEvent {
    type V = SegmentEventV;

    open spec fn view(&self) -> SegmentEventV {
        match self {
            SegmentEvent::Committed { segment } => SegmentEventV::Committed {
                segment: segment.deep_view(),
            },
            SegmentEvent::Reorged { old, new } => SegmentEventV::Reorged {
                old: old.deep_view(),
                new: new.deep_view(),
            },
            SegmentEvent::Reverted { old } => SegmentEventV::Reverted { old: old.deep_view() },
        }
    }
}

impl DeepView for SegmentEvent {
    type V = SegmentEventV;

    open spec fn deep_view(&self) -> SegmentEventV {
        self@
    }
}

/// The height acknowledgment sent back to the node once a segment has
/// been fully enqueued: the node's resumption checkpoint.
#[derive(Clone, Debug, PartialEq)]
pub struct HeightAck {
    pub number: u64,
    pub hash: Vec<u8>,
}

/// Spec view of `HeightAck`.
pub ghost struct HeightAckV {
    pub number: u64,
    pub hash: Seq<u8>,
}

impl View for HeightAck {
    type V = HeightAckV;

    open spec fn view(&self) -> HeightAckV {
        HeightAckV { number: self.number, hash: self.hash@ }
    }
}

impl DeepView for HeightAck {
    type V = HeightAckV;

    open spec fn deep_view(&self) -> HeightAckV {
        self@
    }
}

/// The messages one block of a segment contributes: its full plan when
/// it holds at least one transaction, nothing otherwise.
pub open spec fn spec_block_messages(prefix: Seq<char>, chain_id: u64, sb: SegmentBlockV) -> Seq<
    PublishItemV,
> {
    if sb.block.transactions.len() > 0 {
        spec_block_plan(
            prefix,
            spec_block_record(sb.block, chain_id),
            spec_tx_entries(sb.block, sb.receipts, chain_id),
        )
    } else {
        Seq::empty()
    }
}

/// The messages of the first `k` blocks of a committed segment, in
/// ascending block order.
pub open spec fn spec_segment_plan_upto(
    prefix: Seq<char>,
    chain_id: u64,
    s: Seq<SegmentBlockV>,
    k: int,
) -> Seq<PublishItemV>
    decreases k,
{
    if k <= 0 {
        Seq::empty()
    } else {
        spec_segment_plan_upto(prefix, chain_id, s, k - 1) + spec_block_messages(
            prefix,
            chain_id,
            s[k - 1],
        )
    }
}

/// All messages of a committed segment.
pub open spec fn spec_segment_plan(prefix: Seq<char>, chain_id: u64, s: Seq<SegmentBlockV>) -> Seq<
    PublishItemV,
> {
    spec_segment_plan_upto(prefix, chain_id, s, s.len() as int)
}

/// The messages an event plans: a committed segment plans its blocks'
/// messages; a reorg or revert plans none.
pub open spec fn spec_event_plan(prefix: Seq<char>, chain_id: u64, e: SegmentEventV) -> Seq<
    PublishItemV,
> {
    match e {
        SegmentEventV::Committed { segment } => spec_segment_plan(prefix, chain_id, segment),
        SegmentEventV::Reorged { old, new } => Seq::empty(),
        SegmentEventV::Reverted { old } => Seq::empty(),
    }
}

/// The height an event acknowledges: the tip of the run that is now
/// canonical; a revert acknowledges nothing.
pub open spec fn spec_event_ack(e: SegmentEventV) -> Option<HeightAckV> {
    match e {
        SegmentEventV::Committed { segment } => Some(
            HeightAckV { number: segment.last().block.number, hash: segment.last().block.hash },
        ),
        SegmentEventV::Reorged { old, new } => Some(
            HeightAckV { number: new.last().block.number, hash: new.last().block.hash },
        ),
        SegmentEventV::Reverted { old } => None,
    }
}

/// The invariants the node guarantees of an event's segments.
pub open spec fn wf_event(e: SegmentEventV) -> bool {
    match e {
        SegmentEventV::Committed { segment } => wf_segment(segment),
        SegmentEventV::Reorged { old, new } => wf_segment(old) && wf_segment(new),
        SegmentEventV::Reverted { old } => wf_segment(old),
    }
}

/// Plans the messages of one committed segment: for every block with at
/// least one transaction, the block record, then each transaction record
/// followed by its log records, blocks in ascending order.
pub fn process_committed_chain(
    segment: &Vec<SegmentBlock>,
    topic_prefix: &str,
    chain_id: u64,
) -> (items: Vec<PublishItem>)
    requires
        wf_segment(segment.deep_view()),
    ensures
        items.deep_view() == spec_segment_plan(topic_prefix@, chain_id, segment.deep_view()),
{
    let ghost sv = segment.deep_view();
    let mut items: Vec<PublishItem> = Vec::new();
    let n = segment.len();
    proof {
        assert(items.deep_view() =~= spec_segment_plan_upto(topic_prefix@, chain_id, sv, 0));
    }
    for k in 0..n
        invariant
            n == segment@.len(),
            sv == segment.deep_view(),
            wf_segment(sv),
            items.deep_view() == spec_segment_plan_upto(topic_prefix@, chain_id, sv, k as int),
    {
        let sb = &segment[k];
        proof {
            assert(sv[k as int] == segment@[k as int].deep_view());
            assert(wf_segment_block(sv[k as int]));
        }
        if sb.block.transactions.len() > 0 {
            let (emitter_block, emitter_transactions) = process_block_with_receipts(
                &sb.block,
                &sb.receipts,
                chain_id,
            );
            let mut plan = plan_block_publish(topic_prefix, emitter_block, emitter_transactions);
            let ghost ipre = items.deep_view();
            let ghost ipre_s = items@;
            let ghost pv = plan.deep_view();
            let ghost pv_s = plan@;
            items.append(&mut plan);
            proof {
                assert(items@.len() == ipre_s.len() + pv_s.len());
                assert forall|i: int| 0 <= i < items@.len() implies items.deep_view()[i] == (ipre
                    + pv)[i] by {
                    if i < ipre_s.len() {
                        assert(items@[i] == ipre_s[i]);
                    } else {
                        assert(items@[i] == pv_s[i - ipre_s.len()]);
                    }
                }
                assert(items.deep_view() =~= ipre + pv);
                assert(pv == spec_block_messages(topic_prefix@, chain_id, sv[k as int]));
                assert(items.deep_view() =~~= spec_segment_plan_upto(
                    topic_prefix@,
                    chain_id,
                    sv,
                    k as int + 1,
                ));
            }
        } else {
            proof {
                assert(spec_block_messages(topic_prefix@, chain_id, sv[k as int])
                    =~= Seq::<PublishItemV>::empty());
                assert(items.deep_view() =~~= spec_segment_plan_upto(
                    topic_prefix@,
                    chain_id,
                    sv,
                    k as int + 1,
                ));
            }
        }
    }
    items
}

/// Decides everything one event calls for: the messages to enqueue, in
/// order, and the height acknowledgment to send once they all are. A
/// reorg or revert plans no messages at all.
pub fn handle_event(event: &SegmentEvent, topic_prefix: &str, chain_id: u64) -> (r: (
    Vec<PublishItem>,
    Option<HeightAck>,
))
    requires
        wf_event(event@),
    ensures
        r.0.deep_view() == spec_event_plan(topic_prefix@, chain_id, event@),
        r.1.deep_view() == spec_event_ack(event@),
{
    match event {
        SegmentEvent::Committed { segment } => {
            let items = process_committed_chain(segment, topic_prefix, chain_id);
            let last = &segment[segment.len() - 1];
            let ack = HeightAck { number: last.block.number, hash: clone_bytes(&last.block.hash) };
            (items, Some(ack))
        },
        SegmentEvent::Reorged { old, new } => {
            let items: Vec<PublishItem> = Vec::new();
            let last = &new[new.len() - 1];
            let ack = HeightAck { number: last.block.number, hash: clone_bytes(&last.block.hash) };
            proof {
                assert(items.deep_view() =~= Seq::<PublishItemV>::empty());
            }
            (items, Some(ack))
        },
        SegmentEvent::Reverted { old } => {
            let items: Vec<PublishItem> = Vec::new();
            proof {
                assert(items.deep_view() =~= Seq::<PublishItemV>::empty());
            }
            (items, None)
        },
    }
}

/// How many blocks a committed segment holds, for throughput reporting:
/// tip number minus first number plus one, which by contiguity is the
/// segment's length.
pub fn segment_block_count(segment: &Vec<SegmentBlock>) -> (n: u64)
    requires
        wf_segment(segment.deep_view()),
    ensures
        n == segment.deep_view().len(),
{
    let last = segment.len() - 1;
    proof {
        assert(segment.deep_view()[last as int].block.number
            == segment.deep_view()[0].block.number + last);
    }
    segment[last].block.number - segment[0].block.number + 1
}

/// The total number of transactions across the first `k` blocks of a
/// segment.
pub open spec fn spec_segment_tx_total(s: Seq<SegmentBlockV>, k: int) -> nat
    decreases k,
{
    if k <= 0 {
        0
    } else {
        spec_segment_tx_total(s, k - 1) + s[k - 1].block.transactions.len()
    }
}

/// Counts the transactions of a committed segment, for throughput
/// reporting; a total beyond `u64::MAX` is reported as zero.
pub fn segment_transaction_count(segment: &Vec<SegmentBlock>) -> (n: u64)
    ensures
        ({
            let total = spec_segment_tx_total(
                segment.deep_view(),
                segment.deep_view().len() as int,
            );
            n == if total <= u64::MAX {
                total
            } else {
                0
            }
        }),
{
    let ghost sv = segment.deep_view();
    let mut total: u128 = 0;
    let n = segment.len();
    for k in 0..n
        invariant
            n == segment@.len(),
            sv == segment.deep_view(),
            total == spec_segment_tx_total(sv, k as int),
            total <= (k as u128) * 0xffff_ffff_ffff_ffffu128,
    {
        let c = segment[k].block.transactions.len();
        proof {
            assert(sv[k as int] == segment@[k as int].deep_view());
            assert(c as u128 <= 0xffff_ffff_ffff_ffffu128);
            assert((k as u128) + 1 <= 0xffff_ffff_ffff_ffffu128);
            assert(total + (c as u128) <= ((k as u128) + 1) * 0xffff_ffff_ffff_ffffu128)
                by (nonlinear_arith)
                requires
                    total <= (k as u128) * 0xffff_ffff_ffff_ffffu128,
                    (c as u128) <= 0xffff_ffff_ffff_ffffu128,
            ;
            assert(((k as u128) + 1) * 0xffff_ffff_ffff_ffffu128 <= 0xffff_ffff_ffff_ffffu128
                * 0xffff_ffff_ffff_ffffu128) by (nonlinear_arith)
                requires
                    (k as u128) + 1 <= 0xffff_ffff_ffff_ffffu128,
            ;
        }
        total = total + (c as u128);
    }
    if total <= u64::MAX as u128 {
        total as u64
    } else {
        0
    }
}

/// How many of the first `k` blocks of a segment hold at least one
/// transaction, and so contribute a block message.
pub open spec fn spec_busy_block_total(s: Seq<SegmentBlockV>, k: int) -> nat
    decreases k,
{
    if k <= 0 {
        0
    } else {
        spec_busy_block_total(s, k - 1) + if s[k - 1].block.transactions.len() > 0 {
            1nat
        } else {
            0nat
        }
    }
}

/// The total number of log entries across the receipts of the first `k`
/// blocks of a segment.
pub open spec fn spec_segment_log_total(s: Seq<SegmentBlockV>, k: int) -> nat
    decreases k,
{
    if k <= 0 {
        0
    } else {
        spec_segment_log_total(s, k - 1) + spec_total_logs(s[k - 1].receipts)
    }
}

/// Totals over a committed segment's plan: one block message per block
/// that holds transactions, one transaction message per transaction,
/// and one log message per log entry of the segment's receipts.
pub proof fn lemma_segment_plan_counts(prefix: Seq<char>, chain_id: u64, s: Seq<SegmentBlockV>, k: int)
    requires
        wf_segment(s),
        0 <= k <= s.len(),
    ensures
        count_blocks(spec_segment_plan_upto(prefix, chain_id, s, k)) == spec_busy_block_total(s, k),
        count_transactions(spec_segment_plan_upto(prefix, chain_id, s, k))
            == spec_segment_tx_total(s, k),
        count_logs(spec_segment_plan_upto(prefix, chain_id, s, k)) == spec_segment_log_total(s, k),
    decreases k,
{
    if k > 0 {
        lemma_segment_plan_counts(prefix, chain_id, s, k - 1);
        lemma_segment_block_counts(prefix, chain_id, s, k - 1);
        crate::publish::lemma_counts_add(
            spec_segment_plan_upto(prefix, chain_id, s, k - 1),
            spec_block_messages(prefix, chain_id, s[k - 1]),
        );
        if s[k - 1].block.transactions.len() == 0 {
            assert(wf_segment_block(s[k - 1]));
            assert(count_blocks(Seq::<PublishItemV>::empty()) == 0);
            assert(count_transactions(Seq::<PublishItemV>::empty()) == 0);
            assert(count_logs(Seq::<PublishItemV>::empty()) == 0);
            assert(spec_total_logs(s[k - 1].receipts) == 0);
        }
    }
}

/// A reorg or revert event plans no messages at all: no record is
/// transformed or published for reorganized or reverted blocks, and a
/// revert acknowledges no height.
pub proof fn lemma_reorg_and_revert_plan_nothing(
    prefix: Seq<char>,
    chain_id: u64,
    e: SegmentEventV,
)
    requires
        e is Reorged || e is Reverted,
    ensures
        spec_event_plan(prefix, chain_id, e) == Seq::<PublishItemV>::empty(),
        e is Reverted ==> spec_event_ack(e) is None,
{
}

/// Within a committed segment's plan, a block with at least one
/// transaction contributes exactly one block message, one transaction
/// message per transaction and one log message per log entry of its
/// receipts; a block without transactions contributes nothing.
pub proof fn lemma_segment_block_counts(
    prefix: Seq<char>,
    chain_id: u64,
    s: Seq<SegmentBlockV>,
    i: int,
)
    requires
        wf_segment(s),
        0 <= i < s.len(),
    ensures
        ({
            let m = spec_block_messages(prefix, chain_id, s[i]);
            &&& s[i].block.transactions.len() > 0 ==> {
                &&& count_blocks(m) == 1
                &&& count_transactions(m) == s[i].block.transactions.len()
                &&& count_logs(m) == spec_total_logs(s[i].receipts)
            }
            &&& s[i].block.transactions.len() == 0 ==> m == Seq::<PublishItemV>::empty()
        }),
{
    assert(wf_segment_block(s[i]));
    if s[i].block.transactions.len() > 0 {
        crate::publish::lemma_block_plan_counts(prefix, s[i].block, s[i].receipts, chain_id);
    }
}

} // verus!
