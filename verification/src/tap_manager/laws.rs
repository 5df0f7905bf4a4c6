//! What holds of the manager's operations, each proved from the definitions
//! that their contracts use.

use vstd::prelude::*;
use crate::adapters::executor::{
    receipts_in_range, receipts_outside_range, selects, StoreState, TimestampRange,
};
use crate::checks::{first_failure, CheckContext};
use crate::error::{Error, ReceiptCheck};
use crate::receipt_aggregate_voucher::{aggregate, ReceiptAggregateVoucher, SignedRAV};
use crate::tap_manager::manager::{ingestion_verdict, pruned, selected_checks};
use crate::tap_manager::rav_request::{
    aggregation_window, invalid_receipts, is_rav_request_of, receipts_to_aggregate,
    valid_receipts, RAVRequest,
};
use crate::tap_receipt::{
    lemma_max_timestamp, lemma_total_value_prefix, lemma_total_value_uniform, total_value,
    ReceivedReceipt, SignedReceipt,
};

verus! {

/// Every receipt that a retrieval returns is one of the stored receipts, and
/// one that the retrieval selects.
pub proof fn lemma_retrieved_are_selected(
    receipts: Seq<ReceivedReceipt>,
    range: TimestampRange,
    query_id: Option<u64>,
)
    ensures
        forall|i: int|
            0 <= i < receipts_in_range(receipts, range, query_id).len() ==> {
                let r = #[trigger] receipts_in_range(receipts, range, query_id)[i];
                selects(range, query_id, r) && receipts.contains(r)
            },
    decreases receipts.len(),
{
    let found = receipts_in_range(receipts, range, query_id);
    if receipts.len() > 0 {
        let rest = receipts.drop_last();
        lemma_retrieved_are_selected(rest, range, query_id);
        let before = receipts_in_range(rest, range, query_id);
        assert forall|i: int| 0 <= i < found.len() implies {
            let r = #[trigger] found[i];
            selects(range, query_id, r) && receipts.contains(r)
        } by {
            if i < before.len() {
                let r = before[i];
                assert(found[i] == r);
                assert(rest.contains(r));
                let j = choose|j: int| 0 <= j < rest.len() && rest[j] == r;
                assert(receipts[j] == r);
            } else {
                assert(found[i] == receipts[receipts.len() - 1]);
            }
        }
    }
}

/// Whether `receipt` is the signed receipt of one of `fetched` that every
/// check accepts.
pub open spec fn is_valid_among(
    checks: Seq<ReceiptCheck>,
    ctx: CheckContext,
    fetched: Seq<ReceivedReceipt>,
    receipt: SignedReceipt,
) -> bool {
    exists|j: int|
        0 <= j < fetched.len() && (#[trigger] fetched[j]).signed_receipt == receipt
            && first_failure(checks, ctx, fetched[j], true) is None
}

/// Every valid receipt of a pass is one of the receipts that were looked at,
/// and one that every check accepts.
pub proof fn lemma_valid_are_fetched(
    checks: Seq<ReceiptCheck>,
    ctx: CheckContext,
    fetched: Seq<ReceivedReceipt>,
)
    ensures
        forall|i: int|
            0 <= i < valid_receipts(checks, ctx, fetched).len() ==> is_valid_among(
                checks,
                ctx,
                fetched,
                #[trigger] valid_receipts(checks, ctx, fetched)[i],
            ),
    decreases fetched.len(),
{
    let valid = valid_receipts(checks, ctx, fetched);
    if fetched.len() > 0 {
        let rest = fetched.drop_last();
        lemma_valid_are_fetched(checks, ctx, rest);
        let before = valid_receipts(checks, ctx, rest);
        assert forall|i: int| 0 <= i < valid.len() implies is_valid_among(
            checks,
            ctx,
            fetched,
            #[trigger] valid[i],
        ) by {
            if i < before.len() {
                assert(valid[i] == before[i]);
                assert(is_valid_among(checks, ctx, rest, before[i]));
                let j = choose|j: int|
                    0 <= j < rest.len() && (#[trigger] rest[j]).signed_receipt == before[i]
                        && first_failure(checks, ctx, rest[j], true) is None;
                assert(fetched[j] == rest[j]);
            } else {
                let j = fetched.len() - 1;
                assert(fetched[j].signed_receipt == valid[i]);
            }
        }
    }
}

/// A pass puts every receipt that it looks at in exactly one of its two
/// partitions.
pub proof fn lemma_partition_is_complete(
    checks: Seq<ReceiptCheck>,
    ctx: CheckContext,
    fetched: Seq<ReceivedReceipt>,
)
    ensures
        valid_receipts(checks, ctx, fetched).len() + invalid_receipts(checks, ctx, fetched).len()
            == fetched.len(),
    decreases fetched.len(),
{
    if fetched.len() > 0 {
        lemma_partition_is_complete(checks, ctx, fetched.drop_last());
    }
}

/// A receipt that arrives with no check to run is accepted, whatever the
/// stores hold and whatever the checks would say of it. Once stored, it is
/// the last that any retrieval finds whose range and query select it.
pub proof fn lemma_unchecked_receipt_is_kept(
    checks: Seq<ReceiptCheck>,
    ctx: CheckContext,
    receipt: ReceivedReceipt,
    range: TimestampRange,
    query_id: Option<u64>,
)
    requires
        selects(range, query_id, receipt),
    ensures
        ingestion_verdict(checks, Seq::<usize>::empty(), ctx, receipt) == Ok::<(), Error>(()),
        receipts_in_range(ctx.store.with_receipt(receipt).receipts, range, query_id).len() > 0,
        receipts_in_range(ctx.store.with_receipt(receipt).receipts, range, query_id).last()
            == receipt,
{
    assert(selected_checks(checks, Seq::<usize>::empty()) =~= Seq::<ReceiptCheck>::empty());
    let after = ctx.store.with_receipt(receipt).receipts;
    assert(after.drop_last() == ctx.store.receipts);
}

/// A stored receipt in the window of a pass is in one of the partitions of
/// that pass: in the valid one if every check accepts it, else in the
/// invalid one.
pub proof fn lemma_stored_receipt_is_audited(
    checks: Seq<ReceiptCheck>,
    ctx: CheckContext,
    fetched: Seq<ReceivedReceipt>,
    k: int,
)
    requires
        0 <= k < fetched.len(),
    ensures
        first_failure(checks, ctx, fetched[k], true) is None ==> valid_receipts(
            checks,
            ctx,
            fetched,
        ).contains(fetched[k].signed_receipt),
        first_failure(checks, ctx, fetched[k], true) is Some ==> invalid_receipts(
            checks,
            ctx,
            fetched,
        ).contains(fetched[k].signed_receipt),
    decreases fetched.len(),
{
    let rest = fetched.drop_last();
    let valid = valid_receipts(checks, ctx, fetched);
    let invalid = invalid_receipts(checks, ctx, fetched);
    if k == fetched.len() - 1 {
        if first_failure(checks, ctx, fetched[k], true) is None {
            assert(valid[valid.len() - 1] == fetched[k].signed_receipt);
        } else {
            assert(invalid[invalid.len() - 1] == fetched[k].signed_receipt);
        }
    } else {
        lemma_stored_receipt_is_audited(checks, ctx, rest, k);
        assert(rest[k] == fetched[k]);
        let wanted = fetched[k].signed_receipt;
        if first_failure(checks, ctx, fetched[k], true) is None {
            let before = valid_receipts(checks, ctx, rest);
            let j = choose|j: int| 0 <= j < before.len() && before[j] == wanted;
            assert(valid[j] == wanted);
        } else {
            let before = invalid_receipts(checks, ctx, rest);
            let j = choose|j: int| 0 <= j < before.len() && before[j] == wanted;
            assert(invalid[j] == wanted);
        }
    }
}

/// The first voucher of a channel: where no voucher is stored and none is
/// handed in, a request has no previous voucher, and the aggregate of its
/// voucher is the sum of the values of its valid receipts.
pub proof fn lemma_first_rav_request(
    checks: Seq<ReceiptCheck>,
    ctx: CheckContext,
    now: u64,
    timestamp_buffer_ns: u64,
    request: RAVRequest,
)
    requires
        ctx.store.last_rav is None,
        is_rav_request_of(
            checks,
            ctx,
            now,
            timestamp_buffer_ns,
            None,
            Ok::<RAVRequest, Error>(request),
        ),
    ensures
        request.previous_rav is None,
        request.expected_rav.valueAggregate == total_value(request.valid_receipts@),
{
    lemma_total_value_prefix(request.valid_receipts@, 0);
}

/// Receipts of one value: the voucher that folds `receipts`, each of the
/// value `value`, onto nothing has the aggregate `receipts.len() * value`.
pub proof fn lemma_aggregate_of_equal_values(
    receipts: Seq<SignedReceipt>,
    value: u128,
    rav: ReceiptAggregateVoucher,
)
    requires
        forall|i: int| 0 <= i < receipts.len() ==> receipts[i].message.value == value,
        aggregate(receipts, None) == Ok::<ReceiptAggregateVoucher, Error>(rav),
    ensures
        rav.valueAggregate == receipts.len() * value,
{
    lemma_total_value_uniform(receipts, value);
    lemma_total_value_prefix(receipts, 0);
}

/// A voucher built on another never has less: its aggregate is the other's
/// plus the sum of the values of the receipts folded in.
pub proof fn lemma_aggregate_chains(
    receipts: Seq<SignedReceipt>,
    previous: SignedRAV,
    rav: ReceiptAggregateVoucher,
)
    requires
        aggregate(receipts, Some(previous)) == Ok::<ReceiptAggregateVoucher, Error>(rav),
    ensures
        rav.valueAggregate == previous.message.valueAggregate + total_value(receipts),
        rav.valueAggregate >= previous.message.valueAggregate,
        rav.allocation_id == previous.message.allocation_id,
{
    lemma_total_value_prefix(receipts, 0);
}

/// Chaining: where a voucher is stored and none is handed in, a request is
/// built on the stored voucher. Its aggregate is that of the stored voucher
/// plus the sum of the values of its valid receipts; all of these were
/// issued after the stored voucher's timestamp and not after the end of the
/// window, so that no receipt is folded in twice; and its timestamp is not
/// before that of the stored voucher, and after it where a receipt was
/// folded in.
pub proof fn lemma_chained_rav_request(
    checks: Seq<ReceiptCheck>,
    ctx: CheckContext,
    now: u64,
    timestamp_buffer_ns: u64,
    stored: SignedRAV,
    request: RAVRequest,
)
    requires
        ctx.store.last_rav == Some(stored),
        is_rav_request_of(
            checks,
            ctx,
            now,
            timestamp_buffer_ns,
            None,
            Ok::<RAVRequest, Error>(request),
        ),
    ensures
        request.previous_rav == Some(stored),
        request.expected_rav.valueAggregate == stored.message.valueAggregate + total_value(
            request.valid_receipts@,
        ),
        forall|i: int|
            0 <= i < request.valid_receipts@.len() ==> {
                let t = (#[trigger] request.valid_receipts@[i]).message.timestamp_ns;
                stored.message.timestamp_ns < t && t + timestamp_buffer_ns <= now
            },
        request.expected_rav.timestamp_ns >= stored.message.timestamp_ns,
        request.valid_receipts@.len() > 0 ==> request.expected_rav.timestamp_ns
            > stored.message.timestamp_ns,
{
    let fetched = receipts_to_aggregate(ctx.store, now, timestamp_buffer_ns);
    let valid = request.valid_receipts@;
    lemma_aggregate_chains(valid, stored, request.expected_rav);
    lemma_valid_are_fetched(checks, ctx, fetched);
    assert forall|i: int| 0 <= i < valid.len() implies {
        let t = (#[trigger] valid[i]).message.timestamp_ns;
        stored.message.timestamp_ns < t && t + timestamp_buffer_ns <= now
    } by {
        assert(is_valid_among(checks, ctx, fetched, valid[i]));
        let j = choose|j: int|
            0 <= j < fetched.len() && (#[trigger] fetched[j]).signed_receipt == valid[i]
                && first_failure(checks, ctx, fetched[j], true) is None;
        let range = aggregation_window(ctx.store, now, timestamp_buffer_ns).unwrap();
        lemma_retrieved_are_selected(ctx.store.receipts, range, None);
        assert(selects(range, None, fetched[j]));
    }
    if valid.len() > 0 {
        lemma_max_timestamp(valid);
        assert(valid[0].message.timestamp_ns > stored.message.timestamp_ns);
    }
}

/// With the upper bound open, the receipts outside the range up to `t` are
/// those that a retrieval for the range after `t` finds.
pub proof fn lemma_outside_covered_is_uncovered(receipts: Seq<ReceivedReceipt>, t: u64)
    ensures
        receipts_outside_range(receipts, TimestampRange { after: None, until: Some(t) })
            == receipts_in_range(receipts, TimestampRange { after: Some(t), until: None }, None),
    decreases receipts.len(),
{
    if receipts.len() > 0 {
        lemma_outside_covered_is_uncovered(receipts.drop_last(), t);
    }
}

/// Deleting the receipts of a range a second time deletes nothing.
pub proof fn lemma_delete_twice(receipts: Seq<ReceivedReceipt>, range: TimestampRange)
    ensures
        receipts_outside_range(receipts_outside_range(receipts, range), range)
            == receipts_outside_range(receipts, range),
    decreases receipts.len(),
{
    if receipts.len() > 0 {
        let rest = receipts.drop_last();
        lemma_delete_twice(rest, range);
        if !range.contains(receipts.last().timestamp()) {
            let kept = receipts_outside_range(rest, range);
            assert(kept.push(receipts.last()).drop_last() == kept);
        }
    }
}

/// Before any voucher is committed, pruning changes nothing.
pub proof fn lemma_prune_without_rav(store: StoreState)
    requires
        store.last_rav is None,
    ensures
        pruned(store) == store,
{
}

/// Pruning keeps exactly the receipts that the current voucher does not
/// cover, in their order, and changes nothing else.
pub proof fn lemma_prune_keeps_uncovered(store: StoreState)
    ensures
        pruned(store) == (StoreState {
            receipts: receipts_in_range(store.receipts, store.uncovered(), None),
            ..store
        }),
        forall|i: int|
            0 <= i < pruned(store).receipts.len() ==> store.uncovered().contains(
                (#[trigger] pruned(store).receipts[i]).timestamp(),
            ),
{
    match store.last_rav {
        Some(rav) => {
            lemma_outside_covered_is_uncovered(store.receipts, rav.message.timestamp_ns);
        },
        None => {
            crate::checks::lemma_unbounded_range_selects_all(store.receipts);
        },
    }
    lemma_retrieved_are_selected(store.receipts, store.uncovered(), None);
}

/// Pruning twice in a row leaves what pruning once leaves.
pub proof fn lemma_prune_idempotent(store: StoreState)
    ensures
        pruned(pruned(store)) == pruned(store),
{
    match store.covered() {
        Some(range) => {
            lemma_delete_twice(store.receipts, range);
        },
        None => {},
    }
}

/// Pruning does not change what a later pass aggregates: the receipts in the
/// window of a pass are the same before and after.
pub proof fn lemma_prune_keeps_window(store: StoreState, now: u64, timestamp_buffer_ns: u64)
    ensures
        receipts_to_aggregate(pruned(store), now, timestamp_buffer_ns) == receipts_to_aggregate(
            store,
            now,
            timestamp_buffer_ns,
        ),
{
    match (store.last_rav, aggregation_window(store, now, timestamp_buffer_ns)) {
        (Some(rav), Some(window)) => {
            let covered = TimestampRange { after: None, until: Some(rav.message.timestamp_ns) };
            lemma_window_after_delete(store.receipts, covered, window);
        },
        _ => {},
    }
}

/// Deleting the receipts of one range does not change what a retrieval for a
/// range apart from it finds.
pub proof fn lemma_window_after_delete(
    receipts: Seq<ReceivedReceipt>,
    deleted: TimestampRange,
    window: TimestampRange,
)
    requires
        forall|t: u64| !(deleted.contains(t) && window.contains(t)),
    ensures
        receipts_in_range(receipts_outside_range(receipts, deleted), window, None)
            == receipts_in_range(receipts, window, None),
    decreases receipts.len(),
{
    if receipts.len() > 0 {
        let rest = receipts.drop_last();
        lemma_window_after_delete(rest, deleted, window);
        let t = receipts.last().timestamp();
        assert(!(deleted.contains(t) && window.contains(t)));
        if !deleted.contains(t) {
            let kept = receipts_outside_range(rest, deleted);
            assert(kept.push(receipts.last()).drop_last() == kept);
        }
    }
}

} // verus!
