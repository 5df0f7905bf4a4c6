//! The outcome of one aggregation pass.

use vstd::prelude::*;
use crate::adapters::executor::{receipts_in_range, StoreState, TimestampRange};
use crate::checks::{first_failure, CheckContext};
use crate::error::{Error, ReceiptCheck};
use crate::receipt_aggregate_voucher::{aggregate, ReceiptAggregateVoucher, SignedRAV};
use crate::tap_receipt::{ReceivedReceipt, SignedReceipt};

verus! {

/// What one aggregation pass found: the receipts that passed every check, in
/// the order in which they arrived, those that did not, the voucher that the
/// valid ones add up to, and the voucher that it was built on. Nothing of it
/// is stored.
#[derive(Clone, Debug, PartialEq, Eq)]
pub struct RAVRequest {
    pub valid_receipts: Vec<SignedReceipt>,
    pub invalid_receipts: Vec<SignedReceipt>,
    pub previous_rav: Option<SignedRAV>,
    pub expected_rav: ReceiptAggregateVoucher,
}

/// The timestamps that a pass at the time `now` aggregates: those that the
/// current voucher does not cover, up to `timestamp_buffer_ns` before `now`.
/// There is none where the buffer reaches back before time zero.
pub open spec fn aggregation_window(store: StoreState, now: u64, timestamp_buffer_ns: u64)
    -> Option<TimestampRange> {
    if timestamp_buffer_ns > now {
        None
    } else {
        Some(
            TimestampRange {
                after: store.uncovered().after,
                until: Some((now - timestamp_buffer_ns) as u64),
            },
        )
    }
}

/// The stored receipts that a pass at the time `now` looks at.
pub open spec fn receipts_to_aggregate(store: StoreState, now: u64, timestamp_buffer_ns: u64)
    -> Seq<ReceivedReceipt> {
    match aggregation_window(store, now, timestamp_buffer_ns) {
        Some(range) => receipts_in_range(store.receipts, range, None),
        None => Seq::empty(),
    }
}

/// The voucher that a pass builds on: the one handed in, else the current
/// one.
pub open spec fn chained_rav(store: StoreState, previous_rav_override: Option<SignedRAV>)
    -> Option<SignedRAV> {
    match previous_rav_override {
        Some(rav) => Some(rav),
        None => store.last_rav,
    }
}

/// Those of the stored receipts `fetched` that pass all of `checks`, in
/// their order.
pub open spec fn valid_receipts(
    checks: Seq<ReceiptCheck>,
    ctx: CheckContext,
    fetched: Seq<ReceivedReceipt>,
) -> Seq<SignedReceipt>
    decreases fetched.len(),
{
    if fetched.len() == 0 {
        Seq::empty()
    } else {
        let before = valid_receipts(checks, ctx, fetched.drop_last());
        if first_failure(checks, ctx, fetched.last(), true) is None {
            before.push(fetched.last().signed_receipt)
        } else {
            before
        }
    }
}

/// Those of the stored receipts `fetched` that fail one of `checks`, in
/// their order.
pub open spec fn invalid_receipts(
    checks: Seq<ReceiptCheck>,
    ctx: CheckContext,
    fetched: Seq<ReceivedReceipt>,
) -> Seq<SignedReceipt>
    decreases fetched.len(),
{
    if fetched.len() == 0 {
        Seq::empty()
    } else {
        let before = invalid_receipts(checks, ctx, fetched.drop_last());
        if first_failure(checks, ctx, fetched.last(), true) is None {
            before
        } else {
            before.push(fetched.last().signed_receipt)
        }
    }
}

/// Whether `res` is what a pass at the time `now` returns.
///
/// A request holds the two partitions of the receipts in the window, the
/// voucher that was built on, and the voucher that folds the valid receipts
/// onto it. A pass fails where the store cannot be read or where there is no
/// such voucher, and with reliable stores only in the second case.
pub open spec fn is_rav_request_of(
    checks: Seq<ReceiptCheck>,
    ctx: CheckContext,
    now: u64,
    timestamp_buffer_ns: u64,
    previous_rav_override: Option<SignedRAV>,
    res: Result<RAVRequest, Error>,
) -> bool {
    let fetched = receipts_to_aggregate(ctx.store, now, timestamp_buffer_ns);
    let valid = valid_receipts(checks, ctx, fetched);
    let invalid = invalid_receipts(checks, ctx, fetched);
    let previous = chained_rav(ctx.store, previous_rav_override);
    match res {
        Ok(request) => {
            &&& request.valid_receipts@ == valid
            &&& request.invalid_receipts@ == invalid
            &&& request.previous_rav == previous
            &&& aggregate(valid, previous) == Ok::<ReceiptAggregateVoucher, Error>(
                request.expected_rav,
            )
        },
        Err(e) => {
            &&& e == Error::StoreReadFailure || aggregate(valid, previous) == Err::<
                ReceiptAggregateVoucher,
                Error,
            >(e)
            &&& ctx.store.reliable ==> aggregate(valid, previous) == Err::<
                ReceiptAggregateVoucher,
                Error,
            >(e)
        },
    }
}

} // verus!
