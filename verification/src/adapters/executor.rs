//! The contract between the manager and its stores.

use vstd::prelude::*;
use crate::address::Address;
use crate::receipt_aggregate_voucher::SignedRAV;
use crate::tap_receipt::ReceivedReceipt;

verus! {

/// A store could not do what it was asked.
#[derive(Clone, Debug, PartialEq, Eq)]
pub struct AdapterError {
    pub reason: String,
}

/// The timestamps later than `after` and not later than `until`, each bound
/// counting only where it is given.
#[derive(Clone, Copy, Debug, PartialEq, Eq)]
pub struct TimestampRange {
    pub after: Option<u64>,
    pub until: Option<u64>,
}

impl TimestampRange {
    /// Whether `timestamp_ns` lies in the range.
    pub open spec fn contains(self, timestamp_ns: u64) -> bool {
        &&& self.after matches Some(a) ==> a < timestamp_ns
        &&& self.until matches Some(u) ==> timestamp_ns <= u
    }

    /// The range of all timestamps.
    pub fn all() -> (range: TimestampRange)
        ensures
            range == (TimestampRange { after: None, until: None }),
    {
        TimestampRange { after: None, until: None }
    }

    /// The range with the given bounds.
    pub fn new(after: Option<u64>, until: Option<u64>) -> (range: TimestampRange)
        ensures
            range == (TimestampRange { after, until }),
    {
        TimestampRange { after, until }
    }

    /// Whether `timestamp_ns` lies in the range.
    pub fn includes(&self, timestamp_ns: u64) -> (r: bool)
        ensures
            r == self.contains(timestamp_ns),
    {
        let above = match self.after {
            Some(a) => a < timestamp_ns,
            None => true,
        };
        let below = match self.until {
            Some(u) => timestamp_ns <= u,
            None => true,
        };
        above && below
    }
}

/// Whether a retrieval for `range`, narrowed to the query `query_id` if one
/// is given, selects `receipt`.
pub open spec fn selects(range: TimestampRange, query_id: Option<u64>, receipt: ReceivedReceipt)
    -> bool {
    &&& range.contains(receipt.timestamp())
    &&& query_id matches Some(q) ==> receipt.query_id == q
}

/// The receipts of `receipts` that a retrieval selects, in their order.
pub open spec fn receipts_in_range(
    receipts: Seq<ReceivedReceipt>,
    range: TimestampRange,
    query_id: Option<u64>,
) -> Seq<ReceivedReceipt>
    decreases receipts.len(),
{
    if receipts.len() == 0 {
        Seq::empty()
    } else {
        let before = receipts_in_range(receipts.drop_last(), range, query_id);
        if selects(range, query_id, receipts.last()) {
            before.push(receipts.last())
        } else {
            before
        }
    }
}

/// The receipts of `receipts` whose timestamp is outside `range`, in their
/// order.
pub open spec fn receipts_outside_range(receipts: Seq<ReceivedReceipt>, range: TimestampRange)
    -> Seq<ReceivedReceipt>
    decreases receipts.len(),
{
    if receipts.len() == 0 {
        Seq::empty()
    } else {
        let before = receipts_outside_range(receipts.drop_last(), range);
        if range.contains(receipts.last().timestamp()) {
            before
        } else {
            before.push(receipts.last())
        }
    }
}

/// What the stores and registries of one channel hold.
pub struct StoreState {
    /// The stored receipts, in the order in which they arrived.
    pub receipts: Seq<ReceivedReceipt>,
    /// The current voucher, if one was ever committed.
    pub last_rav: Option<SignedRAV>,
    /// The escrow of each payer that has one.
    pub escrow: Map<Address, u128>,
    /// The appraised value of each query that has been appraised.
    pub appraisals: Map<u64, u128>,
    /// The registered allocations.
    pub allocations: Set<Address>,
    /// The authorized payers.
    pub senders: Set<Address>,
    /// Whether the stores always answer.
    pub reliable: bool,
}

impl StoreState {
    /// The state of stores that hold nothing and always answer.
    pub open spec fn empty() -> StoreState {
        StoreState {
            receipts: Seq::empty(),
            last_rav: None,
            escrow: Map::empty(),
            appraisals: Map::empty(),
            allocations: Set::empty(),
            senders: Set::empty(),
            reliable: true,
        }
    }

    /// The escrow of `sender`: zero where none is recorded.
    pub open spec fn balance_of(self, sender: Address) -> u128 {
        if self.escrow.dom().contains(sender) {
            self.escrow[sender]
        } else {
            0
        }
    }

    /// The appraisal of `query_id`, if it has one.
    pub open spec fn appraisal_of(self, query_id: u64) -> Option<u128> {
        if self.appraisals.dom().contains(query_id) {
            Some(self.appraisals[query_id])
        } else {
            None
        }
    }

    /// The state after `receipt` arrived.
    pub open spec fn with_receipt(self, receipt: ReceivedReceipt) -> StoreState {
        StoreState { receipts: self.receipts.push(receipt), ..self }
    }

    /// The state after `rav` became the current voucher.
    pub open spec fn with_rav(self, rav: SignedRAV) -> StoreState {
        StoreState { last_rav: Some(rav), ..self }
    }

    /// The state after the receipts in `range` were deleted.
    pub open spec fn without_range(self, range: TimestampRange) -> StoreState {
        StoreState { receipts: receipts_outside_range(self.receipts, range), ..self }
    }

    /// The range of the timestamps that the current voucher does not cover.
    pub open spec fn uncovered(self) -> TimestampRange {
        match self.last_rav {
            Some(rav) => TimestampRange { after: Some(rav.message.timestamp_ns), until: None },
            None => TimestampRange { after: None, until: None },
        }
    }

    /// The range of the timestamps that the current voucher covers, if there
    /// is a voucher.
    pub open spec fn covered(self) -> Option<TimestampRange> {
        match self.last_rav {
            Some(rav) => Some(
                TimestampRange { after: None, until: Some(rav.message.timestamp_ns) },
            ),
            None => None,
        }
    }
}

/// The stores and registries of one channel.
///
/// `state` says what they hold. A call that returns an error has changed
/// nothing, and where the state is `reliable` no call returns one. The
/// manager is proved against these contracts: it is as good as the stores it
/// is given keep them. `state` is never called when the program runs.
pub trait Executor: Sized {
    /// What the stores and registries hold.
    spec fn state(&self) -> StoreState;

    /// Appends `receipt` to the stored receipts.
    fn store_receipt(&mut self, receipt: ReceivedReceipt) -> (res: Result<(), AdapterError>)
        ensures
            old(self).state().reliable ==> res is Ok,
            res is Ok ==> final(self).state() == old(self).state().with_receipt(receipt),
            res is Err ==> final(self).state() == old(self).state(),
    ;

    /// The stored receipts in `range`, narrowed to those of the query
    /// `query_id` if one is given, in the order in which they arrived.
    fn retrieve_receipts_in_timestamp_range(
        &self,
        range: TimestampRange,
        query_id: Option<u64>,
    ) -> (res: Result<Vec<ReceivedReceipt>, AdapterError>)
        ensures
            self.state().reliable ==> res is Ok,
            res matches Ok(found) ==> found@ == receipts_in_range(
                self.state().receipts,
                range,
                query_id,
            ),
    ;

    /// Deletes the stored receipts in `range`.
    fn remove_receipts_in_timestamp_range(&mut self, range: TimestampRange) -> (res: Result<
        (),
        AdapterError,
    >)
        ensures
            old(self).state().reliable ==> res is Ok,
            res is Ok ==> final(self).state() == old(self).state().without_range(range),
            res is Err ==> final(self).state() == old(self).state(),
    ;

    /// The current voucher.
    fn last_rav(&self) -> (res: Result<Option<SignedRAV>, AdapterError>)
        ensures
            self.state().reliable ==> res is Ok,
            res matches Ok(rav) ==> rav == self.state().last_rav,
    ;

    /// Makes `rav` the current voucher, in place of any other.
    fn update_last_rav(&mut self, rav: SignedRAV) -> (res: Result<(), AdapterError>)
        ensures
            old(self).state().reliable ==> res is Ok,
            res is Ok ==> final(self).state() == old(self).state().with_rav(rav),
            res is Err ==> final(self).state() == old(self).state(),
    ;

    /// The escrow of `sender`.
    fn get_sender_escrow(&self, sender: &Address) -> (res: Result<u128, AdapterError>)
        ensures
            self.state().reliable ==> res is Ok,
            res matches Ok(balance) ==> balance == self.state().balance_of(*sender),
    ;

    /// The appraisal of the query `query_id`, if it has one.
    fn get_query_appraisal(&self, query_id: u64) -> (res: Result<Option<u128>, AdapterError>)
        ensures
            self.state().reliable ==> res is Ok,
            res matches Ok(appraisal) ==> appraisal == self.state().appraisal_of(query_id),
    ;

    /// Whether `allocation_id` is registered.
    fn is_allocation_registered(&self, allocation_id: &Address) -> (res: Result<
        bool,
        AdapterError,
    >)
        ensures
            self.state().reliable ==> res is Ok,
            res matches Ok(known) ==> known == self.state().allocations.contains(*allocation_id),
    ;

    /// Whether `sender` is an authorized payer.
    fn is_sender_authorized(&self, sender: &Address) -> (res: Result<bool, AdapterError>)
        ensures
            self.state().reliable ==> res is Ok,
            res matches Ok(known) ==> known == self.state().senders.contains(*sender),
    ;
}

} // verus!
