//! Stores and registries held in memory.

use vstd::prelude::*;
use crate::adapters::executor::{
    receipts_in_range, receipts_outside_range, AdapterError, Executor, StoreState,
    TimestampRange,
};
use crate::address::Address;
use crate::receipt_aggregate_voucher::SignedRAV;
use crate::tap_receipt::ReceivedReceipt;

verus! {

/// The map that a list of entries stands for: a later entry for a key
/// replaces an earlier one.
pub open spec fn map_of_entries<K, V>(entries: Seq<(K, V)>) -> Map<K, V>
    decreases entries.len(),
{
    if entries.len() == 0 {
        Map::empty()
    } else {
        map_of_entries(entries.drop_last()).insert(entries.last().0, entries.last().1)
    }
}

/// The value of `key` in `m`, if it has one.
pub open spec fn value_in<K, V>(m: Map<K, V>, key: K) -> Option<V> {
    if m.dom().contains(key) {
        Some(m[key])
    } else {
        None
    }
}

/// Stores and registries in memory. They always answer.
#[derive(Clone, Debug)]
pub struct ExecutorMock {
    receipts: Vec<ReceivedReceipt>,
    rav: Option<SignedRAV>,
    escrow: Vec<(Address, u128)>,
    appraisals: Vec<(u64, u128)>,
    allocation_ids: Vec<Address>,
    sender_ids: Vec<Address>,
}

/// Whether `wanted` occurs in `list`.
fn contains_address(list: &Vec<Address>, wanted: &Address) -> (found: bool)
    ensures
        found == list@.to_set().contains(*wanted),
{
    let mut i: usize = 0;
    while i < list.len()
        invariant
            0 <= i <= list@.len(),
            forall|j: int| 0 <= j < i ==> list@[j] != *wanted,
        decreases list@.len() - i,
    {
        if list[i].same_as(wanted) {
            assert(list@.contains(*wanted));
            return true;
        }
        i += 1;
    }
    assert(!list@.contains(*wanted));
    false
}

/// The balance that the latest entry of `entries` gives `sender`.
fn lookup_escrow(entries: &Vec<(Address, u128)>, sender: &Address) -> (found: Option<u128>)
    ensures
        found == value_in(map_of_entries(entries@), *sender),
{
    let mut found: Option<u128> = None;
    let mut i: usize = 0;
    while i < entries.len()
        invariant
            0 <= i <= entries@.len(),
            found == value_in(map_of_entries(entries@.take(i as int)), *sender),
        decreases entries@.len() - i,
    {
        proof {
            assert(entries@.take(i + 1).drop_last() == entries@.take(i as int));
            assert(entries@.take(i + 1).last() == entries@[i as int]);
        }
        if entries[i].0.same_as(sender) {
            found = Some(entries[i].1);
        }
        i += 1;
    }
    assert(entries@.take(i as int) == entries@);
    found
}

/// The value that the latest entry of `entries` gives `query_id`.
fn lookup_appraisal(entries: &Vec<(u64, u128)>, query_id: u64) -> (found: Option<u128>)
    ensures
        found == value_in(map_of_entries(entries@), query_id),
{
    let mut found: Option<u128> = None;
    let mut i: usize = 0;
    while i < entries.len()
        invariant
            0 <= i <= entries@.len(),
            found == value_in(map_of_entries(entries@.take(i as int)), query_id),
        decreases entries@.len() - i,
    {
        proof {
            assert(entries@.take(i + 1).drop_last() == entries@.take(i as int));
            assert(entries@.take(i + 1).last() == entries@[i as int]);
        }
        if entries[i].0 == query_id {
            found = Some(entries[i].1);
        }
        i += 1;
    }
    assert(entries@.take(i as int) == entries@);
    found
}

impl ExecutorMock {
    /// Stores and registries that hold nothing.
    pub fn new() -> (executor: ExecutorMock)
        ensures
            executor.state() == StoreState::empty(),
    {
        let executor = ExecutorMock {
            receipts: Vec::new(),
            rav: None,
            escrow: Vec::new(),
            appraisals: Vec::new(),
            allocation_ids: Vec::new(),
            sender_ids: Vec::new(),
        };
        assert(executor.allocation_ids@.to_set() =~= Set::<Address>::empty());
        assert(executor.sender_ids@.to_set() =~= Set::<Address>::empty());
        executor
    }

    /// These stores always answer.
    pub proof fn lemma_reliable(&self)
        ensures
            self.state().reliable,
    {
    }

    /// Sets the escrow of `sender` to `balance`.
    pub fn set_escrow(&mut self, sender: Address, balance: u128)
        ensures
            final(self).state() == (StoreState {
                escrow: old(self).state().escrow.insert(sender, balance),
                ..old(self).state()
            }),
    {
        self.escrow.push((sender, balance));
        assert(self.escrow@.drop_last() == old(self).escrow@);
    }

    /// Records `value` as the appraisal of the query `query_id`.
    pub fn set_query_appraisal(&mut self, query_id: u64, value: u128)
        ensures
            final(self).state() == (StoreState {
                appraisals: old(self).state().appraisals.insert(query_id, value),
                ..old(self).state()
            }),
    {
        self.appraisals.push((query_id, value));
        assert(self.appraisals@.drop_last() == old(self).appraisals@);
    }

    /// Registers the allocation `allocation_id`.
    pub fn add_allocation_id(&mut self, allocation_id: Address)
        ensures
            final(self).state() == (StoreState {
                allocations: old(self).state().allocations.insert(allocation_id),
                ..old(self).state()
            }),
    {
        self.allocation_ids.push(allocation_id);
        assert(self.allocation_ids@.to_set() =~= old(self).allocation_ids@.to_set().insert(
            allocation_id,
        )) by {
            assert forall|a: Address|
                self.allocation_ids@.contains(a) <==> (old(self).allocation_ids@.contains(a) || a
                    == allocation_id) by {
                if old(self).allocation_ids@.contains(a) {
                    let j = choose|j: int|
                        0 <= j < old(self).allocation_ids@.len() && old(self).allocation_ids@[j]
                            == a;
                    assert(self.allocation_ids@[j] == a);
                }
                if a == allocation_id {
                    assert(self.allocation_ids@[self.allocation_ids@.len() - 1] == a);
                }
            }
        }
    }

    /// Authorizes the payer `sender`.
    pub fn add_sender(&mut self, sender: Address)
        ensures
            final(self).state() == (StoreState {
                senders: old(self).state().senders.insert(sender),
                ..old(self).state()
            }),
    {
        self.sender_ids.push(sender);
        assert(self.sender_ids@.to_set() =~= old(self).sender_ids@.to_set().insert(sender)) by {
            assert forall|a: Address|
                self.sender_ids@.contains(a) <==> (old(self).sender_ids@.contains(a) || a
                    == sender) by {
                if old(self).sender_ids@.contains(a) {
                    let j = choose|j: int|
                        0 <= j < old(self).sender_ids@.len() && old(self).sender_ids@[j] == a;
                    assert(self.sender_ids@[j] == a);
                }
                if a == sender {
                    assert(self.sender_ids@[self.sender_ids@.len() - 1] == a);
                }
            }
        }
    }
}

impl Executor for ExecutorMock {
    closed spec fn state(&self) -> StoreState {
        StoreState {
            receipts: self.receipts@,
            last_rav: self.rav,
            escrow: map_of_entries(self.escrow@),
            appraisals: map_of_entries(self.appraisals@),
            allocations: self.allocation_ids@.to_set(),
            senders: self.sender_ids@.to_set(),
            reliable: true,
        }
    }

    fn store_receipt(&mut self, receipt: ReceivedReceipt) -> (res: Result<(), AdapterError>) {
        self.receipts.push(receipt);
        Ok(())
    }

    fn retrieve_receipts_in_timestamp_range(
        &self,
        range: TimestampRange,
        query_id: Option<u64>,
    ) -> (res: Result<Vec<ReceivedReceipt>, AdapterError>) {
        let mut found: Vec<ReceivedReceipt> = Vec::new();
        let mut i: usize = 0;
        while i < self.receipts.len()
            invariant
                0 <= i <= self.receipts@.len(),
                found@ == receipts_in_range(self.receipts@.take(i as int), range, query_id),
            decreases self.receipts@.len() - i,
        {
            proof {
                assert(self.receipts@.take(i + 1).drop_last() == self.receipts@.take(i as int));
                assert(self.receipts@.take(i + 1).last() == self.receipts@[i as int]);
            }
            let receipt = self.receipts[i];
            let of_query = match query_id {
                Some(q) => receipt.query_id == q,
                None => true,
            };
            if range.includes(receipt.signed_receipt.message.timestamp_ns) && of_query {
                found.push(receipt);
            }
            i += 1;
        }
        assert(self.receipts@.take(i as int) == self.receipts@);
        Ok(found)
    }

    fn remove_receipts_in_timestamp_range(&mut self, range: TimestampRange) -> (res: Result<
        (),
        AdapterError,
    >) {
        let mut kept: Vec<ReceivedReceipt> = Vec::new();
        let mut i: usize = 0;
        while i < self.receipts.len()
            invariant
                0 <= i <= self.receipts@.len(),
                kept@ == receipts_outside_range(self.receipts@.take(i as int), range),
            decreases self.receipts@.len() - i,
        {
            proof {
                assert(self.receipts@.take(i + 1).drop_last() == self.receipts@.take(i as int));
                assert(self.receipts@.take(i + 1).last() == self.receipts@[i as int]);
            }
            let receipt = self.receipts[i];
            if !range.includes(receipt.signed_receipt.message.timestamp_ns) {
                kept.push(receipt);
            }
            i += 1;
        }
        assert(self.receipts@.take(i as int) == self.receipts@);
        self.receipts = kept;
        Ok(())
    }

    fn last_rav(&self) -> (res: Result<Option<SignedRAV>, AdapterError>) {
        Ok(self.rav)
    }

    fn update_last_rav(&mut self, rav: SignedRAV) -> (res: Result<(), AdapterError>) {
        self.rav = Some(rav);
        Ok(())
    }

    fn get_sender_escrow(&self, sender: &Address) -> (res: Result<u128, AdapterError>) {
        match lookup_escrow(&self.escrow, sender) {
            Some(balance) => Ok(balance),
            None => Ok(0),
        }
    }

    fn get_query_appraisal(&self, query_id: u64) -> (res: Result<Option<u128>, AdapterError>) {
        Ok(lookup_appraisal(&self.appraisals, query_id))
    }

    fn is_allocation_registered(&self, allocation_id: &Address) -> (res: Result<
        bool,
        AdapterError,
    >) {
        Ok(contains_address(&self.allocation_ids, allocation_id))
    }

    fn is_sender_authorized(&self, sender: &Address) -> (res: Result<bool, AdapterError>) {
        Ok(contains_address(&self.sender_ids, sender))
    }
}

} // verus!
