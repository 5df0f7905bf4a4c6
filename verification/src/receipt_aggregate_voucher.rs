//! Receipt aggregate vouchers: the cumulative value of many receipts.

use vstd::prelude::*;
use vstd::string::StringSliceAdditionalSpecFns;
use crate::address::Address;
use crate::eip_712_signed_message::{
    push_word_address, push_word_u128, push_word_u64, word_of_address, word_of_u128,
    word_of_u64, EIP712SignedMessage, Eip712Message,
};
use crate::error::Error;
use crate::tap_receipt::{
    lemma_total_value_prefix, max_timestamp, total_value, SignedReceipt,
};

verus! {

/// The EIP-712 type string of a voucher.
pub const RAV_TYPE: &'static str =
    "ReceiptAggregateVoucher(address allocation_id,uint64 timestamp_ns,uint128 valueAggregate)";

/// A receipt aggregate voucher: `valueAggregate` is the sum of the values of
/// all receipts of the allocation issued up to `timestamp_ns` that were ever
/// folded into this voucher or into one that it was built on.
#[allow(non_snake_case)]
#[derive(Clone, Copy, Debug, PartialEq, Eq)]
pub struct ReceiptAggregateVoucher {
    pub allocation_id: Address,
    pub timestamp_ns: u64,
    pub valueAggregate: u128,
}

/// A voucher with a countersignature.
pub type SignedRAV = EIP712SignedMessage<ReceiptAggregateVoucher>;

impl Eip712Message for ReceiptAggregateVoucher {
    open spec fn type_signature() -> Seq<u8> {
        RAV_TYPE.spec_bytes()
    }

    open spec fn encoded_data(&self) -> Seq<u8> {
        word_of_address(self.allocation_id) + word_of_u64(self.timestamp_ns) + word_of_u128(
            self.valueAggregate,
        )
    }

    fn eip712_encode_type() -> (t: Vec<u8>) {
        RAV_TYPE.as_bytes_vec()
    }

    fn eip712_encode_data(&self) -> (d: Vec<u8>) {
        let mut d: Vec<u8> = Vec::new();
        push_word_address(&mut d, &self.allocation_id);
        push_word_u64(&mut d, self.timestamp_ns);
        push_word_u128(&mut d, self.valueAggregate);
        assert(d@ == self.encoded_data());
        d
    }
}

/// Whether every receipt of `receipts` is for the allocation `allocation_id`.
pub open spec fn all_for_allocation(receipts: Seq<SignedReceipt>, allocation_id: Address) -> bool {
    forall|i: int|
        0 <= i < receipts.len() ==> (#[trigger] receipts[i]).message.allocation_id == allocation_id
}

/// The aggregate that a voucher starts from: that of the previous voucher, or
/// zero.
pub open spec fn base_aggregate(previous: Option<SignedRAV>) -> int {
    match previous {
        Some(p) => p.message.valueAggregate as int,
        None => 0,
    }
}

/// The voucher that folds `receipts` onto `previous`.
///
/// With no receipt, it is the previous voucher again; without that either,
/// there is nothing to build. With receipts, all of them and the previous
/// voucher must be for one allocation, and the new aggregate, which is the
/// previous one plus the receipts' values, must fit in 128 bits. The new
/// timestamp is the latest among the receipts.
pub open spec fn aggregate(receipts: Seq<SignedReceipt>, previous: Option<SignedRAV>) -> Result<
    ReceiptAggregateVoucher,
    Error,
> {
    if receipts.len() == 0 {
        match previous {
            Some(p) => Ok(p.message),
            None => Err(Error::NoValidReceiptsToAggregate),
        }
    } else {
        let allocation_id = receipts[0].message.allocation_id;
        if !all_for_allocation(receipts, allocation_id) || (previous matches Some(p)
            && p.message.allocation_id != allocation_id) {
            Err(Error::AllocationIdMismatch)
        } else if base_aggregate(previous) + total_value(receipts) > u128::MAX {
            Err(Error::AggregateOverflow)
        } else {
            Ok(
                ReceiptAggregateVoucher {
                    allocation_id,
                    timestamp_ns: max_timestamp(receipts),
                    valueAggregate: (base_aggregate(previous) + total_value(receipts)) as u128,
                },
            )
        }
    }
}

impl ReceiptAggregateVoucher {
    /// Whether two vouchers have the same fields.
    pub fn same_as(&self, other: &ReceiptAggregateVoucher) -> (r: bool)
        ensures
            r == (*self == *other),
    {
        self.allocation_id.same_as(&other.allocation_id) && self.timestamp_ns
            == other.timestamp_ns && self.valueAggregate == other.valueAggregate
    }

    /// Folds `receipts` onto `previous_rav`.
    pub fn aggregate_receipts(receipts: &[SignedReceipt], previous_rav: Option<SignedRAV>) -> (res:
        Result<ReceiptAggregateVoucher, Error>)
        ensures
            res == aggregate(receipts@, previous_rav),
    {
        if receipts.len() == 0 {
            return match previous_rav {
                Some(p) => Ok(p.message),
                None => Err(Error::NoValidReceiptsToAggregate),
            };
        }
        let allocation_id = receipts[0].message.allocation_id;
        if let Some(p) = previous_rav {
            if !p.message.allocation_id.same_as(&allocation_id) {
                return Err(Error::AllocationIdMismatch);
            }
        }
        let mut i: usize = 0;
        while i < receipts.len()
            invariant
                0 <= i <= receipts@.len(),
                allocation_id == receipts@[0].message.allocation_id,
                forall|j: int|
                    0 <= j < i ==> (#[trigger] receipts@[j]).message.allocation_id == allocation_id,
            decreases receipts@.len() - i,
        {
            if !receipts[i].message.allocation_id.same_as(&allocation_id) {
                assert(receipts@[i as int].message.allocation_id != allocation_id);
                return Err(Error::AllocationIdMismatch);
            }
            i += 1;
        }
        assert(all_for_allocation(receipts@, allocation_id));
        let mut sum: u128 = match previous_rav {
            Some(p) => p.message.valueAggregate,
            None => 0,
        };
        let mut latest: u64 = 0;
        let mut k: usize = 0;
        while k < receipts.len()
            invariant
                0 <= k <= receipts@.len(),
                receipts@.len() > 0,
                allocation_id == receipts@[0].message.allocation_id,
                all_for_allocation(receipts@, allocation_id),
                previous_rav matches Some(p) ==> p.message.allocation_id == allocation_id,
                sum == base_aggregate(previous_rav) + total_value(receipts@.take(k as int)),
                latest == max_timestamp(receipts@.take(k as int)),
            decreases receipts@.len() - k,
        {
            proof {
                assert(receipts@.take(k + 1).drop_last() == receipts@.take(k as int));
                assert(receipts@.take(k + 1).last() == receipts@[k as int]);
                lemma_total_value_prefix(receipts@, k + 1);
            }
            match sum.checked_add(receipts[k].message.value) {
                Some(next) => {
                    sum = next;
                },
                None => {
                    return Err(Error::AggregateOverflow);
                },
            }
            if receipts[k].message.timestamp_ns > latest {
                latest = receipts[k].message.timestamp_ns;
            }
            k += 1;
        }
        assert(receipts@.take(k as int) == receipts@);
        Ok(ReceiptAggregateVoucher { allocation_id, timestamp_ns: latest, valueAggregate: sum })
    }
}

} // verus!
