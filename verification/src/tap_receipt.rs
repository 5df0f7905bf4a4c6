//! Receipts: single units of payment.

use vstd::prelude::*;
use vstd::string::StringSliceAdditionalSpecFns;
use crate::address::Address;
use crate::eip_712_signed_message::{
    push_word_address, push_word_u128, push_word_u64, word_of_address, word_of_u128,
    word_of_u64, EIP712SignedMessage, Eip712Message,
};
use crate::error::Error;
use crate::timestamp::get_current_timestamp_u64_ns;

verus! {

/// The EIP-712 type string of a receipt.
pub const RECEIPT_TYPE: &'static str =
    "Receipt(address allocation_id,uint64 timestamp_ns,uint128 value)";

/// One unit of payment: `value` is owed for a service rendered to the
/// allocation `allocation_id`, and was promised at `timestamp_ns`
/// nanoseconds since the Unix epoch.
#[derive(Clone, Copy, Debug, PartialEq, Eq)]
pub struct Receipt {
    pub allocation_id: Address,
    pub timestamp_ns: u64,
    pub value: u128,
}

/// A receipt with its payer's signature.
pub type SignedReceipt = EIP712SignedMessage<Receipt>;

impl Receipt {
    /// A receipt for `value`, issued now.
    ///
    /// Fails only when the system clock cannot be read as a timestamp.
    pub fn new(allocation_id: Address, value: u128) -> (res: Result<Receipt, Error>)
        ensures
            match res {
                Ok(r) => r.allocation_id == allocation_id && r.value == value,
                Err(e) => e == Error::InvalidSystemTime,
            },
    {
        match get_current_timestamp_u64_ns() {
            Ok(timestamp_ns) => Ok(Receipt::at(allocation_id, timestamp_ns, value)),
            Err(e) => Err(e),
        }
    }

    /// A receipt for `value`, issued at `timestamp_ns`.
    pub fn at(allocation_id: Address, timestamp_ns: u64, value: u128) -> (r: Receipt)
        ensures
            r == (Receipt { allocation_id, timestamp_ns, value }),
    {
        Receipt { allocation_id, timestamp_ns, value }
    }

    /// Whether two receipts have the same fields.
    pub fn same_as(&self, other: &Receipt) -> (r: bool)
        ensures
            r == (*self == *other),
    {
        self.allocation_id.same_as(&other.allocation_id) && self.timestamp_ns
            == other.timestamp_ns && self.value == other.value
    }
}

impl Eip712Message for Receipt {
    open spec fn type_signature() -> Seq<u8> {
        RECEIPT_TYPE.spec_bytes()
    }

    open spec fn encoded_data(&self) -> Seq<u8> {
        word_of_address(self.allocation_id) + word_of_u64(self.timestamp_ns) + word_of_u128(
            self.value,
        )
    }

    fn eip712_encode_type() -> (t: Vec<u8>) {
        RECEIPT_TYPE.as_bytes_vec()
    }

    fn eip712_encode_data(&self) -> (d: Vec<u8>) {
        let mut d: Vec<u8> = Vec::new();
        push_word_address(&mut d, &self.allocation_id);
        push_word_u64(&mut d, self.timestamp_ns);
        push_word_u128(&mut d, self.value);
        assert(d@ == self.encoded_data());
        d
    }
}

/// A signed receipt as the manager received it, with the identifier of the
/// query that it pays for.
#[derive(Clone, Copy, Debug, PartialEq, Eq)]
pub struct ReceivedReceipt {
    pub signed_receipt: SignedReceipt,
    pub query_id: u64,
}

impl ReceivedReceipt {
    /// The received receipt made of a signed receipt and its query.
    pub fn new(signed_receipt: SignedReceipt, query_id: u64) -> (r: ReceivedReceipt)
        ensures
            r == (ReceivedReceipt { signed_receipt, query_id }),
    {
        ReceivedReceipt { signed_receipt, query_id }
    }

    /// The time at which the receipt was issued.
    pub open spec fn timestamp(&self) -> u64 {
        self.signed_receipt.message.timestamp_ns
    }

    /// The amount that the receipt pays.
    pub open spec fn value(&self) -> u128 {
        self.signed_receipt.message.value
    }
}

/// The sum of the values of `receipts`.
pub open spec fn total_value(receipts: Seq<SignedReceipt>) -> int
    decreases receipts.len(),
{
    if receipts.len() == 0 {
        0
    } else {
        total_value(receipts.drop_last()) + receipts.last().message.value
    }
}

/// The latest timestamp among `receipts`; zero if there is none.
pub open spec fn max_timestamp(receipts: Seq<SignedReceipt>) -> u64
    decreases receipts.len(),
{
    if receipts.len() == 0 {
        0
    } else {
        let before = max_timestamp(receipts.drop_last());
        let last = receipts.last().message.timestamp_ns;
        if last > before {
            last
        } else {
            before
        }
    }
}

/// The value of a prefix is at most the value of the whole.
pub proof fn lemma_total_value_prefix(receipts: Seq<SignedReceipt>, n: int)
    requires
        0 <= n <= receipts.len(),
    ensures
        0 <= total_value(receipts.take(n)) <= total_value(receipts),
    decreases receipts.len(),
{
    if receipts.len() == 0 {
        assert(receipts.take(n) == receipts);
    } else if n == receipts.len() {
        assert(receipts.take(n) == receipts);
        lemma_total_value_prefix(receipts.drop_last(), n - 1);
        assert(receipts.drop_last().take(n - 1) == receipts.drop_last());
    } else {
        lemma_total_value_prefix(receipts.drop_last(), n);
        assert(receipts.drop_last().take(n) == receipts.take(n));
    }
}

/// The value of `n` receipts of `value` each is `n * value`.
pub proof fn lemma_total_value_uniform(receipts: Seq<SignedReceipt>, value: u128)
    requires
        forall|i: int| 0 <= i < receipts.len() ==> receipts[i].message.value == value,
    ensures
        total_value(receipts) == receipts.len() * value,
    decreases receipts.len(),
{
    if receipts.len() > 0 {
        lemma_total_value_uniform(receipts.drop_last(), value);
        assert(receipts.len() * value == (receipts.len() - 1) * value + value)
            by (nonlinear_arith);
    }
}

/// The latest timestamp bounds every timestamp, and is one of them.
pub proof fn lemma_max_timestamp(receipts: Seq<SignedReceipt>)
    ensures
        forall|i: int|
            0 <= i < receipts.len() ==> #[trigger] receipts[i].message.timestamp_ns
                <= max_timestamp(receipts),
        receipts.len() > 0 ==> exists|i: int|
            0 <= i < receipts.len() && #[trigger] receipts[i].message.timestamp_ns
                == max_timestamp(receipts),
    decreases receipts.len(),
{
    if receipts.len() > 0 {
        let rest = receipts.drop_last();
        lemma_max_timestamp(rest);
        assert forall|i: int| 0 <= i < receipts.len() implies #[trigger] receipts[i].message.timestamp_ns
            <= max_timestamp(receipts) by {
            if i < rest.len() {
                assert(receipts[i] == rest[i]);
            }
        }
        if receipts.last().message.timestamp_ns > max_timestamp(rest) || rest.len() == 0 {
            assert(receipts[receipts.len() - 1].message.timestamp_ns == max_timestamp(receipts));
        } else {
            let i = choose|i: int|
                0 <= i < rest.len() && #[trigger] rest[i].message.timestamp_ns == max_timestamp(
                    rest,
                );
            assert(receipts[i] == rest[i]);
        }
    }
}

} // verus!
