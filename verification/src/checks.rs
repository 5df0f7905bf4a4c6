//! The checks that decide whether a receipt is valid.
//!
//! A check looks at one receipt and at what the stores and registries hold.
//! `check_outcome` says what each check decides; the functions of this module
//! compute it by asking the stores.

use vstd::prelude::*;
use crate::adapters::executor::{
    receipts_in_range, Executor, StoreState, TimestampRange,
};
use crate::address::Address;
use crate::eip_712_signed_message::Eip712Domain;
pub use crate::error::{CheckFailure, ReceiptCheck};
use crate::error::Error;
use crate::tap_receipt::{ReceivedReceipt, SignedReceipt};

verus! {

/// What a check may consult: the signing domain, the earliest timestamp that
/// is accepted, and what the stores and registries hold.
pub struct CheckContext {
    pub domain: Eip712Domain,
    pub min_timestamp: u64,
    pub store: StoreState,
}

/// Whether two receipts are one and the same payment: same allocation, same
/// timestamp, same signer.
pub open spec fn same_payment(domain: Eip712Domain, a: SignedReceipt, b: SignedReceipt) -> bool {
    &&& a.message.allocation_id == b.message.allocation_id
    &&& a.message.timestamp_ns == b.message.timestamp_ns
    &&& a.signer(domain) == b.signer(domain)
}

/// How many of `receipts` are the same payment as `receipt`.
pub open spec fn count_same_payment(
    domain: Eip712Domain,
    receipts: Seq<ReceivedReceipt>,
    receipt: SignedReceipt,
) -> nat
    decreases receipts.len(),
{
    if receipts.len() == 0 {
        0
    } else {
        let before = count_same_payment(domain, receipts.drop_last(), receipt);
        if same_payment(domain, receipts.last().signed_receipt, receipt) {
            before + 1
        } else {
            before
        }
    }
}

/// The sum of the values of `receipts`.
pub open spec fn stored_value(receipts: Seq<ReceivedReceipt>) -> int
    decreases receipts.len(),
{
    if receipts.len() == 0 {
        0
    } else {
        stored_value(receipts.drop_last()) + receipts.last().value()
    }
}

/// The value of the stored receipts that the current voucher does not cover.
pub open spec fn outstanding_value(store: StoreState) -> int {
    stored_value(receipts_in_range(store.receipts, store.uncovered(), None))
}

/// What `check` decides of `receipt`: `None` where it accepts, else the
/// reason. `stored` says whether the receipt is itself among the stored ones,
/// as it is when stored receipts are audited, or not yet, as on arrival.
pub open spec fn check_outcome(
    check: ReceiptCheck,
    ctx: CheckContext,
    receipt: ReceivedReceipt,
    stored: bool,
) -> Option<CheckFailure> {
    let signed = receipt.signed_receipt;
    match check {
        ReceiptCheck::Unique => {
            let others = count_same_payment(ctx.domain, ctx.store.receipts, signed);
            if others <= (if stored {
                1nat
            } else {
                0nat
            }) {
                None
            } else {
                Some(CheckFailure::DuplicateReceipt)
            }
        },
        ReceiptCheck::Value => match ctx.store.appraisal_of(receipt.query_id) {
            None => Some(CheckFailure::AppraisalPending),
            Some(appraised) => if appraised == signed.message.value {
                None
            } else {
                Some(CheckFailure::ValueMismatch)
            },
        },
        ReceiptCheck::AllocationId => if ctx.store.allocations.contains(
            signed.message.allocation_id,
        ) {
            None
        } else {
            Some(CheckFailure::UnknownAllocation)
        },
        ReceiptCheck::Signature => match signed.signer(ctx.domain) {
            None => Some(CheckFailure::InvalidSignature),
            Some(signer) => if ctx.store.senders.contains(signer) {
                None
            } else {
                Some(CheckFailure::UnauthorizedSigner)
            },
        },
        ReceiptCheck::Timestamp => if signed.message.timestamp_ns >= ctx.min_timestamp {
            None
        } else {
            Some(CheckFailure::TimestampTooOld)
        },
        ReceiptCheck::Escrow => match signed.signer(ctx.domain) {
            None => Some(CheckFailure::InvalidSignature),
            Some(signer) => {
                let owed = outstanding_value(ctx.store) + (if stored {
                    0int
                } else {
                    signed.message.value as int
                });
                if owed <= ctx.store.balance_of(signer) {
                    None
                } else {
                    Some(CheckFailure::InsufficientEscrow)
                }
            },
        },
    }
}

/// The first of `checks`, in their order, that does not accept `receipt`,
/// with its reason; `None` where all accept.
pub open spec fn first_failure(
    checks: Seq<ReceiptCheck>,
    ctx: CheckContext,
    receipt: ReceivedReceipt,
    stored: bool,
) -> Option<(ReceiptCheck, CheckFailure)>
    decreases checks.len(),
{
    if checks.len() == 0 {
        None
    } else {
        match check_outcome(checks[0], ctx, receipt, stored) {
            Some(reason) => Some((checks[0], reason)),
            None => first_failure(checks.drop_first(), ctx, receipt, stored),
        }
    }
}

/// A retrieval over all timestamps and all queries selects every receipt.
pub proof fn lemma_unbounded_range_selects_all(receipts: Seq<ReceivedReceipt>)
    ensures
        receipts_in_range(receipts, TimestampRange { after: None, until: None }, None)
            == receipts,
    decreases receipts.len(),
{
    if receipts.len() > 0 {
        lemma_unbounded_range_selects_all(receipts.drop_last());
        assert(receipts.drop_last().push(receipts.last()) == receipts);
    }
}

/// The value of a prefix is at most the value of the whole.
pub proof fn lemma_stored_value_prefix(receipts: Seq<ReceivedReceipt>, n: int)
    requires
        0 <= n <= receipts.len(),
    ensures
        0 <= stored_value(receipts.take(n)) <= stored_value(receipts),
    decreases receipts.len(),
{
    if receipts.len() == 0 {
        assert(receipts.take(n) == receipts);
    } else if n == receipts.len() {
        assert(receipts.take(n) == receipts);
        lemma_stored_value_prefix(receipts.drop_last(), n - 1);
        assert(receipts.drop_last().take(n - 1) == receipts.drop_last());
    } else {
        lemma_stored_value_prefix(receipts.drop_last(), n);
        assert(receipts.drop_last().take(n) == receipts.take(n));
    }
}

/// All the built-in checks, in the order in which a manager usually runs
/// them.
pub fn get_full_list_of_checks() -> (checks: Vec<ReceiptCheck>)
    ensures
        checks@ == seq![
            ReceiptCheck::Unique,
            ReceiptCheck::Value,
            ReceiptCheck::AllocationId,
            ReceiptCheck::Signature,
            ReceiptCheck::Timestamp,
            ReceiptCheck::Escrow,
        ],
{
    let mut checks: Vec<ReceiptCheck> = Vec::new();
    checks.push(ReceiptCheck::Unique);
    checks.push(ReceiptCheck::Value);
    checks.push(ReceiptCheck::AllocationId);
    checks.push(ReceiptCheck::Signature);
    checks.push(ReceiptCheck::Timestamp);
    checks.push(ReceiptCheck::Escrow);
    assert(checks@ =~= seq![
        ReceiptCheck::Unique,
        ReceiptCheck::Value,
        ReceiptCheck::AllocationId,
        ReceiptCheck::Signature,
        ReceiptCheck::Timestamp,
        ReceiptCheck::Escrow,
    ]);
    checks
}

/// The signer of `signed` under `domain`, if it has one.
pub fn signer_of(signed: &SignedReceipt, domain: &Eip712Domain) -> (signer: Option<Address>)
    ensures
        signer == signed.signer(*domain),
{
    match signed.recover_signer(domain) {
        Ok(a) => Some(a),
        Err(_) => None,
    }
}

/// Whether two optional addresses are the same.
fn same_signer(a: &Option<Address>, b: &Option<Address>) -> (r: bool)
    ensures
        r == (*a == *b),
{
    match (a, b) {
        (Some(x), Some(y)) => x.same_as(y),
        (None, None) => true,
        _ => false,
    }
}

/// Whether no other stored receipt is the same payment as `receipt`.
pub fn check_unique<E: Executor>(
    executor: &E,
    domain: &Eip712Domain,
    receipt: &ReceivedReceipt,
    stored: bool,
) -> (res: Result<Option<CheckFailure>, Error>)
    ensures
        executor.state().reliable ==> res is Ok,
        res matches Err(e) ==> e == Error::StoreReadFailure,
        res matches Ok(outcome) ==> outcome == check_outcome(
            ReceiptCheck::Unique,
            CheckContext { domain: *domain, min_timestamp: 0, store: executor.state() },
            *receipt,
            stored,
        ),
{
    let all = match executor.retrieve_receipts_in_timestamp_range(TimestampRange::all(), None) {
        Ok(all) => all,
        Err(_) => {
            return Err(Error::StoreReadFailure);
        },
    };
    proof {
        lemma_unbounded_range_selects_all(executor.state().receipts);
    }
    let signed = &receipt.signed_receipt;
    let signer = signer_of(signed, domain);
    let mut count: usize = 0;
    let mut i: usize = 0;
    while i < all.len()
        invariant
            0 <= i <= all@.len(),
            count <= i,
            signer == signed.signer(*domain),
            count == count_same_payment(*domain, all@.take(i as int), *signed),
        decreases all@.len() - i,
    {
        proof {
            assert(all@.take(i + 1).drop_last() == all@.take(i as int));
            assert(all@.take(i + 1).last() == all@[i as int]);
        }
        let other = &all[i].signed_receipt;
        if other.message.allocation_id.same_as(&signed.message.allocation_id)
            && other.message.timestamp_ns == signed.message.timestamp_ns {
            let other_signer = signer_of(other, domain);
            if same_signer(&other_signer, &signer) {
                count += 1;
            }
        }
        i += 1;
    }
    assert(all@.take(i as int) == all@);
    let allowed: usize = if stored {
        1
    } else {
        0
    };
    if count <= allowed {
        Ok(None)
    } else {
        Ok(Some(CheckFailure::DuplicateReceipt))
    }
}

/// Whether the value of `receipt` is the appraisal of its query.
pub fn check_value<E: Executor>(executor: &E, receipt: &ReceivedReceipt) -> (res: Result<
    Option<CheckFailure>,
    Error,
>)
    ensures
        executor.state().reliable ==> res is Ok,
        res matches Err(e) ==> e == Error::StoreReadFailure,
        res matches Ok(outcome) ==> forall|domain: Eip712Domain, min_timestamp: u64, stored: bool|
            outcome == #[trigger] check_outcome(
                ReceiptCheck::Value,
                CheckContext { domain, min_timestamp, store: executor.state() },
                *receipt,
                stored,
            ),
{
    match executor.get_query_appraisal(receipt.query_id) {
        Err(_) => Err(Error::StoreReadFailure),
        Ok(None) => Ok(Some(CheckFailure::AppraisalPending)),
        Ok(Some(appraised)) => if appraised == receipt.signed_receipt.message.value {
            Ok(None)
        } else {
            Ok(Some(CheckFailure::ValueMismatch))
        },
    }
}

/// Whether the allocation of `receipt` is registered.
pub fn check_allocation_id<E: Executor>(executor: &E, receipt: &ReceivedReceipt) -> (res: Result<
    Option<CheckFailure>,
    Error,
>)
    ensures
        executor.state().reliable ==> res is Ok,
        res matches Err(e) ==> e == Error::StoreReadFailure,
        res matches Ok(outcome) ==> forall|domain: Eip712Domain, min_timestamp: u64, stored: bool|
            outcome == #[trigger] check_outcome(
                ReceiptCheck::AllocationId,
                CheckContext { domain, min_timestamp, store: executor.state() },
                *receipt,
                stored,
            ),
{
    match executor.is_allocation_registered(&receipt.signed_receipt.message.allocation_id) {
        Err(_) => Err(Error::StoreReadFailure),
        Ok(true) => Ok(None),
        Ok(false) => Ok(Some(CheckFailure::UnknownAllocation)),
    }
}

/// Whether `receipt` has a signer, and that signer is an authorized payer.
pub fn check_signature<E: Executor>(
    executor: &E,
    domain: &Eip712Domain,
    receipt: &ReceivedReceipt,
) -> (res: Result<Option<CheckFailure>, Error>)
    ensures
        executor.state().reliable ==> res is Ok,
        res matches Err(e) ==> e == Error::StoreReadFailure,
        res matches Ok(outcome) ==> forall|min_timestamp: u64, stored: bool|
            outcome == #[trigger] check_outcome(
                ReceiptCheck::Signature,
                CheckContext { domain: *domain, min_timestamp, store: executor.state() },
                *receipt,
                stored,
            ),
{
    match signer_of(&receipt.signed_receipt, domain) {
        None => Ok(Some(CheckFailure::InvalidSignature)),
        Some(signer) => match executor.is_sender_authorized(&signer) {
            Err(_) => Err(Error::StoreReadFailure),
            Ok(true) => Ok(None),
            Ok(false) => Ok(Some(CheckFailure::UnauthorizedSigner)),
        },
    }
}

/// Whether `receipt` was issued at `min_timestamp` or later.
pub fn check_timestamp(min_timestamp: u64, receipt: &ReceivedReceipt) -> (outcome: Option<
    CheckFailure,
>)
    ensures
        forall|domain: Eip712Domain, store: StoreState, stored: bool|
            outcome == #[trigger] check_outcome(
                ReceiptCheck::Timestamp,
                CheckContext { domain, min_timestamp, store },
                *receipt,
                stored,
            ),
{
    if receipt.signed_receipt.message.timestamp_ns >= min_timestamp {
        None
    } else {
        Some(CheckFailure::TimestampTooOld)
    }
}

/// Whether the escrow of the signer of `receipt` holds the value that no
/// voucher covers yet, `receipt` included.
pub fn check_escrow<E: Executor>(
    executor: &E,
    domain: &Eip712Domain,
    receipt: &ReceivedReceipt,
    stored: bool,
) -> (res: Result<Option<CheckFailure>, Error>)
    ensures
        executor.state().reliable ==> res is Ok,
        res matches Err(e) ==> e == Error::StoreReadFailure,
        res matches Ok(outcome) ==> forall|min_timestamp: u64|
            outcome == #[trigger] check_outcome(
                ReceiptCheck::Escrow,
                CheckContext { domain: *domain, min_timestamp, store: executor.state() },
                *receipt,
                stored,
            ),
{
    let signer = match signer_of(&receipt.signed_receipt, domain) {
        None => {
            return Ok(Some(CheckFailure::InvalidSignature));
        },
        Some(signer) => signer,
    };
    let rav = match executor.last_rav() {
        Ok(rav) => rav,
        Err(_) => {
            return Err(Error::StoreReadFailure);
        },
    };
    let range = match rav {
        Some(rav) => TimestampRange::new(Some(rav.message.timestamp_ns), None),
        None => TimestampRange::all(),
    };
    let pending = match executor.retrieve_receipts_in_timestamp_range(range, None) {
        Ok(pending) => pending,
        Err(_) => {
            return Err(Error::StoreReadFailure);
        },
    };
    let balance = match executor.get_sender_escrow(&signer) {
        Ok(balance) => balance,
        Err(_) => {
            return Err(Error::StoreReadFailure);
        },
    };
    let own: u128 = if stored {
        0
    } else {
        receipt.signed_receipt.message.value
    };
    assert(pending@ == receipts_in_range(
        executor.state().receipts,
        executor.state().uncovered(),
        None,
    ));
    let mut owed: u128 = own;
    let mut i: usize = 0;
    while i < pending.len()
        invariant
            0 <= i <= pending@.len(),
            receipt.signed_receipt.signer(*domain) == Some(signer),
            balance == executor.state().balance_of(signer),
            own == (if stored {
                0
            } else {
                receipt.signed_receipt.message.value
            }),
            pending@ == receipts_in_range(
                executor.state().receipts,
                executor.state().uncovered(),
                None,
            ),
            owed == own + stored_value(pending@.take(i as int)),
        decreases pending@.len() - i,
    {
        proof {
            assert(pending@.take(i + 1).drop_last() == pending@.take(i as int));
            assert(pending@.take(i + 1).last() == pending@[i as int]);
            lemma_stored_value_prefix(pending@, i + 1);
        }
        match owed.checked_add(pending[i].signed_receipt.message.value) {
            Some(next) => {
                owed = next;
            },
            None => {
                return Ok(Some(CheckFailure::InsufficientEscrow));
            },
        }
        i += 1;
    }
    assert(pending@.take(i as int) == pending@);
    if owed <= balance {
        Ok(None)
    } else {
        Ok(Some(CheckFailure::InsufficientEscrow))
    }
}

/// Runs `check` on `receipt`.
pub fn run_check<E: Executor>(
    check: ReceiptCheck,
    executor: &E,
    domain: &Eip712Domain,
    min_timestamp: u64,
    receipt: &ReceivedReceipt,
    stored: bool,
) -> (res: Result<Option<CheckFailure>, Error>)
    ensures
        executor.state().reliable ==> res is Ok,
        res matches Err(e) ==> e == Error::StoreReadFailure,
        res matches Ok(outcome) ==> outcome == check_outcome(
            check,
            CheckContext { domain: *domain, min_timestamp, store: executor.state() },
            *receipt,
            stored,
        ),
{
    match check {
        ReceiptCheck::Unique => check_unique(executor, domain, receipt, stored),
        ReceiptCheck::Value => check_value(executor, receipt),
        ReceiptCheck::AllocationId => check_allocation_id(executor, receipt),
        ReceiptCheck::Signature => check_signature(executor, domain, receipt),
        ReceiptCheck::Timestamp => Ok(check_timestamp(min_timestamp, receipt)),
        ReceiptCheck::Escrow => check_escrow(executor, domain, receipt, stored),
    }
}

/// Runs `checks` on `receipt` in their order, up to the first that does not
/// accept it.
pub fn run_checks<E: Executor>(
    checks: &Vec<ReceiptCheck>,
    executor: &E,
    domain: &Eip712Domain,
    min_timestamp: u64,
    receipt: &ReceivedReceipt,
    stored: bool,
) -> (res: Result<Option<(ReceiptCheck, CheckFailure)>, Error>)
    ensures
        executor.state().reliable ==> res is Ok,
        res matches Err(e) ==> e == Error::StoreReadFailure,
        res matches Ok(failure) ==> failure == first_failure(
            checks@,
            CheckContext { domain: *domain, min_timestamp, store: executor.state() },
            *receipt,
            stored,
        ),
{
    let ghost ctx = CheckContext { domain: *domain, min_timestamp, store: executor.state() };
    assert(checks@.skip(0) == checks@);
    let mut i: usize = 0;
    while i < checks.len()
        invariant
            0 <= i <= checks@.len(),
            ctx == (CheckContext { domain: *domain, min_timestamp, store: executor.state() }),
            first_failure(checks@, ctx, *receipt, stored) == first_failure(
                checks@.skip(i as int),
                ctx,
                *receipt,
                stored,
            ),
        decreases checks@.len() - i,
    {
        proof {
            assert(checks@.skip(i as int).drop_first() == checks@.skip(i + 1));
            assert(checks@.skip(i as int)[0] == checks@[i as int]);
        }
        match run_check(checks[i], executor, domain, min_timestamp, receipt, stored) {
            Err(e) => {
                return Err(e);
            },
            Ok(Some(reason)) => {
                return Ok(Some((checks[i], reason)));
            },
            Ok(None) => {},
        }
        i += 1;
    }
    Ok(None)
}

} // verus!
