//! The manager: ingestion, aggregation, commitment and pruning.

use vstd::prelude::*;
use crate::adapters::executor::{Executor, StoreState, TimestampRange};
use crate::address::Address;
use crate::checks::{first_failure, run_checks, CheckContext};
use crate::eip_712_signed_message::Eip712Domain;
use crate::error::{Error, ReceiptCheck};
use crate::receipt_aggregate_voucher::{ReceiptAggregateVoucher, SignedRAV};
use crate::tap_manager::rav_request::{
    invalid_receipts, is_rav_request_of, receipts_to_aggregate, valid_receipts, RAVRequest,
};
use crate::tap_receipt::{ReceivedReceipt, SignedReceipt};
use crate::timestamp::get_current_timestamp_u64_ns;

verus! {

/// The checks of `checks` at the positions `subset`, in the order of
/// `subset`.
pub open spec fn selected_checks(checks: Seq<ReceiptCheck>, subset: Seq<usize>) -> Seq<
    ReceiptCheck,
> {
    Seq::new(subset.len(), |i: int| checks[subset[i] as int])
}

/// The first position of `subset` that is not below `len`, if there is one.
pub open spec fn first_invalid_index(subset: Seq<usize>, len: nat) -> Option<usize>
    decreases subset.len(),
{
    if subset.len() == 0 {
        None
    } else if subset[0] >= len {
        Some(subset[0])
    } else {
        first_invalid_index(subset.drop_first(), len)
    }
}

/// What the checks at the positions `subset` say of a receipt that arrives:
/// an error for the first position outside the list; else an error for the
/// first check that does not accept the receipt; else that it is accepted.
pub open spec fn ingestion_verdict(
    checks: Seq<ReceiptCheck>,
    subset: Seq<usize>,
    ctx: CheckContext,
    receipt: ReceivedReceipt,
) -> Result<(), Error> {
    match first_invalid_index(subset, checks.len()) {
        Some(index) => Err(Error::InvalidCheckIndex { index }),
        None => match first_failure(selected_checks(checks, subset), ctx, receipt, false) {
            Some((check, reason)) => Err(Error::CheckFailed { check, reason }),
            None => Ok(()),
        },
    }
}

/// Who signed the voucher `signed_rav`, provided it is a signed form of
/// `expected_rav`: an error where no signer can be recovered, and else where
/// the signed voucher is another one.
pub open spec fn rav_signer_verdict(
    domain: Eip712Domain,
    expected_rav: ReceiptAggregateVoucher,
    signed_rav: SignedRAV,
) -> Result<Address, Error> {
    match signed_rav.signer(domain) {
        None => Err(Error::InvalidSignature),
        Some(signer) => if signed_rav.message != expected_rav {
            Err(Error::RavSignedPayloadMismatch)
        } else {
            Ok(signer)
        },
    }
}

/// The state after the receipts that the current voucher covers were
/// deleted. Without a voucher nothing is covered.
pub open spec fn pruned(store: StoreState) -> StoreState {
    match store.covered() {
        Some(range) => store.without_range(range),
        None => store,
    }
}

/// The manager of one channel between a payer and a payee.
///
/// It owns the channel's stores, and is made with the signing domain, the
/// ordered list of checks and the earliest timestamp that it accepts; these
/// three never change.
pub struct Manager<E> {
    executor: E,
    domain_separator: Eip712Domain,
    checks: Vec<ReceiptCheck>,
    starting_min_timestamp: u64,
}

impl<E: Executor> Manager<E> {
    /// The signing domain of the channel.
    pub closed spec fn signing_domain(&self) -> Eip712Domain {
        self.domain_separator
    }

    /// The list of checks, in the order in which they are run.
    pub closed spec fn master_checks(&self) -> Seq<ReceiptCheck> {
        self.checks@
    }

    /// The earliest timestamp that the timestamp check accepts.
    pub closed spec fn min_timestamp(&self) -> u64 {
        self.starting_min_timestamp
    }

    /// What the stores and registries of the channel hold.
    pub closed spec fn store(&self) -> StoreState {
        self.executor.state()
    }

    /// What the checks of this manager consult.
    pub open spec fn context(&self) -> CheckContext {
        CheckContext {
            domain: self.signing_domain(),
            min_timestamp: self.min_timestamp(),
            store: self.store(),
        }
    }

    /// Whether two managers have the same domain, checks and earliest
    /// timestamp.
    pub open spec fn same_setup(&self, other: &Self) -> bool {
        &&& self.signing_domain() == other.signing_domain()
        &&& self.master_checks() == other.master_checks()
        &&& self.min_timestamp() == other.min_timestamp()
    }

    /// A manager over the stores `executor`.
    pub fn new(
        domain_separator: Eip712Domain,
        executor: E,
        checks: Vec<ReceiptCheck>,
        starting_min_timestamp: u64,
    ) -> (manager: Self)
        ensures
            manager.store() == executor.state(),
            manager.signing_domain() == domain_separator,
            manager.master_checks() == checks@,
            manager.min_timestamp() == starting_min_timestamp,
    {
        Manager { executor, domain_separator, checks, starting_min_timestamp }
    }

    /// The stores of the channel.
    pub fn executor(&self) -> (executor: &E)
        ensures
            executor.state() == self.store(),
    {
        &self.executor
    }

    /// The stores of the channel, to change what they hold.
    pub fn executor_mut(&mut self) -> (executor: &mut E)
        ensures
            executor.state() == old(self).store(),
            final(self).store() == final(executor).state(),
            final(self).same_setup(old(self)),
    {
        &mut self.executor
    }

    /// The list of checks.
    pub fn checks(&self) -> (checks: &Vec<ReceiptCheck>)
        ensures
            checks@ == self.master_checks(),
    {
        &self.checks
    }

    /// The signing domain.
    pub fn domain_separator(&self) -> (domain: &Eip712Domain)
        ensures
            *domain == self.signing_domain(),
    {
        &self.domain_separator
    }

    /// The earliest timestamp that the timestamp check accepts.
    pub fn starting_min_timestamp(&self) -> (t: u64)
        ensures
            t == self.min_timestamp(),
    {
        self.starting_min_timestamp
    }

    /// The checks at the positions `checks_subset`, or the first position
    /// that is outside the list.
    fn select_checks(&self, checks_subset: &[usize]) -> (res: Result<Vec<ReceiptCheck>, usize>)
        ensures
            match first_invalid_index(checks_subset@, self.master_checks().len()) {
                Some(index) => res == Err::<Vec<ReceiptCheck>, usize>(index),
                None => res matches Ok(selected) && selected@ == selected_checks(
                    self.master_checks(),
                    checks_subset@,
                ),
            },
    {
        let mut selected: Vec<ReceiptCheck> = Vec::new();
        let mut i: usize = 0;
        assert(checks_subset@.skip(0) == checks_subset@);
        while i < checks_subset.len()
            invariant
                0 <= i <= checks_subset@.len(),
                first_invalid_index(checks_subset@, self.checks@.len()) == first_invalid_index(
                    checks_subset@.skip(i as int),
                    self.checks@.len(),
                ),
                selected@ == selected_checks(self.checks@, checks_subset@.take(i as int)),
            decreases checks_subset@.len() - i,
        {
            proof {
                assert(checks_subset@.skip(i as int).drop_first() == checks_subset@.skip(i + 1));
                assert(checks_subset@.skip(i as int)[0] == checks_subset@[i as int]);
            }
            let index = checks_subset[i];
            if index >= self.checks.len() {
                return Err(index);
            }
            selected.push(self.checks[index]);
            i += 1;
            assert(selected@ == selected_checks(self.checks@, checks_subset@.take(i as int)));
        }
        assert(checks_subset@.take(i as int) == checks_subset@);
        Ok(selected)
    }

    /// Runs the checks at the positions `checks_subset`, in that order, on a
    /// receipt that has arrived, and stores the receipt if all accept it.
    ///
    /// With no position, every receipt is stored. The receipt is stored
    /// exactly when `Ok` is returned; on an error nothing has changed.
    pub fn verify_and_store_receipt(
        &mut self,
        signed_receipt: SignedReceipt,
        query_id: u64,
        checks_subset: &[usize],
    ) -> (res: Result<(), Error>)
        ensures
            final(self).same_setup(old(self)),
            ({
                let receipt = ReceivedReceipt { signed_receipt, query_id };
                let verdict = ingestion_verdict(
                    old(self).master_checks(),
                    checks_subset@,
                    old(self).context(),
                    receipt,
                );
                &&& old(self).store().reliable ==> res == verdict
                &&& verdict matches Err(Error::InvalidCheckIndex { index }) ==> res == verdict
                &&& res is Ok ==> verdict is Ok && final(self).store() == old(
                    self,
                ).store().with_receipt(receipt)
                &&& res matches Err(e) ==> {
                    &&& final(self).store() == old(self).store()
                    &&& verdict == Err::<(), Error>(e) || e == Error::StoreReadFailure || (e
                        == Error::StoreWriteFailure && verdict is Ok)
                }
            }),
    {
        let selected = match self.select_checks(checks_subset) {
            Ok(selected) => selected,
            Err(index) => {
                return Err(Error::InvalidCheckIndex { index });
            },
        };
        let receipt = ReceivedReceipt::new(signed_receipt, query_id);
        match run_checks(
            &selected,
            &self.executor,
            &self.domain_separator,
            self.starting_min_timestamp,
            &receipt,
            false,
        ) {
            Err(e) => Err(e),
            Ok(Some((check, reason))) => Err(Error::CheckFailed { check, reason }),
            Ok(None) => match self.executor.store_receipt(receipt) {
                Ok(()) => Ok(()),
                Err(_) => Err(Error::StoreWriteFailure),
            },
        }
    }

    /// Builds a request from the stored receipts that the current voucher
    /// does not cover and that were issued up to `timestamp_buffer_ns` before
    /// the time `now`. Every one of them is run through the whole list of
    /// checks. Nothing is stored or deleted.
    pub fn create_rav_request_at(
        &self,
        now: u64,
        timestamp_buffer_ns: u64,
        previous_rav_override: Option<SignedRAV>,
    ) -> (res: Result<RAVRequest, Error>)
        ensures
            is_rav_request_of(
                self.master_checks(),
                self.context(),
                now,
                timestamp_buffer_ns,
                previous_rav_override,
                res,
            ),
    {
        let stored_rav = match self.executor.last_rav() {
            Ok(rav) => rav,
            Err(_) => {
                return Err(Error::StoreReadFailure);
            },
        };
        let previous = match previous_rav_override {
            Some(rav) => Some(rav),
            None => stored_rav,
        };
        let fetched = if timestamp_buffer_ns > now {
            Vec::new()
        } else {
            let after = match stored_rav {
                Some(rav) => Some(rav.message.timestamp_ns),
                None => None,
            };
            let range = TimestampRange::new(after, Some(now - timestamp_buffer_ns));
            match self.executor.retrieve_receipts_in_timestamp_range(range, None) {
                Ok(fetched) => fetched,
                Err(_) => {
                    return Err(Error::StoreReadFailure);
                },
            }
        };
        let ghost ctx = self.context();
        assert(fetched@ == receipts_to_aggregate(ctx.store, now, timestamp_buffer_ns));
        let mut valid: Vec<SignedReceipt> = Vec::new();
        let mut invalid: Vec<SignedReceipt> = Vec::new();
        let mut i: usize = 0;
        while i < fetched.len()
            invariant
                0 <= i <= fetched@.len(),
                ctx == self.context(),
                valid@ == valid_receipts(self.checks@, ctx, fetched@.take(i as int)),
                invalid@ == invalid_receipts(self.checks@, ctx, fetched@.take(i as int)),
            decreases fetched@.len() - i,
        {
            proof {
                assert(fetched@.take(i + 1).drop_last() == fetched@.take(i as int));
                assert(fetched@.take(i + 1).last() == fetched@[i as int]);
            }
            match run_checks(
                &self.checks,
                &self.executor,
                &self.domain_separator,
                self.starting_min_timestamp,
                &fetched[i],
                true,
            ) {
                Err(e) => {
                    return Err(e);
                },
                Ok(None) => {
                    valid.push(fetched[i].signed_receipt);
                },
                Ok(Some(_)) => {
                    invalid.push(fetched[i].signed_receipt);
                },
            }
            i += 1;
        }
        assert(fetched@.take(i as int) == fetched@);
        match ReceiptAggregateVoucher::aggregate_receipts(valid.as_slice(), previous) {
            Ok(expected_rav) => Ok(
                RAVRequest {
                    valid_receipts: valid,
                    invalid_receipts: invalid,
                    previous_rav: previous,
                    expected_rav,
                },
            ),
            Err(e) => Err(e),
        }
    }

    /// Builds a request as `create_rav_request_at` does, at the time of the
    /// system clock.
    ///
    /// What is returned is the outcome of a pass at some time, unless the
    /// clock cannot be read as a timestamp.
    pub fn create_rav_request(
        &self,
        timestamp_buffer_ns: u64,
        previous_rav_override: Option<SignedRAV>,
    ) -> (res: Result<RAVRequest, Error>)
        ensures
            res matches Err(Error::InvalidSystemTime) || exists|now: u64|
                is_rav_request_of(
                    self.master_checks(),
                    self.context(),
                    now,
                    timestamp_buffer_ns,
                    previous_rav_override,
                    res,
                ),
    {
        match get_current_timestamp_u64_ns() {
            Ok(now) => self.create_rav_request_at(now, timestamp_buffer_ns, previous_rav_override),
            Err(e) => Err(e),
        }
    }

    /// Recovers the signer of `signed_rav` and holds its voucher against
    /// `expected_rav`.
    pub fn check_rav_signature(
        &self,
        expected_rav: &ReceiptAggregateVoucher,
        signed_rav: &SignedRAV,
    ) -> (res: Result<Address, Error>)
        ensures
            res == rav_signer_verdict(self.signing_domain(), *expected_rav, *signed_rav),
    {
        match signed_rav.recover_signer(&self.domain_separator) {
            Err(e) => Err(e),
            Ok(signer) => if signed_rav.message.same_as(expected_rav) {
                Ok(signer)
            } else {
                Err(Error::RavSignedPayloadMismatch)
            },
        }
    }

    /// Makes `signed_rav` the current voucher if its signer was found to be
    /// authorized, and refuses it if not.
    pub fn store_verified_rav(&mut self, signed_rav: SignedRAV, signer_authorized: bool) -> (res:
        Result<(), Error>)
        ensures
            final(self).same_setup(old(self)),
            !signer_authorized ==> res == Err::<(), Error>(Error::UnauthorizedSigner),
            signer_authorized && old(self).store().reliable ==> res is Ok,
            res is Ok ==> final(self).store() == old(self).store().with_rav(
                signed_rav,
            ),
            res matches Err(e) ==> {
                &&& final(self).store() == old(self).store()
                &&& signer_authorized ==> e == Error::StoreWriteFailure
            },
    {
        if !signer_authorized {
            return Err(Error::UnauthorizedSigner);
        }
        match self.executor.update_last_rav(signed_rav) {
            Ok(()) => Ok(()),
            Err(_) => Err(Error::StoreWriteFailure),
        }
    }

    /// Commits the countersigned voucher `signed_rav`.
    ///
    /// The signer is recovered; the signed voucher must be `expected_rav`;
    /// `is_authorized_signer` must say yes to the signer. Then `signed_rav`
    /// replaces the current voucher. On an error nothing has changed.
    pub fn verify_and_store_rav<F: Fn(Address) -> bool>(
        &mut self,
        expected_rav: ReceiptAggregateVoucher,
        signed_rav: SignedRAV,
        is_authorized_signer: F,
    ) -> (res: Result<(), Error>)
        requires
            forall|signer: Address| call_requires(is_authorized_signer, (signer,)),
        ensures
            final(self).same_setup(old(self)),
            res is Ok ==> final(self).store() == old(self).store().with_rav(
                signed_rav,
            ),
            res is Err ==> final(self).store() == old(self).store(),
            match rav_signer_verdict(old(self).signing_domain(), expected_rav, signed_rav) {
                Err(e) => res == Err::<(), Error>(e),
                Ok(signer) => {
                    &&& res is Ok ==> call_ensures(is_authorized_signer, (signer,), true)
                    &&& res matches Err(e) ==> (e == Error::UnauthorizedSigner && call_ensures(
                        is_authorized_signer,
                        (signer,),
                        false,
                    )) || e == Error::StoreWriteFailure
                    &&& old(self).store().reliable ==> res is Ok || res == Err::<
                        (),
                        Error,
                    >(Error::UnauthorizedSigner)
                },
            },
    {
        let signer = match self.check_rav_signature(&expected_rav, &signed_rav) {
            Ok(signer) => signer,
            Err(e) => {
                return Err(e);
            },
        };
        let authorized = is_authorized_signer(signer);
        self.store_verified_rav(signed_rav, authorized)
    }

    /// Deletes the stored receipts that the current voucher covers: those
    /// issued at its timestamp or before. Without a voucher nothing is
    /// deleted. On an error nothing has changed.
    pub fn remove_obsolete_receipts(&mut self) -> (res: Result<(), Error>)
        ensures
            final(self).same_setup(old(self)),
            old(self).store().reliable ==> res is Ok,
            res is Ok ==> final(self).store() == pruned(old(self).store()),
            res matches Err(e) ==> {
                &&& final(self).store() == old(self).store()
                &&& e == Error::StoreReadFailure || e == Error::StoreWriteFailure
            },
    {
        let rav = match self.executor.last_rav() {
            Ok(rav) => rav,
            Err(_) => {
                return Err(Error::StoreReadFailure);
            },
        };
        match rav {
            None => Ok(()),
            Some(rav) => {
                let range = TimestampRange::new(None, Some(rav.message.timestamp_ns));
                match self.executor.remove_receipts_in_timestamp_range(range) {
                    Ok(()) => Ok(()),
                    Err(_) => Err(Error::StoreWriteFailure),
                }
            },
        }
    }
}

} // verus!
