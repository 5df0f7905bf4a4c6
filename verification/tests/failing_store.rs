use tap_core::adapters::executor::{AdapterError, Executor, StoreState, TimestampRange};
use tap_core::adapters::executor_mock::ExecutorMock;
use tap_core::checks::{get_full_list_of_checks, run_check, ReceiptCheck};
use tap_core::eip_712_signed_message::{EIP712SignedMessage, Eip712Domain, Signature};
use tap_core::receipt_aggregate_voucher::{ReceiptAggregateVoucher, SignedRAV};
use tap_core::tap_manager::Manager;
use tap_core::tap_receipt::{Receipt, ReceivedReceipt, SignedReceipt};
use tap_core::{tap_eip712_domain, Address, Error};

const ALLOCATION: Address = Address { bytes: [0xab; 20] };

/// Stores in memory whose reads or writes can be switched off.
struct FlakyStore {
    inner: ExecutorMock,
    reads_fail: bool,
    writes_fail: bool,
}

fn down() -> AdapterError {
    AdapterError { reason: "the store is down".to_string() }
}

impl Executor for FlakyStore {
    // Contracts speak of the state; nothing that runs asks for it.
    fn state(&self) -> StoreState {
        unreachable!()
    }

    fn store_receipt(&mut self, receipt: ReceivedReceipt) -> Result<(), AdapterError> {
        if self.writes_fail {
            return Err(down());
        }
        self.inner.store_receipt(receipt)
    }

    fn retrieve_receipts_in_timestamp_range(
        &self,
        range: TimestampRange,
        query_id: Option<u64>,
    ) -> Result<Vec<ReceivedReceipt>, AdapterError> {
        if self.reads_fail {
            return Err(down());
        }
        self.inner.retrieve_receipts_in_timestamp_range(range, query_id)
    }

    fn remove_receipts_in_timestamp_range(
        &mut self,
        range: TimestampRange,
    ) -> Result<(), AdapterError> {
        if self.writes_fail {
            return Err(down());
        }
        self.inner.remove_receipts_in_timestamp_range(range)
    }

    fn last_rav(&self) -> Result<Option<SignedRAV>, AdapterError> {
        if self.reads_fail {
            return Err(down());
        }
        self.inner.last_rav()
    }

    fn update_last_rav(&mut self, rav: SignedRAV) -> Result<(), AdapterError> {
        if self.writes_fail {
            return Err(down());
        }
        self.inner.update_last_rav(rav)
    }

    fn get_sender_escrow(&self, sender: &Address) -> Result<u128, AdapterError> {
        if self.reads_fail {
            return Err(down());
        }
        self.inner.get_sender_escrow(sender)
    }

    fn get_query_appraisal(&self, query_id: u64) -> Result<Option<u128>, AdapterError> {
        if self.reads_fail {
            return Err(down());
        }
        self.inner.get_query_appraisal(query_id)
    }

    fn is_allocation_registered(&self, allocation_id: &Address) -> Result<bool, AdapterError> {
        if self.reads_fail {
            return Err(down());
        }
        self.inner.is_allocation_registered(allocation_id)
    }

    fn is_sender_authorized(&self, sender: &Address) -> Result<bool, AdapterError> {
        if self.reads_fail {
            return Err(down());
        }
        self.inner.is_sender_authorized(sender)
    }
}

fn domain() -> Eip712Domain {
    tap_eip712_domain(1, Address::new([0x11u8; 20]))
}

fn receipt(timestamp_ns: u64) -> SignedReceipt {
    EIP712SignedMessage {
        message: Receipt::at(ALLOCATION, timestamp_ns, 20),
        signature: Signature { r: [1u8; 32], s: [1u8; 32], v: 27 },
    }
}

fn voucher() -> SignedRAV {
    EIP712SignedMessage {
        message: ReceiptAggregateVoucher {
            allocation_id: ALLOCATION,
            timestamp_ns: 2_000,
            valueAggregate: 20,
        },
        signature: Signature { r: [1u8; 32], s: [1u8; 32], v: 27 },
    }
}

fn manager() -> Manager<FlakyStore> {
    let mut inner = ExecutorMock::new();
    inner.add_allocation_id(ALLOCATION);
    inner.store_receipt(ReceivedReceipt::new(receipt(2_000), 1)).unwrap();
    let store = FlakyStore { inner, reads_fail: false, writes_fail: false };
    Manager::new(domain(), store, get_full_list_of_checks(), 0)
}

fn stored(manager: &Manager<FlakyStore>) -> usize {
    manager
        .executor()
        .inner
        .retrieve_receipts_in_timestamp_range(TimestampRange::all(), None)
        .unwrap()
        .len()
}

#[test]
fn a_receipt_is_not_accepted_when_it_cannot_be_written() {
    let mut manager = manager();
    manager.executor_mut().writes_fail = true;
    assert_eq!(
        manager.verify_and_store_receipt(receipt(2_001), 2, &[]),
        Err(Error::StoreWriteFailure)
    );
    assert_eq!(
        manager.verify_and_store_receipt(receipt(2_001), 2, &[2]),
        Err(Error::StoreWriteFailure)
    );
    assert_eq!(stored(&manager), 1);
}

#[test]
fn a_check_that_cannot_read_fails_the_call() {
    let mut manager = manager();
    manager.executor_mut().reads_fail = true;
    assert_eq!(
        manager.verify_and_store_receipt(receipt(2_001), 2, &[2]),
        Err(Error::StoreReadFailure)
    );
    // Without a check nothing is read.
    assert_eq!(manager.verify_and_store_receipt(receipt(2_001), 2, &[]), Ok(()));
    assert_eq!(stored(&manager), 2);
}

#[test]
fn each_check_that_reads_reports_a_store_that_is_down() {
    let mut manager = manager();
    manager.executor_mut().reads_fail = true;
    let arriving = ReceivedReceipt::new(receipt(2_001), 2);
    let run = |check| run_check(check, manager.executor(), &domain(), 0, &arriving, false);
    assert_eq!(run(ReceiptCheck::Unique), Err(Error::StoreReadFailure));
    assert_eq!(run(ReceiptCheck::Value), Err(Error::StoreReadFailure));
    assert_eq!(run(ReceiptCheck::AllocationId), Err(Error::StoreReadFailure));
    // The timestamp check reads nothing.
    assert_eq!(run(ReceiptCheck::Timestamp), Ok(None));
}

#[test]
fn a_request_is_not_built_when_the_store_cannot_be_read() {
    let mut manager = manager();
    manager.executor_mut().reads_fail = true;
    assert_eq!(manager.create_rav_request_at(5_000, 0, None), Err(Error::StoreReadFailure));
    assert_eq!(manager.create_rav_request(0, None), Err(Error::StoreReadFailure));
}

#[test]
fn a_voucher_is_not_committed_when_it_cannot_be_written() {
    let mut manager = manager();
    manager.executor_mut().writes_fail = true;
    assert_eq!(manager.store_verified_rav(voucher(), true), Err(Error::StoreWriteFailure));
    assert_eq!(manager.store_verified_rav(voucher(), false), Err(Error::UnauthorizedSigner));
    assert_eq!(manager.executor().inner.last_rav(), Ok(None));
}

#[test]
fn pruning_reports_a_store_that_is_down() {
    let mut manager = manager();
    manager.store_verified_rav(voucher(), true).unwrap();
    manager.executor_mut().reads_fail = true;
    assert_eq!(manager.remove_obsolete_receipts(), Err(Error::StoreReadFailure));
    manager.executor_mut().reads_fail = false;
    manager.executor_mut().writes_fail = true;
    assert_eq!(manager.remove_obsolete_receipts(), Err(Error::StoreWriteFailure));
    assert_eq!(stored(&manager), 1);
    manager.executor_mut().writes_fail = false;
    assert_eq!(manager.remove_obsolete_receipts(), Ok(()));
    assert_eq!(stored(&manager), 0);
}
