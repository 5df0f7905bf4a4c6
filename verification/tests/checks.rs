use ethers_signers::coins_bip39::English;
use ethers_signers::{LocalWallet, MnemonicBuilder, Signer};
use tap_core::adapters::executor::{Executor, TimestampRange};
use tap_core::adapters::executor_mock::ExecutorMock;
use tap_core::checks::{
    check_allocation_id, check_escrow, check_signature, check_timestamp, check_unique,
    check_value, get_full_list_of_checks, run_check, run_checks, signer_of, CheckFailure,
    ReceiptCheck,
};
use tap_core::eip_712_signed_message::{
    EIP712SignedMessage, Eip712Domain, Signature, SigningKey,
};
use tap_core::tap_manager::Manager;
use tap_core::tap_receipt::{Receipt, ReceivedReceipt, SignedReceipt};
use tap_core::{tap_eip712_domain, Address, Error};

const ALLOCATION: Address = Address { bytes: [0xab; 20] };
const OTHER_ALLOCATION: Address = Address { bytes: [0xcd; 20] };
const MIN_TIMESTAMP: u64 = 1_000;

fn payer() -> (SigningKey, Address) {
    let wallet: LocalWallet = MnemonicBuilder::<English>::default()
        .phrase("abandon abandon abandon abandon abandon abandon abandon abandon abandon abandon abandon about")
        .build()
        .unwrap();
    let address: [u8; 20] = wallet.address().into();
    let key: [u8; 32] = wallet.signer().to_bytes().into();
    (SigningKey::new(key), Address::new(address))
}

fn stranger() -> (SigningKey, Address) {
    let wallet = LocalWallet::from_bytes(&[7u8; 32]).unwrap();
    let address: [u8; 20] = wallet.address().into();
    (SigningKey::new([7u8; 32]), Address::new(address))
}

fn domain() -> Eip712Domain {
    tap_eip712_domain(1, Address::new([0x11u8; 20]))
}

fn signed(allocation_id: Address, timestamp_ns: u64, value: u128, key: &SigningKey) -> SignedReceipt {
    EIP712SignedMessage::new(&domain(), Receipt::at(allocation_id, timestamp_ns, value), key)
        .unwrap()
}

fn received(timestamp_ns: u64, value: u128, query_id: u64) -> ReceivedReceipt {
    ReceivedReceipt::new(signed(ALLOCATION, timestamp_ns, value, &payer().0), query_id)
}

fn stores() -> ExecutorMock {
    let mut executor = ExecutorMock::new();
    executor.add_allocation_id(ALLOCATION);
    executor.add_sender(payer().1);
    executor.set_escrow(payer().1, 100);
    executor
}

fn manager() -> Manager<ExecutorMock> {
    Manager::new(domain(), stores(), get_full_list_of_checks(), MIN_TIMESTAMP)
}

#[test]
fn full_list_has_the_six_checks_in_order() {
    assert_eq!(
        get_full_list_of_checks(),
        vec![
            ReceiptCheck::Unique,
            ReceiptCheck::Value,
            ReceiptCheck::AllocationId,
            ReceiptCheck::Signature,
            ReceiptCheck::Timestamp,
            ReceiptCheck::Escrow,
        ]
    );
}

#[test]
fn checks_have_names() {
    let names: Vec<&str> = get_full_list_of_checks().iter().map(|c| c.name()).collect();
    assert_eq!(
        names,
        vec!["Unique", "Value", "AllocationId", "Signature", "Timestamp", "Escrow"]
    );
}

#[test]
fn signer_of_a_signed_receipt_is_the_payer() {
    let receipt = signed(ALLOCATION, 2_000, 5, &payer().0);
    assert_eq!(signer_of(&receipt, &domain()), Some(payer().1));
}

#[test]
fn signer_of_a_broken_signature_is_none() {
    let mut receipt = signed(ALLOCATION, 2_000, 5, &payer().0);
    receipt.signature = Signature { r: [0u8; 32], s: [0u8; 32], v: 27 };
    assert_eq!(signer_of(&receipt, &domain()), None);
}

#[test]
fn unique_accepts_a_new_receipt() {
    let mut executor = stores();
    executor.store_receipt(received(2_000, 5, 1)).unwrap();
    let arriving = received(2_001, 5, 2);
    assert_eq!(check_unique(&executor, &domain(), &arriving, false), Ok(None));
}

#[test]
fn unique_rejects_a_second_submission() {
    let mut executor = stores();
    executor.store_receipt(received(2_000, 5, 1)).unwrap();
    let again = received(2_000, 5, 1);
    assert_eq!(
        check_unique(&executor, &domain(), &again, false),
        Ok(Some(CheckFailure::DuplicateReceipt))
    );
}

#[test]
fn unique_looks_at_allocation_timestamp_and_signer_only() {
    let mut executor = stores();
    executor.store_receipt(received(2_000, 5, 1)).unwrap();
    // Another value and another query, but the same payment.
    let same_payment = received(2_000, 9, 3);
    assert_eq!(
        check_unique(&executor, &domain(), &same_payment, false),
        Ok(Some(CheckFailure::DuplicateReceipt))
    );
    // Another signer at the same time is another payment.
    let other_signer = ReceivedReceipt::new(signed(ALLOCATION, 2_000, 5, &stranger().0), 1);
    assert_eq!(check_unique(&executor, &domain(), &other_signer, false), Ok(None));
    // Another allocation at the same time is another payment.
    let other_allocation =
        ReceivedReceipt::new(signed(OTHER_ALLOCATION, 2_000, 5, &payer().0), 1);
    assert_eq!(check_unique(&executor, &domain(), &other_allocation, false), Ok(None));
}

#[test]
fn unique_accepts_a_stored_receipt_that_stands_alone() {
    let mut executor = stores();
    executor.store_receipt(received(2_000, 5, 1)).unwrap();
    assert_eq!(check_unique(&executor, &domain(), &received(2_000, 5, 1), true), Ok(None));
}

#[test]
fn unique_rejects_a_stored_receipt_that_has_a_twin() {
    let mut executor = stores();
    executor.store_receipt(received(2_000, 5, 1)).unwrap();
    executor.store_receipt(received(2_000, 5, 1)).unwrap();
    assert_eq!(
        check_unique(&executor, &domain(), &received(2_000, 5, 1), true),
        Ok(Some(CheckFailure::DuplicateReceipt))
    );
}

#[test]
fn value_is_deferred_without_an_appraisal() {
    let executor = stores();
    let outcome = check_value(&executor, &received(2_000, 5, 1)).unwrap();
    assert_eq!(outcome, Some(CheckFailure::AppraisalPending));
    assert!(outcome.unwrap().deferred());
}

#[test]
fn value_rejects_another_value_than_appraised() {
    let mut executor = stores();
    executor.set_query_appraisal(1, 6);
    let outcome = check_value(&executor, &received(2_000, 5, 1)).unwrap();
    assert_eq!(outcome, Some(CheckFailure::ValueMismatch));
    assert!(!outcome.unwrap().deferred());
}

#[test]
fn value_accepts_the_appraised_value() {
    let mut executor = stores();
    executor.set_query_appraisal(1, 6);
    executor.set_query_appraisal(1, 5);
    assert_eq!(check_value(&executor, &received(2_000, 5, 1)), Ok(None));
    assert_eq!(executor.get_query_appraisal(1), Ok(Some(5)));
    assert_eq!(executor.get_query_appraisal(2), Ok(None));
}

#[test]
fn allocation_must_be_registered() {
    let executor = stores();
    assert_eq!(check_allocation_id(&executor, &received(2_000, 5, 1)), Ok(None));
    let elsewhere = ReceivedReceipt::new(signed(OTHER_ALLOCATION, 2_000, 5, &payer().0), 1);
    assert_eq!(
        check_allocation_id(&executor, &elsewhere),
        Ok(Some(CheckFailure::UnknownAllocation))
    );
    assert_eq!(executor.is_allocation_registered(&ALLOCATION), Ok(true));
    assert_eq!(executor.is_allocation_registered(&OTHER_ALLOCATION), Ok(false));
}

#[test]
fn signature_accepts_an_authorized_payer() {
    let executor = stores();
    assert_eq!(check_signature(&executor, &domain(), &received(2_000, 5, 1)), Ok(None));
}

#[test]
fn signature_rejects_a_stranger() {
    let executor = stores();
    let receipt = ReceivedReceipt::new(signed(ALLOCATION, 2_000, 5, &stranger().0), 1);
    assert_eq!(
        check_signature(&executor, &domain(), &receipt),
        Ok(Some(CheckFailure::UnauthorizedSigner))
    );
}

#[test]
fn signature_rejects_a_receipt_changed_after_signing() {
    let executor = stores();
    let mut receipt = received(2_000, 5, 1);
    receipt.signed_receipt.message.value = 500;
    // The signature now belongs to some other key, which is not authorized.
    let outcome = check_signature(&executor, &domain(), &receipt).unwrap();
    assert!(
        outcome == Some(CheckFailure::UnauthorizedSigner)
            || outcome == Some(CheckFailure::InvalidSignature)
    );
}

#[test]
fn signature_rejects_what_is_no_signature() {
    let executor = stores();
    let mut receipt = received(2_000, 5, 1);
    receipt.signed_receipt.signature = Signature { r: [0u8; 32], s: [0u8; 32], v: 27 };
    assert_eq!(
        check_signature(&executor, &domain(), &receipt),
        Ok(Some(CheckFailure::InvalidSignature))
    );
}

#[test]
fn signature_is_bound_to_the_domain() {
    let executor = stores();
    let elsewhere = tap_eip712_domain(2, Address::new([0x11u8; 20]));
    let receipt = received(2_000, 5, 1);
    assert_ne!(signer_of(&receipt.signed_receipt, &elsewhere), Some(payer().1));
    assert_ne!(check_signature(&executor, &elsewhere, &receipt), Ok(None));
}

#[test]
fn timestamp_at_the_minimum_is_accepted() {
    assert_eq!(check_timestamp(MIN_TIMESTAMP, &received(MIN_TIMESTAMP, 5, 1)), None);
    assert_eq!(check_timestamp(MIN_TIMESTAMP, &received(MIN_TIMESTAMP + 1, 5, 1)), None);
}

#[test]
fn timestamp_before_the_minimum_is_rejected() {
    assert_eq!(
        check_timestamp(MIN_TIMESTAMP, &received(MIN_TIMESTAMP - 1, 5, 1)),
        Some(CheckFailure::TimestampTooOld)
    );
}

#[test]
fn escrow_counts_the_arriving_receipt() {
    let mut executor = stores();
    executor.store_receipt(received(2_000, 60, 1)).unwrap();
    assert_eq!(check_escrow(&executor, &domain(), &received(2_001, 40, 2), false), Ok(None));
    assert_eq!(
        check_escrow(&executor, &domain(), &received(2_001, 41, 2), false),
        Ok(Some(CheckFailure::InsufficientEscrow))
    );
}

#[test]
fn escrow_counts_a_stored_receipt_once() {
    let mut executor = stores();
    executor.store_receipt(received(2_000, 60, 1)).unwrap();
    executor.store_receipt(received(2_001, 40, 2)).unwrap();
    assert_eq!(check_escrow(&executor, &domain(), &received(2_001, 40, 2), true), Ok(None));
    executor.store_receipt(received(2_002, 1, 3)).unwrap();
    assert_eq!(
        check_escrow(&executor, &domain(), &received(2_001, 40, 2), true),
        Ok(Some(CheckFailure::InsufficientEscrow))
    );
}

#[test]
fn escrow_leaves_out_what_a_voucher_covers() {
    let mut manager = manager();
    manager.executor_mut().set_query_appraisal(1, 90);
    manager.verify_and_store_receipt(signed(ALLOCATION, 2_000, 90, &payer().0), 1, &[]).unwrap();
    let arriving = received(3_000, 90, 2);
    assert_eq!(
        check_escrow(manager.executor(), &domain(), &arriving, false),
        Ok(Some(CheckFailure::InsufficientEscrow))
    );
    let request = manager.create_rav_request_at(2_500, 0, None).unwrap();
    let rav = EIP712SignedMessage::new(&domain(), request.expected_rav, &payer().0).unwrap();
    manager.verify_and_store_rav(request.expected_rav, rav, |a: Address| a == payer().1).unwrap();
    assert_eq!(check_escrow(manager.executor(), &domain(), &arriving, false), Ok(None));
}

#[test]
fn escrow_of_an_unknown_payer_is_zero() {
    let executor = stores();
    assert_eq!(executor.get_sender_escrow(&stranger().1), Ok(0));
    assert_eq!(executor.get_sender_escrow(&payer().1), Ok(100));
    let receipt = ReceivedReceipt::new(signed(ALLOCATION, 2_000, 1, &stranger().0), 1);
    assert_eq!(
        check_escrow(&executor, &domain(), &receipt, false),
        Ok(Some(CheckFailure::InsufficientEscrow))
    );
    let free = ReceivedReceipt::new(signed(ALLOCATION, 2_000, 0, &stranger().0), 1);
    assert_eq!(check_escrow(&executor, &domain(), &free, false), Ok(None));
}

#[test]
fn escrow_that_overflows_is_insufficient() {
    let mut executor = stores();
    executor.set_escrow(payer().1, u128::MAX);
    executor.store_receipt(received(2_000, u128::MAX, 1)).unwrap();
    assert_eq!(check_escrow(&executor, &domain(), &received(2_000, u128::MAX, 1), true), Ok(None));
    assert_eq!(
        check_escrow(&executor, &domain(), &received(2_001, 1, 2), false),
        Ok(Some(CheckFailure::InsufficientEscrow))
    );
}

#[test]
fn escrow_rejects_what_is_no_signature() {
    let executor = stores();
    let mut receipt = received(2_000, 5, 1);
    receipt.signed_receipt.signature = Signature { r: [0u8; 32], s: [0u8; 32], v: 27 };
    assert_eq!(
        check_escrow(&executor, &domain(), &receipt, false),
        Ok(Some(CheckFailure::InvalidSignature))
    );
}

#[test]
fn run_check_runs_the_check_that_is_named() {
    let executor = stores();
    let receipt = received(500, 5, 1);
    let run = |check| run_check(check, &executor, &domain(), MIN_TIMESTAMP, &receipt, false);
    assert_eq!(run(ReceiptCheck::Unique), Ok(None));
    assert_eq!(run(ReceiptCheck::Value), Ok(Some(CheckFailure::AppraisalPending)));
    assert_eq!(run(ReceiptCheck::AllocationId), Ok(None));
    assert_eq!(run(ReceiptCheck::Signature), Ok(None));
    assert_eq!(run(ReceiptCheck::Timestamp), Ok(Some(CheckFailure::TimestampTooOld)));
    assert_eq!(run(ReceiptCheck::Escrow), Ok(None));
}

#[test]
fn run_checks_stops_at_the_first_failure() {
    let executor = stores();
    let receipt = received(500, 5, 1);
    let all = get_full_list_of_checks();
    assert_eq!(
        run_checks(&all, &executor, &domain(), MIN_TIMESTAMP, &receipt, false),
        Ok(Some((ReceiptCheck::Value, CheckFailure::AppraisalPending)))
    );
    let later_first = vec![ReceiptCheck::Timestamp, ReceiptCheck::Value];
    assert_eq!(
        run_checks(&later_first, &executor, &domain(), MIN_TIMESTAMP, &receipt, false),
        Ok(Some((ReceiptCheck::Timestamp, CheckFailure::TimestampTooOld)))
    );
    assert_eq!(
        run_checks(&Vec::new(), &executor, &domain(), MIN_TIMESTAMP, &receipt, false),
        Ok(None)
    );
}

#[test]
fn ingestion_names_the_failing_check() {
    let mut manager = manager();
    let receipt = signed(ALLOCATION, 500, 5, &payer().0);
    assert_eq!(
        manager.verify_and_store_receipt(receipt, 1, &[0, 2, 3, 4, 1]),
        Err(Error::CheckFailed {
            check: ReceiptCheck::Timestamp,
            reason: CheckFailure::TimestampTooOld
        })
    );
    let stored = manager
        .executor()
        .retrieve_receipts_in_timestamp_range(TimestampRange::all(), None)
        .unwrap();
    assert!(stored.is_empty());
}
