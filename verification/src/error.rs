//! The errors that the library returns.

use vstd::prelude::*;

verus! {

/// The built-in receipt checks, by kind.
#[derive(Clone, Copy, Debug, PartialEq, Eq, Structural, Hash)]
pub enum ReceiptCheck {
    /// No other stored receipt has the same allocation, timestamp and signer.
    Unique,
    /// The value equals the appraisal recorded for the receipt's query.
    Value,
    /// The allocation is registered.
    AllocationId,
    /// The signature yields a signer, and that signer is an authorized payer.
    Signature,
    /// The timestamp is not before the configured minimum.
    Timestamp,
    /// The value not yet covered by a voucher fits in the payer's escrow.
    Escrow,
}

impl ReceiptCheck {
    /// The name of the check, as text.
    pub open spec fn name_spec(self) -> Seq<char> {
        match self {
            ReceiptCheck::Unique => "Unique"@,
            ReceiptCheck::Value => "Value"@,
            ReceiptCheck::AllocationId => "AllocationId"@,
            ReceiptCheck::Signature => "Signature"@,
            ReceiptCheck::Timestamp => "Timestamp"@,
            ReceiptCheck::Escrow => "Escrow"@,
        }
    }

    /// The name of the check, as text.
    pub fn name(&self) -> (name: &'static str)
        ensures
            name@ == self.name_spec(),
    {
        match self {
            ReceiptCheck::Unique => "Unique",
            ReceiptCheck::Value => "Value",
            ReceiptCheck::AllocationId => "AllocationId",
            ReceiptCheck::Signature => "Signature",
            ReceiptCheck::Timestamp => "Timestamp",
            ReceiptCheck::Escrow => "Escrow",
        }
    }
}

/// Why a check did not accept a receipt.
#[derive(Clone, Copy, Debug, PartialEq, Eq, Structural, Hash)]
pub enum CheckFailure {
    /// Another stored receipt has the same allocation, timestamp and signer.
    DuplicateReceipt,
    /// No appraisal is recorded yet for the receipt's query: the receipt can
    /// be checked again later.
    AppraisalPending,
    /// The value differs from the recorded appraisal.
    ValueMismatch,
    /// The allocation is not registered.
    UnknownAllocation,
    /// No signer can be recovered from the signature.
    InvalidSignature,
    /// The signer is not an authorized payer.
    UnauthorizedSigner,
    /// The timestamp is before the configured minimum.
    TimestampTooOld,
    /// The value not yet covered by a voucher exceeds the payer's escrow.
    InsufficientEscrow,
}

impl CheckFailure {
    /// Whether the failure is transient: the same receipt may pass later.
    pub open spec fn is_deferral(self) -> bool {
        self == CheckFailure::AppraisalPending
    }

    /// Whether the failure is transient: the same receipt may pass later.
    pub fn deferred(&self) -> (r: bool)
        ensures
            r == self.is_deferral(),
    {
        match self {
            CheckFailure::AppraisalPending => true,
            _ => false,
        }
    }
}

/// The errors of the library.
#[derive(Clone, Copy, Debug, PartialEq, Eq, Structural, Hash)]
pub enum Error {
    /// A check rejected the receipt.
    CheckFailed { check: ReceiptCheck, reason: CheckFailure },
    /// A position handed to the manager is outside its list of checks.
    InvalidCheckIndex { index: usize },
    /// No signer can be recovered from a signature.
    InvalidSignature,
    /// The signer of a voucher is not authorized.
    UnauthorizedSigner,
    /// The signed voucher is not the voucher that was asked for.
    RavSignedPayloadMismatch,
    /// The store could not be read.
    StoreReadFailure,
    /// The store could not be written.
    StoreWriteFailure,
    /// There is neither a valid receipt nor a previous voucher to build on.
    NoValidReceiptsToAggregate,
    /// The receipts and the previous voucher name more than one allocation.
    AllocationIdMismatch,
    /// The aggregate does not fit in 128 bits.
    AggregateOverflow,
    /// The system clock is before the Unix epoch, or beyond what 64 bits of
    /// nanoseconds can hold.
    InvalidSystemTime,
    /// The key cannot sign.
    SigningFailed,
}

} // verus!
