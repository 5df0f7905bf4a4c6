//! Off-chain core of a micropayment receipt-aggregation protocol.
//!
//! A payer signs many small receipts. The [`tap_manager::Manager`] checks and
//! stores them, folds the valid ones into a cumulative receipt aggregate
//! voucher, commits the countersigned voucher and prunes the receipts that a
//! committed voucher covers. Every function of this crate is verified against
//! its contract; the few calls into other crates are listed where they stand.

pub mod adapters;
pub mod address;
pub mod checks;
pub mod error;
pub mod eip_712_signed_message;
pub mod receipt_aggregate_voucher;
pub mod tap_manager;
pub mod tap_receipt;
pub mod timestamp;

pub use address::Address;
pub use eip_712_signed_message::tap_eip712_domain;
pub use error::Error;
pub use timestamp::get_current_timestamp_u64_ns;
