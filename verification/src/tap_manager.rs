//! The manager of one payer-payee channel and the request that it builds.

pub mod laws;
pub mod manager;
pub mod rav_request;

pub use manager::Manager;
pub use rav_request::RAVRequest;
pub use crate::receipt_aggregate_voucher::SignedRAV;
pub use crate::tap_receipt::SignedReceipt;
