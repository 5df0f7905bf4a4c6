//! What the manager needs from its surroundings: a store for receipts, a
//! store for the current voucher, and the registries that the checks consult.

pub mod executor;
pub mod executor_mock;
