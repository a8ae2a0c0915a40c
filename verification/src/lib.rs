//! A two-party escrow engine with third-party fee settlement.
//!
//! A buyer deposits principal plus a fee into a custody vault. On delivery
//! confirmation by the buyer, the principal is released to the seller and the
//! fee to the treasury; if a fixed grace period elapses without confirmation,
//! anyone may trigger a refund of the principal to the buyer (the treasury
//! keeps the fee). Transfers out of the vault are authorized by a custody
//! authority derived deterministically from the record's immutable identity.

pub mod authority;
pub mod custody;
pub mod errors;
pub mod laws;
pub mod machine;
pub mod record;
