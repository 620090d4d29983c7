//! A verified credit-ledger engine.
//!
//! The ledger tracks per-account credit balances, the most recent allocation
//! record per beneficiary, and a gross-issuance counter. It offers four
//! mutating operations (`initialize`, `issue_credits`, `transfer`, `burn`) and
//! three reads (`balance`, `get_allocation`, `total_issued`). Every operation
//! either fully applies or fails with a distinguishable error and leaves the
//! ledger untouched.
//!
//! The contracts of the executable operations are stated against a ghost
//! model, [`model::LedgerModel`], and the ledger-wide laws (conservation under
//! transfers, non-negative balances, monotonic gross issuance, one-time
//! initialization, authorization enforcement) are proved in [`laws`].

pub mod auth;
pub mod laws;
pub mod ledger;
pub mod model;

pub use auth::AuthVerifier;
pub use ledger::EduPassToken;
pub use model::Allocation;
pub use model::Error;
