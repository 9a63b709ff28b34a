//! An on-chain credit-scoring ledger: per-user DeFi activity metrics
//! (liquidity, transaction count, assets held, protocol usage) with a credit
//! score derived from them by a fixed linear formula.
//!
//! The contract keeps two stores: one config record holding the admin
//! identity and the base score, written at instantiation, and one metrics
//! record per user, created lazily on first write. Field updates are
//! admin-gated pure overwrites; score recomputation is public and touches
//! only the stored score; the read query returns the full record or
//! `NotFound`. Every handler carries a contract that pins its effect on the
//! state model and its result exactly; the laws module states and proves the
//! ledger's cross-call guarantees.

pub mod addr;
pub mod contract;
pub mod error;
pub mod laws;
pub mod msg;
pub mod numeral;
pub mod response;
pub mod state;
