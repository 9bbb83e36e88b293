//! A milestone-based escrow engine.
//!
//! The engine keeps the books of escrows between a depositor and a
//! recipient: it creates records, moves them through their lifecycle,
//! splits every outbound amount into a fee and a net payout, and lets an
//! arbitrator settle disputes. It moves no funds itself: each operation
//! returns the transfers that the host has to carry out on the asset
//! ledger.

pub mod contract;
pub mod effects;
pub mod errors;
pub mod fees;
pub mod laws;
pub mod lifecycle;
pub mod model;
pub mod record;
pub mod roles;
pub mod types;

pub use contract::VaultixContract;
pub use effects::{Account, Event, Outcome, Transfer, EVENT_NAMESPACE};
pub use errors::{Error, EscrowError};
pub use fees::{fee_amount, resolve_bps, FeeConfig, BPS_DENOMINATOR};
pub use roles::RoleRegistry;
pub use types::{Address, Escrow, EscrowStatus, Milestone, MilestoneStatus, Resolution};
