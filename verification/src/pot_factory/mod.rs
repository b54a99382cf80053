//! The pot factory: deploys pot contracts under its own account, keeps a
//! record of each, and serves the protocol fee configuration to pots.
pub mod types;
pub mod validation;
pub mod slug;

pub use crate::provider::ProviderId;
pub mod contract;
pub mod admin;
pub mod pots;
pub use crate::env::calculate_required_storage_deposit;
