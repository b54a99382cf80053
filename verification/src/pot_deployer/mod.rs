//! The earlier pot deployer: deploys pots for its owner and whitelisted
//! deployers and records each pot once its deployment has succeeded.
pub mod types;
pub mod contract;

pub use crate::provider::ProviderId;
