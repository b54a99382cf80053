//! A funding round ("pot"): projects apply and are reviewed by the chef,
//! donors give to approved projects or to the matching pool, and after the
//! round the chef sets payouts from the matching pool that are paid out once
//! a cooldown (and any challenge) is over.

pub mod types;
pub mod validation;
pub mod contract;
pub mod applications;
pub mod donations;
pub mod payouts;
pub mod admin;

pub use crate::provider::ProviderId;
pub mod settings;
pub mod views;
pub mod challenges;
pub mod redistribution;
pub mod sbt;
