//! Crowdfunding campaigns with optional minimum targets, escrow of donations
//! until the minimum is reached, refunds when it is not, and per-donation fees.

pub mod types;
pub mod validation;
pub mod logic;
pub mod contract;
pub mod donations;
pub mod storage;
pub mod escrow;
pub mod transfer;
