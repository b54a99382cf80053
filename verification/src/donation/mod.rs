//! Direct donations to any account, in NEAR or a fungible token, with a
//! protocol fee and an optional referrer fee.

pub mod types;
pub mod contract;
pub mod donations;
pub mod views;
