//! Verified core of the PotLock public-goods funding contracts: fee arithmetic,
//! input validation, and the state transitions of the campaigns, donation,
//! lists, pot, pot factory and pot deployer contracts, modelled over plain values.

pub mod fees;
pub mod collections;
pub mod env;
pub mod util;
pub mod campaigns;
pub mod text;
pub mod provider;
pub mod pot;
pub mod lists;
pub mod donation;
pub mod pot_factory;
pub mod pot_deployer;
