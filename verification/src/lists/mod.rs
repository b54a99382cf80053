//! Curated lists of accounts: owners and admins manage lists, accounts
//! register on them (or are registered by admins) with a review status, and
//! anyone can upvote a list.

pub mod types;
pub mod validation;
pub mod contract;
pub mod registrations;
pub mod refunds;
pub mod views;
