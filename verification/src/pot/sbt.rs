//! Queries of a soulbound token registry for the tokens of the caller.
use vstd::prelude::*;
use crate::env::CallContext;
use crate::pot::contract::Contract;
use crate::pot::types::OwnedToken;

verus! {

/// Gas of the registry query and of its callback.
pub const SBT_QUERY_GAS: u64 = 5_000_000_000_000;

/// A call of the registry's `sbt_tokens_by_owner`, for the host to make,
/// followed by `query_sbt_callback`.
pub struct SbtQuery {
    pub registry_id: String,
    pub account: String,
    pub issuer: Option<String>,
    pub from_class: Option<u64>,
}

impl Contract {
    /// Asks `registry_id` for the tokens the caller holds, of `issuer` and
    /// from class `from_class` when given.
    pub fn query_sbts_for_owner(&self, ctx: &CallContext, registry_id: String, issuer: Option<String>, from_class: Option<u64>) -> (q: SbtQuery)
        ensures
            q == (SbtQuery { registry_id, account: ctx.predecessor, issuer, from_class }),
    {
        SbtQuery { registry_id, account: ctx.predecessor.clone(), issuer, from_class }
    }

    /// The tokens the registry returned, by owner; none when the query failed.
    pub fn query_sbt_callback(&self, result: Option<Vec<(String, Vec<OwnedToken>)>>) -> (r: Vec<(String, Vec<OwnedToken>)>)
        ensures
            result matches Some(t) ==> r == t,
            result is None ==> r@.len() == 0,
    {
        match result {
            Some(t) => t,
            None => Vec::new(),
        }
    }
}

} // verus!
