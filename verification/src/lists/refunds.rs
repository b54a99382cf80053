//! Storage refunds owed to registrants, and their withdrawal.
use vstd::prelude::*;
use crate::env::{CallContext, Transfer};
use crate::lists::contract::Contract;
use crate::util::unwrap_or;

verus! {

impl Contract {
    /// Refund owed to `account` (zero when none is recorded).
    pub open spec fn spec_refund_of(&self, account: Seq<char>) -> u128 {
        if self.refund_claims_by_registrant_id@.contains_key(account) { self.refund_claims_by_registrant_id@[account] } else { 0 }
    }

    /// Withdraws the caller's refund: when positive, the transfer to make
    /// (its outcome goes to `refund_callback`); otherwise nothing. Returns
    /// the amount.
    pub fn withdraw_refund(&self, ctx: &CallContext) -> (r: (u128, Option<Transfer>))
        requires
            self.wf(),
        ensures
            r.0 == self.spec_refund_of(ctx.predecessor@),
            r.0 > 0 ==> r.1 == Some(Transfer { receiver: ctx.predecessor, amount: r.0, ft_id: None }),
            r.0 == 0 ==> r.1 is None,
    {
        let amount = match self.refund_claims_by_registrant_id.get(&ctx.predecessor) {
            Some(a) => *a,
            None => 0,
        };
        if amount > 0 {
            (amount, Some(Transfer { receiver: ctx.predecessor.clone(), amount, ft_id: None }))
        } else {
            (amount, None)
        }
    }

    /// Outcome of a refund transfer: on success the claim is cleared and the
    /// amount returned; on failure nothing changes and zero is returned.
    pub fn refund_callback(&mut self, recipient: String, refund_amount: u128, succeeded: bool) -> (r: u128)
        requires
            old(self).wf(),
        ensures
            final(self).wf(),
            !succeeded ==> r == 0 && *final(self) == *old(self),
            succeeded ==> r == refund_amount
                && final(self).refund_claims_by_registrant_id@ == old(self).refund_claims_by_registrant_id@.insert(recipient@, 0),
    {
        if !succeeded {
            return 0;
        }
        self.refund_claims_by_registrant_id.insert(recipient, 0);
        refund_amount
    }

    /// Refund owed to `account_id` (the caller when not given).
    pub fn get_available_refund(&self, ctx: &CallContext, account_id: Option<String>) -> (r: u128)
        requires
            self.wf(),
        ensures
            r == self.spec_refund_of(unwrap_or(account_id, ctx.predecessor)@),
    {
        let account = match account_id {
            Some(a) => a,
            None => ctx.predecessor.clone(),
        };
        match self.refund_claims_by_registrant_id.get(&account) {
            Some(a) => *a,
            None => 0,
        }
    }
}

} // verus!
