//! What remains of the matching pool after payouts: sent to the
//! redistribution recipient once the cooldown and compliance periods are
//! over and every challenge is resolved.
use vstd::prelude::*;
use crate::env::{CallContext, Transfer};
use crate::pot::contract::Contract;
use crate::pot::types::PotError;

verus! {

impl Contract {
    /// Fails while a compliance period is running (none running passes).
    pub fn assert_compliance_period_complete(&self, ctx: &CallContext) -> (r: Result<(), PotError>)
        ensures
            r is Ok <==> !(self.compliance_end_ms matches Some(end) && ctx.block_timestamp_ms <= end),
            r is Err ==> r == Err::<(), PotError>(PotError::ComplianceNotOver),
    {
        match self.compliance_end_ms {
            Some(end) => if end < ctx.block_timestamp_ms { Ok(()) } else { Err(PotError::ComplianceNotOver) },
            None => Ok(()),
        }
    }

    /// Why `admin_redistribute_matching_pool` refuses, if it does; the
    /// checks run in this order.
    pub open spec fn spec_redistribute_check(&self, ctx: CallContext) -> Result<(), PotError> {
        if self.spec_admin_check(ctx) is Err {
            self.spec_admin_check(ctx)
        } else if self.cooldown_end_ms is None {
            Err(PotError::CooldownNotSet)
        } else if !(self.cooldown_end_ms->0 < ctx.block_timestamp_ms) {
            Err(PotError::CooldownNotOver)
        } else if !self.spec_challenges_resolved() {
            Err(PotError::ChallengesUnresolved)
        } else if self.compliance_end_ms matches Some(end) && ctx.block_timestamp_ms <= end {
            Err(PotError::ComplianceNotOver)
        } else if !self.allow_remaining_funds_redistribution {
            Err(PotError::RedistributionNotAllowed)
        } else if self.remaining_funds_redistribution_recipient is None {
            Err(PotError::NoRedistributionRecipient)
        } else {
            Ok(())
        }
    }

    /// Sends the whole matching pool balance to the redistribution recipient
    /// (admin or owner); the balance is zero until the callback reports.
    pub fn admin_redistribute_matching_pool(&mut self, ctx: &CallContext) -> (r: Result<Transfer, PotError>)
        requires
            old(self).wf(),
        ensures
            final(self).wf(),
            r is Err ==> *final(self) == *old(self),
            r matches Err(e) ==> old(self).spec_redistribute_check(*ctx) == Err::<(), PotError>(e),
            r is Ok <==> old(self).spec_redistribute_check(*ctx) is Ok,
            r matches Ok(t) ==> t == (Transfer {
                receiver: old(self).remaining_funds_redistribution_recipient->0,
                amount: old(self).matching_pool_balance,
                ft_id: None,
            }),
            r is Ok ==> *final(self) == (Contract { matching_pool_balance: 0, ..*old(self) }),
    {
        self.assert_admin_or_greater(ctx)?;
        self.assert_cooldown_period_complete(ctx)?;
        self.assert_all_payouts_challenges_resolved()?;
        self.assert_compliance_period_complete(ctx)?;
        if !self.allow_remaining_funds_redistribution {
            return Err(PotError::RedistributionNotAllowed);
        }
        let receiver = match &self.remaining_funds_redistribution_recipient {
            None => return Err(PotError::NoRedistributionRecipient),
            Some(a) => a.clone(),
        };
        let amount = self.matching_pool_balance;
        self.matching_pool_balance = 0;
        Ok(Transfer { receiver, amount, ft_id: None })
    }

    /// Settles a redistribution of `amount`: on failure the matching pool
    /// balance gets it back; on success the pot is marked all paid out.
    pub fn redistribute_matching_pool_callback(&mut self, ctx: &CallContext, amount: u128, succeeded: bool)
        requires
            old(self).wf(),
            !succeeded ==> old(self).matching_pool_balance + amount <= u128::MAX,
        ensures
            final(self).wf(),
            !succeeded ==> *final(self) == (Contract {
                matching_pool_balance: (old(self).matching_pool_balance + amount) as u128,
                ..*old(self)
            }),
            succeeded ==> *final(self) == (Contract {
                remaining_funds_redistributed_at_ms: Some(ctx.block_timestamp_ms),
                all_paid_out: true,
                ..*old(self)
            }),
    {
        if !succeeded {
            self.matching_pool_balance = self.matching_pool_balance + amount;
        } else {
            self.remaining_funds_redistributed_at_ms = Some(ctx.block_timestamp_ms);
            self.all_paid_out = true;
        }
    }
}

/// A redistribution that fails is undone: once `admin_redistribute_matching_pool`
/// has zeroed the matching pool balance and `redistribute_matching_pool_callback`
/// reports the failure of the transfer of that balance, the pot is as before.
pub proof fn lemma_failed_redistribution_undone(before: Contract)
    ensures
        ({
            let sent = Contract { matching_pool_balance: 0, ..before };
            (Contract { matching_pool_balance: (sent.matching_pool_balance + before.matching_pool_balance) as u128, ..sent }) == before
        }),
{
}

} // verus!
