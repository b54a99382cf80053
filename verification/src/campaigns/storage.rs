//! Storage deposits that pay for the records of token donations.
use vstd::prelude::*;
use crate::campaigns::contract::Contract;
use crate::campaigns::types::CampaignError;
use crate::env::{CallContext, Transfer};
use crate::util::unwrap_or;

verus! {

impl Contract {
    /// Adds the attached deposit to the caller's storage balance. A first
    /// deposit pays for the storage of the new balance entry
    /// (`entry_storage_cost`, as measured by the host). Returns the new balance.
    pub fn storage_deposit(&mut self, ctx: &CallContext, entry_storage_cost: u128) -> (r: Result<
        u128,
        CampaignError,
    >)
        requires
            old(self).wf(),
        ensures
            final(self).wf(),
            ({
                let who = ctx.predecessor@;
                let is_new = !old(self).storage_deposits@.contains_key(who);
                let deposit = if is_new { ctx.attached_deposit - entry_storage_cost } else { ctx.attached_deposit as int };
                let balance = old(self).spec_storage_balance(who);
                &&& (is_new && ctx.attached_deposit < entry_storage_cost) ==> r == Err::<u128, CampaignError>(CampaignError::InsufficientStorageDeposit)
                &&& !(is_new && ctx.attached_deposit < entry_storage_cost) && balance + deposit > u128::MAX ==> r == Err::<u128, CampaignError>(CampaignError::ArithmeticOverflow)
                &&& !(is_new && ctx.attached_deposit < entry_storage_cost) && balance + deposit <= u128::MAX ==> {
                    &&& r == Ok::<u128, CampaignError>((balance + deposit) as u128)
                    &&& final(self).storage_deposits@ == old(self).storage_deposits@.insert(who, (balance + deposit) as u128)
                    &&& *final(self) == (Contract { storage_deposits: final(self).storage_deposits, ..*old(self) })
                }
                &&& r is Err ==> *final(self) == *old(self)
            }),
    {
        let mut deposit = ctx.attached_deposit;
        let existing = self.storage_deposits.get(&ctx.predecessor);
        let balance = match existing {
            Some(b) => *b,
            None => {
                if deposit < entry_storage_cost {
                    return Err(CampaignError::InsufficientStorageDeposit);
                }
                deposit = deposit - entry_storage_cost;
                0
            },
        };
        if balance > u128::MAX - deposit {
            return Err(CampaignError::ArithmeticOverflow);
        }
        let new_balance = balance + deposit;
        self.storage_deposits.insert(ctx.predecessor.clone(), new_balance);
        Ok(new_balance)
    }

    /// Withdraws `amount` (by default the whole balance) of the caller's
    /// storage balance. While something remains, the amount is sent to the
    /// caller; when nothing remains the balance entry is removed and the
    /// caller is sent only the cost of the storage it freed
    /// (`freed_storage_cost`, as measured by the host), not the withdrawn
    /// amount. Returns the remaining balance and the transfer.
    pub fn storage_withdraw(&mut self, ctx: &CallContext, amount: Option<u128>, freed_storage_cost: u128) -> (r: Result<
        (u128, Transfer),
        CampaignError,
    >)
        requires
            old(self).wf(),
        ensures
            final(self).wf(),
            ({
                let who = ctx.predecessor@;
                let balance = old(self).spec_storage_balance(who);
                let amt = unwrap_or(amount, balance);
                &&& amt > balance ==> r == Err::<(u128, Transfer), CampaignError>(CampaignError::WithdrawalExceedsBalance) && *final(self) == *old(self)
                &&& amt <= balance && balance - amt > 0 ==> r == Ok::<(u128, Transfer), CampaignError>(((balance - amt) as u128, Transfer { receiver: ctx.predecessor, amount: amt, ft_id: None }))
                    && final(self).storage_deposits@ == old(self).storage_deposits@.insert(who, (balance - amt) as u128)
                &&& amt <= balance && balance - amt == 0 ==> r == Ok::<(u128, Transfer), CampaignError>((0, Transfer { receiver: ctx.predecessor, amount: freed_storage_cost, ft_id: None }))
                    && final(self).storage_deposits@ == old(self).storage_deposits@.remove(who)
                &&& *final(self) == (Contract { storage_deposits: final(self).storage_deposits, ..*old(self) })
            }),
    {
        let balance = self.storage_balance_of(&ctx.predecessor);
        let amount = match amount {
            Some(a) => a,
            None => balance,
        };
        if amount > balance {
            return Err(CampaignError::WithdrawalExceedsBalance);
        }
        let remainder = balance - amount;
        if remainder > 0 {
            self.storage_deposits.insert(ctx.predecessor.clone(), remainder);
            Ok((remainder, Transfer { receiver: ctx.predecessor.clone(), amount, ft_id: None }))
        } else {
            self.storage_deposits.remove(&ctx.predecessor);
            Ok((0, Transfer { receiver: ctx.predecessor.clone(), amount: freed_storage_cost, ft_id: None }))
        }
    }
}

} // verus!
