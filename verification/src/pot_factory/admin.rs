//! Owner and admin settings of the pot factory. Each call either is refused
//! and changes nothing, or changes exactly the fields it names.
use vstd::prelude::*;
use crate::env::CallContext;
use crate::pot_factory::contract::Contract;
use crate::pot_factory::types::PotFactoryError;

verus! {

impl Contract {
    /// Hands the factory to `new_owner` (owner only).
    pub fn owner_change_owner(&mut self, ctx: &CallContext, new_owner: String) -> (r: Result<(), PotFactoryError>)
        requires
            old(self).wf(),
        ensures
            final(self).wf(),
            r == old(self).spec_owner_check(*ctx),
            r is Err ==> *final(self) == *old(self),
            r is Ok ==> *final(self) == (Contract { owner: new_owner, ..*old(self) }),
    {
        self.assert_owner(ctx)?;
        self.owner = new_owner;
        Ok(())
    }

    /// Replaces the admins by the accounts of `account_ids` (owner only).
    pub fn owner_set_admins(&mut self, ctx: &CallContext, account_ids: Vec<String>) -> (r: Result<(), PotFactoryError>)
        requires
            old(self).wf(),
        ensures
            final(self).wf(),
            r == old(self).spec_owner_check(*ctx),
            r is Err ==> *final(self) == *old(self),
            r is Ok ==> *final(self) == (Contract { admins: final(self).admins, ..*old(self) }),
            r is Ok ==> forall|a: Seq<char>| #[trigger] final(self).admins@.contains(a)
                <==> account_ids@.map_values(|s: String| s@).contains(a),
    {
        self.assert_owner(ctx)?;
        self.admins.clear();
        self.admins.insert_all(&account_ids);
        Ok(())
    }

    /// Adds the accounts of `account_ids` to the admins (owner only).
    pub fn owner_add_admins(&mut self, ctx: &CallContext, account_ids: Vec<String>) -> (r: Result<(), PotFactoryError>)
        requires
            old(self).wf(),
        ensures
            final(self).wf(),
            r == old(self).spec_owner_check(*ctx),
            r is Err ==> *final(self) == *old(self),
            r is Ok ==> *final(self) == (Contract { admins: final(self).admins, ..*old(self) }),
            r is Ok ==> forall|a: Seq<char>| #[trigger] final(self).admins@.contains(a)
                <==> (old(self).admins@.contains(a) || account_ids@.map_values(|s: String| s@).contains(a)),
    {
        self.assert_owner(ctx)?;
        self.admins.insert_all(&account_ids);
        Ok(())
    }

    /// Removes the accounts of `account_ids` from the admins (owner only).
    pub fn owner_remove_admins(&mut self, ctx: &CallContext, account_ids: Vec<String>) -> (r: Result<(), PotFactoryError>)
        requires
            old(self).wf(),
        ensures
            final(self).wf(),
            r == old(self).spec_owner_check(*ctx),
            r is Err ==> *final(self) == *old(self),
            r is Ok ==> *final(self) == (Contract { admins: final(self).admins, ..*old(self) }),
            r is Ok ==> forall|a: Seq<char>| #[trigger] final(self).admins@.contains(a)
                <==> (old(self).admins@.contains(a) && !account_ids@.map_values(|s: String| s@).contains(a)),
    {
        self.assert_owner(ctx)?;
        self.admins.remove_all(&account_ids);
        Ok(())
    }

    /// Removes every admin (owner only).
    pub fn owner_clear_admins(&mut self, ctx: &CallContext) -> (r: Result<(), PotFactoryError>)
        requires
            old(self).wf(),
        ensures
            final(self).wf(),
            r == old(self).spec_owner_check(*ctx),
            r is Err ==> *final(self) == *old(self),
            r is Ok ==> *final(self) == (Contract { admins: final(self).admins, ..*old(self) }),
            r is Ok ==> final(self).admins@ == Seq::<Seq<char>>::empty(),
    {
        self.assert_owner(ctx)?;
        self.admins.clear();
        Ok(())
    }

    /// Sets the protocol fee (admin or owner).
    pub fn admin_set_protocol_fee_basis_points(&mut self, ctx: &CallContext, protocol_fee_basis_points: u32) -> (r: Result<(), PotFactoryError>)
        requires
            old(self).wf(),
        ensures
            final(self).wf(),
            r == old(self).spec_admin_check(*ctx),
            r is Err ==> *final(self) == *old(self),
            r is Ok ==> *final(self) == (Contract { protocol_fee_basis_points, ..*old(self) }),
    {
        self.assert_admin_or_greater(ctx)?;
        self.protocol_fee_basis_points = protocol_fee_basis_points;
        Ok(())
    }

    /// Sets the account that receives protocol fees (admin or owner).
    pub fn admin_set_protocol_fee_recipient_account(&mut self, ctx: &CallContext, protocol_fee_recipient_account: String) -> (r: Result<(), PotFactoryError>)
        requires
            old(self).wf(),
        ensures
            final(self).wf(),
            r == old(self).spec_admin_check(*ctx),
            r is Err ==> *final(self) == *old(self),
            r is Ok ==> *final(self) == (Contract { protocol_fee_recipient_account, ..*old(self) }),
    {
        self.assert_admin_or_greater(ctx)?;
        self.protocol_fee_recipient_account = protocol_fee_recipient_account;
        Ok(())
    }

    /// Sets the protocol fee and its recipient together (admin or owner).
    pub fn admin_set_protocol_config(
        &mut self,
        ctx: &CallContext,
        protocol_fee_basis_points: u32,
        protocol_fee_recipient_account: String,
    ) -> (r: Result<(), PotFactoryError>)
        requires
            old(self).wf(),
        ensures
            final(self).wf(),
            r == old(self).spec_admin_check(*ctx),
            r is Err ==> *final(self) == *old(self),
            r is Ok ==> *final(self) == (Contract { protocol_fee_basis_points, protocol_fee_recipient_account, ..*old(self) }),
    {
        self.assert_admin_or_greater(ctx)?;
        self.protocol_fee_basis_points = protocol_fee_basis_points;
        self.protocol_fee_recipient_account = protocol_fee_recipient_account;
        Ok(())
    }

    /// Sets the chef fee of new pots (admin or owner).
    pub fn admin_set_default_chef_fee_basis_points(&mut self, ctx: &CallContext, default_chef_fee_basis_points: u32) -> (r: Result<(), PotFactoryError>)
        requires
            old(self).wf(),
        ensures
            final(self).wf(),
            r == old(self).spec_admin_check(*ctx),
            r is Err ==> *final(self) == *old(self),
            r is Ok ==> *final(self) == (Contract { default_chef_fee_basis_points, ..*old(self) }),
    {
        self.assert_admin_or_greater(ctx)?;
        self.default_chef_fee_basis_points = default_chef_fee_basis_points;
        Ok(())
    }

    /// Adds the accounts of `whitelisted_deployers` to the whitelist (admin or owner).
    pub fn admin_add_whitelisted_deployers(&mut self, ctx: &CallContext, whitelisted_deployers: Vec<String>) -> (r: Result<(), PotFactoryError>)
        requires
            old(self).wf(),
        ensures
            final(self).wf(),
            r == old(self).spec_admin_check(*ctx),
            r is Err ==> *final(self) == *old(self),
            r is Ok ==> *final(self) == (Contract { whitelisted_deployers: final(self).whitelisted_deployers, ..*old(self) }),
            r is Ok ==> forall|a: Seq<char>| #[trigger] final(self).whitelisted_deployers@.contains(a)
                <==> (old(self).whitelisted_deployers@.contains(a)
                    || whitelisted_deployers@.map_values(|s: String| s@).contains(a)),
    {
        self.assert_admin_or_greater(ctx)?;
        self.whitelisted_deployers.insert_all(&whitelisted_deployers);
        Ok(())
    }

    /// Removes the accounts of `whitelisted_deployers` from the whitelist (admin or owner).
    pub fn admin_remove_whitelisted_deployers(&mut self, ctx: &CallContext, whitelisted_deployers: Vec<String>) -> (r: Result<(), PotFactoryError>)
        requires
            old(self).wf(),
        ensures
            final(self).wf(),
            r == old(self).spec_admin_check(*ctx),
            r is Err ==> *final(self) == *old(self),
            r is Ok ==> *final(self) == (Contract { whitelisted_deployers: final(self).whitelisted_deployers, ..*old(self) }),
            r is Ok ==> forall|a: Seq<char>| #[trigger] final(self).whitelisted_deployers@.contains(a)
                <==> (old(self).whitelisted_deployers@.contains(a)
                    && !whitelisted_deployers@.map_values(|s: String| s@).contains(a)),
    {
        self.assert_admin_or_greater(ctx)?;
        self.whitelisted_deployers.remove_all(&whitelisted_deployers);
        Ok(())
    }

    /// Sets whether deployers must be whitelisted (admin or owner).
    pub fn admin_set_require_whitelist(&mut self, ctx: &CallContext, require_whitelist: bool) -> (r: Result<(), PotFactoryError>)
        requires
            old(self).wf(),
        ensures
            final(self).wf(),
            r == old(self).spec_admin_check(*ctx),
            r is Err ==> *final(self) == *old(self),
            r is Ok ==> *final(self) == (Contract { require_whitelist, ..*old(self) }),
    {
        self.assert_admin_or_greater(ctx)?;
        self.require_whitelist = require_whitelist;
        Ok(())
    }
}

} // verus!
