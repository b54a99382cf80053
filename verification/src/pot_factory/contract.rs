//! State of the pot factory, who may call what, and its configuration views.
use vstd::prelude::*;
use crate::collections::{AccountMap, AccountSet};
use crate::env::CallContext;
use crate::pot::types::ContractSourceMetadata;
use crate::pot_factory::types::{ContractConfigExternal, Pot, PotFactoryError, ProtocolConfig};

verus! {

/// The pot factory contract.
pub struct Contract {
    /// Superuser of the factory.
    pub owner: String,
    /// Admins, added and removed by the owner.
    pub admins: AccountSet,
    /// Every pot deployed by the factory, by pot account ID.
    pub pots_by_id: AccountMap<Pot>,
    /// Protocol fee, in basis points.
    pub protocol_fee_basis_points: u32,
    pub protocol_fee_recipient_account: String,
    /// Chef fee of new pots, in basis points.
    pub default_chef_fee_basis_points: u32,
    /// Accounts allowed to deploy pots.
    pub whitelisted_deployers: AccountSet,
    /// Whether deployers must be whitelisted (or owner or admin).
    pub require_whitelist: bool,
    pub contract_source_metadata: Option<ContractSourceMetadata>,
}

impl Contract {
    /// The sets and the map are well formed.
    pub open spec fn wf(&self) -> bool {
        &&& self.admins.wf()
        &&& self.pots_by_id.wf()
        &&& self.whitelisted_deployers.wf()
    }

    /// A new factory with no pots; `admins` and `whitelisted_deployers` are
    /// taken as sets.
    pub fn new(
        owner: String,
        admins: Vec<String>,
        protocol_fee_basis_points: u32,
        protocol_fee_recipient_account: String,
        default_chef_fee_basis_points: u32,
        whitelisted_deployers: Vec<String>,
        require_whitelist: bool,
        source_metadata: ContractSourceMetadata,
    ) -> (c: Self)
        ensures
            c.wf(),
            c.owner == owner,
            forall|a: Seq<char>| #[trigger] c.admins@.contains(a) <==> admins@.map_values(|s: String| s@).contains(a),
            c.pots_by_id@ == Map::<Seq<char>, Pot>::empty(),
            c.protocol_fee_basis_points == protocol_fee_basis_points,
            c.protocol_fee_recipient_account == protocol_fee_recipient_account,
            c.default_chef_fee_basis_points == default_chef_fee_basis_points,
            forall|a: Seq<char>| #[trigger] c.whitelisted_deployers@.contains(a)
                <==> whitelisted_deployers@.map_values(|s: String| s@).contains(a),
            c.require_whitelist == require_whitelist,
            c.contract_source_metadata == Some(source_metadata),
    {
        Contract {
            owner,
            admins: AccountSet::from_vec(&admins),
            pots_by_id: AccountMap::new(),
            protocol_fee_basis_points,
            protocol_fee_recipient_account,
            default_chef_fee_basis_points,
            whitelisted_deployers: AccountSet::from_vec(&whitelisted_deployers),
            require_whitelist,
            contract_source_metadata: Some(source_metadata),
        }
    }

    /// The factory's configuration.
    pub fn get_config(&self) -> (c: ContractConfigExternal)
        ensures
            c.owner == self.owner,
            c.admins@.map_values(|s: String| s@) == self.admins@,
            c.protocol_fee_basis_points == self.protocol_fee_basis_points,
            c.protocol_fee_recipient_account == self.protocol_fee_recipient_account,
            c.default_chef_fee_basis_points == self.default_chef_fee_basis_points,
            c.whitelisted_deployers@.map_values(|s: String| s@) == self.whitelisted_deployers@,
            c.require_whitelist == self.require_whitelist,
    {
        ContractConfigExternal {
            owner: self.owner.clone(),
            admins: self.admins.to_vec(),
            protocol_fee_basis_points: self.protocol_fee_basis_points,
            protocol_fee_recipient_account: self.protocol_fee_recipient_account.clone(),
            default_chef_fee_basis_points: self.default_chef_fee_basis_points,
            whitelisted_deployers: self.whitelisted_deployers.to_vec(),
            require_whitelist: self.require_whitelist,
        }
    }

    /// The protocol fee and its recipient, as pots query them.
    pub fn get_protocol_config(&self) -> (c: ProtocolConfig)
        ensures
            c == (ProtocolConfig {
                basis_points: self.protocol_fee_basis_points,
                account_id: self.protocol_fee_recipient_account,
            }),
    {
        ProtocolConfig {
            basis_points: self.protocol_fee_basis_points,
            account_id: self.protocol_fee_recipient_account.clone(),
        }
    }

    pub open spec fn spec_is_owner(&self, caller: Seq<char>) -> bool {
        caller == self.owner@
    }

    pub open spec fn spec_is_admin(&self, caller: Seq<char>) -> bool {
        self.admins@.contains(caller)
    }

    pub open spec fn spec_is_whitelisted_deployer(&self, caller: Seq<char>) -> bool {
        self.whitelisted_deployers@.contains(caller)
    }

    pub fn is_owner(&self, ctx: &CallContext) -> (b: bool)
        ensures
            b == self.spec_is_owner(ctx.predecessor@),
    {
        ctx.predecessor == self.owner
    }

    pub fn is_admin(&self, ctx: &CallContext) -> (b: bool)
        ensures
            b == self.spec_is_admin(ctx.predecessor@),
    {
        self.admins.contains(&ctx.predecessor)
    }

    pub fn is_whitelisted_deployer(&self, ctx: &CallContext) -> (b: bool)
        ensures
            b == self.spec_is_whitelisted_deployer(ctx.predecessor@),
    {
        self.whitelisted_deployers.contains(&ctx.predecessor)
    }

    /// Privileged calls carry at least one yoctoNEAR.
    pub fn assert_at_least_one_yocto(&self, ctx: &CallContext) -> (r: Result<(), PotFactoryError>)
        ensures
            r == (if ctx.attached_deposit >= 1 {
                Ok::<(), PotFactoryError>(())
            } else {
                Err(PotFactoryError::DepositRequired)
            }),
    {
        if ctx.attached_deposit >= 1 {
            Ok(())
        } else {
            Err(PotFactoryError::DepositRequired)
        }
    }

    /// Owner check (the call must carry at least one yoctoNEAR).
    pub open spec fn spec_owner_check(&self, ctx: CallContext) -> Result<(), PotFactoryError> {
        if !self.spec_is_owner(ctx.predecessor@) {
            Err(PotFactoryError::OwnerOnly)
        } else if ctx.attached_deposit < 1 {
            Err(PotFactoryError::DepositRequired)
        } else {
            Ok(())
        }
    }

    /// Admin-or-owner check (the call must carry at least one yoctoNEAR).
    pub open spec fn spec_admin_check(&self, ctx: CallContext) -> Result<(), PotFactoryError> {
        if !(self.spec_is_admin(ctx.predecessor@) || self.spec_is_owner(ctx.predecessor@)) {
            Err(PotFactoryError::AdminOnly)
        } else if ctx.attached_deposit < 1 {
            Err(PotFactoryError::DepositRequired)
        } else {
            Ok(())
        }
    }

    /// Deployer check: owner, admin or whitelisted deployer (the call must
    /// carry at least one yoctoNEAR).
    pub open spec fn spec_deployer_check(&self, ctx: CallContext) -> Result<(), PotFactoryError> {
        if !(self.spec_is_owner(ctx.predecessor@) || self.spec_is_admin(ctx.predecessor@)
            || self.spec_is_whitelisted_deployer(ctx.predecessor@)) {
            Err(PotFactoryError::NotWhitelistedDeployer)
        } else if ctx.attached_deposit < 1 {
            Err(PotFactoryError::DepositRequired)
        } else {
            Ok(())
        }
    }

    pub fn assert_owner(&self, ctx: &CallContext) -> (r: Result<(), PotFactoryError>)
        ensures
            r == self.spec_owner_check(*ctx),
    {
        if !self.is_owner(ctx) {
            return Err(PotFactoryError::OwnerOnly);
        }
        self.assert_at_least_one_yocto(ctx)
    }

    pub fn assert_admin_or_greater(&self, ctx: &CallContext) -> (r: Result<(), PotFactoryError>)
        ensures
            r == self.spec_admin_check(*ctx),
    {
        if !(self.is_admin(ctx) || self.is_owner(ctx)) {
            return Err(PotFactoryError::AdminOnly);
        }
        self.assert_at_least_one_yocto(ctx)
    }

    pub fn assert_admin_or_whitelisted_deployer(&self, ctx: &CallContext) -> (r: Result<(), PotFactoryError>)
        ensures
            r == self.spec_deployer_check(*ctx),
    {
        if !(self.is_owner(ctx) || self.is_admin(ctx) || self.is_whitelisted_deployer(ctx)) {
            return Err(PotFactoryError::NotWhitelistedDeployer);
        }
        self.assert_at_least_one_yocto(ctx)
    }
}

} // verus!
