//! State of the pot deployer, its views, and the deployment of pots.
use vstd::prelude::*;
use crate::collections::{AccountMap, AccountSet};
use crate::env::{is_valid_account_id, spec_valid_account_id, CallContext};
use crate::pot_deployer::types::{ContractConfigExternal, Pot, PotArgs, PotDeployerError, ProtocolConfig};
use crate::pot_factory::pots::{pot_account_id, spec_min_deployment_deposit, spec_pot_account_id};
use crate::pot_factory::slug::{slugify, spec_slugify};
use crate::pot_factory::validation::EXTRA_BYTES;
use crate::env::{spec_storage_byte_cost, storage_byte_cost};

verus! {

/// The pot deployer contract.
pub struct Contract {
    pub owner: String,
    pub admins: AccountSet,
    /// Every pot deployed successfully, by pot account ID.
    pub pots_by_id: AccountMap<Pot>,
    pub protocol_fee_basis_points: u32,
    pub protocol_fee_recipient_account: String,
    pub default_chef_fee_basis_points: u32,
    pub whitelisted_deployers: AccountSet,
    pub require_whitelist: bool,
}

/// The result of a successful `deploy_pot`, for the host to carry out: create
/// the account `pot_id` funded with `deposit`, deploy the pot code, call its
/// `new` with `pot_args`, then `deploy_pot_callback`.
pub struct PotDeployment {
    pub pot_id: String,
    pub pot_args: PotArgs,
    pub deposit: u128,
}

impl Contract {
    /// The sets and the map are well formed.
    pub open spec fn wf(&self) -> bool {
        &&& self.admins.wf()
        &&& self.pots_by_id.wf()
        &&& self.whitelisted_deployers.wf()
    }

    /// A new deployer with no pots; `admins` and `whitelisted_deployers` are
    /// taken as sets.
    pub fn new(
        owner: String,
        admins: Vec<String>,
        protocol_fee_basis_points: u32,
        protocol_fee_recipient_account: String,
        default_chef_fee_basis_points: u32,
        whitelisted_deployers: Vec<String>,
        require_whitelist: bool,
    ) -> (c: Self)
        ensures
            c.wf(),
            c.owner == owner,
            forall|a: Seq<char>| #[trigger] c.admins@.contains(a) <==> admins@.map_values(|s: String| s@).contains(a),
            c.pots_by_id@ == Map::<Seq<char>, Pot>::empty(),
            c.protocol_fee_basis_points == protocol_fee_basis_points,
            c.protocol_fee_recipient_account == protocol_fee_recipient_account,
            c.default_chef_fee_basis_points == default_chef_fee_basis_points,
            forall|a: Seq<char>| #[trigger] c.whitelisted_deployers@.contains(a)
                <==> whitelisted_deployers@.map_values(|s: String| s@).contains(a),
            c.require_whitelist == require_whitelist,
    {
        Contract {
            owner,
            admins: AccountSet::from_vec(&admins),
            pots_by_id: AccountMap::new(),
            protocol_fee_basis_points,
            protocol_fee_recipient_account,
            default_chef_fee_basis_points,
            whitelisted_deployers: AccountSet::from_vec(&whitelisted_deployers),
            require_whitelist,
        }
    }

    /// The deployer's configuration.
    pub fn get_config(&self) -> (c: ContractConfigExternal)
        ensures
            c.owner == self.owner,
            c.admins@.map_values(|s: String| s@) == self.admins@,
            c.protocol_fee_basis_points == self.protocol_fee_basis_points,
            c.protocol_fee_recipient_account == self.protocol_fee_recipient_account,
            c.default_chef_fee_basis_points == self.default_chef_fee_basis_points,
            c.whitelisted_deployers@.map_values(|s: String| s@) == self.whitelisted_deployers@,
            c.require_whitelist == self.require_whitelist,
    {
        ContractConfigExternal {
            owner: self.owner.clone(),
            admins: self.admins.to_vec(),
            protocol_fee_basis_points: self.protocol_fee_basis_points,
            protocol_fee_recipient_account: self.protocol_fee_recipient_account.clone(),
            default_chef_fee_basis_points: self.default_chef_fee_basis_points,
            whitelisted_deployers: self.whitelisted_deployers.to_vec(),
            require_whitelist: self.require_whitelist,
        }
    }

    /// The protocol fee and its recipient.
    pub fn get_protocol_config(&self) -> (c: ProtocolConfig)
        ensures
            c == (ProtocolConfig {
                protocol_fee_basis_points: self.protocol_fee_basis_points,
                protocol_fee_recipient_account: self.protocol_fee_recipient_account,
            }),
    {
        ProtocolConfig {
            protocol_fee_basis_points: self.protocol_fee_basis_points,
            protocol_fee_recipient_account: self.protocol_fee_recipient_account.clone(),
        }
    }

    /// The caller is the owner or a whitelisted deployer.
    pub open spec fn spec_may_deploy(&self, caller: Seq<char>) -> bool {
        caller == self.owner@ || self.whitelisted_deployers@.contains(caller)
    }

    pub fn assert_admin_or_whitelisted_deployer(&self, ctx: &CallContext) -> (r: Result<(), PotDeployerError>)
        ensures
            r is Ok <==> self.spec_may_deploy(ctx.predecessor@),
            r is Err ==> r == Err::<(), PotDeployerError>(PotDeployerError::NotWhitelistedDeployer),
    {
        if ctx.predecessor == self.owner || self.whitelisted_deployers.contains(&ctx.predecessor) {
            Ok(())
        } else {
            Err(PotDeployerError::NotWhitelistedDeployer)
        }
    }

    /// Deposit moved to a new pot account, for pot code of `wasm_code_len`
    /// bytes and arguments whose serialization takes `args_len` bytes.
    pub fn get_min_deployment_deposit(&self, wasm_code_len: usize, args_len: usize) -> (r: u128)
        requires
            wasm_code_len + EXTRA_BYTES + 2 * args_len <= usize::MAX,
        ensures
            r == spec_min_deployment_deposit(wasm_code_len as int, args_len as int),
    {
        let bytes: usize = wasm_code_len + EXTRA_BYTES + args_len * 2;
        let price = storage_byte_cost();
        assert(bytes as int * spec_storage_byte_cost() <= u128::MAX) by (nonlinear_arith)
            requires
                bytes <= usize::MAX,
                usize::MAX <= u64::MAX,
                spec_storage_byte_cost() == 10_000_000_000_000_000_000int,
        ;
        (bytes as u128) * price
    }

    /// Deploys a pot under `"{slug of its name}.{deployer}"` (owner or
    /// whitelisted deployers only), funding its account with the minimum
    /// deployment deposit; nothing is recorded until the callback.
    pub fn deploy_pot(&self, ctx: &CallContext, pot_args: PotArgs, wasm_code_len: usize, args_len: usize) -> (r: Result<PotDeployment, PotDeployerError>)
        requires
            wasm_code_len + EXTRA_BYTES + 2 * args_len <= usize::MAX,
        ensures
            ({
                let pot_id = spec_pot_account_id(spec_slugify(pot_args.pot_name@), ctx.current_account@);
                &&& (r is Ok <==> self.spec_may_deploy(ctx.predecessor@)
                    && spec_valid_account_id(vstd::utf8::encode_utf8(pot_id)))
                &&& (r matches Err(e) ==> e == if !self.spec_may_deploy(ctx.predecessor@) {
                    PotDeployerError::NotWhitelistedDeployer
                } else {
                    PotDeployerError::InvalidPotAccountId
                })
                &&& (r matches Ok(d) ==> d.pot_id@ == pot_id && d.pot_args == pot_args
                    && d.deposit == spec_min_deployment_deposit(wasm_code_len as int, args_len as int))
            }),
    {
        self.assert_admin_or_whitelisted_deployer(ctx)?;
        let handle = slugify(pot_args.pot_name.as_str());
        let pot_id = pot_account_id(&handle, &ctx.current_account);
        if !is_valid_account_id(pot_id.as_str().as_bytes()) {
            return Err(PotDeployerError::InvalidPotAccountId);
        }
        let deposit = self.get_min_deployment_deposit(wasm_code_len, args_len);
        Ok(PotDeployment { pot_id, pot_args, deposit })
    }

    /// Records the pot once its deployment has succeeded, as deployed by the
    /// signer; a failed deployment is refused and changes nothing.
    pub fn deploy_pot_callback(&mut self, ctx: &CallContext, pot_id: String, succeeded: bool) -> (r: Result<Pot, PotDeployerError>)
        requires
            old(self).wf(),
        ensures
            final(self).wf(),
            !succeeded ==> r == Err::<Pot, PotDeployerError>(PotDeployerError::DeploymentFailed) && *final(self) == *old(self),
            succeeded ==> r == Ok::<Pot, PotDeployerError>(Pot { pot_id, deployed_by: ctx.signer }),
            succeeded ==> final(self).pots_by_id@ == old(self).pots_by_id@.insert(pot_id@, Pot { pot_id, deployed_by: ctx.signer }),
            succeeded ==> *final(self) == (Contract { pots_by_id: final(self).pots_by_id, ..*old(self) }),
    {
        if !succeeded {
            return Err(PotDeployerError::DeploymentFailed);
        }
        let pot = Pot { pot_id: pot_id.clone(), deployed_by: ctx.signer.clone() };
        self.pots_by_id.insert(pot_id, pot.copy());
        Ok(pot)
    }

    /// Every recorded pot, in the order of the record map.
    pub fn get_pots(&self) -> (r: Vec<Pot>)
        requires
            self.wf(),
        ensures
            r@.len() == self.pots_by_id.order().len(),
            forall|j: int| 0 <= j < r@.len() ==> #[trigger] r@[j] == self.pots_by_id@[self.pots_by_id.order()[j]],
    {
        let mut r: Vec<Pot> = Vec::new();
        let mut i: usize = 0;
        while i < self.pots_by_id.len()
            invariant
                self.wf(),
                i <= self.pots_by_id.order().len(),
                r@.len() == i,
                forall|j: int| 0 <= j < i ==> #[trigger] r@[j] == self.pots_by_id@[self.pots_by_id.order()[j]],
            decreases self.pots_by_id.order().len() - i,
        {
            r.push(self.pots_by_id.value_at(i).copy());
            i += 1;
        }
        r
    }
}

} // verus!
