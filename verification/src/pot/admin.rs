//! Configuration of the pot by its owner and admins, and the configuration view.
use vstd::prelude::*;
use crate::collections::{AccountMap, AccountSet};
use crate::env::CallContext;
use crate::pot::contract::{custom_sybil_checks_map, spec_sybil_checks, Contract};
use crate::pot::types::{ContractSourceMetadata, CustomSybilCheck, PotError, TimestampMs, UpdatePotArgs};
use crate::pot::validation::{
    assert_valid_chef_fee_basis_points, assert_valid_max_projects, assert_valid_pot_description,
    assert_valid_pot_name, assert_valid_provider_id, assert_valid_referral_fee_matching_pool_basis_points,
    assert_valid_referral_fee_public_round_basis_points, check_timestamps, spec_timestamps_check,
    MAX_CHEF_FEE_BASIS_POINTS, MAX_MAX_PROJECTS, MAX_POT_DESCRIPTION_LENGTH, MAX_POT_NAME_LENGTH,
    MAX_REFERRAL_FEE_MATCHING_POOL_BASIS_POINTS, MAX_REFERRAL_FEE_PUBLIC_ROUND_BASIS_POINTS,
};
use crate::provider::{spec_provider_text, spec_validate, ProviderId};
use crate::util::{clone_opt_string, unwrap_or};
use crate::text::spec_utf8_len;

verus! {

/// Configuration of a pot, as returned by `get_config`.
pub struct PotConfig {
    pub owner: String,
    pub admins: Vec<String>,
    pub chef: Option<String>,
    pub pot_name: String,
    pub pot_description: String,
    pub tags: Vec<String>,
    pub max_projects: u32,
    pub base_currency: String,
    pub application_start_ms: TimestampMs,
    pub application_end_ms: TimestampMs,
    pub public_round_start_ms: TimestampMs,
    pub public_round_end_ms: TimestampMs,
    pub deployed_by: String,
    pub registry_provider: Option<ProviderId>,
    pub min_matching_pool_donation_amount: u128,
    pub sybil_wrapper_provider: Option<ProviderId>,
    pub custom_min_threshold_score: Option<u32>,
    pub referral_fee_matching_pool_basis_points: u32,
    pub referral_fee_public_round_basis_points: u32,
    pub chef_fee_basis_points: u32,
    pub total_matching_pool_donations: u128,
    pub matching_pool_balance: u128,
    pub total_public_donations: u128,
    pub public_donations_count: u32,
    pub cooldown_period_ms: u64,
    pub cooldown_end_ms: Option<TimestampMs>,
    pub compliance_period_ms: Option<u64>,
    pub compliance_end_ms: Option<TimestampMs>,
    pub all_paid_out: bool,
    pub protocol_config_provider: Option<ProviderId>,
}

/// A copy of an optional provider ID.
pub fn clone_opt_provider(p: &Option<ProviderId>) -> (r: Option<ProviderId>)
    ensures
        r == *p,
{
    match p {
        Some(p) => Some(ProviderId(p.0.clone())),
        None => None,
    }
}

/// A copy of a list of strings.
pub fn copy_strings(v: &Vec<String>) -> (r: Vec<String>)
    ensures
        r@ == v@,
{
    let mut r: Vec<String> = Vec::new();
    let mut i: usize = 0;
    while i < v.len()
        invariant
            i <= v@.len(),
            r@ == v@.subrange(0, i as int),
        decreases v@.len() - i,
    {
        r.push(v[i].clone());
        i += 1;
        assert(r@ =~= v@.subrange(0, i as int));
    }
    assert(r@ =~= v@);
    r
}

/// Why the changes `args` are refused by `assert_valid_pot_args`, if they are.
pub open spec fn spec_pot_args_check(c: Contract, args: UpdatePotArgs) -> Result<(), PotError> {
    if args.pot_name matches Some(n) && spec_utf8_len(n@) > MAX_POT_NAME_LENGTH {
        Err(PotError::NameTooLong)
    } else if args.pot_description matches Some(d) && spec_utf8_len(d@) > MAX_POT_DESCRIPTION_LENGTH {
        Err(PotError::DescriptionTooLong)
    } else if args.max_projects matches Some(m) && m > MAX_MAX_PROJECTS {
        Err(PotError::TooManyProjects)
    } else if args.referral_fee_matching_pool_basis_points matches Some(b) && b > MAX_REFERRAL_FEE_MATCHING_POOL_BASIS_POINTS {
        Err(PotError::ReferralFeeTooHigh)
    } else if args.referral_fee_public_round_basis_points matches Some(b) && b > MAX_REFERRAL_FEE_PUBLIC_ROUND_BASIS_POINTS {
        Err(PotError::ReferralFeeTooHigh)
    } else if args.chef_fee_basis_points matches Some(b) && b > MAX_CHEF_FEE_BASIS_POINTS {
        Err(PotError::ChefFeeTooHigh)
    } else if args.registry_provider matches Some(p) && spec_validate(p.0@) is Err {
        Err(PotError::InvalidProvider)
    } else if args.sybil_wrapper_provider matches Some(p) && spec_validate(p.0@) is Err {
        Err(PotError::InvalidProvider)
    } else if args.custom_sybil_checks matches Some(checks) && exists|j: int| 0 <= j < checks@.len()
        && spec_validate(spec_provider_text((#[trigger] checks@[j]).contract_id@, checks@[j].method_name@)) is Err {
        Err(PotError::InvalidProvider)
    } else {
        spec_timestamps_check(
            unwrap_or(args.application_start_ms, c.application_start_ms),
            unwrap_or(args.application_end_ms, c.application_end_ms),
            unwrap_or(args.public_round_start_ms, c.public_round_start_ms),
            unwrap_or(args.public_round_end_ms, c.public_round_end_ms),
        )
    }
}

impl Contract {
    /// Checks round timestamps, each given one replacing the current one.
    pub fn assert_valid_timestamps(
        &self,
        application_start_ms: Option<u64>,
        application_end_ms: Option<u64>,
        public_round_start_ms: Option<u64>,
        public_round_end_ms: Option<u64>,
    ) -> (r: Result<(), PotError>)
        ensures
            r == spec_timestamps_check(
                unwrap_or(application_start_ms, self.application_start_ms),
                unwrap_or(application_end_ms, self.application_end_ms),
                unwrap_or(public_round_start_ms, self.public_round_start_ms),
                unwrap_or(public_round_end_ms, self.public_round_end_ms),
            ),
    {
        let a = match application_start_ms { Some(v) => v, None => self.application_start_ms };
        let b = match application_end_ms { Some(v) => v, None => self.application_end_ms };
        let c = match public_round_start_ms { Some(v) => v, None => self.public_round_start_ms };
        let d = match public_round_end_ms { Some(v) => v, None => self.public_round_end_ms };
        check_timestamps(a, b, c, d)
    }

    /// Checks the changes `args` (see `spec_pot_args_check`).
    #[verifier::loop_isolation(false)]
    pub fn assert_valid_pot_args(&self, args: &UpdatePotArgs) -> (r: Result<(), PotError>)
        ensures
            r == spec_pot_args_check(*self, *args),
    {
        match &args.pot_name {
            Some(n) => assert_valid_pot_name(n.as_str())?,
            None => {},
        }
        match &args.pot_description {
            Some(d) => assert_valid_pot_description(d.as_str())?,
            None => {},
        }
        match args.max_projects {
            Some(m) => assert_valid_max_projects(m)?,
            None => {},
        }
        match args.referral_fee_matching_pool_basis_points {
            Some(b) => assert_valid_referral_fee_matching_pool_basis_points(b)?,
            None => {},
        }
        match args.referral_fee_public_round_basis_points {
            Some(b) => assert_valid_referral_fee_public_round_basis_points(b)?,
            None => {},
        }
        match args.chef_fee_basis_points {
            Some(b) => assert_valid_chef_fee_basis_points(b)?,
            None => {},
        }
        match &args.registry_provider {
            Some(p) => assert_valid_provider_id(p)?,
            None => {},
        }
        match &args.sybil_wrapper_provider {
            Some(p) => assert_valid_provider_id(p)?,
            None => {},
        }
        match &args.custom_sybil_checks {
            Some(checks) => {
                let mut i: usize = 0;
                while i < checks.len()
                    invariant
                        i <= checks@.len(),
                        forall|j: int| 0 <= j < i ==> spec_validate(spec_provider_text((#[trigger] checks@[j]).contract_id@, checks@[j].method_name@)) is Ok,
                    decreases checks@.len() - i,
                {
                    let p = ProviderId::new(checks[i].contract_id.clone(), checks[i].method_name.clone());
                    match assert_valid_provider_id(&p) {
                        Ok(()) => {},
                        Err(e) => {
                            assert(spec_validate(spec_provider_text(checks@[i as int].contract_id@, checks@[i as int].method_name@)) is Err);
                            return Err(e);
                        },
                    }
                    i += 1;
                }
            },
            None => {},
        }
        self.assert_valid_timestamps(args.application_start_ms, args.application_end_ms, args.public_round_start_ms, args.public_round_end_ms)
    }

    /// `n` is pot `self` after the configuration changes `a`, made at `ctx`.
    pub open spec fn spec_updated(&self, n: Contract, ctx: CallContext, a: UpdatePotArgs) -> bool {
        &&& self.spec_updated_people(n, ctx, a.owner, a.admins, a.chef)
        &&& self.spec_updated_round(n, a.pot_name, a.pot_description, a.tags, a.max_projects, a.application_start_ms,
            a.application_end_ms, a.public_round_start_ms, a.public_round_end_ms, a.compliance_period_ms)
        &&& self.spec_updated_providers(n, a.registry_provider, a.min_matching_pool_donation_amount, a.sybil_wrapper_provider,
            a.custom_sybil_checks, a.custom_min_threshold_score, a.referral_fee_matching_pool_basis_points,
            a.referral_fee_public_round_basis_points, a.chef_fee_basis_points)
        &&& self.spec_same_records(n)
    }

    /// Applications, donations, payouts and the matching pool are the same in `self` and `n`.
    pub open spec fn spec_same_records(&self, n: Contract) -> bool {
        &&& n.applications_by_id == self.applications_by_id
        &&& n.approved_application_ids == self.approved_application_ids
        &&& n.donations_by_id == self.donations_by_id
        &&& n.payouts_by_id == self.payouts_by_id
        &&& n.matching_pool_balance == self.matching_pool_balance
    }

    /// Owner, admins and chef after the changes.
    pub open spec fn spec_updated_people(&self, n: Contract, ctx: CallContext, owner: Option<String>, admins: Option<Vec<String>>, chef: Option<String>) -> bool {
        &&& n.owner == (if owner is Some && ctx.signer@ == self.owner@ { owner->0 } else { self.owner })
        &&& (admins matches Some(list) ==> forall|x: Seq<char>| #[trigger] n.admins@.contains(x) <==> list@.map_values(|s: String| s@).contains(x))
        &&& (admins is None ==> n.admins == self.admins)
        &&& n.chef == chef
    }

    /// Name, description, tags, project limit and timing after the changes.
    pub open spec fn spec_updated_round(
        &self,
        n: Contract,
        pot_name: Option<String>,
        pot_description: Option<String>,
        tags: Option<Vec<String>>,
        max_projects: Option<u32>,
        application_start_ms: Option<u64>,
        application_end_ms: Option<u64>,
        public_round_start_ms: Option<u64>,
        public_round_end_ms: Option<u64>,
        compliance_period_ms: Option<u64>,
    ) -> bool {
        &&& n.pot_name == unwrap_or(pot_name, self.pot_name)
        &&& n.pot_description == unwrap_or(pot_description, self.pot_description)
        &&& n.tags@ == (match tags { Some(t) => t@, None => self.tags@ })
        &&& n.max_projects == unwrap_or(max_projects, self.max_projects)
        &&& n.application_start_ms == unwrap_or(application_start_ms, self.application_start_ms)
        &&& n.application_end_ms == unwrap_or(application_end_ms, self.application_end_ms)
        &&& n.public_round_start_ms == unwrap_or(public_round_start_ms, self.public_round_start_ms)
        &&& n.public_round_end_ms == unwrap_or(public_round_end_ms, self.public_round_end_ms)
        &&& n.compliance_period_ms == (if compliance_period_ms is Some { compliance_period_ms } else { self.compliance_period_ms })
    }

    /// Providers, sybil settings, minimum and fee rates after the changes.
    pub open spec fn spec_updated_providers(
        &self,
        n: Contract,
        registry_provider: Option<ProviderId>,
        min_matching_pool_donation_amount: Option<u128>,
        sybil_wrapper_provider: Option<ProviderId>,
        custom_sybil_checks: Option<Vec<CustomSybilCheck>>,
        custom_min_threshold_score: Option<u32>,
        referral_fee_matching_pool_basis_points: Option<u32>,
        referral_fee_public_round_basis_points: Option<u32>,
        chef_fee_basis_points: Option<u32>,
    ) -> bool {
        &&& n.registry_provider == registry_provider
        &&& n.min_matching_pool_donation_amount == unwrap_or(min_matching_pool_donation_amount, self.min_matching_pool_donation_amount)
        &&& n.sybil_wrapper_provider == sybil_wrapper_provider
        &&& (custom_sybil_checks matches Some(checks) ==> n.custom_sybil_checks matches Some(m) && m@ == spec_sybil_checks(checks@))
        &&& (custom_sybil_checks is None ==> n.custom_sybil_checks is None)
        &&& n.custom_min_threshold_score == custom_min_threshold_score
        &&& n.referral_fee_matching_pool_basis_points == unwrap_or(referral_fee_matching_pool_basis_points, self.referral_fee_matching_pool_basis_points)
        &&& n.referral_fee_public_round_basis_points == unwrap_or(referral_fee_public_round_basis_points, self.referral_fee_public_round_basis_points)
        &&& n.chef_fee_basis_points == unwrap_or(chef_fee_basis_points, self.chef_fee_basis_points)
    }

    /// Applies the configuration changes `update_args` (see `spec_updated`).
    fn apply_pot_update(&mut self, ctx: &CallContext, update_args: UpdatePotArgs)
        requires
            old(self).wf(),
        ensures
            final(self).wf(),
            old(self).spec_updated(*final(self), *ctx, update_args),
    {
        let UpdatePotArgs {
            owner, admins, chef, pot_name, pot_description, tags, max_projects,
            application_start_ms, application_end_ms, public_round_start_ms, public_round_end_ms,
            compliance_period_ms, registry_provider, min_matching_pool_donation_amount,
            sybil_wrapper_provider, custom_sybil_checks, custom_min_threshold_score,
            referral_fee_matching_pool_basis_points, referral_fee_public_round_basis_points, chef_fee_basis_points,
        } = update_args;
        self.update_people(ctx, owner, admins, chef);
        self.update_round(pot_name, pot_description, tags, max_projects, application_start_ms, application_end_ms,
            public_round_start_ms, public_round_end_ms, compliance_period_ms);
        self.update_providers(registry_provider, min_matching_pool_donation_amount, sybil_wrapper_provider,
            custom_sybil_checks, custom_min_threshold_score, referral_fee_matching_pool_basis_points,
            referral_fee_public_round_basis_points, chef_fee_basis_points);
    }

    fn update_people(&mut self, ctx: &CallContext, owner: Option<String>, admins: Option<Vec<String>>, chef: Option<String>)
        requires
            old(self).wf(),
        ensures
            final(self).wf(),
            old(self).spec_updated_people(*final(self), *ctx, owner, admins, chef),
            old(self).spec_updated_round(*final(self), None, None, None, None, None, None, None, None, None),
            final(self).registry_provider == old(self).registry_provider,
            final(self).sybil_wrapper_provider == old(self).sybil_wrapper_provider,
            final(self).custom_sybil_checks == old(self).custom_sybil_checks,
            final(self).custom_min_threshold_score == old(self).custom_min_threshold_score,
            final(self).min_matching_pool_donation_amount == old(self).min_matching_pool_donation_amount,
            final(self).referral_fee_matching_pool_basis_points == old(self).referral_fee_matching_pool_basis_points,
            final(self).referral_fee_public_round_basis_points == old(self).referral_fee_public_round_basis_points,
            final(self).chef_fee_basis_points == old(self).chef_fee_basis_points,
            old(self).spec_same_records(*final(self)),
    {
        match owner {
            Some(o) => {
                if ctx.signer == self.owner {
                    self.owner = o;
                }
            },
            None => {},
        }
        match admins {
            Some(list) => {
                self.admins.clear();
                self.admins.insert_all(&list);
            },
            None => {},
        }
        self.chef = chef;
    }

    fn update_round(
        &mut self,
        pot_name: Option<String>,
        pot_description: Option<String>,
        tags: Option<Vec<String>>,
        max_projects: Option<u32>,
        application_start_ms: Option<u64>,
        application_end_ms: Option<u64>,
        public_round_start_ms: Option<u64>,
        public_round_end_ms: Option<u64>,
        compliance_period_ms: Option<u64>,
    )
        requires
            old(self).wf(),
        ensures
            final(self).wf(),
            old(self).spec_updated_round(*final(self), pot_name, pot_description, tags, max_projects, application_start_ms,
                application_end_ms, public_round_start_ms, public_round_end_ms, compliance_period_ms),
            final(self).owner == old(self).owner,
            final(self).admins == old(self).admins,
            final(self).chef == old(self).chef,
            final(self).registry_provider == old(self).registry_provider,
            final(self).sybil_wrapper_provider == old(self).sybil_wrapper_provider,
            final(self).custom_sybil_checks == old(self).custom_sybil_checks,
            final(self).custom_min_threshold_score == old(self).custom_min_threshold_score,
            final(self).min_matching_pool_donation_amount == old(self).min_matching_pool_donation_amount,
            final(self).referral_fee_matching_pool_basis_points == old(self).referral_fee_matching_pool_basis_points,
            final(self).referral_fee_public_round_basis_points == old(self).referral_fee_public_round_basis_points,
            final(self).chef_fee_basis_points == old(self).chef_fee_basis_points,
            old(self).spec_same_records(*final(self)),
    {
        match pot_name { Some(n) => { self.pot_name = n; }, None => {} }
        match pot_description { Some(d) => { self.pot_description = d; }, None => {} }
        match tags { Some(t) => { self.tags = t; }, None => {} }
        match max_projects { Some(m) => { self.max_projects = m; }, None => {} }
        match application_start_ms { Some(v) => { self.application_start_ms = v; }, None => {} }
        match application_end_ms { Some(v) => { self.application_end_ms = v; }, None => {} }
        match public_round_start_ms { Some(v) => { self.public_round_start_ms = v; }, None => {} }
        match public_round_end_ms { Some(v) => { self.public_round_end_ms = v; }, None => {} }
        match compliance_period_ms { Some(v) => { self.compliance_period_ms = Some(v); }, None => {} }
    }

    fn update_providers(
        &mut self,
        registry_provider: Option<ProviderId>,
        min_matching_pool_donation_amount: Option<u128>,
        sybil_wrapper_provider: Option<ProviderId>,
        custom_sybil_checks: Option<Vec<CustomSybilCheck>>,
        custom_min_threshold_score: Option<u32>,
        referral_fee_matching_pool_basis_points: Option<u32>,
        referral_fee_public_round_basis_points: Option<u32>,
        chef_fee_basis_points: Option<u32>,
    )
        requires
            old(self).wf(),
        ensures
            final(self).wf(),
            old(self).spec_updated_providers(*final(self), registry_provider, min_matching_pool_donation_amount, sybil_wrapper_provider,
                custom_sybil_checks, custom_min_threshold_score, referral_fee_matching_pool_basis_points,
                referral_fee_public_round_basis_points, chef_fee_basis_points),
            final(self).owner == old(self).owner,
            final(self).admins == old(self).admins,
            final(self).chef == old(self).chef,
            old(self).spec_updated_round(*final(self), None, None, None, None, None, None, None, None, None),
            old(self).spec_same_records(*final(self)),
    {
        self.registry_provider = registry_provider;
        match min_matching_pool_donation_amount { Some(v) => { self.min_matching_pool_donation_amount = v; }, None => {} }
        self.sybil_wrapper_provider = sybil_wrapper_provider;
        self.custom_sybil_checks = match custom_sybil_checks {
            Some(checks) => Some(custom_sybil_checks_map(&checks)),
            None => None,
        };
        self.custom_min_threshold_score = custom_min_threshold_score;
        match referral_fee_matching_pool_basis_points { Some(v) => { self.referral_fee_matching_pool_basis_points = v; }, None => {} }
        match referral_fee_public_round_basis_points { Some(v) => { self.referral_fee_public_round_basis_points = v; }, None => {} }
        match chef_fee_basis_points { Some(v) => { self.chef_fee_basis_points = v; }, None => {} }
    }

    /// Replaces the whole configuration from `update_args` (admin or owner).
    /// The owner changes only when the signer is the owner; the chef, the
    /// registry and sybil providers, the custom sybil checks and the
    /// threshold are removed when not given; other values are kept when not
    /// given. Refused, with nothing changed, when the caller is not allowed
    /// or the changes are invalid (see `spec_pot_args_check`). Returns the
    /// new configuration.
    pub fn admin_dangerously_set_pot_config(&mut self, ctx: &CallContext, update_args: UpdatePotArgs) -> (r: Result<PotConfig, PotError>)
        requires
            old(self).wf(),
        ensures
            final(self).wf(),
            r is Err ==> *final(self) == *old(self),
            old(self).spec_admin_check(*ctx) is Err ==> r == Err::<PotConfig, PotError>(old(self).spec_admin_check(*ctx)->Err_0),
            old(self).spec_admin_check(*ctx) is Ok && spec_pot_args_check(*old(self), update_args) is Err
                ==> r == Err::<PotConfig, PotError>(spec_pot_args_check(*old(self), update_args)->Err_0),
            r is Ok <==> old(self).spec_admin_check(*ctx) is Ok && spec_pot_args_check(*old(self), update_args) is Ok,
            r matches Ok(config) ==> config.spec_describes(*final(self)) && old(self).spec_updated(*final(self), *ctx, update_args),
    {
        self.assert_admin_or_greater(ctx)?;
        self.assert_valid_pot_args(&update_args)?;
        self.apply_pot_update(ctx, update_args);
        Ok(self.get_config())
    }

    /// The configuration view (the payouts are listed by `get_payouts`).
    pub fn get_config(&self) -> (config: PotConfig)
        requires
            self.wf(),
        ensures
            config.spec_describes(*self),
    {
        PotConfig {
            owner: self.owner.clone(),
            admins: self.admins.to_vec(),
            chef: clone_opt_string(&self.chef),
            pot_name: self.pot_name.clone(),
            pot_description: self.pot_description.clone(),
            tags: copy_strings(&self.tags),
            max_projects: self.max_projects,
            base_currency: self.base_currency.clone(),
            application_start_ms: self.application_start_ms,
            application_end_ms: self.application_end_ms,
            public_round_start_ms: self.public_round_start_ms,
            public_round_end_ms: self.public_round_end_ms,
            deployed_by: self.deployed_by.clone(),
            registry_provider: clone_opt_provider(&self.registry_provider),
            min_matching_pool_donation_amount: self.min_matching_pool_donation_amount,
            sybil_wrapper_provider: clone_opt_provider(&self.sybil_wrapper_provider),
            custom_min_threshold_score: self.custom_min_threshold_score,
            referral_fee_matching_pool_basis_points: self.referral_fee_matching_pool_basis_points,
            referral_fee_public_round_basis_points: self.referral_fee_public_round_basis_points,
            chef_fee_basis_points: self.chef_fee_basis_points,
            total_matching_pool_donations: self.total_matching_pool_donations,
            matching_pool_balance: self.matching_pool_balance,
            total_public_donations: self.total_public_donations,
            public_donations_count: if self.public_round_donation_ids.len() > u32::MAX as usize { u32::MAX } else { self.public_round_donation_ids.len() as u32 },
            cooldown_period_ms: self.cooldown_period_ms,
            cooldown_end_ms: self.cooldown_end_ms,
            compliance_period_ms: self.compliance_period_ms,
            compliance_end_ms: self.compliance_end_ms,
            all_paid_out: self.all_paid_out,
            protocol_config_provider: clone_opt_provider(&self.protocol_config_provider),
        }
    }
}

impl PotConfig {
    /// This configuration view describes pot `c`.
    pub open spec fn spec_describes(&self, c: Contract) -> bool {
        &&& self.owner == c.owner
        &&& self.admins@.map_values(|s: String| s@) == c.admins@
        &&& self.chef == c.chef
        &&& self.pot_name == c.pot_name
        &&& self.pot_description == c.pot_description
        &&& self.tags@ == c.tags@
        &&& self.max_projects == c.max_projects
        &&& self.base_currency == c.base_currency
        &&& self.application_start_ms == c.application_start_ms
        &&& self.application_end_ms == c.application_end_ms
        &&& self.public_round_start_ms == c.public_round_start_ms
        &&& self.public_round_end_ms == c.public_round_end_ms
        &&& self.deployed_by == c.deployed_by
        &&& self.registry_provider == c.registry_provider
        &&& self.min_matching_pool_donation_amount == c.min_matching_pool_donation_amount
        &&& self.sybil_wrapper_provider == c.sybil_wrapper_provider
        &&& self.custom_min_threshold_score == c.custom_min_threshold_score
        &&& self.referral_fee_matching_pool_basis_points == c.referral_fee_matching_pool_basis_points
        &&& self.referral_fee_public_round_basis_points == c.referral_fee_public_round_basis_points
        &&& self.chef_fee_basis_points == c.chef_fee_basis_points
        &&& self.total_matching_pool_donations == c.total_matching_pool_donations
        &&& self.matching_pool_balance == c.matching_pool_balance
        &&& self.total_public_donations == c.total_public_donations
        &&& self.public_donations_count == (if c.public_round_donation_ids@.len() > u32::MAX { u32::MAX as int } else { c.public_round_donation_ids@.len() as int })
        &&& self.cooldown_period_ms == c.cooldown_period_ms
        &&& self.cooldown_end_ms == c.cooldown_end_ms
        &&& self.compliance_period_ms == c.compliance_period_ms
        &&& self.compliance_end_ms == c.compliance_end_ms
        &&& self.all_paid_out == c.all_paid_out
        &&& self.protocol_config_provider == c.protocol_config_provider
    }
}

} // verus!
