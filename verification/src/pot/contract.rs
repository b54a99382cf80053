//! State of the pot contract, who may do what, and the round's phases.
use vstd::prelude::*;
use crate::collections::{account_sets_wf, AccountMap, AccountSet, IdMap, IdSet};
use crate::env::CallContext;
use crate::pot::types::{
    Application, ApplicationStatus, ContractSourceMetadata, CustomSybilCheck, Donation, Payout,
    PayoutsChallenge, PotError, TimestampMs,
};
use crate::pot::validation::MIN_COOLDOWN_PERIOD_MS;
use crate::provider::ProviderId;
use crate::util::unwrap_or;

verus! {

/// The pot contract.
pub struct Contract {
    pub owner: String,
    pub admins: AccountSet,
    /// Manager of the round (reviews applications, sets payouts).
    pub chef: Option<String>,
    pub pot_name: String,
    pub pot_description: String,
    pub tags: Vec<String>,
    pub max_projects: u32,
    pub base_currency: String,
    pub application_start_ms: TimestampMs,
    pub application_end_ms: TimestampMs,
    pub public_round_start_ms: TimestampMs,
    pub public_round_end_ms: TimestampMs,
    pub deployed_by: String,
    pub registry_provider: Option<ProviderId>,
    pub min_matching_pool_donation_amount: u128,
    pub sybil_wrapper_provider: Option<ProviderId>,
    /// Weight of each custom sybil provider, keyed by provider ID.
    pub custom_sybil_checks: Option<AccountMap<u32>>,
    pub custom_min_threshold_score: Option<u32>,
    pub referral_fee_matching_pool_basis_points: u32,
    pub referral_fee_public_round_basis_points: u32,
    pub chef_fee_basis_points: u32,
    pub matching_pool_balance: u128,
    pub total_matching_pool_donations: u128,
    pub total_public_donations: u128,
    pub cooldown_period_ms: u64,
    pub cooldown_end_ms: Option<TimestampMs>,
    pub compliance_period_ms: Option<u64>,
    pub compliance_end_ms: Option<TimestampMs>,
    pub all_paid_out: bool,
    pub allow_remaining_funds_redistribution: bool,
    pub remaining_funds_redistribution_recipient: Option<String>,
    pub remaining_funds_redistributed_at_ms: Option<TimestampMs>,
    pub applications_by_id: AccountMap<Application>,
    pub approved_application_ids: AccountSet,
    pub donations_by_id: IdMap<Donation>,
    pub public_round_donation_ids: IdSet,
    pub matching_pool_donation_ids: IdSet,
    pub donation_ids_by_project_id: AccountMap<IdSet>,
    pub donation_ids_by_donor_id: AccountMap<IdSet>,
    pub payouts_by_id: AccountMap<Payout>,
    pub payout_ids_by_recipient_id: AccountMap<AccountSet>,
    pub payouts_challenges: AccountMap<PayoutsChallenge>,
    pub blacklisted_donors: AccountSet,
    /// Provider of the protocol fee rate and recipient (set by the deployer).
    pub protocol_config_provider: Option<ProviderId>,
    pub contract_source_metadata: Option<ContractSourceMetadata>,
}

/// Every account set stored in `m` is well formed.
pub open spec fn account_set_values_wf(m: Map<Seq<char>, AccountSet>) -> bool {
    forall|k: Seq<char>| #[trigger] m.contains_key(k) ==> m[k].wf()
}

impl Contract {
    /// The approved projects are exactly those whose application is approved.
    pub open spec fn spec_approved_consistent(&self) -> bool {
        forall|p: Seq<char>| #[trigger] self.approved_application_ids@.contains(p) <==> (
            self.applications_by_id@.contains_key(p) && self.applications_by_id@[p].status == ApplicationStatus::Approved)
    }

    /// All collections are well formed and the approved set agrees with the applications.
    pub open spec fn wf(&self) -> bool {
        &&& self.admins.wf()
        &&& self.applications_by_id.wf()
        &&& self.approved_application_ids.wf()
        &&& self.donations_by_id.wf()
        &&& self.public_round_donation_ids.wf()
        &&& self.matching_pool_donation_ids.wf()
        &&& self.donation_ids_by_project_id.wf()
        &&& account_sets_wf(self.donation_ids_by_project_id@)
        &&& self.donation_ids_by_donor_id.wf()
        &&& account_sets_wf(self.donation_ids_by_donor_id@)
        &&& self.payouts_by_id.wf()
        &&& self.payout_ids_by_recipient_id.wf()
        &&& account_set_values_wf(self.payout_ids_by_recipient_id@)
        &&& self.payouts_challenges.wf()
        &&& self.blacklisted_donors.wf()
        &&& (self.custom_sybil_checks matches Some(m) ==> m.wf())
        &&& self.spec_approved_consistent()
        &&& self.spec_donation_ids_consistent()
    }

    /// Donation IDs run from 1 to the number of donations, and the matching
    /// pool and public round sets hold IDs of recorded donations only.
    pub open spec fn spec_donation_ids_consistent(&self) -> bool {
        &&& forall|k: u64| #[trigger] self.donations_by_id@.contains_key(k) ==> 1 <= k <= self.donations_by_id@.len()
        &&& forall|k: u64| #[trigger] self.matching_pool_donation_ids@.contains(k) ==> self.donations_by_id@.contains_key(k)
        &&& forall|k: u64| #[trigger] self.public_round_donation_ids@.contains(k) ==> self.donations_by_id@.contains_key(k)
    }

    /// `account` is the owner.
    pub open spec fn spec_is_owner(&self, account: Seq<char>) -> bool {
        account == self.owner@
    }

    /// `account` is an admin.
    pub open spec fn spec_is_admin(&self, account: Seq<char>) -> bool {
        self.admins@.contains(account)
    }

    /// `account` is the chef.
    pub open spec fn spec_is_chef(&self, account: Seq<char>) -> bool {
        self.chef matches Some(c) && c@ == account
    }

    /// Owner check of privileged calls (which must carry at least one yoctoNEAR).
    pub open spec fn spec_owner_check(&self, ctx: CallContext) -> Result<(), PotError> {
        if !self.spec_is_owner(ctx.predecessor@) {
            Err(PotError::OwnerOnly)
        } else if ctx.attached_deposit < 1 {
            Err(PotError::DepositRequired)
        } else {
            Ok(())
        }
    }

    /// Admin (or owner) check of privileged calls.
    pub open spec fn spec_admin_check(&self, ctx: CallContext) -> Result<(), PotError> {
        if !(self.spec_is_owner(ctx.predecessor@) || self.spec_is_admin(ctx.predecessor@)) {
            Err(PotError::AdminOnly)
        } else if ctx.attached_deposit < 1 {
            Err(PotError::DepositRequired)
        } else {
            Ok(())
        }
    }

    /// Chef (or admin, or owner) check of privileged calls.
    pub open spec fn spec_chef_check(&self, ctx: CallContext) -> Result<(), PotError> {
        if !(self.spec_is_chef(ctx.predecessor@) || self.spec_is_admin(ctx.predecessor@) || self.spec_is_owner(ctx.predecessor@)) {
            Err(PotError::ChefOnly)
        } else if ctx.attached_deposit < 1 {
            Err(PotError::DepositRequired)
        } else {
            Ok(())
        }
    }

    /// The public round is open at `now`.
    pub open spec fn spec_round_active(&self, now: u64) -> bool {
        self.public_round_start_ms <= now < self.public_round_end_ms
    }

    /// Applications are open at `now`.
    pub open spec fn spec_application_period_open(&self, now: u64) -> bool {
        self.application_start_ms <= now < self.application_end_ms
    }

    /// A new pot. The owner defaults to the signer, who is recorded as the
    /// deployer; the currency is NEAR; balances start at zero.
    pub fn new(
        ctx: &CallContext,
        owner: Option<String>,
        admins: Option<Vec<String>>,
        chef: Option<String>,
        pot_name: String,
        pot_description: String,
        max_projects: u32,
        application_start_ms: TimestampMs,
        application_end_ms: TimestampMs,
        public_round_start_ms: TimestampMs,
        public_round_end_ms: TimestampMs,
        registry_provider: Option<ProviderId>,
        sybil_wrapper_provider: Option<ProviderId>,
        custom_sybil_checks: Option<Vec<CustomSybilCheck>>,
        custom_min_threshold_score: Option<u32>,
        referral_fee_matching_pool_basis_points: u32,
        referral_fee_public_round_basis_points: u32,
        chef_fee_basis_points: u32,
        protocol_config_provider: Option<ProviderId>,
    ) -> (c: Self)
        ensures
            c.wf(),
            c.owner@ == unwrap_or(owner, ctx.signer)@,
            admins matches Some(a) ==> forall|x: Seq<char>| #[trigger] c.admins@.contains(x) <==> a@.map_values(|s: String| s@).contains(x),
            admins is None ==> c.admins@.len() == 0,
            c.chef == chef,
            c.pot_name == pot_name,
            c.pot_description == pot_description,
            c.max_projects == max_projects,
            c.base_currency@ == seq!['n', 'e', 'a', 'r'],
            c.application_start_ms == application_start_ms,
            c.application_end_ms == application_end_ms,
            c.public_round_start_ms == public_round_start_ms,
            c.public_round_end_ms == public_round_end_ms,
            c.deployed_by == ctx.signer,
            c.registry_provider == registry_provider,
            c.sybil_wrapper_provider == sybil_wrapper_provider,
            (c.custom_sybil_checks is Some) == (custom_sybil_checks is Some),
            c.custom_min_threshold_score == custom_min_threshold_score,
            c.referral_fee_matching_pool_basis_points == referral_fee_matching_pool_basis_points,
            c.referral_fee_public_round_basis_points == referral_fee_public_round_basis_points,
            c.chef_fee_basis_points == chef_fee_basis_points,
            c.protocol_config_provider == protocol_config_provider,
            c.matching_pool_balance == 0 && c.total_matching_pool_donations == 0 && c.total_public_donations == 0,
            c.cooldown_period_ms == MIN_COOLDOWN_PERIOD_MS,
            c.cooldown_end_ms is None,
            !c.all_paid_out,
            c.applications_by_id@.len() == 0,
            c.approved_application_ids@.len() == 0,
            c.donations_by_id@.len() == 0,
            c.payouts_by_id@.len() == 0,
    {
        let owner = match owner {
            Some(o) => o,
            None => ctx.signer.clone(),
        };
        let admins = match admins {
            Some(a) => AccountSet::from_vec(&a),
            None => AccountSet::new(),
        };
        let checks = match custom_sybil_checks {
            Some(v) => Some(custom_sybil_checks_map(&v)),
            None => None,
        };
        let near = crate::text::string_from_chars(&vec!['n', 'e', 'a', 'r']);
        let c = Contract {
            owner,
            admins,
            chef,
            pot_name,
            pot_description,
            tags: Vec::new(),
            max_projects,
            base_currency: near,
            application_start_ms,
            application_end_ms,
            public_round_start_ms,
            public_round_end_ms,
            deployed_by: ctx.signer.clone(),
            registry_provider,
            min_matching_pool_donation_amount: 0,
            sybil_wrapper_provider,
            custom_sybil_checks: checks,
            custom_min_threshold_score,
            referral_fee_matching_pool_basis_points,
            referral_fee_public_round_basis_points,
            chef_fee_basis_points,
            matching_pool_balance: 0,
            total_matching_pool_donations: 0,
            total_public_donations: 0,
            cooldown_period_ms: MIN_COOLDOWN_PERIOD_MS,
            cooldown_end_ms: None,
            compliance_period_ms: None,
            compliance_end_ms: None,
            all_paid_out: false,
            allow_remaining_funds_redistribution: false,
            remaining_funds_redistribution_recipient: None,
            remaining_funds_redistributed_at_ms: None,
            applications_by_id: AccountMap::new(),
            approved_application_ids: AccountSet::new(),
            donations_by_id: IdMap::new(),
            public_round_donation_ids: IdSet::new(),
            matching_pool_donation_ids: IdSet::new(),
            donation_ids_by_project_id: AccountMap::new(),
            donation_ids_by_donor_id: AccountMap::new(),
            payouts_by_id: AccountMap::new(),
            payout_ids_by_recipient_id: AccountMap::new(),
            payouts_challenges: AccountMap::new(),
            blacklisted_donors: AccountSet::new(),
            protocol_config_provider,
            contract_source_metadata: None,
        };
        c
    }

    /// Whether the public round is open now.
    pub fn is_round_active(&self, ctx: &CallContext) -> (b: bool)
        ensures
            b == self.spec_round_active(ctx.block_timestamp_ms),
            b <==> (self.public_round_start_ms <= ctx.block_timestamp_ms && ctx.block_timestamp_ms < self.public_round_end_ms),
    {
        ctx.block_timestamp_ms >= self.public_round_start_ms && ctx.block_timestamp_ms < self.public_round_end_ms
    }

    pub fn is_owner(&self, account_id: &String) -> (b: bool)
        ensures
            b == self.spec_is_owner(account_id@),
    {
        *account_id == self.owner
    }

    pub fn is_admin(&self, account_id: &String) -> (b: bool)
        ensures
            b == self.spec_is_admin(account_id@),
    {
        self.admins.contains(account_id)
    }

    pub fn is_owner_or_admin(&self, account_id: &String) -> (b: bool)
        ensures
            b == (self.spec_is_owner(account_id@) || self.spec_is_admin(account_id@)),
    {
        self.is_owner(account_id) || self.is_admin(account_id)
    }

    pub fn is_chef(&self, account_id: &String) -> (b: bool)
        ensures
            b == self.spec_is_chef(account_id@),
    {
        match &self.chef {
            Some(c) => *c == *account_id,
            None => false,
        }
    }

    pub fn assert_owner(&self, ctx: &CallContext) -> (r: Result<(), PotError>)
        ensures
            r == self.spec_owner_check(*ctx),
    {
        if !self.is_owner(&ctx.predecessor) {
            return Err(PotError::OwnerOnly);
        }
        if ctx.attached_deposit < 1 {
            return Err(PotError::DepositRequired);
        }
        Ok(())
    }

    pub fn assert_admin_or_greater(&self, ctx: &CallContext) -> (r: Result<(), PotError>)
        ensures
            r == self.spec_admin_check(*ctx),
    {
        if !self.is_owner_or_admin(&ctx.predecessor) {
            return Err(PotError::AdminOnly);
        }
        if ctx.attached_deposit < 1 {
            return Err(PotError::DepositRequired);
        }
        Ok(())
    }

    pub fn assert_chef_or_greater(&self, ctx: &CallContext) -> (r: Result<(), PotError>)
        ensures
            r == self.spec_chef_check(*ctx),
    {
        if !(self.is_chef(&ctx.predecessor) || self.is_admin(&ctx.predecessor) || self.is_owner(&ctx.predecessor)) {
            return Err(PotError::ChefOnly);
        }
        if ctx.attached_deposit < 1 {
            return Err(PotError::DepositRequired);
        }
        Ok(())
    }

    pub fn assert_round_closed(&self, ctx: &CallContext) -> (r: Result<(), PotError>)
        ensures
            r is Ok <==> ctx.block_timestamp_ms >= self.public_round_end_ms,
            r is Err ==> r == Err::<(), PotError>(PotError::RoundNotClosed),
    {
        if ctx.block_timestamp_ms >= self.public_round_end_ms {
            Ok(())
        } else {
            Err(PotError::RoundNotClosed)
        }
    }

    pub fn assert_round_not_closed(&self, ctx: &CallContext) -> (r: Result<(), PotError>)
        ensures
            r is Ok <==> ctx.block_timestamp_ms < self.public_round_end_ms,
            r is Err ==> r == Err::<(), PotError>(PotError::RoundClosed),
    {
        if ctx.block_timestamp_ms < self.public_round_end_ms {
            Ok(())
        } else {
            Err(PotError::RoundClosed)
        }
    }

    pub fn assert_approved_application(&self, project_id: &String) -> (r: Result<(), PotError>)
        ensures
            r is Ok <==> self.approved_application_ids@.contains(project_id@),
            r is Err ==> r == Err::<(), PotError>(PotError::ProjectNotApproved),
    {
        if self.approved_application_ids.contains(project_id) {
            Ok(())
        } else {
            Err(PotError::ProjectNotApproved)
        }
    }

    /// The cooldown after payouts were set is over (it must have been set).
    pub fn assert_cooldown_period_complete(&self, ctx: &CallContext) -> (r: Result<(), PotError>)
        ensures
            r is Ok <==> (self.cooldown_end_ms matches Some(end) && end < ctx.block_timestamp_ms),
            self.cooldown_end_ms is None ==> r == Err::<(), PotError>(PotError::CooldownNotSet),
            self.cooldown_end_ms is Some && r is Err ==> r == Err::<(), PotError>(PotError::CooldownNotOver),
    {
        match self.cooldown_end_ms {
            Some(end) => {
                if end < ctx.block_timestamp_ms {
                    Ok(())
                } else {
                    Err(PotError::CooldownNotOver)
                }
            },
            None => Err(PotError::CooldownNotSet),
        }
    }

    pub fn is_application_period_open(&self, ctx: &CallContext) -> (b: bool)
        ensures
            b == self.spec_application_period_open(ctx.block_timestamp_ms),
            b <==> (self.application_start_ms <= ctx.block_timestamp_ms && ctx.block_timestamp_ms < self.application_end_ms),
    {
        ctx.block_timestamp_ms >= self.application_start_ms && ctx.block_timestamp_ms < self.application_end_ms
    }

    pub fn assert_application_period_open(&self, ctx: &CallContext) -> (r: Result<(), PotError>)
        ensures
            r is Ok <==> self.spec_application_period_open(ctx.block_timestamp_ms),
            r is Err ==> r == Err::<(), PotError>(PotError::ApplicationPeriodClosed),
    {
        if self.is_application_period_open(ctx) {
            Ok(())
        } else {
            Err(PotError::ApplicationPeriodClosed)
        }
    }

    pub fn assert_round_active(&self, ctx: &CallContext) -> (r: Result<(), PotError>)
        ensures
            r is Ok <==> self.spec_round_active(ctx.block_timestamp_ms),
            r is Err ==> r == Err::<(), PotError>(PotError::RoundNotActive),
    {
        if self.is_round_active(ctx) {
            Ok(())
        } else {
            Err(PotError::RoundNotActive)
        }
    }

    pub fn assert_max_projects_not_reached(&self) -> (r: Result<(), PotError>)
        ensures
            r is Ok <==> self.approved_application_ids@.len() < self.max_projects,
            r is Err ==> r == Err::<(), PotError>(PotError::MaxProjectsReached),
    {
        if self.approved_application_ids.len() < self.max_projects as usize {
            Ok(())
        } else {
            Err(PotError::MaxProjectsReached)
        }
    }
}

/// The custom sybil checks keyed by provider ID (a later check of the same
/// provider replaces an earlier one).
pub open spec fn spec_sybil_checks(checks: Seq<CustomSybilCheck>) -> Map<Seq<char>, u32>
    decreases checks.len(),
{
    if checks.len() == 0 {
        Map::empty()
    } else {
        let c = checks.last();
        spec_sybil_checks(checks.drop_last()).insert(
            crate::provider::spec_provider_text(c.contract_id@, c.method_name@),
            c.weight,
        )
    }
}

/// The map of the custom sybil checks `checks` (see `spec_sybil_checks`).
pub fn custom_sybil_checks_map(checks: &Vec<CustomSybilCheck>) -> (m: AccountMap<u32>)
    ensures
        m.wf(),
        m@ == spec_sybil_checks(checks@),
{
    let mut m: AccountMap<u32> = AccountMap::new();
    let mut i: usize = 0;
    while i < checks.len()
        invariant
            m.wf(),
            i <= checks@.len(),
            m@ == spec_sybil_checks(checks@.subrange(0, i as int)),
        decreases checks@.len() - i,
    {
        let c = &checks[i];
        let p = ProviderId::new(c.contract_id.clone(), c.method_name.clone());
        m.insert(p.0, c.weight);
        i += 1;
        assert(checks@.subrange(0, i as int).drop_last() =~= checks@.subrange(0, i - 1));
    }
    assert(checks@.subrange(0, checks@.len() as int) =~= checks@);
    m
}

} // verus!
