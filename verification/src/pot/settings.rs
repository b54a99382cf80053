//! Owner and admin settings of a pot, one field at a time. Each call either
//! is refused and changes nothing, or changes exactly the fields it names.
use vstd::prelude::*;
use crate::collections::AccountSet;
use crate::env::CallContext;
use crate::pot::contract::{custom_sybil_checks_map, spec_sybil_checks, Contract};
use crate::pot::types::{ContractSourceMetadata, CustomSybilCheck, PotError, TimestampMs};
use crate::pot::validation::{
    assert_valid_chef_fee_basis_points, assert_valid_max_projects, assert_valid_pot_description,
    assert_valid_pot_name, assert_valid_referral_fee_matching_pool_basis_points,
    assert_valid_referral_fee_public_round_basis_points, spec_timestamps_check,
    MAX_CHEF_FEE_BASIS_POINTS, MAX_MAX_PROJECTS, MAX_POT_DESCRIPTION_LENGTH, MAX_POT_NAME_LENGTH,
    MAX_REFERRAL_FEE_MATCHING_POOL_BASIS_POINTS, MAX_REFERRAL_FEE_PUBLIC_ROUND_BASIS_POINTS,
};
use crate::provider::{spec_provider_text, spec_validate, ProviderId};
use crate::donation::donations::{is_near, spec_near};
use crate::text::spec_utf8_len;
use crate::util::unwrap_or;

verus! {

/// Whether some check of `checks` names an invalid provider.
pub open spec fn spec_has_invalid_check(checks: Seq<CustomSybilCheck>) -> bool {
    exists|i: int| 0 <= i < checks.len()
        && (spec_validate(spec_provider_text(#[trigger] checks[i].contract_id@, checks[i].method_name@)) is Err)
}

impl Contract {
    /// Fails once the public round has started.
    pub fn assert_round_not_started(&self, ctx: &CallContext) -> (r: Result<(), PotError>)
        ensures
            r is Ok <==> ctx.block_timestamp_ms < self.public_round_start_ms,
            r is Err ==> r == Err::<(), PotError>(PotError::RoundStarted),
    {
        if ctx.block_timestamp_ms < self.public_round_start_ms {
            Ok(())
        } else {
            Err(PotError::RoundStarted)
        }
    }

    /// Hands the pot to `owner` (owner only).
    pub fn owner_change_owner(&mut self, ctx: &CallContext, owner: String) -> (r: Result<(), PotError>)
        requires
            old(self).wf(),
        ensures
            final(self).wf(),
            r == old(self).spec_owner_check(*ctx),
            r is Err ==> *final(self) == *old(self),
            r is Ok ==> *final(self) == (Contract { owner, ..*old(self) }),
    {
        self.assert_owner(ctx)?;
        self.owner = owner;
        Ok(())
    }

    /// Adds the accounts of `admins` to the admins (owner only).
    pub fn owner_add_admins(&mut self, ctx: &CallContext, admins: Vec<String>) -> (r: Result<(), PotError>)
        requires
            old(self).wf(),
        ensures
            final(self).wf(),
            r == old(self).spec_owner_check(*ctx),
            r is Err ==> *final(self) == *old(self),
            r is Ok ==> *final(self) == (Contract { admins: final(self).admins, ..*old(self) }),
            r is Ok ==> forall|a: Seq<char>| #[trigger] final(self).admins@.contains(a)
                <==> (old(self).admins@.contains(a) || admins@.map_values(|s: String| s@).contains(a)),
    {
        self.assert_owner(ctx)?;
        self.admins.insert_all(&admins);
        Ok(())
    }

    /// Removes the accounts of `admins` from the admins (owner only).
    pub fn owner_remove_admins(&mut self, ctx: &CallContext, admins: Vec<String>) -> (r: Result<(), PotError>)
        requires
            old(self).wf(),
        ensures
            final(self).wf(),
            r == old(self).spec_owner_check(*ctx),
            r is Err ==> *final(self) == *old(self),
            r is Ok ==> *final(self) == (Contract { admins: final(self).admins, ..*old(self) }),
            r is Ok ==> forall|a: Seq<char>| #[trigger] final(self).admins@.contains(a)
                <==> (old(self).admins@.contains(a) && !admins@.map_values(|s: String| s@).contains(a)),
    {
        self.assert_owner(ctx)?;
        self.admins.remove_all(&admins);
        Ok(())
    }

    /// Replaces the admins by the accounts of `admins` (owner only).
    pub fn owner_set_admins(&mut self, ctx: &CallContext, admins: Vec<String>) -> (r: Result<(), PotError>)
        requires
            old(self).wf(),
        ensures
            final(self).wf(),
            r == old(self).spec_owner_check(*ctx),
            r is Err ==> *final(self) == *old(self),
            r is Ok ==> *final(self) == (Contract { admins: final(self).admins, ..*old(self) }),
            r is Ok ==> forall|a: Seq<char>| #[trigger] final(self).admins@.contains(a)
                <==> admins@.map_values(|s: String| s@).contains(a),
    {
        self.assert_owner(ctx)?;
        self.admins.clear();
        self.admins.insert_all(&admins);
        Ok(())
    }

    /// Removes every admin (owner only).
    pub fn owner_clear_admins(&mut self, ctx: &CallContext) -> (r: Result<(), PotError>)
        requires
            old(self).wf(),
        ensures
            final(self).wf(),
            r == old(self).spec_owner_check(*ctx),
            r is Err ==> *final(self) == *old(self),
            r is Ok ==> *final(self) == (Contract { admins: final(self).admins, ..*old(self) }),
            r is Ok ==> final(self).admins@ == Seq::<Seq<char>>::empty(),
    {
        self.assert_owner(ctx)?;
        self.admins.clear();
        Ok(())
    }

    /// Sets the chef (admin or owner).
    pub fn admin_set_chef(&mut self, ctx: &CallContext, chef: String) -> (r: Result<(), PotError>)
        requires
            old(self).wf(),
        ensures
            final(self).wf(),
            r == old(self).spec_admin_check(*ctx),
            r is Err ==> *final(self) == *old(self),
            r is Ok ==> *final(self) == (Contract { chef: Some(chef), ..*old(self) }),
    {
        self.assert_admin_or_greater(ctx)?;
        self.chef = Some(chef);
        Ok(())
    }

    /// Removes the chef (admin or owner).
    pub fn admin_remove_chef(&mut self, ctx: &CallContext) -> (r: Result<(), PotError>)
        requires
            old(self).wf(),
        ensures
            final(self).wf(),
            r == old(self).spec_admin_check(*ctx),
            r is Err ==> *final(self) == *old(self),
            r is Ok ==> *final(self) == (Contract { chef: None, ..*old(self) }),
    {
        self.assert_admin_or_greater(ctx)?;
        self.chef = None;
        Ok(())
    }

    /// Sets the chef fee (admin or owner), at most `MAX_CHEF_FEE_BASIS_POINTS`.
    pub fn admin_set_chef_fee_basis_points(&mut self, ctx: &CallContext, chef_fee_basis_points: u32) -> (r: Result<(), PotError>)
        requires
            old(self).wf(),
        ensures
            final(self).wf(),
            r is Err ==> *final(self) == *old(self),
            r == (if old(self).spec_admin_check(*ctx) is Err {
                old(self).spec_admin_check(*ctx)
            } else if chef_fee_basis_points > MAX_CHEF_FEE_BASIS_POINTS {
                Err(PotError::ChefFeeTooHigh)
            } else {
                Ok(())
            }),
            r is Ok ==> *final(self) == (Contract { chef_fee_basis_points, ..*old(self) }),
    {
        self.assert_admin_or_greater(ctx)?;
        assert_valid_chef_fee_basis_points(chef_fee_basis_points)?;
        self.chef_fee_basis_points = chef_fee_basis_points;
        Ok(())
    }

    /// Adds the accounts of `donor_ids` to the blacklist (admin or owner).
    pub fn admin_add_blacklisted_donors(&mut self, ctx: &CallContext, donor_ids: Vec<String>) -> (r: Result<(), PotError>)
        requires
            old(self).wf(),
        ensures
            final(self).wf(),
            r == old(self).spec_admin_check(*ctx),
            r is Err ==> *final(self) == *old(self),
            r is Ok ==> *final(self) == (Contract { blacklisted_donors: final(self).blacklisted_donors, ..*old(self) }),
            r is Ok ==> forall|a: Seq<char>| #[trigger] final(self).blacklisted_donors@.contains(a)
                <==> (old(self).blacklisted_donors@.contains(a) || donor_ids@.map_values(|s: String| s@).contains(a)),
    {
        self.assert_admin_or_greater(ctx)?;
        self.blacklisted_donors.insert_all(&donor_ids);
        Ok(())
    }

    /// Replaces the blacklist by the accounts of `donor_ids` (admin or owner).
    pub fn admin_set_blacklisted_donors(&mut self, ctx: &CallContext, donor_ids: Vec<String>) -> (r: Result<(), PotError>)
        requires
            old(self).wf(),
        ensures
            final(self).wf(),
            r == old(self).spec_admin_check(*ctx),
            r is Err ==> *final(self) == *old(self),
            r is Ok ==> *final(self) == (Contract { blacklisted_donors: final(self).blacklisted_donors, ..*old(self) }),
            r is Ok ==> forall|a: Seq<char>| #[trigger] final(self).blacklisted_donors@.contains(a)
                <==> donor_ids@.map_values(|s: String| s@).contains(a),
    {
        self.assert_admin_or_greater(ctx)?;
        self.blacklisted_donors.clear();
        self.blacklisted_donors.insert_all(&donor_ids);
        Ok(())
    }

    /// Renames the pot (admin or owner); the name is at most
    /// `MAX_POT_NAME_LENGTH` bytes.
    pub fn admin_set_pot_name(&mut self, ctx: &CallContext, pot_name: String) -> (r: Result<(), PotError>)
        requires
            old(self).wf(),
        ensures
            final(self).wf(),
            r is Err ==> *final(self) == *old(self),
            r == (if old(self).spec_admin_check(*ctx) is Err {
                old(self).spec_admin_check(*ctx)
            } else if spec_utf8_len(pot_name@) > MAX_POT_NAME_LENGTH {
                Err(PotError::NameTooLong)
            } else {
                Ok(())
            }),
            r is Ok ==> *final(self) == (Contract { pot_name, ..*old(self) }),
    {
        self.assert_admin_or_greater(ctx)?;
        assert_valid_pot_name(pot_name.as_str())?;
        self.pot_name = pot_name;
        Ok(())
    }

    /// Sets the pot's description (admin or owner); at most
    /// `MAX_POT_DESCRIPTION_LENGTH` bytes.
    pub fn admin_set_pot_description(&mut self, ctx: &CallContext, pot_description: String) -> (r: Result<(), PotError>)
        requires
            old(self).wf(),
        ensures
            final(self).wf(),
            r is Err ==> *final(self) == *old(self),
            r == (if old(self).spec_admin_check(*ctx) is Err {
                old(self).spec_admin_check(*ctx)
            } else if spec_utf8_len(pot_description@) > MAX_POT_DESCRIPTION_LENGTH {
                Err(PotError::DescriptionTooLong)
            } else {
                Ok(())
            }),
            r is Ok ==> *final(self) == (Contract { pot_description, ..*old(self) }),
    {
        self.assert_admin_or_greater(ctx)?;
        assert_valid_pot_description(pot_description.as_str())?;
        self.pot_description = pot_description;
        Ok(())
    }

    /// Sets the pot's tags (admin or owner).
    pub fn admin_set_tags(&mut self, ctx: &CallContext, tags: Vec<String>) -> (r: Result<(), PotError>)
        requires
            old(self).wf(),
        ensures
            final(self).wf(),
            r == old(self).spec_admin_check(*ctx),
            r is Err ==> *final(self) == *old(self),
            r is Ok ==> *final(self) == (Contract { tags, ..*old(self) }),
    {
        self.assert_admin_or_greater(ctx)?;
        self.tags = tags;
        Ok(())
    }

    /// Sets the most projects the pot approves (admin or owner), at most `MAX_MAX_PROJECTS`.
    pub fn admin_set_max_projects(&mut self, ctx: &CallContext, max_projects: u32) -> (r: Result<(), PotError>)
        requires
            old(self).wf(),
        ensures
            final(self).wf(),
            r is Err ==> *final(self) == *old(self),
            r == (if old(self).spec_admin_check(*ctx) is Err {
                old(self).spec_admin_check(*ctx)
            } else if max_projects > MAX_MAX_PROJECTS {
                Err(PotError::TooManyProjects)
            } else {
                Ok(())
            }),
            r is Ok ==> *final(self) == (Contract { max_projects, ..*old(self) }),
    {
        self.assert_admin_or_greater(ctx)?;
        assert_valid_max_projects(max_projects)?;
        self.max_projects = max_projects;
        Ok(())
    }

    /// Sets the base currency (admin or owner); only `"near"` is accepted.
    pub fn admin_set_base_currency(&mut self, ctx: &CallContext, base_currency: String) -> (r: Result<(), PotError>)
        requires
            old(self).wf(),
        ensures
            final(self).wf(),
            r is Err ==> *final(self) == *old(self),
            r == (if old(self).spec_admin_check(*ctx) is Err {
                old(self).spec_admin_check(*ctx)
            } else if base_currency@ != spec_near() {
                Err(PotError::OnlyNearSupported)
            } else {
                Ok(())
            }),
            r is Ok ==> *final(self) == (Contract { base_currency, ..*old(self) }),
    {
        self.assert_admin_or_greater(ctx)?;
        if !is_near(&base_currency) {
            return Err(PotError::OnlyNearSupported);
        }
        self.base_currency = base_currency;
        Ok(())
    }

    /// Replaces the round timestamps that are given (admin or owner); the
    /// resulting four must come strictly one after the other.
    pub fn admin_set_round_timestamps(
        &mut self,
        ctx: &CallContext,
        application_start_ms: Option<TimestampMs>,
        application_end_ms: Option<TimestampMs>,
        public_round_start_ms: Option<TimestampMs>,
        public_round_end_ms: Option<TimestampMs>,
    ) -> (r: Result<(), PotError>)
        requires
            old(self).wf(),
        ensures
            final(self).wf(),
            r is Err ==> *final(self) == *old(self),
            r == (if old(self).spec_admin_check(*ctx) is Err {
                old(self).spec_admin_check(*ctx)
            } else {
                spec_timestamps_check(
                    unwrap_or(application_start_ms, old(self).application_start_ms),
                    unwrap_or(application_end_ms, old(self).application_end_ms),
                    unwrap_or(public_round_start_ms, old(self).public_round_start_ms),
                    unwrap_or(public_round_end_ms, old(self).public_round_end_ms),
                )
            }),
            r is Ok ==> *final(self) == (Contract {
                application_start_ms: unwrap_or(application_start_ms, old(self).application_start_ms),
                application_end_ms: unwrap_or(application_end_ms, old(self).application_end_ms),
                public_round_start_ms: unwrap_or(public_round_start_ms, old(self).public_round_start_ms),
                public_round_end_ms: unwrap_or(public_round_end_ms, old(self).public_round_end_ms),
                ..*old(self)
            }),
    {
        self.assert_admin_or_greater(ctx)?;
        self.assert_valid_timestamps(application_start_ms, application_end_ms, public_round_start_ms, public_round_end_ms)?;
        if let Some(v) = application_start_ms {
            self.application_start_ms = v;
        }
        if let Some(v) = application_end_ms {
            self.application_end_ms = v;
        }
        if let Some(v) = public_round_start_ms {
            self.public_round_start_ms = v;
        }
        if let Some(v) = public_round_end_ms {
            self.public_round_end_ms = v;
        }
        Ok(())
    }

    /// Sets the compliance period (admin or owner).
    pub fn admin_set_compliance_period_ms(&mut self, ctx: &CallContext, compliance_period_ms: u64) -> (r: Result<(), PotError>)
        requires
            old(self).wf(),
        ensures
            final(self).wf(),
            r == old(self).spec_admin_check(*ctx),
            r is Err ==> *final(self) == *old(self),
            r is Ok ==> *final(self) == (Contract { compliance_period_ms: Some(compliance_period_ms), ..*old(self) }),
    {
        self.assert_admin_or_greater(ctx)?;
        self.compliance_period_ms = Some(compliance_period_ms);
        Ok(())
    }

    /// Sets who receives what remains of the matching pool (admin or owner,
    /// before the public round starts).
    pub fn admin_set_remaining_funds_redistribution_recipient(&mut self, ctx: &CallContext, account_id: String) -> (r: Result<(), PotError>)
        requires
            old(self).wf(),
        ensures
            final(self).wf(),
            r is Err ==> *final(self) == *old(self),
            r == (if old(self).spec_admin_check(*ctx) is Err {
                old(self).spec_admin_check(*ctx)
            } else if ctx.block_timestamp_ms >= old(self).public_round_start_ms {
                Err(PotError::RoundStarted)
            } else {
                Ok(())
            }),
            r is Ok ==> *final(self) == (Contract { remaining_funds_redistribution_recipient: Some(account_id), ..*old(self) }),
    {
        self.assert_admin_or_greater(ctx)?;
        self.assert_round_not_started(ctx)?;
        self.remaining_funds_redistribution_recipient = Some(account_id);
        Ok(())
    }

    /// Removes the recipient of what remains of the matching pool (admin or
    /// owner, before the public round starts).
    pub fn admin_remove_remaining_funds_redistribution_recipient(&mut self, ctx: &CallContext) -> (r: Result<(), PotError>)
        requires
            old(self).wf(),
        ensures
            final(self).wf(),
            r is Err ==> *final(self) == *old(self),
            r == (if old(self).spec_admin_check(*ctx) is Err {
                old(self).spec_admin_check(*ctx)
            } else if ctx.block_timestamp_ms >= old(self).public_round_start_ms {
                Err(PotError::RoundStarted)
            } else {
                Ok(())
            }),
            r is Ok ==> *final(self) == (Contract { remaining_funds_redistribution_recipient: None, ..*old(self) }),
    {
        self.assert_admin_or_greater(ctx)?;
        self.assert_round_not_started(ctx)?;
        self.remaining_funds_redistribution_recipient = None;
        Ok(())
    }

    /// Sets the registry provider to method `method_name` of `contract_id` (admin or owner).
    pub fn admin_set_registry_provider(&mut self, ctx: &CallContext, contract_id: String, method_name: String) -> (r: Result<(), PotError>)
        requires
            old(self).wf(),
        ensures
            final(self).wf(),
            r == old(self).spec_admin_check(*ctx),
            r is Err ==> *final(self) == *old(self),
            r is Ok ==> *final(self) == (Contract { registry_provider: final(self).registry_provider, ..*old(self) }),
            r is Ok ==> (final(self).registry_provider matches Some(p) && p.0@ == spec_provider_text(contract_id@, method_name@)),
    {
        self.assert_admin_or_greater(ctx)?;
        self.registry_provider = Some(ProviderId::new(contract_id, method_name));
        Ok(())
    }

    /// Removes the registry provider (admin or owner).
    pub fn admin_remove_registry_provider(&mut self, ctx: &CallContext) -> (r: Result<(), PotError>)
        requires
            old(self).wf(),
        ensures
            final(self).wf(),
            r == old(self).spec_admin_check(*ctx),
            r is Err ==> *final(self) == *old(self),
            r is Ok ==> *final(self) == (Contract { registry_provider: None, ..*old(self) }),
    {
        self.assert_admin_or_greater(ctx)?;
        self.registry_provider = None;
        Ok(())
    }

    /// Sets the smallest matching pool donation (admin or owner).
    pub fn admin_set_min_matching_pool_donation_amount(&mut self, ctx: &CallContext, min_matching_pool_donation_amount: u128) -> (r: Result<(), PotError>)
        requires
            old(self).wf(),
        ensures
            final(self).wf(),
            r == old(self).spec_admin_check(*ctx),
            r is Err ==> *final(self) == *old(self),
            r is Ok ==> *final(self) == (Contract { min_matching_pool_donation_amount, ..*old(self) }),
    {
        self.assert_admin_or_greater(ctx)?;
        self.min_matching_pool_donation_amount = min_matching_pool_donation_amount;
        Ok(())
    }

    /// Sets the sybil wrapper provider to method `method_name` of `contract_id` (admin or owner).
    pub fn admin_set_sybil_wrapper_provider(&mut self, ctx: &CallContext, contract_id: String, method_name: String) -> (r: Result<(), PotError>)
        requires
            old(self).wf(),
        ensures
            final(self).wf(),
            r == old(self).spec_admin_check(*ctx),
            r is Err ==> *final(self) == *old(self),
            r is Ok ==> *final(self) == (Contract { sybil_wrapper_provider: final(self).sybil_wrapper_provider, ..*old(self) }),
            r is Ok ==> (final(self).sybil_wrapper_provider matches Some(p) && p.0@ == spec_provider_text(contract_id@, method_name@)),
    {
        self.assert_admin_or_greater(ctx)?;
        self.sybil_wrapper_provider = Some(ProviderId::new(contract_id, method_name));
        Ok(())
    }

    /// Removes the sybil wrapper provider (admin or owner).
    pub fn admin_remove_sybil_wrapper_provider(&mut self, ctx: &CallContext) -> (r: Result<(), PotError>)
        requires
            old(self).wf(),
        ensures
            final(self).wf(),
            r == old(self).spec_admin_check(*ctx),
            r is Err ==> *final(self) == *old(self),
            r is Ok ==> *final(self) == (Contract { sybil_wrapper_provider: None, ..*old(self) }),
    {
        self.assert_admin_or_greater(ctx)?;
        self.sybil_wrapper_provider = None;
        Ok(())
    }

    /// Replaces the custom sybil checks (admin or owner); refused when one of
    /// them does not make a valid provider ID.
    pub fn admin_set_custom_sybil_checks(&mut self, ctx: &CallContext, custom_sybil_checks: Vec<CustomSybilCheck>) -> (r: Result<(), PotError>)
        requires
            old(self).wf(),
        ensures
            final(self).wf(),
            r is Err ==> *final(self) == *old(self),
            r == (if old(self).spec_admin_check(*ctx) is Err {
                old(self).spec_admin_check(*ctx)
            } else if spec_has_invalid_check(custom_sybil_checks@) {
                Err(PotError::InvalidProvider)
            } else {
                Ok(())
            }),
            r is Ok ==> *final(self) == (Contract { custom_sybil_checks: final(self).custom_sybil_checks, ..*old(self) }),
            r is Ok ==> (final(self).custom_sybil_checks matches Some(m) && m@ == spec_sybil_checks(custom_sybil_checks@)),
    {
        self.assert_admin_or_greater(ctx)?;
        let mut i: usize = 0;
        while i < custom_sybil_checks.len()
            invariant
                *self == *old(self),
                old(self).wf(),
                old(self).spec_admin_check(*ctx) is Ok,
                i <= custom_sybil_checks@.len(),
                forall|j: int| 0 <= j < i ==> !(spec_validate(spec_provider_text(
                    #[trigger] custom_sybil_checks@[j].contract_id@, custom_sybil_checks@[j].method_name@)) is Err),
            decreases custom_sybil_checks@.len() - i,
        {
            let c = &custom_sybil_checks[i];
            let p = ProviderId::new(c.contract_id.clone(), c.method_name.clone());
            if p.validate().is_err() {
                assert(spec_validate(spec_provider_text(custom_sybil_checks@[i as int].contract_id@,
                    custom_sybil_checks@[i as int].method_name@)) is Err);
                return Err(PotError::InvalidProvider);
            }
            i += 1;
        }
        self.custom_sybil_checks = Some(custom_sybil_checks_map(&custom_sybil_checks));
        Ok(())
    }

    /// Removes the custom sybil checks (admin or owner).
    pub fn admin_remove_custom_sybil_checks(&mut self, ctx: &CallContext) -> (r: Result<(), PotError>)
        requires
            old(self).wf(),
        ensures
            final(self).wf(),
            r == old(self).spec_admin_check(*ctx),
            r is Err ==> *final(self) == *old(self),
            r is Ok ==> *final(self) == (Contract { custom_sybil_checks: None, ..*old(self) }),
    {
        self.assert_admin_or_greater(ctx)?;
        self.custom_sybil_checks = None;
        Ok(())
    }

    /// Sets the score the custom sybil checks must reach (admin or owner).
    pub fn admin_set_custom_min_threshold_score(&mut self, ctx: &CallContext, custom_min_threshold_score: u32) -> (r: Result<(), PotError>)
        requires
            old(self).wf(),
        ensures
            final(self).wf(),
            r == old(self).spec_admin_check(*ctx),
            r is Err ==> *final(self) == *old(self),
            r is Ok ==> *final(self) == (Contract { custom_min_threshold_score: Some(custom_min_threshold_score), ..*old(self) }),
    {
        self.assert_admin_or_greater(ctx)?;
        self.custom_min_threshold_score = Some(custom_min_threshold_score);
        Ok(())
    }

    /// Removes the score the custom sybil checks must reach (admin or owner).
    pub fn admin_remove_custom_min_threshold_score(&mut self, ctx: &CallContext) -> (r: Result<(), PotError>)
        requires
            old(self).wf(),
        ensures
            final(self).wf(),
            r == old(self).spec_admin_check(*ctx),
            r is Err ==> *final(self) == *old(self),
            r is Ok ==> *final(self) == (Contract { custom_min_threshold_score: None, ..*old(self) }),
    {
        self.assert_admin_or_greater(ctx)?;
        self.custom_min_threshold_score = None;
        Ok(())
    }

    /// Sets the referral fee on matching pool donations (admin or owner).
    pub fn admin_set_referral_fee_matching_pool_basis_points(&mut self, ctx: &CallContext, referral_fee_matching_pool_basis_points: u32) -> (r: Result<(), PotError>)
        requires
            old(self).wf(),
        ensures
            final(self).wf(),
            r is Err ==> *final(self) == *old(self),
            r == (if old(self).spec_admin_check(*ctx) is Err {
                old(self).spec_admin_check(*ctx)
            } else if referral_fee_matching_pool_basis_points > MAX_REFERRAL_FEE_MATCHING_POOL_BASIS_POINTS {
                Err(PotError::ReferralFeeTooHigh)
            } else {
                Ok(())
            }),
            r is Ok ==> *final(self) == (Contract { referral_fee_matching_pool_basis_points, ..*old(self) }),
    {
        self.assert_admin_or_greater(ctx)?;
        assert_valid_referral_fee_matching_pool_basis_points(referral_fee_matching_pool_basis_points)?;
        self.referral_fee_matching_pool_basis_points = referral_fee_matching_pool_basis_points;
        Ok(())
    }

    /// Sets the referral fee on public round donations (admin or owner).
    pub fn admin_set_referral_fee_public_round_basis_points(&mut self, ctx: &CallContext, referral_fee_public_round_basis_points: u32) -> (r: Result<(), PotError>)
        requires
            old(self).wf(),
        ensures
            final(self).wf(),
            r is Err ==> *final(self) == *old(self),
            r == (if old(self).spec_admin_check(*ctx) is Err {
                old(self).spec_admin_check(*ctx)
            } else if referral_fee_public_round_basis_points > MAX_REFERRAL_FEE_PUBLIC_ROUND_BASIS_POINTS {
                Err(PotError::ReferralFeeTooHigh)
            } else {
                Ok(())
            }),
            r is Ok ==> *final(self) == (Contract { referral_fee_public_round_basis_points, ..*old(self) }),
    {
        self.assert_admin_or_greater(ctx)?;
        assert_valid_referral_fee_public_round_basis_points(referral_fee_public_round_basis_points)?;
        self.referral_fee_public_round_basis_points = referral_fee_public_round_basis_points;
        Ok(())
    }

    /// Extends the cooldown that is in process to end at `cooldown_end_ms`
    /// (admin or owner); it can only be extended.
    pub fn admin_set_cooldown_end_ms(&mut self, ctx: &CallContext, cooldown_end_ms: TimestampMs) -> (r: Result<(), PotError>)
        requires
            old(self).wf(),
        ensures
            final(self).wf(),
            r is Err ==> *final(self) == *old(self),
            r == (if old(self).spec_admin_check(*ctx) is Err {
                old(self).spec_admin_check(*ctx)
            } else {
                match old(self).cooldown_end_ms {
                    None => Err(PotError::CooldownNotSet),
                    Some(end) => if cooldown_end_ms > end { Ok(()) } else { Err(PotError::CooldownCanOnlyExtend) },
                }
            }),
            r is Ok ==> *final(self) == (Contract { cooldown_end_ms: Some(cooldown_end_ms), ..*old(self) }),
    {
        self.assert_admin_or_greater(ctx)?;
        match self.cooldown_end_ms {
            None => return Err(PotError::CooldownNotSet),
            Some(end) => {
                if cooldown_end_ms <= end {
                    return Err(PotError::CooldownCanOnlyExtend);
                }
            },
        }
        self.cooldown_end_ms = Some(cooldown_end_ms);
        Ok(())
    }
    /// Records where the deployed code comes from; only the contract account
    /// itself may call this.
    pub fn self_set_source_metadata(&mut self, ctx: &CallContext, source_metadata: ContractSourceMetadata) -> (r: Result<(), PotError>)
        requires
            old(self).wf(),
        ensures
            final(self).wf(),
            r is Ok <==> ctx.predecessor@ == ctx.current_account@,
            r is Err ==> r == Err::<(), PotError>(PotError::NotContractAccount) && *final(self) == *old(self),
            r is Ok ==> *final(self) == (Contract { contract_source_metadata: Some(source_metadata), ..*old(self) }),
    {
        if ctx.predecessor != ctx.current_account {
            return Err(PotError::NotContractAccount);
        }
        self.contract_source_metadata = Some(source_metadata);
        Ok(())
    }

    /// Where the deployed code comes from, if recorded.
    pub fn get_contract_source_metadata(&self) -> (r: Option<ContractSourceMetadata>)
        ensures
            r == self.contract_source_metadata,
    {
        match &self.contract_source_metadata {
            Some(m) => Some(m.copy()),
            None => None,
        }
    }
}

} // verus!
