//! Limits on the pot configuration.
use vstd::prelude::*;
use crate::pot::types::PotError;
use crate::provider::{spec_validate, ProviderId};
use crate::text::spec_utf8_len;

verus! {

pub const ONE_DAY_MS: u64 = 86_400_000;

pub const ONE_WEEK_MS: u64 = 604_800_000;

pub const TGAS: u64 = 1_000_000_000_000;

/// Gas for a cross-contract call.
pub const XCC_GAS: u64 = 5_000_000_000_000;

/// Gas for the sybil check call.
pub const SYBIL_GAS: u64 = 50_000_000_000_000;

pub const MAX_POT_NAME_LENGTH: usize = 64;

pub const MAX_POT_DESCRIPTION_LENGTH: usize = 256;

pub const MAX_MAX_PROJECTS: u32 = 100;

pub const MAX_REFERRAL_FEE_MATCHING_POOL_BASIS_POINTS: u32 = 1000;

pub const MAX_REFERRAL_FEE_PUBLIC_ROUND_BASIS_POINTS: u32 = 1000;

pub const MAX_CHEF_FEE_BASIS_POINTS: u32 = 1000;

pub const MAX_PROTOCOL_FEE_BASIS_POINTS: u32 = 1000;

/// Shortest cooldown after payouts are set.
pub const MIN_COOLDOWN_PERIOD_MS: u64 = ONE_WEEK_MS;

/// Page size of list views without a limit.
pub const DEFAULT_PAGE_SIZE: u64 = 50;

/// The name is at most `MAX_POT_NAME_LENGTH` bytes long (in UTF-8).
pub fn assert_valid_pot_name(name: &str) -> (r: Result<(), PotError>)
    ensures
        r is Ok <==> spec_utf8_len(name@) <= MAX_POT_NAME_LENGTH,
        r is Err ==> r == Err::<(), PotError>(PotError::NameTooLong),
{
    if name.len() <= MAX_POT_NAME_LENGTH {
        Ok(())
    } else {
        Err(PotError::NameTooLong)
    }
}

/// The description is at most `MAX_POT_DESCRIPTION_LENGTH` bytes long.
pub fn assert_valid_pot_description(description: &str) -> (r: Result<(), PotError>)
    ensures
        r is Ok <==> spec_utf8_len(description@) <= MAX_POT_DESCRIPTION_LENGTH,
        r is Err ==> r == Err::<(), PotError>(PotError::DescriptionTooLong),
{
    if description.len() <= MAX_POT_DESCRIPTION_LENGTH {
        Ok(())
    } else {
        Err(PotError::DescriptionTooLong)
    }
}

pub fn assert_valid_max_projects(max_projects: u32) -> (r: Result<(), PotError>)
    ensures
        r is Ok <==> max_projects <= MAX_MAX_PROJECTS,
        r is Err ==> r == Err::<(), PotError>(PotError::TooManyProjects),
{
    if max_projects <= MAX_MAX_PROJECTS {
        Ok(())
    } else {
        Err(PotError::TooManyProjects)
    }
}

pub fn assert_valid_referral_fee_matching_pool_basis_points(basis_points: u32) -> (r: Result<(), PotError>)
    ensures
        r is Ok <==> basis_points <= MAX_REFERRAL_FEE_MATCHING_POOL_BASIS_POINTS,
        r is Err ==> r == Err::<(), PotError>(PotError::ReferralFeeTooHigh),
{
    if basis_points <= MAX_REFERRAL_FEE_MATCHING_POOL_BASIS_POINTS {
        Ok(())
    } else {
        Err(PotError::ReferralFeeTooHigh)
    }
}

pub fn assert_valid_referral_fee_public_round_basis_points(basis_points: u32) -> (r: Result<(), PotError>)
    ensures
        r is Ok <==> basis_points <= MAX_REFERRAL_FEE_PUBLIC_ROUND_BASIS_POINTS,
        r is Err ==> r == Err::<(), PotError>(PotError::ReferralFeeTooHigh),
{
    if basis_points <= MAX_REFERRAL_FEE_PUBLIC_ROUND_BASIS_POINTS {
        Ok(())
    } else {
        Err(PotError::ReferralFeeTooHigh)
    }
}

pub fn assert_valid_chef_fee_basis_points(basis_points: u32) -> (r: Result<(), PotError>)
    ensures
        r is Ok <==> basis_points <= MAX_CHEF_FEE_BASIS_POINTS,
        r is Err ==> r == Err::<(), PotError>(PotError::ChefFeeTooHigh),
{
    if basis_points <= MAX_CHEF_FEE_BASIS_POINTS {
        Ok(())
    } else {
        Err(PotError::ChefFeeTooHigh)
    }
}

/// The provider ID is `"{contract_id}:{method_name}"` with both parts non-empty.
pub fn assert_valid_provider_id(provider_id: &ProviderId) -> (r: Result<(), PotError>)
    ensures
        r is Ok <==> spec_validate(provider_id.0@) is Ok,
        r is Err ==> r == Err::<(), PotError>(PotError::InvalidProvider),
{
    match provider_id.validate() {
        Ok(()) => Ok(()),
        Err(_) => Err(PotError::InvalidProvider),
    }
}

pub fn assert_valid_cooldown_period_ms(cooldown_period_ms: u64) -> (r: Result<(), PotError>)
    ensures
        r is Ok <==> cooldown_period_ms >= MIN_COOLDOWN_PERIOD_MS,
        r is Err ==> r == Err::<(), PotError>(PotError::CooldownTooShort),
{
    if cooldown_period_ms >= MIN_COOLDOWN_PERIOD_MS {
        Ok(())
    } else {
        Err(PotError::CooldownTooShort)
    }
}

/// Why the round timestamps (application start and end, public round start
/// and end) are refused, if they are: each must come strictly before the next.
pub open spec fn spec_timestamps_check(application_start_ms: u64, application_end_ms: u64, public_round_start_ms: u64, public_round_end_ms: u64) -> Result<(), PotError> {
    if !(application_start_ms < application_end_ms) {
        Err(PotError::ApplicationStartNotBeforeEnd)
    } else if !(application_end_ms < public_round_start_ms) {
        Err(PotError::ApplicationEndNotBeforeRoundStart)
    } else if !(public_round_start_ms < public_round_end_ms) {
        Err(PotError::RoundStartNotBeforeEnd)
    } else {
        Ok(())
    }
}

/// Checks the round timestamps (see `spec_timestamps_check`).
pub fn check_timestamps(application_start_ms: u64, application_end_ms: u64, public_round_start_ms: u64, public_round_end_ms: u64) -> (r: Result<(), PotError>)
    ensures
        r == spec_timestamps_check(application_start_ms, application_end_ms, public_round_start_ms, public_round_end_ms),
{
    if !(application_start_ms < application_end_ms) {
        Err(PotError::ApplicationStartNotBeforeEnd)
    } else if !(application_end_ms < public_round_start_ms) {
        Err(PotError::ApplicationEndNotBeforeRoundStart)
    } else if !(public_round_start_ms < public_round_end_ms) {
        Err(PotError::RoundStartNotBeforeEnd)
    } else {
        Ok(())
    }
}

} // verus!
