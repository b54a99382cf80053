//! Limits on the arguments of a new pot, and the factory's constants.
use vstd::prelude::*;
use crate::pot_factory::types::{PotArgs, PotFactoryError};
use crate::text::spec_utf8_len;

verus! {

/// Bytes of storage a deployment pays for beyond the code and its arguments.
pub const EXTRA_BYTES: usize = 10_000;

pub const TGAS: u64 = 1_000_000_000_000;

/// Gas for the deployment call and its callback.
pub const XCC_GAS: u64 = 50_000_000_000_000;

pub const MAX_POT_NAME_LENGTH: usize = 64;

pub const MAX_POT_DESCRIPTION_LENGTH: usize = 256;

pub const MAX_MAX_PROJECTS: u32 = 100;

pub const MAX_REFERRAL_FEE_MATCHING_POOL_BASIS_POINTS: u32 = 1000;

pub const MAX_REFERRAL_FEE_PUBLIC_ROUND_BASIS_POINTS: u32 = 1000;

pub const MAX_CHEF_FEE_BASIS_POINTS: u32 = 1000;

/// The name is at most `MAX_POT_NAME_LENGTH` bytes long (in UTF-8).
pub fn assert_valid_pot_name(name: &str) -> (r: Result<(), PotFactoryError>)
    ensures
        r is Ok <==> spec_utf8_len(name@) <= MAX_POT_NAME_LENGTH,
        r is Err ==> r == Err::<(), PotFactoryError>(PotFactoryError::NameTooLong),
{
    if name.len() <= MAX_POT_NAME_LENGTH {
        Ok(())
    } else {
        Err(PotFactoryError::NameTooLong)
    }
}

/// The description is at most `MAX_POT_DESCRIPTION_LENGTH` bytes long.
pub fn assert_valid_pot_description(description: &str) -> (r: Result<(), PotFactoryError>)
    ensures
        r is Ok <==> spec_utf8_len(description@) <= MAX_POT_DESCRIPTION_LENGTH,
        r is Err ==> r == Err::<(), PotFactoryError>(PotFactoryError::DescriptionTooLong),
{
    if description.len() <= MAX_POT_DESCRIPTION_LENGTH {
        Ok(())
    } else {
        Err(PotFactoryError::DescriptionTooLong)
    }
}

pub fn assert_valid_max_projects(max_projects: u32) -> (r: Result<(), PotFactoryError>)
    ensures
        r is Ok <==> max_projects <= MAX_MAX_PROJECTS,
        r is Err ==> r == Err::<(), PotFactoryError>(PotFactoryError::TooManyProjects),
{
    if max_projects <= MAX_MAX_PROJECTS {
        Ok(())
    } else {
        Err(PotFactoryError::TooManyProjects)
    }
}

pub fn assert_valid_referral_fee_matching_pool_basis_points(basis_points: u32) -> (r: Result<(), PotFactoryError>)
    ensures
        r is Ok <==> basis_points <= MAX_REFERRAL_FEE_MATCHING_POOL_BASIS_POINTS,
        r is Err ==> r == Err::<(), PotFactoryError>(PotFactoryError::ReferralFeeTooHigh),
{
    if basis_points <= MAX_REFERRAL_FEE_MATCHING_POOL_BASIS_POINTS {
        Ok(())
    } else {
        Err(PotFactoryError::ReferralFeeTooHigh)
    }
}

pub fn assert_valid_referral_fee_public_round_basis_points(basis_points: u32) -> (r: Result<(), PotFactoryError>)
    ensures
        r is Ok <==> basis_points <= MAX_REFERRAL_FEE_PUBLIC_ROUND_BASIS_POINTS,
        r is Err ==> r == Err::<(), PotFactoryError>(PotFactoryError::ReferralFeeTooHigh),
{
    if basis_points <= MAX_REFERRAL_FEE_PUBLIC_ROUND_BASIS_POINTS {
        Ok(())
    } else {
        Err(PotFactoryError::ReferralFeeTooHigh)
    }
}

pub fn assert_valid_chef_fee_basis_points(basis_points: u32) -> (r: Result<(), PotFactoryError>)
    ensures
        r is Ok <==> basis_points <= MAX_CHEF_FEE_BASIS_POINTS,
        r is Err ==> r == Err::<(), PotFactoryError>(PotFactoryError::ChefFeeTooHigh),
{
    if basis_points <= MAX_CHEF_FEE_BASIS_POINTS {
        Ok(())
    } else {
        Err(PotFactoryError::ChefFeeTooHigh)
    }
}

/// Why the round timestamps of `args` are refused, if they are: application
/// start, application end, public round start and public round end must come
/// strictly one after the other.
pub open spec fn spec_pot_timestamps_check(args: PotArgs) -> Result<(), PotFactoryError> {
    if !(args.application_start_ms < args.application_end_ms) {
        Err(PotFactoryError::ApplicationStartNotBeforeEnd)
    } else if !(args.application_end_ms < args.public_round_start_ms) {
        Err(PotFactoryError::ApplicationEndNotBeforeRoundStart)
    } else if !(args.public_round_start_ms < args.public_round_end_ms) {
        Err(PotFactoryError::RoundStartNotBeforeEnd)
    } else {
        Ok(())
    }
}

pub fn assert_valid_pot_timestamps(args: &PotArgs) -> (r: Result<(), PotFactoryError>)
    ensures
        r == spec_pot_timestamps_check(*args),
{
    if !(args.application_start_ms < args.application_end_ms) {
        Err(PotFactoryError::ApplicationStartNotBeforeEnd)
    } else if !(args.application_end_ms < args.public_round_start_ms) {
        Err(PotFactoryError::ApplicationEndNotBeforeRoundStart)
    } else if !(args.public_round_start_ms < args.public_round_end_ms) {
        Err(PotFactoryError::RoundStartNotBeforeEnd)
    } else {
        Ok(())
    }
}

/// Why `args` are refused, if they are; the checks run in this order and the
/// first that fails gives the error.
pub open spec fn spec_pot_args_check(args: PotArgs) -> Result<(), PotFactoryError> {
    if spec_utf8_len(args.pot_name@) > MAX_POT_NAME_LENGTH {
        Err(PotFactoryError::NameTooLong)
    } else if spec_utf8_len(args.pot_description@) > MAX_POT_DESCRIPTION_LENGTH {
        Err(PotFactoryError::DescriptionTooLong)
    } else if args.max_projects > MAX_MAX_PROJECTS {
        Err(PotFactoryError::TooManyProjects)
    } else if args.referral_fee_matching_pool_basis_points > MAX_REFERRAL_FEE_MATCHING_POOL_BASIS_POINTS
        || args.referral_fee_public_round_basis_points > MAX_REFERRAL_FEE_PUBLIC_ROUND_BASIS_POINTS {
        Err(PotFactoryError::ReferralFeeTooHigh)
    } else if args.chef_fee_basis_points > MAX_CHEF_FEE_BASIS_POINTS {
        Err(PotFactoryError::ChefFeeTooHigh)
    } else {
        spec_pot_timestamps_check(args)
    }
}

pub fn assert_valid_pot_args(args: &PotArgs) -> (r: Result<(), PotFactoryError>)
    ensures
        r == spec_pot_args_check(*args),
{
    assert_valid_pot_name(args.pot_name.as_str())?;
    assert_valid_pot_description(args.pot_description.as_str())?;
    assert_valid_max_projects(args.max_projects)?;
    assert_valid_referral_fee_matching_pool_basis_points(args.referral_fee_matching_pool_basis_points)?;
    assert_valid_referral_fee_public_round_basis_points(args.referral_fee_public_round_basis_points)?;
    assert_valid_chef_fee_basis_points(args.chef_fee_basis_points)?;
    assert_valid_pot_timestamps(args)
}

} // verus!
