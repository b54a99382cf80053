//! Limits on the fee rates of the campaigns contract.
use vstd::prelude::*;
use crate::campaigns::types::CampaignError;

verus! {

pub const MAX_PROTOCOL_FEE_BASIS_POINTS: u32 = 1000;

pub const MAX_REFERRAL_FEE_BASIS_POINTS: u32 = 1000;

pub const MAX_CREATOR_FEE_BASIS_POINTS: u32 = 1000;

pub const TGAS: u64 = 1_000_000_000_000;

pub const XCC_GAS_DEFAULT: u64 = 10_000_000_000_000;

pub const MAX_TGAS: u64 = 300_000_000_000_000;

pub const NO_DEPOSIT: u128 = 0;

pub const ONE_YOCTO: u128 = 1;

/// Number of escrowed donations processed or refunded per batch.
pub const BATCH_SIZE: usize = 100;

pub fn assert_valid_protocol_fee_basis_points(basis_points: u32) -> (r: Result<(), CampaignError>)
    ensures
        r is Ok <==> basis_points <= MAX_PROTOCOL_FEE_BASIS_POINTS,
        r is Err ==> r == Err::<(), CampaignError>(CampaignError::ProtocolFeeTooHigh),
{
    if basis_points <= MAX_PROTOCOL_FEE_BASIS_POINTS {
        Ok(())
    } else {
        Err(CampaignError::ProtocolFeeTooHigh)
    }
}

pub fn assert_valid_referral_fee_basis_points(basis_points: u32) -> (r: Result<(), CampaignError>)
    ensures
        r is Ok <==> basis_points <= MAX_REFERRAL_FEE_BASIS_POINTS,
        r is Err ==> r == Err::<(), CampaignError>(CampaignError::ReferralFeeTooHigh),
{
    if basis_points <= MAX_REFERRAL_FEE_BASIS_POINTS {
        Ok(())
    } else {
        Err(CampaignError::ReferralFeeTooHigh)
    }
}

pub fn assert_valid_creator_fee_basis_points(basis_points: u32) -> (r: Result<(), CampaignError>)
    ensures
        r is Ok <==> basis_points <= MAX_CREATOR_FEE_BASIS_POINTS,
        r is Err ==> r == Err::<(), CampaignError>(CampaignError::CreatorFeeTooHigh),
{
    if basis_points <= MAX_CREATOR_FEE_BASIS_POINTS {
        Ok(())
    } else {
        Err(CampaignError::CreatorFeeTooHigh)
    }
}

} // verus!
