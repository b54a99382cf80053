//! Records, arguments, views and errors of the pot factory.
use vstd::prelude::*;
use crate::pot::types::{ContractSourceMetadata, CustomSybilCheck};
use crate::provider::ProviderId;

verus! {

pub type TimestampMs = u64;

/// The account ID of a deployed pot.
pub type PotId = String;

/// Record of a deployed pot.
pub struct Pot {
    pub deployed_by: String,
    pub deployed_at_ms: TimestampMs,
}

impl Pot {
    /// A field-by-field copy.
    pub fn copy(&self) -> (r: Pot)
        ensures
            r == *self,
    {
        Pot { deployed_by: self.deployed_by.clone(), deployed_at_ms: self.deployed_at_ms }
    }
}

/// A stored pot record, versioned for upgrades.
pub enum VersionedPot {
    Current(Pot),
}

impl From<VersionedPot> for Pot {
    fn from(pot: VersionedPot) -> (r: Self) {
        match pot {
            VersionedPot::Current(current) => current,
        }
    }
}

impl vstd::std_specs::convert::FromSpecImpl<VersionedPot> for Pot {
    open spec fn obeys_from_spec() -> bool {
        true
    }

    open spec fn from_spec(v: VersionedPot) -> Self {
        match v {
            VersionedPot::Current(current) => current,
        }
    }
}

/// A deployed pot as returned by views.
pub struct PotExternal {
    pub id: PotId,
    pub deployed_by: String,
    pub deployed_at_ms: TimestampMs,
}

/// Arguments of a new pot, handed to the pot contract's `new` method.
pub struct PotArgs {
    pub owner: Option<String>,
    pub admins: Option<Vec<String>>,
    pub chef: Option<String>,
    pub pot_name: String,
    pub pot_description: String,
    pub max_projects: u32,
    pub application_start_ms: TimestampMs,
    pub application_end_ms: TimestampMs,
    pub public_round_start_ms: TimestampMs,
    pub public_round_end_ms: TimestampMs,
    pub min_matching_pool_donation_amount: Option<u128>,
    pub cooldown_period_ms: Option<u64>,
    pub registry_provider: Option<ProviderId>,
    pub sybil_wrapper_provider: Option<ProviderId>,
    pub custom_sybil_checks: Option<Vec<CustomSybilCheck>>,
    pub custom_min_threshold_score: Option<u32>,
    pub referral_fee_matching_pool_basis_points: u32,
    pub referral_fee_public_round_basis_points: u32,
    pub chef_fee_basis_points: u32,
    pub protocol_config_provider: Option<ProviderId>,
    pub source_metadata: ContractSourceMetadata,
}

/// Protocol fee configuration, as pots query it from the factory.
pub struct ProtocolConfig {
    pub basis_points: u32,
    pub account_id: String,
}

/// Factory configuration, as returned by views.
pub struct ContractConfigExternal {
    pub owner: String,
    pub admins: Vec<String>,
    pub protocol_fee_basis_points: u32,
    pub protocol_fee_recipient_account: String,
    pub default_chef_fee_basis_points: u32,
    pub whitelisted_deployers: Vec<String>,
    pub require_whitelist: bool,
}

/// Why a call to the pot factory is refused.
#[derive(PartialEq, Eq, Structural, Clone, Copy)]
pub enum PotFactoryError {
    OwnerOnly,
    AdminOnly,
    /// Only the owner, an admin or a whitelisted deployer may deploy.
    NotWhitelistedDeployer,
    /// Privileged calls carry at least one yoctoNEAR.
    DepositRequired,
    InvalidPotAccountId,
    PotExists,
    NameTooLong,
    DescriptionTooLong,
    TooManyProjects,
    ReferralFeeTooHigh,
    ChefFeeTooHigh,
    ApplicationStartNotBeforeEnd,
    ApplicationEndNotBeforeRoundStart,
    RoundStartNotBeforeEnd,
    /// The attached deposit is less than the deployment requires.
    InsufficientDeposit { required: u128 },
}

} // verus!
