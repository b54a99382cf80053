//! Records, arguments, views and errors of the pot deployer.
use vstd::prelude::*;
use crate::pot::types::CustomSybilCheck;
use crate::provider::ProviderId;

verus! {

pub type TimestampMs = u64;

/// The account ID of a deployed pot.
pub type PotId = String;

/// Record of a deployed pot.
pub struct Pot {
    pub pot_id: PotId,
    pub deployed_by: String,
}

impl Pot {
    /// A field-by-field copy.
    pub fn copy(&self) -> (r: Pot)
        ensures
            r == *self,
    {
        Pot { pot_id: self.pot_id.clone(), deployed_by: self.deployed_by.clone() }
    }
}

/// Arguments of a new pot, handed to the pot contract's `new` method.
pub struct PotArgs {
    pub owner: Option<String>,
    pub admins: Option<Vec<String>>,
    pub chef: String,
    pub pot_name: String,
    pub pot_description: String,
    pub max_projects: u32,
    pub application_start_ms: TimestampMs,
    pub application_end_ms: TimestampMs,
    pub public_round_start_ms: TimestampMs,
    pub public_round_end_ms: TimestampMs,
    pub registry_provider: Option<ProviderId>,
    pub sybil_wrapper_provider: Option<ProviderId>,
    pub custom_sybil_checks: Option<Vec<CustomSybilCheck>>,
    pub custom_min_threshold_score: Option<u32>,
    pub patron_referral_fee_basis_points: u32,
    pub public_round_referral_fee_basis_points: u32,
    pub chef_fee_basis_points: u32,
}

/// Protocol fee configuration.
pub struct ProtocolConfig {
    pub protocol_fee_basis_points: u32,
    pub protocol_fee_recipient_account: String,
}

/// Deployer configuration, as returned by views.
pub struct ContractConfigExternal {
    pub owner: String,
    pub admins: Vec<String>,
    pub protocol_fee_basis_points: u32,
    pub protocol_fee_recipient_account: String,
    pub default_chef_fee_basis_points: u32,
    pub whitelisted_deployers: Vec<String>,
    pub require_whitelist: bool,
}

/// Why a call to the pot deployer is refused.
#[derive(PartialEq, Eq, Structural, Clone, Copy)]
pub enum PotDeployerError {
    /// Only the owner or a whitelisted deployer may deploy.
    NotWhitelistedDeployer,
    InvalidPotAccountId,
    /// The deployment of the pot failed.
    DeploymentFailed,
}

} // verus!
