//! Records of the pot contract and their external (view) forms.
use vstd::prelude::*;
use crate::provider::ProviderId;
use crate::util::clone_opt_string;

verus! {

pub type TimestampMs = u64;

pub type ProjectId = String;

pub type DonationId = u64;

pub type PayoutId = String;

/// Review status of a project's application.
#[derive(PartialEq, Eq, Structural, Clone, Copy)]
pub enum ApplicationStatus {
    Pending,
    Approved,
    Rejected,
    InReview,
}

/// A project's application to the round (one per project).
pub struct Application {
    pub project_id: ProjectId,
    pub message: Option<String>,
    pub status: ApplicationStatus,
    pub submitted_at: TimestampMs,
    pub updated_at: Option<TimestampMs>,
    pub review_notes: Option<String>,
}

impl Application {
    /// A field-by-field copy.
    pub fn copy(&self) -> (r: Application)
        ensures
            r == *self,
    {
        Application {
            project_id: self.project_id.clone(),
            message: clone_opt_string(&self.message),
            status: self.status,
            submitted_at: self.submitted_at,
            updated_at: self.updated_at,
            review_notes: clone_opt_string(&self.review_notes),
        }
    }
}

/// Versioned storage form of an application.
pub enum VersionedApplication {
    Current(Application),
}

impl From<VersionedApplication> for Application {
    fn from(application: VersionedApplication) -> (r: Self) {
        match application {
            VersionedApplication::Current(current) => current,
        }
    }
}

impl vstd::std_specs::convert::FromSpecImpl<VersionedApplication> for Application {
    open spec fn obeys_from_spec() -> bool {
        true
    }

    open spec fn from_spec(v: VersionedApplication) -> Self {
        match v {
            VersionedApplication::Current(current) => current,
        }
    }
}

/// A donation to a project (public round) or to the matching pool.
pub struct Donation {
    pub donor_id: String,
    pub total_amount: u128,
    /// Amount after all fees and the storage of the record.
    pub net_amount: u128,
    pub message: Option<String>,
    pub donated_at: TimestampMs,
    /// `None` for matching pool donations.
    pub project_id: Option<ProjectId>,
    pub referrer_id: Option<String>,
    pub referrer_fee: Option<u128>,
    pub protocol_fee: u128,
    pub chef_id: Option<String>,
    pub chef_fee: Option<u128>,
}

impl Donation {
    /// A field-by-field copy.
    pub fn copy(&self) -> (r: Donation)
        ensures
            r == *self,
    {
        Donation {
            donor_id: self.donor_id.clone(),
            total_amount: self.total_amount,
            net_amount: self.net_amount,
            message: clone_opt_string(&self.message),
            donated_at: self.donated_at,
            project_id: clone_opt_string(&self.project_id),
            referrer_id: clone_opt_string(&self.referrer_id),
            referrer_fee: self.referrer_fee,
            protocol_fee: self.protocol_fee,
            chef_id: clone_opt_string(&self.chef_id),
            chef_fee: self.chef_fee,
        }
    }
}

/// Versioned storage form of a donation.
pub enum VersionedDonation {
    Current(Donation),
}

impl From<VersionedDonation> for Donation {
    fn from(donation: VersionedDonation) -> (r: Self) {
        match donation {
            VersionedDonation::Current(current) => current,
        }
    }
}

impl vstd::std_specs::convert::FromSpecImpl<VersionedDonation> for Donation {
    open spec fn obeys_from_spec() -> bool {
        true
    }

    open spec fn from_spec(v: VersionedDonation) -> Self {
        match v {
            VersionedDonation::Current(current) => current,
        }
    }
}

/// A donation as returned by views.
pub struct DonationExternal {
    pub id: DonationId,
    pub donor_id: String,
    pub total_amount: u128,
    pub net_amount: u128,
    pub message: Option<String>,
    pub donated_at: TimestampMs,
    pub project_id: Option<ProjectId>,
    pub referrer_id: Option<String>,
    pub referrer_fee: Option<u128>,
    pub protocol_fee: u128,
    /// Whether this is a matching pool donation.
    pub matching_pool: bool,
    pub chef_id: Option<String>,
    pub chef_fee: Option<u128>,
}

/// What the protocol configuration provider answers.
pub struct ProtocolConfigProviderResult {
    pub basis_points: u32,
    pub account_id: String,
}

/// A payout from the matching pool to a project.
pub struct Payout {
    pub id: PayoutId,
    pub recipient_id: String,
    pub amount: u128,
    /// When it was paid out; `None` until then.
    pub paid_at: Option<TimestampMs>,
    pub memo: Option<String>,
}

impl Payout {
    /// A field-by-field copy.
    pub fn copy(&self) -> (r: Payout)
        ensures
            r == *self,
    {
        Payout {
            id: self.id.clone(),
            recipient_id: self.recipient_id.clone(),
            amount: self.amount,
            paid_at: self.paid_at,
            memo: clone_opt_string(&self.memo),
        }
    }

    /// The view form of this payout.
    pub fn to_external(&self) -> (r: PayoutExternal)
        ensures
            r == (PayoutExternal {
                id: self.id,
                recipient_id: self.recipient_id,
                amount: self.amount,
                paid_at: self.paid_at,
                memo: self.memo,
            }),
    {
        PayoutExternal {
            id: self.id.clone(),
            recipient_id: self.recipient_id.clone(),
            amount: self.amount,
            paid_at: self.paid_at,
            memo: clone_opt_string(&self.memo),
        }
    }
}

/// A payout requested by the chef.
pub struct PayoutInput {
    pub amount: u128,
    pub recipient_id: ProjectId,
    pub memo: Option<String>,
}

/// A payout as returned by views.
pub struct PayoutExternal {
    pub id: PayoutId,
    pub recipient_id: String,
    pub amount: u128,
    pub paid_at: Option<TimestampMs>,
    pub memo: Option<String>,
}

/// A challenge of the payouts, made during the cooldown (one per account).
pub struct PayoutsChallenge {
    pub created_at: TimestampMs,
    pub reason: String,
    pub admin_notes: Option<String>,
    pub resolved: bool,
}

impl PayoutsChallenge {
    /// A field-by-field copy.
    pub fn copy(&self) -> (r: PayoutsChallenge)
        ensures
            r == *self,
    {
        PayoutsChallenge {
            created_at: self.created_at,
            reason: self.reason.clone(),
            admin_notes: clone_opt_string(&self.admin_notes),
            resolved: self.resolved,
        }
    }

    /// The view form of this challenge, made by `challenger_id`.
    pub fn to_external(&self, challenger_id: String) -> (r: PayoutsChallengeExternal)
        ensures
            r == (PayoutsChallengeExternal {
                challenger_id,
                created_at: self.created_at,
                reason: self.reason,
                admin_notes: self.admin_notes,
                resolved: self.resolved,
            }),
    {
        PayoutsChallengeExternal {
            challenger_id,
            created_at: self.created_at,
            reason: self.reason.clone(),
            admin_notes: clone_opt_string(&self.admin_notes),
            resolved: self.resolved,
        }
    }
}

/// A payouts challenge as returned by views.
pub struct PayoutsChallengeExternal {
    pub challenger_id: String,
    pub created_at: TimestampMs,
    pub reason: String,
    pub admin_notes: Option<String>,
    pub resolved: bool,
}

/// A soulbound-token requirement (registry, issuer and class).
pub struct SBTRequirement {
    pub registry_id: String,
    pub issuer_id: String,
    pub class_id: u64,
}

/// Attributes of a soulbound token.
pub struct TokenMetadata {
    pub class: u64,
    pub issued_at: Option<u64>,
    pub expires_at: Option<u64>,
    pub reference: Option<String>,
    pub reference_hash: Option<Vec<u8>>,
}

/// A soulbound token and its attributes.
pub struct OwnedToken {
    pub token: u64,
    pub metadata: TokenMetadata,
}

/// Where the deployed code comes from (NEP-330, with the commit hash).
pub struct ContractSourceMetadata {
    pub version: String,
    pub commit_hash: String,
    pub link: String,
}

impl ContractSourceMetadata {
    /// A field-by-field copy.
    pub fn copy(&self) -> (r: ContractSourceMetadata)
        ensures
            r == *self,
    {
        ContractSourceMetadata {
            version: self.version.clone(),
            commit_hash: self.commit_hash.clone(),
            link: self.link.clone(),
        }
    }
}

/// A sybil check given by contract, method and weight.
pub struct CustomSybilCheck {
    pub contract_id: String,
    pub method_name: String,
    pub weight: u32,
}

/// Changes to the pot configuration (`None` keeps a value, or, for the
/// chef, the providers, the sybil checks and the threshold, removes it).
pub struct UpdatePotArgs {
    pub owner: Option<String>,
    pub admins: Option<Vec<String>>,
    pub chef: Option<String>,
    pub pot_name: Option<String>,
    pub pot_description: Option<String>,
    pub tags: Option<Vec<String>>,
    pub max_projects: Option<u32>,
    pub application_start_ms: Option<TimestampMs>,
    pub application_end_ms: Option<TimestampMs>,
    pub public_round_start_ms: Option<TimestampMs>,
    pub public_round_end_ms: Option<TimestampMs>,
    pub compliance_period_ms: Option<u64>,
    pub registry_provider: Option<ProviderId>,
    pub min_matching_pool_donation_amount: Option<u128>,
    pub sybil_wrapper_provider: Option<ProviderId>,
    pub custom_sybil_checks: Option<Vec<CustomSybilCheck>>,
    pub custom_min_threshold_score: Option<u32>,
    pub referral_fee_matching_pool_basis_points: Option<u32>,
    pub referral_fee_public_round_basis_points: Option<u32>,
    pub chef_fee_basis_points: Option<u32>,
}

/// Why a call to the pot contract is refused.
#[derive(PartialEq, Eq, Structural, Clone, Copy)]
pub enum PotError {
    OwnerOnly,
    AdminOnly,
    ChefOnly,
    DepositRequired,
    NameTooLong,
    DescriptionTooLong,
    TooManyProjects,
    ReferralFeeTooHigh,
    ChefFeeTooHigh,
    InvalidProvider,
    CooldownTooShort,
    ApplicationStartNotBeforeEnd,
    ApplicationEndNotBeforeRoundStart,
    RoundStartNotBeforeEnd,
    CannotApply,
    NotRegistered,
    ApplicationExists,
    ApplicationNotFound,
    ApplicationPeriodClosed,
    ApplicationNotPending,
    InsufficientStorageDeposit,
    MaxProjectsReached,
    ProjectNotApproved,
    RoundClosed,
    RoundNotActive,
    RoundNotClosed,
    ProjectIdNotAllowed,
    ProjectIdRequired,
    SelfDonation,
    DonationTooSmall,
    AlreadyPaidOut,
    PayoutsExceedMatchingPool,
    CooldownNotSet,
    CooldownNotOver,
    CooldownCanOnlyExtend,
    ChallengesUnresolved,
    ChallengeNotFound,
    ChallengeResolved,
    PayoutNotFound,
    NotContractAccount,
    OnlyNearSupported,
    RoundStarted,
    RedistributionNotAllowed,
    NoRedistributionRecipient,
    ComplianceNotOver,
    ArithmeticOverflow,
    /// A page starts past the end of the list.
    OutOfBounds,
    /// A listed donation has no record.
    DonationNotFound,
    /// A page of at most zero items was asked for.
    ZeroLimit,
}

} // verus!
