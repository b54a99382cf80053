//! Records of the campaigns contract and their external (view) forms.
use vstd::prelude::*;
use crate::util::clone_opt_string;

verus! {

pub type CampaignId = u64;

pub type DonationId = u64;

pub type TimestampMs = u64;

pub type Balance = u128;

/// A campaign, as stored (its ID is the key it is stored under).
pub struct Campaign {
    pub owner: String,
    pub name: String,
    pub description: Option<String>,
    pub cover_image_url: Option<String>,
    pub recipient: String,
    pub start_ms: TimestampMs,
    pub end_ms: Option<TimestampMs>,
    pub created_ms: TimestampMs,
    pub ft_id: Option<String>,
    pub target_amount: Balance,
    pub min_amount: Option<Balance>,
    pub max_amount: Option<Balance>,
    pub total_raised_amount: Balance,
    pub net_raised_amount: Balance,
    pub escrow_balance: Balance,
    pub referral_fee_basis_points: u32,
    pub creator_fee_basis_points: u32,
    pub allow_fee_avoidance: bool,
}

impl Campaign {
    /// A field-by-field copy.
    pub fn copy(&self) -> (r: Campaign)
        ensures
            r == *self,
    {
        Campaign {
            owner: self.owner.clone(),
            name: self.name.clone(),
            description: clone_opt_string(&self.description),
            cover_image_url: clone_opt_string(&self.cover_image_url),
            recipient: self.recipient.clone(),
            start_ms: self.start_ms,
            end_ms: self.end_ms,
            created_ms: self.created_ms,
            ft_id: clone_opt_string(&self.ft_id),
            target_amount: self.target_amount,
            min_amount: self.min_amount,
            max_amount: self.max_amount,
            total_raised_amount: self.total_raised_amount,
            net_raised_amount: self.net_raised_amount,
            escrow_balance: self.escrow_balance,
            referral_fee_basis_points: self.referral_fee_basis_points,
            creator_fee_basis_points: self.creator_fee_basis_points,
            allow_fee_avoidance: self.allow_fee_avoidance,
        }
    }
}

/// Versioned storage form of a campaign.
pub enum VersionedCampaign {
    Current(Campaign),
}

impl From<VersionedCampaign> for Campaign {
    fn from(campaign: VersionedCampaign) -> (r: Self) {
        match campaign {
            VersionedCampaign::Current(current) => current,
        }
    }
}

impl vstd::std_specs::convert::FromSpecImpl<VersionedCampaign> for Campaign {
    open spec fn obeys_from_spec() -> bool {
        true
    }

    open spec fn from_spec(v: VersionedCampaign) -> Self {
        match v {
            VersionedCampaign::Current(current) => current,
        }
    }
}

/// A campaign as returned by views (amounts as plain numbers).
pub struct CampaignExternal {
    pub id: CampaignId,
    pub owner: String,
    pub name: String,
    pub description: Option<String>,
    pub cover_image_url: Option<String>,
    pub recipient: String,
    pub start_ms: TimestampMs,
    pub end_ms: Option<TimestampMs>,
    pub created_ms: TimestampMs,
    pub ft_id: Option<String>,
    pub target_amount: Balance,
    pub min_amount: Option<Balance>,
    pub max_amount: Option<Balance>,
    pub total_raised_amount: Balance,
    pub net_raised_amount: Balance,
    pub escrow_balance: Balance,
    pub referral_fee_basis_points: u32,
    pub creator_fee_basis_points: u32,
}

/// The external form of campaign `id`.
pub open spec fn spec_format_campaign(id: CampaignId, c: Campaign) -> CampaignExternal {
    CampaignExternal {
        id,
        owner: c.owner,
        name: c.name,
        description: c.description,
        cover_image_url: c.cover_image_url,
        recipient: c.recipient,
        start_ms: c.start_ms,
        end_ms: c.end_ms,
        created_ms: c.created_ms,
        ft_id: c.ft_id,
        target_amount: c.target_amount,
        min_amount: c.min_amount,
        max_amount: c.max_amount,
        total_raised_amount: c.total_raised_amount,
        net_raised_amount: c.net_raised_amount,
        escrow_balance: c.escrow_balance,
        referral_fee_basis_points: c.referral_fee_basis_points,
        creator_fee_basis_points: c.creator_fee_basis_points,
    }
}

/// External (view) form of a campaign.
pub fn format_campaign(campaign_id: &CampaignId, campaign: &Campaign) -> (r: CampaignExternal)
    ensures
        r == spec_format_campaign(*campaign_id, *campaign),
{
    CampaignExternal {
        id: *campaign_id,
        owner: campaign.owner.clone(),
        name: campaign.name.clone(),
        description: clone_opt_string(&campaign.description),
        cover_image_url: clone_opt_string(&campaign.cover_image_url),
        recipient: campaign.recipient.clone(),
        start_ms: campaign.start_ms,
        end_ms: campaign.end_ms,
        created_ms: campaign.created_ms,
        ft_id: clone_opt_string(&campaign.ft_id),
        target_amount: campaign.target_amount,
        min_amount: campaign.min_amount,
        max_amount: campaign.max_amount,
        total_raised_amount: campaign.total_raised_amount,
        net_raised_amount: campaign.net_raised_amount,
        escrow_balance: campaign.escrow_balance,
        referral_fee_basis_points: campaign.referral_fee_basis_points,
        creator_fee_basis_points: campaign.creator_fee_basis_points,
    }
}

/// A donation to a campaign, as stored (recipient and token live on the campaign).
pub struct Donation {
    pub id: DonationId,
    pub campaign_id: CampaignId,
    pub donor_id: String,
    pub total_amount: u128,
    /// Amount after all fees and storage costs.
    pub net_amount: u128,
    pub message: Option<String>,
    pub donated_at_ms: TimestampMs,
    pub protocol_fee: u128,
    pub referrer_id: Option<String>,
    pub referrer_fee: Option<u128>,
    pub creator_fee: u128,
    /// When the donation was returned to its donor, if it was.
    pub returned_at_ms: Option<TimestampMs>,
}

impl Donation {
    /// A field-by-field copy.
    pub fn copy(&self) -> (r: Donation)
        ensures
            r == *self,
    {
        Donation {
            id: self.id,
            campaign_id: self.campaign_id,
            donor_id: self.donor_id.clone(),
            total_amount: self.total_amount,
            net_amount: self.net_amount,
            message: clone_opt_string(&self.message),
            donated_at_ms: self.donated_at_ms,
            protocol_fee: self.protocol_fee,
            referrer_id: clone_opt_string(&self.referrer_id),
            referrer_fee: self.referrer_fee,
            creator_fee: self.creator_fee,
            returned_at_ms: self.returned_at_ms,
        }
    }
}

/// Versioned storage form of a donation.
pub enum VersionedDonation {
    Current(Donation),
}

impl From<VersionedDonation> for Donation {
    fn from(donation: VersionedDonation) -> (r: Self) {
        match donation {
            VersionedDonation::Current(current) => current,
        }
    }
}

impl vstd::std_specs::convert::FromSpecImpl<VersionedDonation> for Donation {
    open spec fn obeys_from_spec() -> bool {
        true
    }

    open spec fn from_spec(v: VersionedDonation) -> Self {
        match v {
            VersionedDonation::Current(current) => current,
        }
    }
}

/// A donation as returned by views.
pub struct DonationExternal {
    pub id: DonationId,
    pub campaign_id: CampaignId,
    pub donor_id: String,
    pub total_amount: u128,
    pub net_amount: u128,
    /// Token of the campaign (`None` for NEAR).
    pub ft_id: Option<String>,
    pub message: Option<String>,
    pub donated_at_ms: TimestampMs,
    pub protocol_fee: u128,
    pub referrer_id: Option<String>,
    pub referrer_fee: Option<u128>,
    pub creator_fee: u128,
    pub returned_at_ms: Option<TimestampMs>,
    /// Whether the donation is currently held in escrow.
    pub is_in_escrow: bool,
    /// Recipient of the campaign.
    pub recipient_id: String,
}

impl DonationExternal {
    /// A field-by-field copy.
    pub fn copy(&self) -> (r: DonationExternal)
        ensures
            r == *self,
    {
        DonationExternal {
            id: self.id,
            campaign_id: self.campaign_id,
            donor_id: self.donor_id.clone(),
            total_amount: self.total_amount,
            net_amount: self.net_amount,
            ft_id: clone_opt_string(&self.ft_id),
            message: clone_opt_string(&self.message),
            donated_at_ms: self.donated_at_ms,
            protocol_fee: self.protocol_fee,
            referrer_id: clone_opt_string(&self.referrer_id),
            referrer_fee: self.referrer_fee,
            creator_fee: self.creator_fee,
            returned_at_ms: self.returned_at_ms,
            is_in_escrow: self.is_in_escrow,
            recipient_id: self.recipient_id.clone(),
        }
    }
}

/// The stored form of an external donation record (the same fields).
pub open spec fn spec_unformat_donation(d: DonationExternal) -> Donation {
    Donation {
        id: d.id,
        campaign_id: d.campaign_id,
        donor_id: d.donor_id,
        total_amount: d.total_amount,
        net_amount: d.net_amount,
        message: d.message,
        donated_at_ms: d.donated_at_ms,
        protocol_fee: d.protocol_fee,
        referrer_id: d.referrer_id,
        referrer_fee: d.referrer_fee,
        creator_fee: d.creator_fee,
        returned_at_ms: d.returned_at_ms,
    }
}

/// Converts an external donation back to its stored form.
pub fn unformat_donation(donation: &DonationExternal) -> (r: Donation)
    ensures
        r == spec_unformat_donation(*donation),
{
    Donation {
        id: donation.id,
        campaign_id: donation.campaign_id,
        donor_id: donation.donor_id.clone(),
        total_amount: donation.total_amount,
        net_amount: donation.net_amount,
        message: clone_opt_string(&donation.message),
        donated_at_ms: donation.donated_at_ms,
        protocol_fee: donation.protocol_fee,
        referrer_id: clone_opt_string(&donation.referrer_id),
        referrer_fee: donation.referrer_fee,
        creator_fee: donation.creator_fee,
        returned_at_ms: donation.returned_at_ms,
    }
}

/// Message attached to a fungible-token transfer that donates to a campaign.
pub struct FtReceiverMsg {
    pub campaign_id: CampaignId,
    pub referrer_id: Option<String>,
    pub message: Option<String>,
    pub bypass_protocol_fee: Option<bool>,
    pub bypass_creator_fee: Option<bool>,
}

/// Party that a transfer pays.
#[derive(PartialEq, Eq, Structural, Clone, Copy)]
pub enum FundsReceiver {
    Recipient,
    Protocol,
    Referrer,
    Creator,
}

/// Amount owed back to one donor by a refund batch, with the donations it covers.
pub struct TempRefundRecord {
    pub amount: Balance,
    pub escrow_balance: Balance,
    pub donations: Vec<Donation>,
}

/// Contract configuration, as returned by `get_config`.
pub struct Config {
    pub owner: String,
    pub admins: Vec<String>,
    pub protocol_fee_basis_points: u32,
    pub protocol_fee_recipient_account: String,
    pub default_referral_fee_basis_points: u32,
    pub default_creator_fee_basis_points: u32,
    pub total_campaigns_count: u32,
    pub total_donations_count: u32,
}

/// Why a call to the campaigns contract is refused.
#[derive(PartialEq, Eq, Structural, Clone, Copy)]
pub enum CampaignError {
    CampaignNotFound,
    DonationNotFound,
    OwnerOnly,
    AdminOnly,
    DepositRequired,
    ProtocolFeeTooHigh,
    ReferralFeeTooHigh,
    CreatorFeeTooHigh,
    StartNotInFuture,
    CampaignStarted,
    EndBeforeStart,
    MaxAmountReached,
    MinAmountNotReached,
    EndReached,
    NotStarted,
    Ended,
    WrongToken,
    FeesExceedAmount,
    InsufficientStorageDeposit,
    HasDonations,
    OutOfBounds,
    ZeroLimit,
    NotEnoughGas,
    RefundsNotAvailable,
    MinAmountReached,
    DonorNotFound,
    ArithmeticOverflow,
    MissingReferrerFee,
    WithdrawalExceedsBalance,
    /// The cost of a refunded record's storage was not given.
    StorageCostMissing,
}

} // verus!
