//! Records of the donation contract and their external forms.
use vstd::prelude::*;
use crate::util::clone_opt_string;

verus! {

pub type DonationId = u64;

pub type TimestampMs = u64;

/// A donation as stored by the first version of the contract.
pub struct DonationV1 {
    pub id: DonationId,
    pub donor_id: String,
    pub total_amount: u128,
    pub ft_id: String,
    pub message: Option<String>,
    pub donated_at_ms: TimestampMs,
    pub recipient_id: String,
    pub protocol_fee: u128,
    pub referrer_id: Option<String>,
    pub referrer_fee: Option<u128>,
}

/// A donation. `ft_id` is `"near"` for NEAR donations.
pub struct Donation {
    pub id: DonationId,
    pub donor_id: String,
    pub total_amount: u128,
    pub ft_id: String,
    pub message: Option<String>,
    pub donated_at_ms: TimestampMs,
    pub recipient_id: String,
    pub protocol_fee: u128,
    pub referrer_id: Option<String>,
    pub referrer_fee: Option<u128>,
}

impl Donation {
    /// A field-by-field copy.
    pub fn copy(&self) -> (r: Donation)
        ensures
            r == *self,
    {
        Donation {
            id: self.id,
            donor_id: self.donor_id.clone(),
            total_amount: self.total_amount,
            ft_id: self.ft_id.clone(),
            message: clone_opt_string(&self.message),
            donated_at_ms: self.donated_at_ms,
            recipient_id: self.recipient_id.clone(),
            protocol_fee: self.protocol_fee,
            referrer_id: clone_opt_string(&self.referrer_id),
            referrer_fee: self.referrer_fee,
        }
    }
}

/// Versioned storage form of a donation.
pub enum VersionedDonation {
    V1(DonationV1),
    Current(Donation),
}

/// The current form of a stored donation (a first-version record keeps all its fields).
pub open spec fn spec_donation_from(v: VersionedDonation) -> Donation {
    match v {
        VersionedDonation::V1(v1) => Donation {
            id: v1.id,
            donor_id: v1.donor_id,
            total_amount: v1.total_amount,
            ft_id: v1.ft_id,
            message: v1.message,
            donated_at_ms: v1.donated_at_ms,
            recipient_id: v1.recipient_id,
            protocol_fee: v1.protocol_fee,
            referrer_id: v1.referrer_id,
            referrer_fee: v1.referrer_fee,
        },
        VersionedDonation::Current(current) => current,
    }
}

impl From<VersionedDonation> for Donation {
    fn from(donation: VersionedDonation) -> (r: Self) {
        match donation {
            VersionedDonation::V1(v1) => Donation {
                id: v1.id,
                donor_id: v1.donor_id,
                total_amount: v1.total_amount,
                ft_id: v1.ft_id,
                message: v1.message,
                donated_at_ms: v1.donated_at_ms,
                recipient_id: v1.recipient_id,
                protocol_fee: v1.protocol_fee,
                referrer_id: v1.referrer_id,
                referrer_fee: v1.referrer_fee,
            },
            VersionedDonation::Current(current) => current,
        }
    }
}

impl vstd::std_specs::convert::FromSpecImpl<VersionedDonation> for Donation {
    open spec fn obeys_from_spec() -> bool {
        true
    }

    open spec fn from_spec(v: VersionedDonation) -> Self {
        spec_donation_from(v)
    }
}

/// A donation as returned by views.
pub struct DonationExternal {
    pub id: DonationId,
    pub donor_id: String,
    pub total_amount: u128,
    pub ft_id: String,
    pub message: Option<String>,
    pub donated_at_ms: TimestampMs,
    pub recipient_id: String,
    pub protocol_fee: u128,
    pub referrer_id: Option<String>,
    pub referrer_fee: Option<u128>,
}

/// Message attached to a fungible-token transfer that donates it.
pub struct FtReceiverMsg {
    pub recipient_id: String,
    pub referrer_id: Option<String>,
    pub message: Option<String>,
    pub bypass_protocol_fee: Option<bool>,
}

/// What a transfer pays.
#[derive(PartialEq, Eq, Structural, Clone, Copy)]
pub enum TransferType {
    DonationTransfer,
    ProtocolFeeTransfer,
    ReferrerFeeTransfer,
}

/// Configuration and totals, as returned by `get_config`.
pub struct Config {
    pub owner: String,
    pub protocol_fee_basis_points: u32,
    pub referral_fee_basis_points: u32,
    pub protocol_fee_recipient_account: String,
    pub total_donations_amount: u128,
    pub net_donations_amount: u128,
    pub total_donations_count: u64,
    pub total_protocol_fees: u128,
    pub total_referrer_fees: u128,
}

/// Why a call to the donation contract is refused.
#[derive(PartialEq, Eq, Structural, Clone, Copy)]
pub enum DonationError {
    OwnerOnly,
    DepositRequired,
    FeesExceedAmount,
    InsufficientStorageDeposit,
    DonationNotFound,
    MissingReferrerFee,
    OutOfBounds,
    ZeroLimit,
    ArithmeticOverflow,
}

} // verus!
