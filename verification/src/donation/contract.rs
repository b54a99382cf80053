//! State of the donation contract, its owner-only settings and its configuration view.
use vstd::prelude::*;
use crate::collections::{account_sets_wf, AccountMap, IdMap};
use crate::collections::IdSet;
use crate::donation::types::{Config, Donation, DonationError};
use crate::env::CallContext;
use crate::pot::types::ContractSourceMetadata;

verus! {

/// The donation contract.
pub struct Contract {
    pub owner: String,
    pub protocol_fee_basis_points: u32,
    pub referral_fee_basis_points: u32,
    pub protocol_fee_recipient_account: String,
    pub donations_by_id: IdMap<Donation>,
    pub donation_ids_by_recipient_id: AccountMap<IdSet>,
    pub donation_ids_by_donor_id: AccountMap<IdSet>,
    pub donation_ids_by_ft_id: AccountMap<IdSet>,
    pub total_donations_amount: u128,
    pub net_donations_amount: u128,
    pub total_protocol_fees: u128,
    pub total_referrer_fees: u128,
    pub next_donation_id: u64,
    /// Storage balance of each account (paid in advance for token donations).
    pub storage_deposits: AccountMap<u128>,
    pub contract_source_metadata: Option<ContractSourceMetadata>,
}

impl Contract {
    /// Collections are well formed, and the totals add up: everything
    /// donated is the net amount plus the protocol and referrer fees.
    pub open spec fn wf(&self) -> bool {
        &&& self.donations_by_id.wf()
        &&& self.donation_ids_by_recipient_id.wf()
        &&& account_sets_wf(self.donation_ids_by_recipient_id@)
        &&& self.donation_ids_by_donor_id.wf()
        &&& account_sets_wf(self.donation_ids_by_donor_id@)
        &&& self.donation_ids_by_ft_id.wf()
        &&& account_sets_wf(self.donation_ids_by_ft_id@)
        &&& self.storage_deposits.wf()
        &&& self.total_donations_amount == self.net_donations_amount + self.total_protocol_fees + self.total_referrer_fees
    }

    /// A new donation contract: no donations, totals at zero, IDs from 1.
    pub fn new(
        owner: String,
        protocol_fee_basis_points: u32,
        referral_fee_basis_points: u32,
        protocol_fee_recipient_account: String,
        source_metadata: ContractSourceMetadata,
    ) -> (c: Self)
        ensures
            c.wf(),
            c.owner == owner,
            c.protocol_fee_basis_points == protocol_fee_basis_points,
            c.referral_fee_basis_points == referral_fee_basis_points,
            c.protocol_fee_recipient_account == protocol_fee_recipient_account,
            c.donations_by_id@.len() == 0,
            c.total_donations_amount == 0,
            c.next_donation_id == 1,
            c.contract_source_metadata == Some(source_metadata),
    {
        let c = Contract {
            owner,
            protocol_fee_basis_points,
            referral_fee_basis_points,
            protocol_fee_recipient_account,
            donations_by_id: IdMap::new(),
            donation_ids_by_recipient_id: AccountMap::new(),
            donation_ids_by_donor_id: AccountMap::new(),
            donation_ids_by_ft_id: AccountMap::new(),
            total_donations_amount: 0,
            net_donations_amount: 0,
            total_protocol_fees: 0,
            total_referrer_fees: 0,
            next_donation_id: 1,
            storage_deposits: AccountMap::new(),
            contract_source_metadata: Some(source_metadata),
        };
        c
    }

    /// Configuration and totals.
    pub fn get_config(&self) -> (c: Config)
        requires
            self.wf(),
        ensures
            c == (Config {
                owner: self.owner,
                protocol_fee_basis_points: self.protocol_fee_basis_points,
                referral_fee_basis_points: self.referral_fee_basis_points,
                protocol_fee_recipient_account: self.protocol_fee_recipient_account,
                total_donations_amount: self.total_donations_amount,
                net_donations_amount: self.net_donations_amount,
                total_donations_count: self.donations_by_id@.len() as u64,
                total_protocol_fees: self.total_protocol_fees,
                total_referrer_fees: self.total_referrer_fees,
            }),
    {
        proof {
            self.donations_by_id.lemma_wf();
        }
        Config {
            owner: self.owner.clone(),
            protocol_fee_basis_points: self.protocol_fee_basis_points,
            referral_fee_basis_points: self.referral_fee_basis_points,
            protocol_fee_recipient_account: self.protocol_fee_recipient_account.clone(),
            total_donations_amount: self.total_donations_amount,
            net_donations_amount: self.net_donations_amount,
            total_donations_count: self.donations_by_id.len() as u64,
            total_protocol_fees: self.total_protocol_fees,
            total_referrer_fees: self.total_referrer_fees,
        }
    }

    /// Owner check of privileged calls (which must carry at least one yoctoNEAR).
    pub open spec fn spec_owner_check(&self, ctx: CallContext) -> Result<(), DonationError> {
        if ctx.predecessor@ != self.owner@ {
            Err(DonationError::OwnerOnly)
        } else if ctx.attached_deposit < 1 {
            Err(DonationError::DepositRequired)
        } else {
            Ok(())
        }
    }

    pub fn assert_owner(&self, ctx: &CallContext) -> (r: Result<(), DonationError>)
        ensures
            r == self.spec_owner_check(*ctx),
    {
        if ctx.predecessor != self.owner {
            return Err(DonationError::OwnerOnly);
        }
        if ctx.attached_deposit < 1 {
            return Err(DonationError::DepositRequired);
        }
        Ok(())
    }

    pub fn get_owner(&self) -> (o: String)
        ensures
            o == self.owner,
    {
        self.owner.clone()
    }

    /// Hands the contract to `owner` (owner only).
    pub fn owner_change_owner(&mut self, ctx: &CallContext, owner: String) -> (r: Result<(), DonationError>)
        requires
            old(self).wf(),
        ensures
            final(self).wf(),
            r == old(self).spec_owner_check(*ctx),
            r is Err ==> *final(self) == *old(self),
            r is Ok ==> *final(self) == (Contract { owner, ..*old(self) }),
    {
        self.assert_owner(ctx)?;
        self.owner = owner;
        Ok(())
    }

    /// Sets the protocol fee rate (owner only).
    pub fn owner_set_protocol_fee_basis_points(&mut self, ctx: &CallContext, protocol_fee_basis_points: u32) -> (r: Result<(), DonationError>)
        requires
            old(self).wf(),
        ensures
            final(self).wf(),
            r == old(self).spec_owner_check(*ctx),
            r is Err ==> *final(self) == *old(self),
            r is Ok ==> *final(self) == (Contract { protocol_fee_basis_points, ..*old(self) }),
    {
        self.assert_owner(ctx)?;
        self.protocol_fee_basis_points = protocol_fee_basis_points;
        Ok(())
    }

    /// Sets the referrer fee rate (owner only).
    pub fn owner_set_referral_fee_basis_points(&mut self, ctx: &CallContext, referral_fee_basis_points: u32) -> (r: Result<(), DonationError>)
        requires
            old(self).wf(),
        ensures
            final(self).wf(),
            r == old(self).spec_owner_check(*ctx),
            r is Err ==> *final(self) == *old(self),
            r is Ok ==> *final(self) == (Contract { referral_fee_basis_points, ..*old(self) }),
    {
        self.assert_owner(ctx)?;
        self.referral_fee_basis_points = referral_fee_basis_points;
        Ok(())
    }

    /// Sets the account that receives protocol fees (owner only).
    pub fn owner_set_protocol_fee_recipient_account(&mut self, ctx: &CallContext, protocol_fee_recipient_account: String) -> (r: Result<(), DonationError>)
        requires
            old(self).wf(),
        ensures
            final(self).wf(),
            r == old(self).spec_owner_check(*ctx),
            r is Err ==> *final(self) == *old(self),
            r is Ok ==> *final(self) == (Contract { protocol_fee_recipient_account, ..*old(self) }),
    {
        self.assert_owner(ctx)?;
        self.protocol_fee_recipient_account = protocol_fee_recipient_account;
        Ok(())
    }
}

/// State of the donation contract before storage balances were kept and
/// donation IDs were counted.
pub struct ContractV2 {
    pub contract_source_metadata: Option<ContractSourceMetadata>,
    pub owner: String,
    pub protocol_fee_basis_points: u32,
    pub referral_fee_basis_points: u32,
    pub protocol_fee_recipient_account: String,
    pub donations_by_id: IdMap<Donation>,
    pub donation_ids_by_recipient_id: AccountMap<IdSet>,
    pub donation_ids_by_donor_id: AccountMap<IdSet>,
    pub donation_ids_by_ft_id: AccountMap<IdSet>,
    pub total_donations_amount: u128,
    pub net_donations_amount: u128,
    pub total_protocol_fees: u128,
    pub total_referrer_fees: u128,
}

impl ContractV2 {
    /// Collections are well formed and the totals add up.
    pub open spec fn wf(&self) -> bool {
        &&& self.donations_by_id.wf()
        &&& self.donation_ids_by_recipient_id.wf()
        &&& account_sets_wf(self.donation_ids_by_recipient_id@)
        &&& self.donation_ids_by_donor_id.wf()
        &&& account_sets_wf(self.donation_ids_by_donor_id@)
        &&& self.donation_ids_by_ft_id.wf()
        &&& account_sets_wf(self.donation_ids_by_ft_id@)
        &&& self.total_donations_amount == self.net_donations_amount + self.total_protocol_fees + self.total_referrer_fees
    }
}

/// The empty contract: no owner, no fees, no donations, the placeholder
/// source metadata, IDs from 1.
impl Default for Contract {
    fn default() -> (c: Self)
        ensures
            c.wf(),
            c.owner@ == Seq::<char>::empty(),
            c.protocol_fee_basis_points == 0,
            c.referral_fee_basis_points == 0,
            c.protocol_fee_recipient_account@ == Seq::<char>::empty(),
            c.donations_by_id@.len() == 0,
            c.total_donations_amount == 0,
            c.net_donations_amount == 0,
            c.total_protocol_fees == 0,
            c.total_referrer_fees == 0,
            c.next_donation_id == 1,
            c.storage_deposits@.len() == 0,
            c.contract_source_metadata matches Some(m) && m.version@ == "1.0.0"@
                && m.commit_hash@ == "12345"@ && m.link@ == "www.example.com"@,
    {
        Contract {
            owner: String::new(),
            protocol_fee_basis_points: 0,
            referral_fee_basis_points: 0,
            protocol_fee_recipient_account: String::new(),
            donations_by_id: IdMap::new(),
            donation_ids_by_recipient_id: AccountMap::new(),
            donation_ids_by_donor_id: AccountMap::new(),
            donation_ids_by_ft_id: AccountMap::new(),
            total_donations_amount: 0,
            net_donations_amount: 0,
            total_protocol_fees: 0,
            total_referrer_fees: 0,
            next_donation_id: 1,
            storage_deposits: AccountMap::new(),
            contract_source_metadata: Some(ContractSourceMetadata {
                version: "1.0.0".to_owned(),
                commit_hash: "12345".to_owned(),
                link: "www.example.com".to_owned(),
            }),
        }
    }
}

impl Contract {
    /// The current contract made from the earlier state: everything carried
    /// over, no storage balances, and donation IDs continuing after the
    /// number of donations.
    pub fn migrate(old_state: ContractV2) -> (c: Self)
        requires
            old_state.wf(),
            old_state.donations_by_id@.len() < u64::MAX,
        ensures
            c.wf(),
            c == (Contract {
                next_donation_id: (old_state.donations_by_id@.len() + 1) as u64,
                storage_deposits: c.storage_deposits,
                owner: old_state.owner,
                protocol_fee_basis_points: old_state.protocol_fee_basis_points,
                referral_fee_basis_points: old_state.referral_fee_basis_points,
                protocol_fee_recipient_account: old_state.protocol_fee_recipient_account,
                donations_by_id: old_state.donations_by_id,
                donation_ids_by_recipient_id: old_state.donation_ids_by_recipient_id,
                donation_ids_by_donor_id: old_state.donation_ids_by_donor_id,
                donation_ids_by_ft_id: old_state.donation_ids_by_ft_id,
                total_donations_amount: old_state.total_donations_amount,
                net_donations_amount: old_state.net_donations_amount,
                total_protocol_fees: old_state.total_protocol_fees,
                total_referrer_fees: old_state.total_referrer_fees,
                contract_source_metadata: old_state.contract_source_metadata,
            }),
            c.storage_deposits@.len() == 0,
    {
        proof {
            old_state.donations_by_id.lemma_wf();
        }
        let num_donations = old_state.donations_by_id.len();
        Contract {
            owner: old_state.owner,
            protocol_fee_basis_points: old_state.protocol_fee_basis_points,
            referral_fee_basis_points: old_state.referral_fee_basis_points,
            protocol_fee_recipient_account: old_state.protocol_fee_recipient_account,
            donations_by_id: old_state.donations_by_id,
            donation_ids_by_recipient_id: old_state.donation_ids_by_recipient_id,
            donation_ids_by_donor_id: old_state.donation_ids_by_donor_id,
            donation_ids_by_ft_id: old_state.donation_ids_by_ft_id,
            total_donations_amount: old_state.total_donations_amount,
            net_donations_amount: old_state.net_donations_amount,
            total_protocol_fees: old_state.total_protocol_fees,
            total_referrer_fees: old_state.total_referrer_fees,
            contract_source_metadata: old_state.contract_source_metadata,
            next_donation_id: num_donations as u64 + 1,
            storage_deposits: AccountMap::new(),
        }
    }
}

} // verus!
