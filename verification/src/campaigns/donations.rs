//! Donations to campaigns: acceptance, fee split, escrow or payout, records and views.
use vstd::prelude::*;
use crate::campaigns::contract::{account_ids, limit_of, spec_limit, Contract};
use crate::campaigns::logic::{
    calculate_fees_and_remainder, assert_campaign_live, fees_fit, spec_creator_fee, spec_fees_fit,
    spec_live_check, spec_protocol_fee, spec_referrer_fee, spec_should_escrow,
};
use crate::campaigns::types::{
    Campaign, CampaignError, CampaignId, Donation, DonationExternal, DonationId, FtReceiverMsg,
    FundsReceiver,
};
use crate::collections::{
    account_sets_add, account_sets_del, account_sets_wf, id_sets_add, id_sets_del, id_sets_wf,
    set_add, set_del, AccountMap, IdMap, IdSet,
};
use crate::env::{CallContext, Transfer};
use crate::campaigns::escrow::spec_within_total;
use crate::fees::fee_floor;
use crate::util::{clone_opt_string, page, page_bounds, unwrap_or};

verus! {

/// A transfer the contract asks the host to make for one component of a
/// donation; its outcome is reported back through `transfer_funds_callback`.
pub struct PendingTransfer {
    pub transfer: Transfer,
    pub receiver_type: FundsReceiver,
    pub donation: DonationExternal,
}

/// Result of an accepted donation: its record (as the caller sees it) and,
/// unless it was escrowed, the payout of its net amount to the recipient.
pub struct DonationOutcome {
    pub donation: DonationExternal,
    pub payout: Option<PendingTransfer>,
}

/// The record stored for a donation: a NEAR donation pays its storage out of
/// its net amount; a token donation pays it from the donor's storage balance.
pub open spec fn spec_stored_donation(d: Donation, c: Campaign, storage_cost: u128) -> Donation {
    if c.ft_id is Some {
        d
    } else {
        Donation { net_amount: (d.net_amount - storage_cost) as u128, ..d }
    }
}

/// The campaign after it accepted donation `d` (stored form): raised totals
/// grow, and an escrowed donation adds to the escrow balance.
pub open spec fn spec_campaign_after_donation(c: Campaign, d: Donation) -> Campaign {
    Campaign {
        total_raised_amount: (c.total_raised_amount + d.total_amount) as u128,
        net_raised_amount: (c.net_raised_amount + d.net_amount) as u128,
        escrow_balance: if spec_should_escrow(c) {
            (c.escrow_balance + d.net_amount) as u128
        } else {
            c.escrow_balance
        },
        ..c
    }
}

impl Contract {
    /// Storage balance of `account`, zero when it has none.
    pub open spec fn spec_storage_balance(&self, account: Seq<char>) -> u128 {
        if self.storage_deposits@.contains_key(account) {
            self.storage_deposits@[account]
        } else {
            0
        }
    }

    /// External form of a stored donation, or why it cannot be formed.
    pub open spec fn spec_format_donation(&self, d: Donation) -> Result<DonationExternal, CampaignError> {
        if !self.campaigns_by_id@.contains_key(d.campaign_id) || !self.escrowed_donation_ids_by_campaign_id@.contains_key(d.campaign_id) {
            Err(CampaignError::CampaignNotFound)
        } else {
            let c = self.campaigns_by_id@[d.campaign_id];
            Ok(DonationExternal {
                id: d.id,
                campaign_id: d.campaign_id,
                donor_id: d.donor_id,
                total_amount: d.total_amount,
                net_amount: d.net_amount,
                ft_id: c.ft_id,
                message: d.message,
                donated_at_ms: d.donated_at_ms,
                protocol_fee: d.protocol_fee,
                referrer_id: d.referrer_id,
                referrer_fee: d.referrer_fee,
                creator_fee: d.creator_fee,
                returned_at_ms: d.returned_at_ms,
                is_in_escrow: self.escrowed_donation_ids_by_campaign_id@[d.campaign_id]@.contains(d.id),
                recipient_id: c.recipient,
            })
        }
    }

    /// External form of a stored donation: token and recipient come from its
    /// campaign, and it is in escrow when its campaign's escrow set holds it.
    pub fn format_donation(&self, donation: &Donation) -> (r: Result<DonationExternal, CampaignError>)
        requires
            self.wf(),
        ensures
            r == self.spec_format_donation(*donation),
    {
        let c = match self.campaigns_by_id.get(donation.campaign_id) {
            None => {
                return Err(CampaignError::CampaignNotFound);
            },
            Some(c) => c,
        };
        let is_in_escrow = match self.escrowed_donation_ids_by_campaign_id.get(donation.campaign_id) {
            None => {
                return Err(CampaignError::CampaignNotFound);
            },
            Some(s) => s.contains(donation.id),
        };
        Ok(DonationExternal {
            id: donation.id,
            campaign_id: donation.campaign_id,
            donor_id: donation.donor_id.clone(),
            recipient_id: c.recipient.clone(),
            total_amount: donation.total_amount,
            net_amount: donation.net_amount,
            ft_id: clone_opt_string(&c.ft_id),
            message: clone_opt_string(&donation.message),
            donated_at_ms: donation.donated_at_ms,
            protocol_fee: donation.protocol_fee,
            referrer_id: clone_opt_string(&donation.referrer_id),
            referrer_fee: donation.referrer_fee,
            creator_fee: donation.creator_fee,
            returned_at_ms: donation.returned_at_ms,
            is_in_escrow,
        })
    }

    /// Stores a donation record and files its ID as escrowed or paid out
    /// (and never as returned) for its campaign, and under its donor.
    pub fn internal_insert_donation_record(&mut self, donation: Donation, escrow: bool)
        requires
            old(self).wf(),
        ensures
            final(self).wf(),
            final(self).donations_by_id@ == old(self).donations_by_id@.insert(donation.id, donation),
            ({
                let cid = donation.campaign_id;
                let (e, u, t) = (old(self).escrowed_donation_ids_by_campaign_id, old(self).unescrowed_donation_ids_by_campaign_id, old(self).returned_donation_ids_by_campaign_id);
                let (e2, u2, t2) = (final(self).escrowed_donation_ids_by_campaign_id, final(self).unescrowed_donation_ids_by_campaign_id, final(self).returned_donation_ids_by_campaign_id);
                &&& e2@.dom() == e@.dom() && u2@.dom() == u@.dom() && t2@.dom() == t@.dom()
                &&& e2.order() == e.order() && u2.order() == u.order() && t2.order() == t.order()
                &&& forall|k: CampaignId| k != cid && #[trigger] e@.contains_key(k) ==> e2@[k] == e@[k]
                &&& forall|k: CampaignId| k != cid && #[trigger] u@.contains_key(k) ==> u2@[k] == u@[k]
                &&& forall|k: CampaignId| k != cid && #[trigger] t@.contains_key(k) ==> t2@[k] == t@[k]
                &&& e@.contains_key(cid) ==> e2@[cid]@ == if escrow { set_add(e@[cid]@, donation.id) } else { set_del(e@[cid]@, donation.id) }
                &&& u@.contains_key(cid) ==> u2@[cid]@ == if escrow { set_del(u@[cid]@, donation.id) } else { set_add(u@[cid]@, donation.id) }
                &&& t@.contains_key(cid) ==> t2@[cid]@ == set_del(t@[cid]@, donation.id)
            }),
            final(self).donation_ids_by_donor_id@[donation.donor_id@]@ == set_add(
                account_ids(old(self).donation_ids_by_donor_id@, donation.donor_id@),
                donation.id,
            ),
            final(self).donation_ids_by_donor_id@.dom() == old(self).donation_ids_by_donor_id@.dom().insert(donation.donor_id@),
            forall|k: Seq<char>| k != donation.donor_id@ && #[trigger] old(self).donation_ids_by_donor_id@.contains_key(k) ==> final(self).donation_ids_by_donor_id@[k] == old(self).donation_ids_by_donor_id@[k],
            final(self).campaigns_by_id == old(self).campaigns_by_id,
            final(self).storage_deposits == old(self).storage_deposits,
            final(self).next_donation_id == old(self).next_donation_id,
            final(self).campaign_ids_by_owner == old(self).campaign_ids_by_owner,
            final(self).campaign_ids_by_recipient == old(self).campaign_ids_by_recipient,
            final(self).owner == old(self).owner,
            final(self).admins == old(self).admins,
            final(self).protocol_fee_basis_points == old(self).protocol_fee_basis_points,
            final(self).protocol_fee_recipient_account == old(self).protocol_fee_recipient_account,
            final(self).default_referral_fee_basis_points == old(self).default_referral_fee_basis_points,
            final(self).default_creator_fee_basis_points == old(self).default_creator_fee_basis_points,
            final(self).next_campaign_id == old(self).next_campaign_id,
    {
        let id = donation.id;
        let cid = donation.campaign_id;
        let donor = donation.donor_id.clone();
        self.donations_by_id.insert(id, donation);
        if escrow {
            id_sets_add(&mut self.escrowed_donation_ids_by_campaign_id, cid, id);
            id_sets_del(&mut self.unescrowed_donation_ids_by_campaign_id, cid, id);
        } else {
            id_sets_add(&mut self.unescrowed_donation_ids_by_campaign_id, cid, id);
            id_sets_del(&mut self.escrowed_donation_ids_by_campaign_id, cid, id);
        }
        id_sets_del(&mut self.returned_donation_ids_by_campaign_id, cid, id);
        account_sets_add(&mut self.donation_ids_by_donor_id, &donor, id);
    }

    /// Removes a donation record and its ID from its campaign's escrowed and
    /// paid-out sets and from its donor's set (from each of those sets that
    /// exists).
    pub fn internal_remove_donation_record(&mut self, donation: &Donation)
        requires
            old(self).wf(),
        ensures
            final(self).wf(),
            ({
                let cid = donation.campaign_id;
                let (e, u) = (old(self).escrowed_donation_ids_by_campaign_id, old(self).unescrowed_donation_ids_by_campaign_id);
                let (e2, u2) = (final(self).escrowed_donation_ids_by_campaign_id, final(self).unescrowed_donation_ids_by_campaign_id);
                &&& final(self).donations_by_id@ == old(self).donations_by_id@.remove(donation.id)
                &&& e2@.dom() == e@.dom() && u2@.dom() == u@.dom()
                &&& e2.order() == e.order() && u2.order() == u.order()
                &&& forall|k: CampaignId| k != cid && #[trigger] e@.contains_key(k) ==> e2@[k] == e@[k]
                &&& forall|k: CampaignId| k != cid && #[trigger] u@.contains_key(k) ==> u2@[k] == u@[k]
                &&& e@.contains_key(cid) ==> e2@[cid]@ == set_del(e@[cid]@, donation.id)
                &&& u@.contains_key(cid) ==> u2@[cid]@ == set_del(u@[cid]@, donation.id)
                &&& final(self).donation_ids_by_donor_id@.dom() == old(self).donation_ids_by_donor_id@.dom()
                &&& old(self).donation_ids_by_donor_id@.contains_key(donation.donor_id@) ==> final(self).donation_ids_by_donor_id@[donation.donor_id@]@ == set_del(old(self).donation_ids_by_donor_id@[donation.donor_id@]@, donation.id)
                &&& forall|k: Seq<char>| k != donation.donor_id@ && #[trigger] old(self).donation_ids_by_donor_id@.contains_key(k) ==> final(self).donation_ids_by_donor_id@[k] == old(self).donation_ids_by_donor_id@[k]
                &&& final(self).returned_donation_ids_by_campaign_id == old(self).returned_donation_ids_by_campaign_id
                &&& final(self).campaigns_by_id == old(self).campaigns_by_id
                &&& final(self).storage_deposits == old(self).storage_deposits
                &&& final(self).next_donation_id == old(self).next_donation_id
                &&& final(self).owner == old(self).owner
                &&& final(self).protocol_fee_basis_points == old(self).protocol_fee_basis_points
                &&& final(self).protocol_fee_recipient_account == old(self).protocol_fee_recipient_account
                &&& final(self).admins == old(self).admins
                &&& final(self).default_referral_fee_basis_points == old(self).default_referral_fee_basis_points
                &&& final(self).default_creator_fee_basis_points == old(self).default_creator_fee_basis_points
                &&& final(self).next_campaign_id == old(self).next_campaign_id
                &&& final(self).campaign_ids_by_owner == old(self).campaign_ids_by_owner
                &&& final(self).campaign_ids_by_recipient == old(self).campaign_ids_by_recipient
            }),
    {
        let cid = donation.campaign_id;
        self.donations_by_id.remove(donation.id);
        id_sets_del(&mut self.escrowed_donation_ids_by_campaign_id, cid, donation.id);
        id_sets_del(&mut self.unescrowed_donation_ids_by_campaign_id, cid, donation.id);
        account_sets_del(&mut self.donation_ids_by_donor_id, &donation.donor_id, donation.id);
    }
}


/// Whether `handle_donation` accepts donation `d` to campaign `c`: the storage
/// it takes must be covered (by the donor's storage balance for a token
/// donation, by its net amount otherwise) and the campaign totals must not overflow.
pub open spec fn spec_handle_donation_check(balance: u128, d: Donation, c: Campaign, storage_cost: u128) -> Result<
    (),
    CampaignError,
> {
    let stored = spec_stored_donation(d, c, storage_cost);
    if c.ft_id is Some && balance < storage_cost {
        Err(CampaignError::InsufficientStorageDeposit)
    } else if c.ft_id is None && !(d.net_amount > storage_cost) {
        Err(CampaignError::InsufficientStorageDeposit)
    } else if c.total_raised_amount + d.total_amount > u128::MAX || c.net_raised_amount
        + stored.net_amount > u128::MAX || (spec_should_escrow(c) && c.escrow_balance
        + stored.net_amount > u128::MAX) {
        Err(CampaignError::ArithmeticOverflow)
    } else {
        Ok(())
    }
}

/// The state after `handle_donation` accepted donation `d` to campaign `c`:
/// the record is stored (escrowed while the campaign's minimum has not been
/// raised, paid out otherwise), the next donation ID moves on, the campaign's
/// totals grow, a token donor's storage balance pays for the record, and a
/// paid-out donation's net amount goes to the campaign recipient.
pub open spec fn spec_donation_accepted(
    pre: Contract,
    post: Contract,
    d: Donation,
    c: Campaign,
    storage_cost: u128,
    payout: Option<PendingTransfer>,
) -> bool {
    let stored = spec_stored_donation(d, c, storage_cost);
    let cid = d.campaign_id;
    let escrow = spec_should_escrow(c);
    &&& post.wf()
    &&& post.next_donation_id == pre.next_donation_id + 1
    &&& post.donations_by_id@ == pre.donations_by_id@.insert(d.id, stored)
    &&& post.campaigns_by_id@ == pre.campaigns_by_id@.insert(cid, spec_campaign_after_donation(c, stored))
    &&& post.escrowed_donation_ids_by_campaign_id@.dom() == pre.escrowed_donation_ids_by_campaign_id@.dom()
    &&& post.unescrowed_donation_ids_by_campaign_id@.dom() == pre.unescrowed_donation_ids_by_campaign_id@.dom()
    &&& pre.escrowed_donation_ids_by_campaign_id@.contains_key(cid) ==> post.escrowed_donation_ids_by_campaign_id@[cid]@ == if escrow {
        set_add(pre.escrowed_donation_ids_by_campaign_id@[cid]@, d.id)
    } else {
        set_del(pre.escrowed_donation_ids_by_campaign_id@[cid]@, d.id)
    }
    &&& pre.unescrowed_donation_ids_by_campaign_id@.contains_key(cid) ==> post.unescrowed_donation_ids_by_campaign_id@[cid]@ == if escrow {
        set_del(pre.unescrowed_donation_ids_by_campaign_id@[cid]@, d.id)
    } else {
        set_add(pre.unescrowed_donation_ids_by_campaign_id@[cid]@, d.id)
    }
    &&& post.donation_ids_by_donor_id@[d.donor_id@]@ == set_add(account_ids(pre.donation_ids_by_donor_id@, d.donor_id@), d.id)
    &&& post.storage_deposits@ == if c.ft_id is Some {
        pre.storage_deposits@.insert(d.donor_id@, (pre.spec_storage_balance(d.donor_id@) - storage_cost) as u128)
    } else {
        pre.storage_deposits@
    }
    &&& post.owner == pre.owner
    &&& post.protocol_fee_basis_points == pre.protocol_fee_basis_points
    &&& post.protocol_fee_recipient_account == pre.protocol_fee_recipient_account
    &&& (payout is Some <==> !escrow)
    &&& payout matches Some(p) ==> {
        &&& p.transfer == Transfer { receiver: c.recipient, amount: stored.net_amount, ft_id: c.ft_id }
        &&& p.receiver_type == FundsReceiver::Recipient
        &&& post.spec_format_donation(stored) == Ok::<DonationExternal, CampaignError>(p.donation)
    }
}

/// The record of a new donation of `amount` from `donor` at `now`.
pub open spec fn spec_new_donation(
    id: DonationId,
    campaign_id: CampaignId,
    donor: String,
    amount: u128,
    message: Option<String>,
    now: u64,
    protocol_fee_basis_points: u32,
    c: Campaign,
    referrer_id: Option<String>,
    bypass_protocol_fee: Option<bool>,
    bypass_creator_fee: Option<bool>,
) -> Donation {
    let p = spec_protocol_fee(amount, protocol_fee_basis_points, c, bypass_protocol_fee);
    let r = spec_referrer_fee(amount, c, referrer_id is Some);
    let k = spec_creator_fee(amount, c, bypass_creator_fee);
    Donation {
        id,
        campaign_id,
        donor_id: donor,
        total_amount: amount,
        net_amount: (amount - p - r - k) as u128,
        message,
        donated_at_ms: now,
        protocol_fee: p as u128,
        referrer_id,
        referrer_fee: if referrer_id is Some {
            Some(r as u128)
        } else {
            None
        },
        creator_fee: k as u128,
        returned_at_ms: None,
    }
}

impl Contract {
    /// Storage balance of an account (zero when it has none).
    pub fn storage_balance_of(&self, account_id: &String) -> (b: u128)
        requires
            self.wf(),
        ensures
            b == self.spec_storage_balance(account_id@),
    {
        match self.storage_deposits.get(account_id) {
            Some(b) => *b,
            None => 0,
        }
    }

    /// Accepts a donation whose fees have been computed: records it, escrows
    /// it or pays it out, and charges its storage (see `spec_donation_accepted`).
    pub fn handle_donation(&mut self, donation: Donation, campaign: Campaign, storage_cost: u128) -> (r: Result<
        Option<PendingTransfer>,
        CampaignError,
    >)
        requires
            old(self).wf(),
            old(self).next_donation_id < u64::MAX,
            donation.id == old(self).next_donation_id,
            old(self).campaigns_by_id@.contains_key(donation.campaign_id),
            old(self).campaigns_by_id@[donation.campaign_id] == campaign,
            old(self).escrowed_donation_ids_by_campaign_id@.contains_key(donation.campaign_id),
        ensures
            final(self).wf(),
            r is Err <==> spec_handle_donation_check(old(self).spec_storage_balance(donation.donor_id@), donation, campaign, storage_cost) is Err,
            r is Err ==> r == Err::<Option<PendingTransfer>, CampaignError>(spec_handle_donation_check(old(self).spec_storage_balance(donation.donor_id@), donation, campaign, storage_cost)->Err_0),
            r is Err ==> *final(self) == *old(self),
            r matches Ok(p) ==> spec_donation_accepted(*old(self), *final(self), donation, campaign, storage_cost, p),
    {
        let ghost pre = *self;
        let cid = donation.campaign_id;
        let escrow = match campaign.min_amount {
            Some(m) => campaign.total_raised_amount < m,
            None => campaign.total_raised_amount < 0,
        };
        let balance = self.storage_balance_of(&donation.donor_id);
        let is_ft = campaign.ft_id.is_some();
        if is_ft && balance < storage_cost {
            return Err(CampaignError::InsufficientStorageDeposit);
        }
        if !is_ft && !(donation.net_amount > storage_cost) {
            return Err(CampaignError::InsufficientStorageDeposit);
        }
        let mut stored = donation.copy();
        if !is_ft {
            stored.net_amount = stored.net_amount - storage_cost;
        }
        if campaign.total_raised_amount > u128::MAX - donation.total_amount
            || campaign.net_raised_amount > u128::MAX - stored.net_amount
            || (escrow && campaign.escrow_balance > u128::MAX - stored.net_amount) {
            return Err(CampaignError::ArithmeticOverflow);
        }
        self.next_donation_id = self.next_donation_id + 1;
        let donor = stored.donor_id.clone();
        let record = stored.copy();
        self.internal_insert_donation_record(record, escrow);
        if is_ft {
            self.storage_deposits.insert(donor, balance - storage_cost);
        }
        let mut updated = campaign;
        updated.total_raised_amount = updated.total_raised_amount + donation.total_amount;
        updated.net_raised_amount = updated.net_raised_amount + stored.net_amount;
        if escrow {
            updated.escrow_balance = updated.escrow_balance + stored.net_amount;
        }
        let recipient = updated.recipient.clone();
        let ft_id = clone_opt_string(&updated.ft_id);
        self.campaigns_by_id.insert(cid, updated);
        if escrow {
            Ok(None)
        } else {
            let formatted = match self.format_donation(&stored) {
                Ok(f) => f,
                Err(e) => {
                    assert(false);
                    return Err(e);
                },
            };
            Ok(Some(PendingTransfer {
                transfer: Transfer { receiver: recipient, amount: stored.net_amount, ft_id },
                receiver_type: FundsReceiver::Recipient,
                donation: formatted,
            }))
        }
    }
}


impl Contract {
    /// Why a donation of `amount` to campaign `campaign_id` is refused, if it is.
    pub open spec fn spec_donation_check(
        &self,
        campaign_id: CampaignId,
        donor: Seq<char>,
        amount: u128,
        now: u64,
        has_referrer: bool,
        bypass_protocol_fee: Option<bool>,
        bypass_creator_fee: Option<bool>,
        storage_cost: u128,
        d: Donation,
    ) -> Result<(), CampaignError> {
        if !self.campaigns_by_id@.contains_key(campaign_id) || !self.escrowed_donation_ids_by_campaign_id@.contains_key(campaign_id) {
            Err(CampaignError::CampaignNotFound)
        } else if spec_live_check(self.campaigns_by_id@[campaign_id], now) is Err {
            spec_live_check(self.campaigns_by_id@[campaign_id], now)
        } else if !spec_fees_fit(amount, self.protocol_fee_basis_points, self.campaigns_by_id@[campaign_id], has_referrer, bypass_protocol_fee, bypass_creator_fee) {
            Err(CampaignError::FeesExceedAmount)
        } else {
            spec_handle_donation_check(self.spec_storage_balance(donor), d, self.campaigns_by_id@[campaign_id], storage_cost)
        }
    }

    /// Donates the attached NEAR to a live campaign. The fees are split off,
    /// the storage of the record is paid from the net amount, and the donation
    /// is escrowed while the campaign's minimum has not been raised; otherwise
    /// its net amount is paid to the recipient. `storage_cost` is the cost of
    /// the storage the record takes, as measured by the host.
    pub fn donate(
        &mut self,
        ctx: &CallContext,
        campaign_id: CampaignId,
        message: Option<String>,
        referrer_id: Option<String>,
        bypass_protocol_fee: Option<bool>,
        bypass_creator_fee: Option<bool>,
        storage_cost: u128,
    ) -> (r: Result<DonationOutcome, CampaignError>)
        requires
            old(self).wf(),
            old(self).next_donation_id < u64::MAX,
        ensures
            final(self).wf(),
            ({
                let c = old(self).campaigns_by_id@[campaign_id];
                let d = spec_new_donation(old(self).next_donation_id, campaign_id, ctx.predecessor, ctx.attached_deposit, message, ctx.block_timestamp_ms, old(self).protocol_fee_basis_points, c, referrer_id, bypass_protocol_fee, bypass_creator_fee);
                let check = old(self).spec_donation_check(campaign_id, ctx.predecessor@, ctx.attached_deposit, ctx.block_timestamp_ms, referrer_id is Some, bypass_protocol_fee, bypass_creator_fee, storage_cost, d);
                &&& (r is Err <==> check is Err)
                &&& r is Err ==> r == Err::<DonationOutcome, CampaignError>(check->Err_0) && *final(self) == *old(self)
                &&& r matches Ok(o) ==> spec_donation_accepted(*old(self), *final(self), d, c, storage_cost, o.payout)
                    && final(self).spec_format_donation(d) == Ok::<DonationExternal, CampaignError>(o.donation)
            }),
    {
        let campaign = match self.campaigns_by_id.get(campaign_id) {
            None => {
                return Err(CampaignError::CampaignNotFound);
            },
            Some(c) => c.copy(),
        };
        if !self.escrowed_donation_ids_by_campaign_id.contains_key(campaign_id) {
            return Err(CampaignError::CampaignNotFound);
        }
        assert_campaign_live(&campaign, ctx.block_timestamp_ms)?;
        let amount = ctx.attached_deposit;
        if !fees_fit(amount, self.protocol_fee_basis_points, &campaign, referrer_id.is_some(), bypass_protocol_fee, bypass_creator_fee) {
            return Err(CampaignError::FeesExceedAmount);
        }
        let (protocol_fee, referrer_fee, creator_fee, amount_after_fees) = calculate_fees_and_remainder(
            amount,
            self.protocol_fee_basis_points,
            &campaign,
            &referrer_id,
            bypass_protocol_fee,
            bypass_creator_fee,
        );
        let donation = Donation {
            id: self.next_donation_id,
            campaign_id,
            donor_id: ctx.predecessor.clone(),
            total_amount: amount,
            net_amount: amount_after_fees,
            message,
            donated_at_ms: ctx.block_timestamp_ms,
            protocol_fee,
            referrer_id,
            referrer_fee,
            creator_fee,
            returned_at_ms: None,
        };
        let payout = self.handle_donation(donation.copy(), campaign, storage_cost)?;
        let formatted = match self.format_donation(&donation) {
            Ok(f) => f,
            Err(e) => {
                assert(false);
                return Err(e);
            },
        };
        Ok(DonationOutcome { donation: formatted, payout })
    }

    /// Donation in a fungible token (the NEP-141 transfer callback): the token
    /// contract `ctx.predecessor` has sent `amount` from `sender_id` with
    /// message `msg`. The token must be the campaign's; the record's storage is
    /// paid from the sender's storage balance. On success no tokens are
    /// returned (the first component is zero).
    pub fn ft_on_transfer(
        &mut self,
        ctx: &CallContext,
        sender_id: String,
        amount: u128,
        msg: FtReceiverMsg,
        storage_cost: u128,
    ) -> (r: Result<(u128, Option<PendingTransfer>), CampaignError>)
        requires
            old(self).wf(),
            old(self).next_donation_id < u64::MAX,
        ensures
            final(self).wf(),
            ({
                let cid = msg.campaign_id;
                let c = old(self).campaigns_by_id@[cid];
                let d = spec_new_donation(old(self).next_donation_id, cid, sender_id, amount, msg.message, ctx.block_timestamp_ms, old(self).protocol_fee_basis_points, c, msg.referrer_id, msg.bypass_protocol_fee, msg.bypass_creator_fee);
                let check = old(self).spec_donation_check(cid, sender_id@, amount, ctx.block_timestamp_ms, msg.referrer_id is Some, msg.bypass_protocol_fee, msg.bypass_creator_fee, storage_cost, d);
                let wrong_token = old(self).campaigns_by_id@.contains_key(cid) && !(c.ft_id is Some && c.ft_id->0@ == ctx.predecessor@);
                &&& r is Err <==> (check is Err || wrong_token)
                &&& r is Err ==> *final(self) == *old(self)
                &&& check is Err && (spec_live_check(c, ctx.block_timestamp_ms) is Err || !old(self).campaigns_by_id@.contains_key(cid) || !old(self).escrowed_donation_ids_by_campaign_id@.contains_key(cid)) ==> r == Err::<(u128, Option<PendingTransfer>), CampaignError>(check->Err_0)
                &&& check is Ok && wrong_token ==> r == Err::<(u128, Option<PendingTransfer>), CampaignError>(CampaignError::WrongToken)
                &&& check is Err && !wrong_token ==> r == Err::<(u128, Option<PendingTransfer>), CampaignError>(check->Err_0)
                &&& spec_live_check(c, ctx.block_timestamp_ms) is Ok && old(self).campaigns_by_id@.contains_key(cid) && old(self).escrowed_donation_ids_by_campaign_id@.contains_key(cid) && wrong_token
                    ==> r == Err::<(u128, Option<PendingTransfer>), CampaignError>(CampaignError::WrongToken)
                &&& r matches Ok(o) ==> o.0 == 0 && spec_donation_accepted(*old(self), *final(self), d, c, storage_cost, o.1)
            }),
    {
        let cid = msg.campaign_id;
        let campaign = match self.campaigns_by_id.get(cid) {
            None => {
                return Err(CampaignError::CampaignNotFound);
            },
            Some(c) => c.copy(),
        };
        if !self.escrowed_donation_ids_by_campaign_id.contains_key(cid) {
            return Err(CampaignError::CampaignNotFound);
        }
        assert_campaign_live(&campaign, ctx.block_timestamp_ms)?;
        let token_matches = match &campaign.ft_id {
            Some(f) => *f == ctx.predecessor,
            None => false,
        };
        if !token_matches {
            return Err(CampaignError::WrongToken);
        }
        if !fees_fit(amount, self.protocol_fee_basis_points, &campaign, msg.referrer_id.is_some(), msg.bypass_protocol_fee, msg.bypass_creator_fee) {
            return Err(CampaignError::FeesExceedAmount);
        }
        let (protocol_fee, referrer_fee, creator_fee, amount_after_fees) = calculate_fees_and_remainder(
            amount,
            self.protocol_fee_basis_points,
            &campaign,
            &msg.referrer_id,
            msg.bypass_protocol_fee,
            msg.bypass_creator_fee,
        );
        let FtReceiverMsg { campaign_id, referrer_id, message, bypass_protocol_fee, bypass_creator_fee } = msg;
        let donation = Donation {
            id: self.next_donation_id,
            campaign_id,
            donor_id: sender_id,
            total_amount: amount,
            net_amount: amount_after_fees,
            message,
            donated_at_ms: ctx.block_timestamp_ms,
            protocol_fee,
            referrer_id,
            referrer_fee,
            creator_fee,
            returned_at_ms: None,
        };
        let payout = self.handle_donation(donation, campaign, storage_cost)?;
        Ok((0, payout))
    }
}


/// Limit of a page request given as `u64`: `limit`, or no limit when absent.
pub open spec fn spec_limit64(limit: Option<u64>) -> usize {
    match limit {
        Some(v) => v as usize,
        None => usize::MAX,
    }
}

pub fn limit_of64(limit: Option<u64>) -> (l: usize)
    ensures
        l == spec_limit64(limit),
{
    match limit {
        Some(v) => v as usize,
        None => usize::MAX,
    }
}

impl Contract {
    /// External forms of the donations with IDs `ids`, in order; refused when
    /// one of them has no record or its campaign is gone.
    pub open spec fn spec_format_ids(&self, ids: Seq<u64>) -> Result<Seq<DonationExternal>, CampaignError> {
        if exists|j: int| 0 <= j < ids.len() && (!self.donations_by_id@.contains_key(#[trigger] ids[j])
            || self.spec_format_donation(self.donations_by_id@[ids[j]]) is Err) {
            Err(CampaignError::DonationNotFound)
        } else {
            Ok(ids.map_values(|id: u64| self.spec_format_donation(self.donations_by_id@[id])->Ok_0))
        }
    }

    fn format_ids(&self, ids: &Vec<u64>, start: usize, end: usize) -> (r: Result<Vec<DonationExternal>, CampaignError>)
        requires
            self.wf(),
            start <= end <= ids.len(),
        ensures
            match (r, self.spec_format_ids(ids@.subrange(start as int, end as int))) {
                (Ok(v), Ok(s)) => v@ == s,
                (Err(e1), Err(e2)) => e1 == e2,
                _ => false,
            },
    {
        let ghost p = ids@.subrange(start as int, end as int);
        let mut out: Vec<DonationExternal> = Vec::new();
        let mut i = start;
        while i < end
            invariant
                self.wf(),
                start <= i <= end <= ids.len(),
                p == ids@.subrange(start as int, end as int),
                out@.len() == i - start,
                forall|j: int| 0 <= j < i - start ==> self.donations_by_id@.contains_key(#[trigger] p[j]) && self.spec_format_donation(self.donations_by_id@[p[j]]) is Ok,
                forall|j: int| 0 <= j < i - start ==> #[trigger] out@[j] == self.spec_format_donation(self.donations_by_id@[p[j]])->Ok_0,
            decreases end - i,
        {
            let id = ids[i];
            assert(p[i - start] == id);
            match self.donations_by_id.get(id) {
                None => {
                    assert(0 <= i - start < p.len() && !self.donations_by_id@.contains_key(p[(i - start) as int]));
                    return Err(CampaignError::DonationNotFound);
                },
                Some(d) => match self.format_donation(d) {
                    Ok(f) => out.push(f),
                    Err(_) => {
                        assert(0 <= i - start < p.len() && self.spec_format_donation(self.donations_by_id@[p[(i - start) as int]]) is Err);
                        return Err(CampaignError::DonationNotFound);
                    },
                },
            }
            i += 1;
        }
        assert(out@ =~= p.map_values(|id: u64| self.spec_format_donation(self.donations_by_id@[id])->Ok_0));
        Ok(out)
    }

    /// Keys of `m` in iteration order, as a vector.
    fn donation_keys(&self) -> (v: Vec<u64>)
        requires
            self.wf(),
        ensures
            v@ == self.donations_by_id.order(),
    {
        let mut ids: Vec<u64> = Vec::new();
        let mut i: usize = 0;
        while i < self.donations_by_id.len()
            invariant
                self.wf(),
                i <= self.donations_by_id.order().len(),
                ids@ == self.donations_by_id.order().subrange(0, i as int),
            decreases self.donations_by_id.order().len() - i,
        {
            ids.push(self.donations_by_id.key_at(i));
            i += 1;
            assert(ids@ =~= self.donations_by_id.order().subrange(0, i as int));
        }
        assert(ids@ =~= self.donations_by_id.order());
        ids
    }

    /// A page of all donations, in storage order.
    pub fn get_donations(&self, from_index: Option<u128>, limit: Option<u64>) -> (r: Result<
        Vec<DonationExternal>,
        CampaignError,
    >)
        requires
            self.wf(),
        ensures
            ({
                let ids = self.donations_by_id.order();
                let start = unwrap_or(from_index, 0);
                let lim = spec_limit64(limit);
                if (ids.len() as u128) < start {
                    r == Err::<Vec<DonationExternal>, CampaignError>(CampaignError::OutOfBounds)
                } else if lim == 0 {
                    r == Err::<Vec<DonationExternal>, CampaignError>(CampaignError::ZeroLimit)
                } else {
                    match (r, self.spec_format_ids(page(ids, start as int, lim as int))) {
                        (Ok(v), Ok(s)) => v@ == s,
                        (Err(e1), Err(e2)) => e1 == e2,
                        _ => false,
                    }
                }
            }),
    {
        let ids = self.donation_keys();
        let start: u128 = match from_index {
            Some(v) => v,
            None => 0,
        };
        if (ids.len() as u128) < start {
            return Err(CampaignError::OutOfBounds);
        }
        let lim = limit_of64(limit);
        if lim == 0 {
            return Err(CampaignError::ZeroLimit);
        }
        let (s, e) = page_bounds(ids.len(), start as usize, lim);
        assert(page(ids@, start as int, lim as int) =~= ids@.subrange(s as int, e as int));
        self.format_ids(&ids, s, e)
    }

    /// The donation stored under `donation_id`, if any.
    pub fn get_donation_by_id(&self, donation_id: DonationId) -> (r: Result<
        Option<DonationExternal>,
        CampaignError,
    >)
        requires
            self.wf(),
        ensures
            !self.donations_by_id@.contains_key(donation_id) ==> r == Ok::<Option<DonationExternal>, CampaignError>(None),
            self.donations_by_id@.contains_key(donation_id) ==> match self.spec_format_donation(self.donations_by_id@[donation_id]) {
                Ok(f) => r == Ok::<Option<DonationExternal>, CampaignError>(Some(f)),
                Err(e) => r == Err::<Option<DonationExternal>, CampaignError>(e),
            },
    {
        match self.donations_by_id.get(donation_id) {
            None => Ok(None),
            Some(d) => {
                let f = self.format_donation(d)?;
                Ok(Some(f))
            },
        }
    }

    /// IDs of the donations a campaign holds in escrow.
    pub fn get_donatio(&self, campaign_id: CampaignId) -> (r: Result<Vec<u64>, CampaignError>)
        requires
            self.wf(),
        ensures
            self.escrowed_donation_ids_by_campaign_id@.contains_key(campaign_id) ==> (r matches Ok(v) && v@ == self.escrowed_donation_ids_by_campaign_id@[campaign_id]@),
            !self.escrowed_donation_ids_by_campaign_id@.contains_key(campaign_id) ==> r == Err::<Vec<u64>, CampaignError>(CampaignError::CampaignNotFound),
    {
        match self.escrowed_donation_ids_by_campaign_id.get(campaign_id) {
            None => Err(CampaignError::CampaignNotFound),
            Some(s) => Ok(s.to_vec()),
        }
    }

    /// A page of a campaign's donations: the escrowed ones first, then those paid out.
    pub fn get_donations_for_campaign(&self, campaign_id: CampaignId, from_index: Option<u128>, limit: Option<u64>) -> (r: Result<
        Vec<DonationExternal>,
        CampaignError,
    >)
        requires
            self.wf(),
        ensures
            ({
                let ids = crate::campaigns::contract::spec_campaign_donation_ids(self.escrowed_donation_ids_by_campaign_id@, self.unescrowed_donation_ids_by_campaign_id@, campaign_id);
                let start = unwrap_or(from_index, 0);
                let lim = spec_limit64(limit);
                if (self.donations_by_id.order().len() as u128) < start {
                    r == Err::<Vec<DonationExternal>, CampaignError>(CampaignError::OutOfBounds)
                } else if lim == 0 {
                    r == Err::<Vec<DonationExternal>, CampaignError>(CampaignError::ZeroLimit)
                } else {
                    match (r, self.spec_format_ids(page(ids, start as int, lim as int))) {
                        (Ok(v), Ok(s)) => v@ == s,
                        (Err(e1), Err(e2)) => e1 == e2,
                        _ => false,
                    }
                }
            }),
    {
        let start: u128 = match from_index {
            Some(v) => v,
            None => 0,
        };
        if (self.donations_by_id.len() as u128) < start {
            return Err(CampaignError::OutOfBounds);
        }
        let lim = limit_of64(limit);
        if lim == 0 {
            return Err(CampaignError::ZeroLimit);
        }
        let mut ids = match self.escrowed_donation_ids_by_campaign_id.get(campaign_id) {
            Some(s) => s.to_vec(),
            None => Vec::new(),
        };
        let mut rest = match self.unescrowed_donation_ids_by_campaign_id.get(campaign_id) {
            Some(s) => s.to_vec(),
            None => Vec::new(),
        };
        ids.append(&mut rest);
        assert(ids@ =~= crate::campaigns::contract::spec_campaign_donation_ids(self.escrowed_donation_ids_by_campaign_id@, self.unescrowed_donation_ids_by_campaign_id@, campaign_id));
        let (s, e) = page_bounds(ids.len(), start as usize, lim);
        assert(page(ids@, start as int, lim as int) =~= ids@.subrange(s as int, e as int));
        self.format_ids(&ids, s, e)
    }

    /// A page of a donor's donations.
    pub fn get_donations_for_donor(&self, donor_id: String, from_index: Option<u128>, limit: Option<u64>) -> (r: Result<
        Vec<DonationExternal>,
        CampaignError,
    >)
        requires
            self.wf(),
        ensures
            ({
                let ids = account_ids(self.donation_ids_by_donor_id@, donor_id@);
                let start = unwrap_or(from_index, 0);
                let lim = spec_limit64(limit);
                if lim == 0 {
                    r == Err::<Vec<DonationExternal>, CampaignError>(CampaignError::ZeroLimit)
                } else {
                    match (r, self.spec_format_ids(page(ids, start as usize as int, lim as int))) {
                        (Ok(v), Ok(s)) => v@ == s,
                        (Err(e1), Err(e2)) => e1 == e2,
                        _ => false,
                    }
                }
            }),
    {
        let start: u128 = match from_index {
            Some(v) => v,
            None => 0,
        };
        let lim = limit_of64(limit);
        if lim == 0 {
            return Err(CampaignError::ZeroLimit);
        }
        let ids = match self.donation_ids_by_donor_id.get(&donor_id) {
            Some(s) => s.to_vec(),
            None => Vec::new(),
        };
        assert(ids@ =~= account_ids(self.donation_ids_by_donor_id@, donor_id@));
        let (s, e) = page_bounds(ids.len(), start as usize, lim);
        assert(page(ids@, start as usize as int, lim as int) =~= ids@.subrange(s as int, e as int));
        self.format_ids(&ids, s, e)
    }
}

/// What a donation records: the fees it accepts fit in what was given
/// (`spec_fees_fit`), so the recorded net amount and fees together never
/// exceed the total given, also once the storage cost comes off a NEAR
/// donation's net amount; and on a campaign that does not allow fee
/// avoidance its protocol fee is the fee at the contract's rate, however
/// the donor asked.
pub proof fn lemma_recorded_donation_within_total(
    id: DonationId,
    campaign_id: CampaignId,
    donor: String,
    amount: u128,
    message: Option<String>,
    now: u64,
    protocol_fee_basis_points: u32,
    c: Campaign,
    referrer_id: Option<String>,
    bypass_protocol_fee: Option<bool>,
    bypass_creator_fee: Option<bool>,
    storage_cost: u128,
)
    requires
        spec_fees_fit(amount, protocol_fee_basis_points, c, referrer_id is Some, bypass_protocol_fee, bypass_creator_fee),
        c.ft_id is None ==> spec_new_donation(id, campaign_id, donor, amount, message, now, protocol_fee_basis_points, c,
            referrer_id, bypass_protocol_fee, bypass_creator_fee).net_amount > storage_cost,
    ensures
        spec_within_total(spec_stored_donation(spec_new_donation(id, campaign_id, donor, amount, message, now,
            protocol_fee_basis_points, c, referrer_id, bypass_protocol_fee, bypass_creator_fee), c, storage_cost)),
        !c.allow_fee_avoidance ==> spec_new_donation(id, campaign_id, donor, amount, message, now, protocol_fee_basis_points,
            c, referrer_id, bypass_protocol_fee, bypass_creator_fee).protocol_fee == fee_floor(amount, protocol_fee_basis_points),
{
    assert(0 <= protocol_fee_basis_points as int * amount as int) by (nonlinear_arith);
    assert(0 <= c.referral_fee_basis_points as int * amount as int) by (nonlinear_arith);
    assert(0 <= c.creator_fee_basis_points as int * amount as int) by (nonlinear_arith);
}

} // verus!
