//! Payout of a donation's components (net amount and fees) and what happens
//! when one of those transfers succeeds or fails.
use vstd::prelude::*;
use crate::campaigns::contract::Contract;
use crate::campaigns::escrow::spec_fee_zeroed;
use crate::campaigns::donations::PendingTransfer;
use crate::campaigns::types::{CampaignId, 
    spec_unformat_donation, unformat_donation, CampaignError, DonationExternal, FundsReceiver,
};
use crate::env::{spec_storage_byte_cost, storage_cost, Transfer};
use crate::util::clone_opt_string;

verus! {

/// What the contract does after a transfer of one component of a donation:
/// the donation record as it now stands (if it still exists and is
/// reported), transfers back to the donor, and the fee transfers that follow
/// a successful payout to the recipient.
pub struct FundsCallbackOutcome {
    pub donation: Option<DonationExternal>,
    pub refunds: Vec<Transfer>,
    pub fee_transfers: Vec<PendingTransfer>,
}

/// The fee transfers that follow a successful payout of `d` to its
/// recipient, as (receiver, amount, kind): the protocol fee, the referrer
/// fee and the creator fee, each when positive (the referrer fee only when
/// the donation names a referrer).
pub open spec fn spec_fee_transfers(d: DonationExternal, protocol_account: Seq<char>, owner: Seq<char>) -> Seq<(Seq<char>, u128, FundsReceiver)> {
    let p = if d.protocol_fee > 0 { seq![(protocol_account, d.protocol_fee, FundsReceiver::Protocol)] } else { Seq::empty() };
    let r = match (d.referrer_fee, d.referrer_id) {
        (Some(fee), Some(id)) => if fee > 0 { seq![(id@, fee, FundsReceiver::Referrer)] } else { Seq::empty() },
        _ => Seq::empty(),
    };
    let c = if d.creator_fee > 0 { seq![(owner, d.creator_fee, FundsReceiver::Creator)] } else { Seq::empty() };
    p + r + c
}

/// A transfer of `amount` to `receiver`, in the token `ft_id` (NEAR when `None`).
pub fn internal_transfer_amount(amount: u128, receiver: String, ft_id: Option<String>) -> (t: Transfer)
    ensures
        t == (Transfer { receiver, amount, ft_id }),
{
    Transfer { receiver, amount, ft_id }
}

/// The transfer of one component of `donation`, in the donation's token,
/// whose outcome comes back through `transfer_funds_callback`.
pub fn handle_transfer(donation: &DonationExternal, receiver_type: FundsReceiver, amount: u128, recipient_id: String) -> (p: PendingTransfer)
    ensures
        p.transfer == (Transfer { receiver: recipient_id, amount, ft_id: donation.ft_id }),
        p.receiver_type == receiver_type,
        p.donation == *donation,
{
    PendingTransfer {
        transfer: internal_transfer_amount(amount, recipient_id, clone_opt_string(&donation.ft_id)),
        receiver_type,
        donation: donation.copy(),
    }
}

impl Contract {
    /// Outcome of the transfer of one component of a (not escrowed) donation.
    ///
    /// On failure, the component goes back to the donor: for the net amount,
    /// the whole donation is returned and its record removed (with the
    /// cost of the `freed_bytes` of storage it freed refunded in NEAR), and nothing
    /// is reported; for a fee, that fee alone is set to zero on the stored
    /// record (every other field, the net amount included, stays as it was;
    /// an unrecorded donation is recorded from `donation`) and the updated
    /// donation is reported. On success of the payout to the recipient, the fee transfers
    /// of `spec_fee_transfers` follow (the creator fee to the campaign owner)
    /// and the donation is reported; other successes report nothing.
    /// Refused, with nothing changed, when the referrer fee (referrer
    /// failure) or the campaign (creator fee to pay) is missing.
    pub fn transfer_funds_callback(
        &mut self,
        amount: u128,
        donation: DonationExternal,
        receiver_type: FundsReceiver,
        succeeded: bool,
        freed_bytes: u64,
    ) -> (r: Result<FundsCallbackOutcome, CampaignError>)
        requires
            old(self).wf(),
        ensures
            final(self).wf(),
            r is Err ==> *final(self) == *old(self),
            !succeeded && receiver_type == FundsReceiver::Recipient ==> {
                let d = spec_unformat_donation(donation);
                let (e0, u0, d0) = (old(self).escrowed_donation_ids_by_campaign_id@, old(self).unescrowed_donation_ids_by_campaign_id@, old(self).donation_ids_by_donor_id@);
                let (e1, u1, d1) = (final(self).escrowed_donation_ids_by_campaign_id@, final(self).unescrowed_donation_ids_by_campaign_id@, final(self).donation_ids_by_donor_id@);
                &&& r matches Ok(o) && o.donation is None && o.fee_transfers@.len() == 0
                &&& r->Ok_0.refunds@ == seq![
                    Transfer { receiver: donation.donor_id, amount: donation.total_amount, ft_id: donation.ft_id },
                    Transfer { receiver: donation.donor_id, amount: (freed_bytes * spec_storage_byte_cost()) as u128, ft_id: None },
                ]
                &&& final(self).donations_by_id@ == old(self).donations_by_id@.remove(d.id)
                &&& e1.dom() == e0.dom() && u1.dom() == u0.dom() && d1.dom() == d0.dom()
                &&& e0.contains_key(d.campaign_id) ==> e1[d.campaign_id]@ == crate::collections::set_del(e0[d.campaign_id]@, d.id)
                &&& u0.contains_key(d.campaign_id) ==> u1[d.campaign_id]@ == crate::collections::set_del(u0[d.campaign_id]@, d.id)
                &&& d0.contains_key(d.donor_id@) ==> d1[d.donor_id@]@ == crate::collections::set_del(d0[d.donor_id@]@, d.id)
                &&& forall|k: CampaignId| k != d.campaign_id && #[trigger] e0.contains_key(k) ==> e1[k] == e0[k]
                &&& forall|k: CampaignId| k != d.campaign_id && #[trigger] u0.contains_key(k) ==> u1[k] == u0[k]
                &&& forall|k: Seq<char>| k != d.donor_id@ && #[trigger] d0.contains_key(k) ==> d1[k] == d0[k]
                &&& *final(self) == (Contract {
                    donations_by_id: final(self).donations_by_id,
                    escrowed_donation_ids_by_campaign_id: final(self).escrowed_donation_ids_by_campaign_id,
                    unescrowed_donation_ids_by_campaign_id: final(self).unescrowed_donation_ids_by_campaign_id,
                    donation_ids_by_donor_id: final(self).donation_ids_by_donor_id,
                    ..*old(self)
                })
            },
            !succeeded && receiver_type != FundsReceiver::Recipient ==> {
                &&& (r is Ok <==> (receiver_type != FundsReceiver::Referrer || donation.referrer_fee is Some))
                &&& r matches Err(e) ==> e == CampaignError::MissingReferrerFee
                &&& r matches Ok(o) ==> {
                    let updated = match receiver_type {
                        FundsReceiver::Protocol => DonationExternal { protocol_fee: 0, ..donation },
                        FundsReceiver::Referrer => DonationExternal { referrer_fee: Some(0), ..donation },
                        _ => DonationExternal { creator_fee: 0, ..donation },
                    };
                    let refund = match receiver_type {
                        FundsReceiver::Protocol => donation.protocol_fee,
                        FundsReceiver::Referrer => donation.referrer_fee->0,
                        _ => donation.creator_fee,
                    };
                    let base = if old(self).donations_by_id@.contains_key(donation.id) {
                        old(self).donations_by_id@[donation.id]
                    } else {
                        spec_unformat_donation(donation)
                    };
                    &&& o.donation == Some(updated)
                    &&& o.fee_transfers@.len() == 0
                    &&& o.refunds@ == seq![Transfer { receiver: donation.donor_id, amount: refund, ft_id: donation.ft_id }]
                    &&& final(self).donations_by_id@ == old(self).donations_by_id@.insert(donation.id, spec_fee_zeroed(base, receiver_type))
                    &&& *final(self) == (Contract { donations_by_id: final(self).donations_by_id, ..*old(self) })
                }
            },
            succeeded ==> {
                &&& *final(self) == *old(self)
                &&& receiver_type != FundsReceiver::Recipient ==> (r matches Ok(o) && o.donation is None && o.refunds@.len() == 0 && o.fee_transfers@.len() == 0)
                &&& receiver_type == FundsReceiver::Recipient ==> {
                    &&& (r is Ok <==> (donation.creator_fee == 0 || old(self).campaigns_by_id@.contains_key(donation.campaign_id)))
                    &&& r matches Err(e) ==> e == CampaignError::CampaignNotFound
                    &&& r matches Ok(o) ==> {
                        let expected = spec_fee_transfers(donation, old(self).protocol_fee_recipient_account@, old(self).campaigns_by_id@[donation.campaign_id].owner@);
                        &&& o.donation == Some(donation)
                        &&& o.refunds@.len() == 0
                        &&& o.fee_transfers@.len() == expected.len()
                        &&& forall|i: int| 0 <= i < expected.len() ==> {
                            let p = #[trigger] o.fee_transfers@[i];
                            &&& (p.transfer.receiver@, p.transfer.amount, p.receiver_type) == expected[i]
                            &&& p.transfer.ft_id == donation.ft_id
                            &&& p.donation == donation
                        }
                    }
                }
            },
    {
        if !succeeded {
            match receiver_type {
                FundsReceiver::Recipient => {
                    let d = unformat_donation(&donation);
                    self.internal_remove_donation_record(&d);
                    let mut refunds: Vec<Transfer> = Vec::new();
                    refunds.push(internal_transfer_amount(donation.total_amount, donation.donor_id.clone(), clone_opt_string(&donation.ft_id)));
                    refunds.push(internal_transfer_amount(storage_cost(freed_bytes), donation.donor_id.clone(), None));
                    return Ok(FundsCallbackOutcome { donation: None, refunds, fee_transfers: Vec::new() });
                },
                _ => {
                    let refund = match receiver_type {
                        FundsReceiver::Protocol => donation.protocol_fee,
                        FundsReceiver::Referrer => match donation.referrer_fee {
                            Some(f) => f,
                            None => return Err(CampaignError::MissingReferrerFee),
                        },
                        _ => donation.creator_fee,
                    };
                    let mut updated = donation.copy();
                    match receiver_type {
                        FundsReceiver::Protocol => {
                            updated.protocol_fee = 0;
                        },
                        FundsReceiver::Referrer => {
                            updated.referrer_fee = Some(0);
                        },
                        _ => {
                            updated.creator_fee = 0;
                        },
                    }
                    let mut stored = match self.donations_by_id.get(donation.id) {
                        Some(d) => d.copy(),
                        None => unformat_donation(&donation),
                    };
                    match receiver_type {
                        FundsReceiver::Protocol => {
                            stored.protocol_fee = 0;
                        },
                        FundsReceiver::Referrer => {
                            stored.referrer_fee = Some(0);
                        },
                        _ => {
                            stored.creator_fee = 0;
                        },
                    }
                    self.donations_by_id.insert(donation.id, stored);
                    let mut refunds: Vec<Transfer> = Vec::new();
                    refunds.push(internal_transfer_amount(refund, donation.donor_id.clone(), clone_opt_string(&donation.ft_id)));
                    return Ok(FundsCallbackOutcome { donation: Some(updated), refunds, fee_transfers: Vec::new() });
                },
            }
        }
        if receiver_type != FundsReceiver::Recipient {
            return Ok(FundsCallbackOutcome { donation: None, refunds: Vec::new(), fee_transfers: Vec::new() });
        }
        let owner = if donation.creator_fee > 0 {
            match self.campaigns_by_id.get(donation.campaign_id) {
                None => return Err(CampaignError::CampaignNotFound),
                Some(c) => c.owner.clone(),
            }
        } else {
            String::new()
        };
        let ghost expected = spec_fee_transfers(donation, self.protocol_fee_recipient_account@, self.campaigns_by_id@[donation.campaign_id].owner@);
        let mut fee_transfers: Vec<PendingTransfer> = Vec::new();
        if donation.protocol_fee > 0 {
            fee_transfers.push(handle_transfer(&donation, FundsReceiver::Protocol, donation.protocol_fee, self.protocol_fee_recipient_account.clone()));
        }
        match (&donation.referrer_fee, &donation.referrer_id) {
            (Some(fee), Some(id)) => {
                if *fee > 0 {
                    fee_transfers.push(handle_transfer(&donation, FundsReceiver::Referrer, *fee, id.clone()));
                }
            },
            _ => {},
        }
        if donation.creator_fee > 0 {
            fee_transfers.push(handle_transfer(&donation, FundsReceiver::Creator, donation.creator_fee, owner));
        }
        assert(fee_transfers@.len() == expected.len());
        Ok(FundsCallbackOutcome { donation: Some(donation), refunds: Vec::new(), fee_transfers })
    }
}

} // verus!
