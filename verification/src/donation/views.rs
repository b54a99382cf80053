//! Paged views of the donation contract, and the three kinds of transfer of
//! a donation's parts.
use vstd::prelude::*;
use crate::collections::{AccountMap, IdSet};
use crate::donation::contract::Contract;
use crate::donation::donations::{handle_transfer, spec_transfer_in, PendingTransfer};
use crate::donation::types::{Donation, DonationError, DonationExternal, TransferType};
use crate::util::{page, page_bounds, unwrap_or};

verus! {

/// `limit.map(|v| v as usize).unwrap_or(usize::MAX)`.
pub open spec fn spec_limit(limit: Option<u64>) -> usize {
    match limit {
        Some(v) => v as usize,
        None => usize::MAX,
    }
}

fn limit_of(limit: Option<u64>) -> (l: usize)
    ensures
        l == spec_limit(limit),
{
    match limit {
        Some(v) => v as usize,
        None => usize::MAX,
    }
}

/// The view form of a donation.
pub open spec fn spec_donation_external(d: Donation) -> DonationExternal {
    DonationExternal {
        id: d.id,
        donor_id: d.donor_id,
        total_amount: d.total_amount,
        ft_id: d.ft_id,
        message: d.message,
        donated_at_ms: d.donated_at_ms,
        recipient_id: d.recipient_id,
        protocol_fee: d.protocol_fee,
        referrer_id: d.referrer_id,
        referrer_fee: d.referrer_fee,
    }
}

/// The transfer of the donated amount to the recipient.
pub fn handle_transfer_donation(recipient_id: String, amount: u128, remainder: u128, donation: &Donation) -> (p: PendingTransfer)
    ensures
        p.transfer == spec_transfer_in(*donation, recipient_id, amount),
        p.remainder == remainder,
        p.donation == *donation,
        p.transfer_type == TransferType::DonationTransfer,
{
    handle_transfer(recipient_id, amount, remainder, donation, TransferType::DonationTransfer)
}

/// The transfer of the protocol fee to its recipient.
pub fn handle_transfer_protocol_fee(recipient_id: String, amount: u128, remainder: u128, donation: &Donation) -> (p: PendingTransfer)
    ensures
        p.transfer == spec_transfer_in(*donation, recipient_id, amount),
        p.remainder == remainder,
        p.donation == *donation,
        p.transfer_type == TransferType::ProtocolFeeTransfer,
{
    handle_transfer(recipient_id, amount, remainder, donation, TransferType::ProtocolFeeTransfer)
}

/// The transfer of the referrer fee to the referrer.
pub fn handle_transfer_referrer_fee(recipient_id: String, amount: u128, remainder: u128, donation: &Donation) -> (p: PendingTransfer)
    ensures
        p.transfer == spec_transfer_in(*donation, recipient_id, amount),
        p.remainder == remainder,
        p.donation == *donation,
        p.transfer_type == TransferType::ReferrerFeeTransfer,
{
    handle_transfer(recipient_id, amount, remainder, donation, TransferType::ReferrerFeeTransfer)
}

impl Contract {
    /// A page of all donations, in storage order; refused when `from_index`
    /// is past the end or the limit is zero.
    pub fn get_donations(&self, from_index: Option<u128>, limit: Option<u64>) -> (r: Result<Vec<DonationExternal>, DonationError>)
        requires
            self.wf(),
        ensures
            ({
                let ids = self.donations_by_id.order();
                let start = unwrap_or(from_index, 0);
                let lim = spec_limit(limit);
                if (ids.len() as u128) < start {
                    r == Err::<Vec<DonationExternal>, DonationError>(DonationError::OutOfBounds)
                } else if lim == 0 {
                    r == Err::<Vec<DonationExternal>, DonationError>(DonationError::ZeroLimit)
                } else {
                    r matches Ok(v) && v@ == page(ids, start as int, lim as int).map_values(
                        |id: u64| spec_donation_external(self.donations_by_id@[id]))
                }
            }),
    {
        let start: u128 = match from_index {
            Some(v) => v,
            None => 0,
        };
        proof {
            self.donations_by_id.lemma_wf();
        }
        let n = self.donations_by_id.len();
        if (n as u128) < start {
            return Err(DonationError::OutOfBounds);
        }
        let lim = limit_of(limit);
        if lim == 0 {
            return Err(DonationError::ZeroLimit);
        }
        let (s, e) = page_bounds(n, start as usize, lim);
        let ghost ids = self.donations_by_id.order();
        let ghost pg = ids.subrange(s as int, e as int);
        assert(page(ids, start as int, lim as int) =~= pg);
        let mut out: Vec<DonationExternal> = Vec::new();
        let mut i = s;
        while i < e
            invariant
                self.wf(),
                s <= i <= e <= n,
                n == ids.len(),
                ids == self.donations_by_id.order(),
                pg == ids.subrange(s as int, e as int),
                out@.len() == i - s,
                forall|j: int| 0 <= j < i - s ==> #[trigger] out@[j] == spec_donation_external(self.donations_by_id@[pg[j]]),
            decreases e - i,
        {
            out.push(self.format_donation(self.donations_by_id.value_at(i)));
            i += 1;
        }
        assert(out@ =~= pg.map_values(|id: u64| spec_donation_external(self.donations_by_id@[id])));
        Ok(out)
    }

    /// The donations filed under one account (`ids`, or `None` when none
    /// are), a page of them: the limit is checked first, an account with no
    /// donations gets an empty page, and a listed donation without a record
    /// is refused.
    pub open spec fn spec_account_page(&self, ids: Option<Seq<u64>>, from_index: Option<u128>, limit: Option<u64>, r: Result<Vec<DonationExternal>, DonationError>) -> bool {
        if spec_limit(limit) == 0 {
            r == Err::<Vec<DonationExternal>, DonationError>(DonationError::ZeroLimit)
        } else {
            match ids {
                None => r matches Ok(v) && v@.len() == 0,
                Some(ids) => self.spec_ids_page(page(ids, unwrap_or(from_index, 0) as int, spec_limit(limit) as int), r),
            }
        }
    }

    /// `r` is the view form of the donations `pg`, or refused when one of
    /// them has no record.
    pub open spec fn spec_ids_page(&self, pg: Seq<u64>, r: Result<Vec<DonationExternal>, DonationError>) -> bool {
        if exists|j: int| 0 <= j < pg.len() && !self.donations_by_id@.contains_key(#[trigger] pg[j]) {
            r == Err::<Vec<DonationExternal>, DonationError>(DonationError::DonationNotFound)
        } else {
            r matches Ok(v) && v@ == pg.map_values(|id: u64| spec_donation_external(self.donations_by_id@[id]))
        }
    }

    /// The page of the donations filed under `key` in `m`.
    fn account_page(&self, m: &AccountMap<IdSet>, key: &String, from_index: Option<u128>, limit: Option<u64>) -> (r: Result<Vec<DonationExternal>, DonationError>)
        requires
            self.wf(),
            m.wf(),
        ensures
            self.spec_account_page(if m@.contains_key(key@) { Some(m@[key@]@) } else { None }, from_index, limit, r),
    {
        let lim = limit_of(limit);
        if lim == 0 {
            return Err(DonationError::ZeroLimit);
        }
        let ids = match m.get(key) {
            None => return Ok(Vec::new()),
            Some(s) => s.to_vec(),
        };
        let start: u128 = match from_index {
            Some(v) => v,
            None => 0,
        };
        let start_usize: usize = if start > ids.len() as u128 { ids.len() } else { start as usize };
        let (s, e) = page_bounds(ids.len(), start_usize, lim);
        assert(ids@ == m@[key@]@);
        let ghost pg = page(ids@, start as int, lim as int);
        assert(pg =~= ids@.subrange(s as int, e as int));
        let mut out: Vec<DonationExternal> = Vec::new();
        let mut i = s;
        while i < e
            invariant
                self.wf(),
                s <= i <= e <= ids@.len(),
                pg == ids@.subrange(s as int, e as int),
                m@.contains_key(key@),
                pg == page(m@[key@]@, unwrap_or(from_index, 0) as int, spec_limit(limit) as int),
                spec_limit(limit) != 0,
                out@.len() == i - s,
                forall|j: int| 0 <= j < i - s ==> self.donations_by_id@.contains_key(#[trigger] pg[j]),
                forall|j: int| 0 <= j < i - s ==> #[trigger] out@[j] == spec_donation_external(self.donations_by_id@[pg[j]]),
            decreases e - i,
        {
            let id = ids[i];
            assert(pg[i - s] == id);
            match self.donations_by_id.get(id) {
                None => {
                    assert(0 <= i - s < pg.len() && !self.donations_by_id@.contains_key(pg[(i - s) as int]));
                    assert(exists|j: int| 0 <= j < pg.len() && !self.donations_by_id@.contains_key(#[trigger] pg[j]));
                    return Err(DonationError::DonationNotFound);
                },
                Some(d) => out.push(self.format_donation(d)),
            }
            i += 1;
        }
        assert(out@ =~= pg.map_values(|id: u64| spec_donation_external(self.donations_by_id@[id])));
        Ok(out)
    }

    /// A page of the donations to `recipient_id`.
    pub fn get_donations_for_recipient(&self, recipient_id: String, from_index: Option<u128>, limit: Option<u64>) -> (r: Result<Vec<DonationExternal>, DonationError>)
        requires
            self.wf(),
        ensures
            self.spec_account_page(if self.donation_ids_by_recipient_id@.contains_key(recipient_id@) {
                Some(self.donation_ids_by_recipient_id@[recipient_id@]@)
            } else {
                None
            }, from_index, limit, r),
    {
        self.account_page(&self.donation_ids_by_recipient_id, &recipient_id, from_index, limit)
    }

    /// A page of the donations of `donor_id`.
    pub fn get_donations_for_donor(&self, donor_id: String, from_index: Option<u128>, limit: Option<u64>) -> (r: Result<Vec<DonationExternal>, DonationError>)
        requires
            self.wf(),
        ensures
            self.spec_account_page(if self.donation_ids_by_donor_id@.contains_key(donor_id@) {
                Some(self.donation_ids_by_donor_id@[donor_id@]@)
            } else {
                None
            }, from_index, limit, r),
    {
        self.account_page(&self.donation_ids_by_donor_id, &donor_id, from_index, limit)
    }

    /// A page of the donations in token `ft_id`.
    pub fn get_donations_for_ft(&self, ft_id: String, from_index: Option<u128>, limit: Option<u64>) -> (r: Result<Vec<DonationExternal>, DonationError>)
        requires
            self.wf(),
        ensures
            self.spec_account_page(if self.donation_ids_by_ft_id@.contains_key(ft_id@) {
                Some(self.donation_ids_by_ft_id@[ft_id@]@)
            } else {
                None
            }, from_index, limit, r),
    {
        self.account_page(&self.donation_ids_by_ft_id, &ft_id, from_index, limit)
    }
}

} // verus!
