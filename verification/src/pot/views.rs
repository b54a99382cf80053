//! Paged views of a pot: donations (all, by round, by project, by donor),
//! approved applications, payouts and the donor blacklist.
use vstd::prelude::*;
use crate::pot::contract::Contract;
use crate::pot::types::{Application, DonationExternal, Payout, PayoutExternal, PotError};
use crate::util::{page, page_bounds, unwrap_or};

verus! {

/// `limit.map(|v| v as usize).unwrap_or(usize::MAX)`.
pub open spec fn spec_limit(limit: Option<u64>) -> usize {
    match limit {
        Some(v) => v as usize,
        None => usize::MAX,
    }
}

fn limit_of(limit: Option<u64>) -> (l: usize)
    ensures
        l == spec_limit(limit),
{
    match limit {
        Some(v) => v as usize,
        None => usize::MAX,
    }
}

/// The view form of a payout.
pub open spec fn spec_payout_external(p: Payout) -> PayoutExternal {
    PayoutExternal { id: p.id, recipient_id: p.recipient_id, amount: p.amount, paid_at: p.paid_at, memo: p.memo }
}

impl Contract {
    /// The external forms of the donations `ids`, in order; `None` when one
    /// of them has no record.
    pub open spec fn spec_format_ids(&self, ids: Seq<u64>) -> Option<Seq<DonationExternal>> {
        if exists|j: int| 0 <= j < ids.len() && !self.donations_by_id@.contains_key(#[trigger] ids[j]) {
            None
        } else {
            Some(ids.map_values(|id: u64| self.spec_format_donation(self.donations_by_id@[id], id)))
        }
    }

    /// The external forms of the donations `ids[start..end]`.
    fn format_ids(&self, ids: &Vec<u64>, start: usize, end: usize) -> (r: Result<Vec<DonationExternal>, PotError>)
        requires
            self.wf(),
            start <= end <= ids@.len(),
        ensures
            match self.spec_format_ids(ids@.subrange(start as int, end as int)) {
                None => r == Err::<Vec<DonationExternal>, PotError>(PotError::DonationNotFound),
                Some(s) => r matches Ok(v) && v@ == s,
            },
    {
        let ghost p = ids@.subrange(start as int, end as int);
        let mut out: Vec<DonationExternal> = Vec::new();
        let mut i = start;
        while i < end
            invariant
                self.wf(),
                start <= i <= end <= ids@.len(),
                p == ids@.subrange(start as int, end as int),
                out@.len() == i - start,
                forall|j: int| 0 <= j < i - start ==> self.donations_by_id@.contains_key(#[trigger] p[j]),
                forall|j: int| 0 <= j < i - start ==> #[trigger] out@[j] == self.spec_format_donation(self.donations_by_id@[p[j]], p[j]),
            decreases end - i,
        {
            let id = ids[i];
            assert(p[i - start] == id);
            match self.donations_by_id.get(id) {
                None => {
                    assert(0 <= i - start < p.len() && !self.donations_by_id@.contains_key(p[(i - start) as int]));
                    return Err(PotError::DonationNotFound);
                },
                Some(d) => {
                    out.push(self.format_donation(d, id));
                },
            }
            i += 1;
        }
        assert(out@ =~= p.map_values(|id: u64| self.spec_format_donation(self.donations_by_id@[id], id)));
        Ok(out)
    }

    /// A page of `ids` (refused past the end, or with a zero limit) as donations.
    fn donations_page(&self, ids: &Vec<u64>, from_index: Option<u128>, limit: Option<u64>) -> (r: Result<Vec<DonationExternal>, PotError>)
        requires
            self.wf(),
        ensures
            self.spec_donations_page(ids@, from_index, limit, r),
    {
        let start: u128 = match from_index {
            Some(v) => v,
            None => 0,
        };
        if (ids.len() as u128) < start {
            return Err(PotError::OutOfBounds);
        }
        let lim = limit_of(limit);
        if lim == 0 {
            return Err(PotError::ZeroLimit);
        }
        let (s, e) = page_bounds(ids.len(), start as usize, lim);
        assert(page(ids@, start as int, lim as int) =~= ids@.subrange(s as int, e as int));
        self.format_ids(ids, s, e)
    }

    /// `r` is the page of the donations `ids` that starts at `from_index` and
    /// holds at most `limit` items: refused when `from_index` is past the end
    /// or the limit is zero, or when one of the page's donations has no record.
    pub open spec fn spec_donations_page(&self, ids: Seq<u64>, from_index: Option<u128>, limit: Option<u64>, r: Result<Vec<DonationExternal>, PotError>) -> bool {
        let start = unwrap_or(from_index, 0);
        let lim = spec_limit(limit);
        if (ids.len() as u128) < start {
            r == Err::<Vec<DonationExternal>, PotError>(PotError::OutOfBounds)
        } else if lim == 0 {
            r == Err::<Vec<DonationExternal>, PotError>(PotError::ZeroLimit)
        } else {
            match self.spec_format_ids(page(ids, start as int, lim as int)) {
                None => r == Err::<Vec<DonationExternal>, PotError>(PotError::DonationNotFound),
                Some(s) => r matches Ok(v) && v@ == s,
            }
        }
    }

    /// A page of all donations, in the order they were made.
    pub fn get_donations(&self, from_index: Option<u128>, limit: Option<u64>) -> (r: Result<Vec<DonationExternal>, PotError>)
        requires
            self.wf(),
        ensures
            self.spec_donations_page(self.donations_by_id.order(), from_index, limit, r),
    {
        let ids = self.donations_by_id.keys_vec();
        self.donations_page(&ids, from_index, limit)
    }

    /// A page of the public round donations.
    pub fn get_public_round_donations(&self, from_index: Option<u128>, limit: Option<u64>) -> (r: Result<Vec<DonationExternal>, PotError>)
        requires
            self.wf(),
        ensures
            self.spec_donations_page(self.public_round_donation_ids@, from_index, limit, r),
    {
        let ids = self.public_round_donation_ids.to_vec();
        self.donations_page(&ids, from_index, limit)
    }

    /// A page of the matching pool donations.
    pub fn get_matching_pool_donations(&self, from_index: Option<u128>, limit: Option<u64>) -> (r: Result<Vec<DonationExternal>, PotError>)
        requires
            self.wf(),
        ensures
            self.spec_donations_page(self.matching_pool_donation_ids@, from_index, limit, r),
    {
        let ids = self.matching_pool_donation_ids.to_vec();
        self.donations_page(&ids, from_index, limit)
    }

    /// `r` is the page of the donations filed under an account (`ids`, or
    /// `None` when none are): the limit is checked first; an account with
    /// no donations gets an empty page.
    pub open spec fn spec_account_page(&self, ids: Option<Seq<u64>>, from_index: Option<u128>, limit: Option<u64>, r: Result<Vec<DonationExternal>, PotError>) -> bool {
        if spec_limit(limit) == 0 {
            r == Err::<Vec<DonationExternal>, PotError>(PotError::ZeroLimit)
        } else {
            match ids {
                None => r matches Ok(v) && v@.len() == 0,
                Some(ids) => self.spec_donations_page(ids, from_index, limit, r),
            }
        }
    }

    /// The donations filed under `key` in `m`, if any.
    fn ids_under(m: &crate::collections::AccountMap<crate::collections::IdSet>, key: &String) -> (r: Option<Vec<u64>>)
        requires
            m.wf(),
        ensures
            match r {
                None => !m@.contains_key(key@),
                Some(v) => m@.contains_key(key@) && v@ == m@[key@]@,
            },
    {
        match m.get(key) {
            None => None,
            Some(s) => Some(s.to_vec()),
        }
    }

    /// A page of the donations to project `project_id`.
    pub fn get_donations_for_project(&self, project_id: String, from_index: Option<u128>, limit: Option<u64>) -> (r: Result<Vec<DonationExternal>, PotError>)
        requires
            self.wf(),
        ensures
            self.spec_account_page(
                if self.donation_ids_by_project_id@.contains_key(project_id@) {
                    Some(self.donation_ids_by_project_id@[project_id@]@)
                } else {
                    None
                }, from_index, limit, r),
    {
        if limit_of(limit) == 0 {
            return Err(PotError::ZeroLimit);
        }
        match Self::ids_under(&self.donation_ids_by_project_id, &project_id) {
            None => Ok(Vec::new()),
            Some(ids) => self.donations_page(&ids, from_index, limit),
        }
    }

    /// A page of the donations of `donor_id`.
    pub fn get_donations_for_donor(&self, donor_id: String, from_index: Option<u64>, limit: Option<u64>) -> (r: Result<Vec<DonationExternal>, PotError>)
        requires
            self.wf(),
        ensures
            self.spec_account_page(
                if self.donation_ids_by_donor_id@.contains_key(donor_id@) {
                    Some(self.donation_ids_by_donor_id@[donor_id@]@)
                } else {
                    None
                }, match from_index { Some(v) => Some(v as u128), None => None }, limit, r),
    {
        if limit_of(limit) == 0 {
            return Err(PotError::ZeroLimit);
        }
        let from: Option<u128> = match from_index {
            Some(v) => Some(v as u128),
            None => None,
        };
        match Self::ids_under(&self.donation_ids_by_donor_id, &donor_id) {
            None => Ok(Vec::new()),
            Some(ids) => self.donations_page(&ids, from, limit),
        }
    }

    /// The blacklisted donors.
    pub fn get_blacklisted_donors(&self) -> (r: Vec<String>)
        ensures
            r@.map_values(|s: String| s@) == self.blacklisted_donors@,
    {
        self.blacklisted_donors.to_vec()
    }

    /// A page of the approved applications, in the order they were approved.
    pub fn get_approved_applications(&self, from_index: Option<u64>, limit: Option<u64>) -> (r: Result<Vec<Application>, PotError>)
        requires
            self.wf(),
        ensures
            ({
                let ids = self.approved_application_ids@;
                let start = unwrap_or(from_index, 0);
                let lim = spec_limit(limit);
                if ids.len() < start {
                    r == Err::<Vec<Application>, PotError>(PotError::OutOfBounds)
                } else if lim == 0 {
                    r == Err::<Vec<Application>, PotError>(PotError::ZeroLimit)
                } else {
                    r matches Ok(v) && v@ == page(ids, start as int, lim as int).map_values(
                        |p: Seq<char>| self.applications_by_id@[p])
                }
            }),
    {
        let start: u64 = match from_index {
            Some(v) => v,
            None => 0,
        };
        let n = self.approved_application_ids.len();
        if (n as u64) < start {
            return Err(PotError::OutOfBounds);
        }
        let lim = limit_of(limit);
        if lim == 0 {
            return Err(PotError::ZeroLimit);
        }
        let (s, e) = page_bounds(n, start as usize, lim);
        let ghost ids = self.approved_application_ids@;
        let ghost pg = ids.subrange(s as int, e as int);
        assert(page(ids, start as int, lim as int) =~= pg);
        let mut out: Vec<Application> = Vec::new();
        let mut i = s;
        while i < e
            invariant
                self.wf(),
                s <= i <= e <= n,
                n == ids.len(),
                ids == self.approved_application_ids@,
                pg == ids.subrange(s as int, e as int),
                out@.len() == i - s,
                forall|j: int| 0 <= j < i - s ==> #[trigger] out@[j] == self.applications_by_id@[pg[j]],
            decreases e - i,
        {
            let project_id = self.approved_application_ids.get(i);
            assert(self.approved_application_ids@.contains(project_id@));
            match self.applications_by_id.get(&project_id) {
                Some(a) => out.push(a.copy()),
                None => {},
            }
            assert(pg[i - s] == project_id@);
            i += 1;
        }
        assert(out@ =~= pg.map_values(|p: Seq<char>| self.applications_by_id@[p]));
        Ok(out)
    }

    /// A page of the payouts, in storage order.
    pub fn get_payouts(&self, from_index: Option<u64>, limit: Option<u64>) -> (r: Result<Vec<PayoutExternal>, PotError>)
        requires
            self.wf(),
        ensures
            ({
                let ids = self.payouts_by_id.order();
                let start = unwrap_or(from_index, 0);
                let lim = unwrap_or(limit, usize::MAX as u64);
                if ids.len() < start {
                    r == Err::<Vec<PayoutExternal>, PotError>(PotError::OutOfBounds)
                } else if lim == 0 {
                    r == Err::<Vec<PayoutExternal>, PotError>(PotError::ZeroLimit)
                } else {
                    r matches Ok(v) && v@ == page(ids, start as int, lim as usize as int).map_values(
                        |k: Seq<char>| spec_payout_external(self.payouts_by_id@[k]))
                }
            }),
    {
        let start: u64 = match from_index {
            Some(v) => v,
            None => 0,
        };
        proof {
            self.payouts_by_id.lemma_wf();
        }
        let n = self.payouts_by_id.len();
        if (n as u64) < start {
            return Err(PotError::OutOfBounds);
        }
        let lim: u64 = match limit {
            Some(v) => v,
            None => usize::MAX as u64,
        };
        if lim == 0 {
            return Err(PotError::ZeroLimit);
        }
        let (s, e) = page_bounds(n, start as usize, lim as usize);
        let ghost ids = self.payouts_by_id.order();
        let ghost pg = ids.subrange(s as int, e as int);
        assert(page(ids, start as int, lim as usize as int) =~= pg);
        let mut out: Vec<PayoutExternal> = Vec::new();
        let mut i = s;
        while i < e
            invariant
                self.wf(),
                s <= i <= e <= n,
                n == ids.len(),
                ids == self.payouts_by_id.order(),
                pg == ids.subrange(s as int, e as int),
                out@.len() == i - s,
                forall|j: int| 0 <= j < i - s ==> #[trigger] out@[j] == spec_payout_external(self.payouts_by_id@[pg[j]]),
            decreases e - i,
        {
            out.push(self.payouts_by_id.value_at(i).to_external());
            i += 1;
        }
        assert(out@ =~= pg.map_values(|k: Seq<char>| spec_payout_external(self.payouts_by_id@[k])));
        Ok(out)
    }

}

} // verus!
