//! Escrowed donations: releasing them in batches once a campaign's minimum is
//! raised, and refunding them in batches when it ends without reaching it.
use vstd::prelude::*;
use crate::campaigns::contract::{account_ids, Contract};
use crate::campaigns::types::{
    Campaign, CampaignError, CampaignId, Donation, DonationId, FundsReceiver, TempRefundRecord,
};
use crate::campaigns::validation::{BATCH_SIZE, MAX_TGAS};
use crate::collections::{account_sets_wf, lemma_set_add_contains, lemma_set_del_contains, lemma_swap_remove, AccountMap, id_sets_add, id_sets_del, id_sets_wf, set_add, set_del, IdMap, IdSet};
use crate::env::{CallContext, Transfer};
use crate::util::{clone_opt_string, copy_ids, unwrap_or};

verus! {

/// The IDs a batch works on: the first `BATCH_SIZE` of `ids`.
pub open spec fn spec_batch(ids: Seq<u64>) -> Seq<u64> {
    if ids.len() <= BATCH_SIZE {
        ids
    } else {
        ids.subrange(0, BATCH_SIZE as int)
    }
}

/// Sums over the donations of `batch` that have not been returned: (net
/// amounts, protocol fees, creator fees).
pub open spec fn spec_batch_totals(dm: Map<DonationId, Donation>, batch: Seq<u64>) -> (int, int, int)
    decreases batch.len(),
{
    if batch.len() == 0 {
        (0, 0, 0)
    } else {
        let prev = spec_batch_totals(dm, batch.drop_last());
        let d = dm[batch.last()];
        if d.returned_at_ms is Some {
            prev
        } else {
            (prev.0 + d.net_amount, prev.1 + d.protocol_fee, prev.2 + d.creator_fee)
        }
    }
}

/// Referrer fees owed over the donations of `batch` that have not been
/// returned, summed per referrer.
pub open spec fn spec_referrer_totals(dm: Map<DonationId, Donation>, batch: Seq<u64>) -> Map<Seq<char>, int>
    decreases batch.len(),
{
    if batch.len() == 0 {
        Map::empty()
    } else {
        let prev = spec_referrer_totals(dm, batch.drop_last());
        let d = dm[batch.last()];
        if d.returned_at_ms is Some || d.referrer_id is None {
            prev
        } else {
            let k = d.referrer_id->0@;
            let so_far = if prev.contains_key(k) { prev[k] } else { 0 };
            prev.insert(k, so_far + unwrap_or(d.referrer_fee, 0))
        }
    }
}

/// Escrow sets (escrowed, paid out) after moving the donations of `batch` that
/// have not been returned from the first to the second.
pub open spec fn spec_release(dm: Map<DonationId, Donation>, e: Seq<u64>, u: Seq<u64>, batch: Seq<u64>) -> (Seq<u64>, Seq<u64>)
    decreases batch.len(),
{
    if batch.len() == 0 {
        (e, u)
    } else {
        let prev = spec_release(dm, e, u, batch.drop_last());
        let id = batch.last();
        if dm[id].returned_at_ms is Some {
            prev
        } else {
            (set_del(prev.0, id), set_add(prev.1, id))
        }
    }
}

/// Payout of a released batch: its net total to the campaign recipient, with
/// what the follow-up transfers need.
pub struct EscrowPayout {
    pub transfer: Transfer,
    pub campaign_id: CampaignId,
    pub donation_ids: Vec<DonationId>,
    pub protocol_fee: u128,
    pub creator_fee: u128,
    pub referrer_payouts: Vec<(String, u128)>,
}

/// A fee transfer that follows a successful release; its outcome is reported
/// through `escrowed_donations_fee_transfer_callback`.
pub struct FeePayout {
    pub transfer: Transfer,
    pub receiver_type: FundsReceiver,
    pub campaign_id: CampaignId,
    pub donation_ids: Vec<DonationId>,
}

/// The entries of `v` have distinct accounts and are exactly the entries of `m`.
pub open spec fn spec_payouts_match(v: Seq<(String, u128)>, m: Map<Seq<char>, int>) -> bool {
    &&& forall|i: int, j: int| 0 <= i < j < v.len() ==> (#[trigger] v[i]).0@ != (#[trigger] v[j]).0@
    &&& forall|i: int| 0 <= i < v.len() ==> m.contains_key((#[trigger] v[i]).0@) && m[v[i].0@] == v[i].1
    &&& forall|k: Seq<char>| #[trigger] m.contains_key(k) ==> exists|i: int| 0 <= i < v.len() && (#[trigger] v[i]).0@ == k
}

proof fn lemma_prefix_drop_last<A>(s: Seq<A>, i: int)
    requires
        0 <= i < s.len(),
    ensures
        s.subrange(0, i + 1).drop_last() == s.subrange(0, i),
        s.subrange(0, i + 1).last() == s[i],
{
    assert(s.subrange(0, i + 1).drop_last() =~= s.subrange(0, i));
}

impl Contract {
    /// The campaign exists, the maximum gas is attached, and its minimum
    /// (no minimum counts as never reached) has not been raised yet: then
    /// there is nothing to release.
    pub open spec fn spec_release_below_min(&self, ctx: CallContext, campaign_id: CampaignId) -> bool {
        &&& !(ctx.prepaid_gas < MAX_TGAS)
        &&& self.campaigns_by_id@.contains_key(campaign_id)
        &&& !(self.campaigns_by_id@[campaign_id].total_raised_amount >= unwrap_or(self.campaigns_by_id@[campaign_id].min_amount, u128::MAX))
    }

    /// Why releasing a batch of a campaign's escrow is refused, if it is
    /// (when its minimum has been raised).
    pub open spec fn spec_release_check(&self, ctx: CallContext, campaign_id: CampaignId) -> Result<(), CampaignError> {
        if ctx.prepaid_gas < MAX_TGAS {
            Err(CampaignError::NotEnoughGas)
        } else if !self.campaigns_by_id@.contains_key(campaign_id) {
            Err(CampaignError::CampaignNotFound)
        } else if !self.escrowed_donation_ids_by_campaign_id@.contains_key(campaign_id) || !self.unescrowed_donation_ids_by_campaign_id@.contains_key(campaign_id) {
            Err(CampaignError::CampaignNotFound)
        } else {
            let batch = spec_batch(self.escrowed_donation_ids_by_campaign_id@[campaign_id]@);
            let totals = spec_batch_totals(self.donations_by_id@, batch);
            if exists|j: int| 0 <= j < batch.len() && !self.donations_by_id@.contains_key(#[trigger] batch[j]) {
                Err(CampaignError::DonationNotFound)
            } else if totals.0 > u128::MAX || totals.1 > u128::MAX || totals.2 > u128::MAX
                || exists|k: Seq<char>| #[trigger] spec_referrer_totals(self.donations_by_id@, batch).contains_key(k) && spec_referrer_totals(self.donations_by_id@, batch)[k] > u128::MAX {
                Err(CampaignError::ArithmeticOverflow)
            } else {
                Ok(())
            }
        }
    }
}


/// Running sums only grow along the batch.
proof fn lemma_totals_mono(dm: Map<DonationId, Donation>, s: Seq<u64>, i: int, j: int)
    requires
        0 <= i <= j <= s.len(),
    ensures
        spec_batch_totals(dm, s.subrange(0, i)).0 <= spec_batch_totals(dm, s.subrange(0, j)).0,
        spec_batch_totals(dm, s.subrange(0, i)).1 <= spec_batch_totals(dm, s.subrange(0, j)).1,
        spec_batch_totals(dm, s.subrange(0, i)).2 <= spec_batch_totals(dm, s.subrange(0, j)).2,
    decreases j - i,
{
    if i < j {
        lemma_totals_mono(dm, s, i, j - 1);
        lemma_prefix_drop_last(s, j - 1);
    }
}

/// A referrer's running sum only grows along the batch.
proof fn lemma_referrer_mono(dm: Map<DonationId, Donation>, s: Seq<u64>, i: int, j: int, k: Seq<char>)
    requires
        0 <= i <= j <= s.len(),
        spec_referrer_totals(dm, s.subrange(0, i)).contains_key(k),
    ensures
        spec_referrer_totals(dm, s.subrange(0, j)).contains_key(k),
        spec_referrer_totals(dm, s.subrange(0, i))[k] <= spec_referrer_totals(dm, s.subrange(0, j))[k],
    decreases j - i,
{
    if i < j {
        lemma_referrer_mono(dm, s, i, j - 1, k);
        lemma_prefix_drop_last(s, j - 1);
    }
}

/// Position of account `k` among the entries of `v`, if any.
fn find_payout(v: &Vec<(String, u128)>, k: &String) -> (r: Option<usize>)
    ensures
        r is None <==> forall|i: int| 0 <= i < v@.len() ==> (#[trigger] v@[i]).0@ != k@,
        r matches Some(i) ==> i < v@.len() && v@[i as int].0@ == k@,
{
    let mut i: usize = 0;
    while i < v.len()
        invariant
            i <= v@.len(),
            forall|j: int| 0 <= j < i ==> (#[trigger] v@[j]).0@ != k@,
        decreases v@.len() - i,
    {
        if v[i].0 == *k {
            return Some(i);
        }
        i += 1;
    }
    None
}

/// Adds `amount` to the entry of `k` (or appends one); refused on overflow.
fn add_payout(v: &mut Vec<(String, u128)>, k: &String, amount: u128, m: Ghost<Map<Seq<char>, int>>) -> (ok: bool)
    requires
        spec_payouts_match(old(v)@, m@),
    ensures
        ok ==> spec_payouts_match(final(v)@, m@.insert(k@, (if m@.contains_key(k@) { m@[k@] } else { 0 }) + amount)),
        !ok ==> m@.contains_key(k@) && m@[k@] + amount > u128::MAX,
{
    match find_payout(v, k) {
        Some(i) => {
            let cur = v[i].1;
            if cur > u128::MAX - amount {
                return false;
            }
            let name = v[i].0.clone();
            let ghost before = v@;
            v.set(i, (name, cur + amount));
            let ghost m2 = m@.insert(k@, m@[k@] + amount);
            assert forall|a: int| 0 <= a < v@.len() implies m2.contains_key((#[trigger] v@[a]).0@) && m2[v@[a].0@] == v@[a].1 by {
                if a != i {
                    assert(v@[a] == before[a]);
                }
            }
            assert forall|key: Seq<char>| #[trigger] m2.contains_key(key) implies exists|a: int| 0 <= a < v@.len() && (#[trigger] v@[a]).0@ == key by {
                if key == k@ {
                    assert(v@[i as int].0@ == key);
                } else {
                    let a = choose|a: int| 0 <= a < before.len() && (#[trigger] before[a]).0@ == key;
                    assert(v@[a].0@ == key);
                }
            }
            assert forall|a: int, b: int| 0 <= a < b < v@.len() implies (#[trigger] v@[a]).0@ != (#[trigger] v@[b]).0@ by {
                assert(before[a].0@ != before[b].0@);
            }
            true
        },
        None => {
            let ghost before = v@;
            assert(!m@.contains_key(k@)) by {
                if m@.contains_key(k@) {
                    let a = choose|a: int| 0 <= a < before.len() && (#[trigger] before[a]).0@ == k@;
                }
            }
            v.push((k.clone(), amount));
            let ghost m2 = m@.insert(k@, 0 + amount);
            assert forall|a: int| 0 <= a < v@.len() implies m2.contains_key((#[trigger] v@[a]).0@) && m2[v@[a].0@] == v@[a].1 by {
                if a < before.len() {
                    assert(v@[a] == before[a]);
                }
            }
            assert forall|key: Seq<char>| #[trigger] m2.contains_key(key) implies exists|a: int| 0 <= a < v@.len() && (#[trigger] v@[a]).0@ == key by {
                if key == k@ {
                    assert(v@[before.len() as int].0@ == key);
                } else {
                    let a = choose|a: int| 0 <= a < before.len() && (#[trigger] before[a]).0@ == key;
                    assert(v@[a].0@ == key);
                }
            }
            assert forall|a: int, b: int| 0 <= a < b < v@.len() implies (#[trigger] v@[a]).0@ != (#[trigger] v@[b]).0@ by {
                if b < before.len() {
                    assert(before[a].0@ != before[b].0@);
                } else {
                    assert(v@[a] == before[a]);
                }
            }
            true
        },
    }
}

/// The first `BATCH_SIZE` IDs of `s`.
fn batch_of(s: &IdSet) -> (v: Vec<u64>)
    ensures
        v@ == spec_batch(s@),
{
    let n = if s.len() < BATCH_SIZE { s.len() } else { BATCH_SIZE };
    let mut v: Vec<u64> = Vec::new();
    let mut i: usize = 0;
    while i < n
        invariant
            i <= n <= s@.len(),
            n == (if s@.len() < BATCH_SIZE { s@.len() } else { BATCH_SIZE as nat }),
            v@ == s@.subrange(0, i as int),
        decreases n - i,
    {
        v.push(s.get(i));
        i += 1;
        assert(v@ =~= s@.subrange(0, i as int));
    }
    assert(v@ =~= spec_batch(s@));
    v
}

/// All batch IDs have a stored donation.
pub open spec fn spec_all_stored(dm: Map<DonationId, Donation>, ids: Seq<u64>) -> bool {
    forall|j: int| 0 <= j < ids.len() ==> dm.contains_key(#[trigger] ids[j])
}

/// Whether every ID of `ids` has a stored donation.
fn all_stored(dm: &IdMap<Donation>, ids: &Vec<u64>) -> (b: bool)
    requires
        dm.wf(),
    ensures
        b == spec_all_stored(dm@, ids@),
{
    let mut i: usize = 0;
    while i < ids.len()
        invariant
            dm.wf(),
            i <= ids@.len(),
            forall|j: int| 0 <= j < i ==> dm@.contains_key(#[trigger] ids@[j]),
        decreases ids@.len() - i,
    {
        if !dm.contains_key(ids[i]) {
            return false;
        }
        i += 1;
    }
    true
}

/// Moves the not-yet-returned donations of `batch` from the escrowed set of
/// campaign `cid` to its paid-out set.
fn release_batch(e: &mut IdMap<IdSet>, u: &mut IdMap<IdSet>, dm: &IdMap<Donation>, cid: CampaignId, batch: &Vec<u64>)
    requires
        old(e).wf(),
        id_sets_wf(old(e)@),
        old(u).wf(),
        id_sets_wf(old(u)@),
        dm.wf(),
        spec_all_stored(dm@, batch@),
        old(e)@.contains_key(cid),
        old(u)@.contains_key(cid),
    ensures
        final(e).wf(),
        id_sets_wf(final(e)@),
        final(u).wf(),
        id_sets_wf(final(u)@),
        final(e)@.dom() == old(e)@.dom(),
        final(u)@.dom() == old(u)@.dom(),
        forall|k: CampaignId| k != cid && #[trigger] old(e)@.contains_key(k) ==> final(e)@[k] == old(e)@[k],
        forall|k: CampaignId| k != cid && #[trigger] old(u)@.contains_key(k) ==> final(u)@[k] == old(u)@[k],
        final(e)@[cid]@ == spec_release(dm@, old(e)@[cid]@, old(u)@[cid]@, batch@).0,
        final(u)@[cid]@ == spec_release(dm@, old(e)@[cid]@, old(u)@[cid]@, batch@).1,
{
    let ghost e0 = *e;
    let ghost u0 = *u;
    let mut i: usize = 0;
    while i < batch.len()
        invariant
            e.wf(),
            id_sets_wf(e@),
            u.wf(),
            id_sets_wf(u@),
            dm.wf(),
            spec_all_stored(dm@, batch@),
            e0@.contains_key(cid),
            u0@.contains_key(cid),
            i <= batch@.len(),
            e@.dom() == e0@.dom(),
            u@.dom() == u0@.dom(),
            forall|k: CampaignId| k != cid && #[trigger] e0@.contains_key(k) ==> e@[k] == e0@[k],
            forall|k: CampaignId| k != cid && #[trigger] u0@.contains_key(k) ==> u@[k] == u0@[k],
            e@[cid]@ == spec_release(dm@, e0@[cid]@, u0@[cid]@, batch@.subrange(0, i as int)).0,
            u@[cid]@ == spec_release(dm@, e0@[cid]@, u0@[cid]@, batch@.subrange(0, i as int)).1,
        decreases batch@.len() - i,
    {
        let id = batch[i];
        proof {
            lemma_prefix_drop_last(batch@, i as int);
        }
        assert(dm@.contains_key(batch@[i as int]));
        let returned = match dm.get(id) {
            Some(d) => d.returned_at_ms.is_some(),
            None => true,
        };
        if !returned {
            id_sets_del(e, cid, id);
            id_sets_add(u, cid, id);
        }
        i += 1;
    }
    assert(batch@.subrange(0, batch@.len() as int) =~= batch@);
}

/// Everything but the escrowed and paid-out sets is the same in `a` and `b`.
pub open spec fn spec_same_but_escrow_sets(a: Contract, b: Contract) -> bool {
    &&& spec_same_config(a, b)
    &&& b.returned_donation_ids_by_campaign_id == a.returned_donation_ids_by_campaign_id
    &&& b.donation_ids_by_donor_id == a.donation_ids_by_donor_id
}

/// Configuration, campaigns and storage balances are the same in `a` and `b`.
pub open spec fn spec_same_config(a: Contract, b: Contract) -> bool {
    &&& b.owner == a.owner
    &&& b.admins == a.admins
    &&& b.protocol_fee_basis_points == a.protocol_fee_basis_points
    &&& b.protocol_fee_recipient_account == a.protocol_fee_recipient_account
    &&& b.default_referral_fee_basis_points == a.default_referral_fee_basis_points
    &&& b.default_creator_fee_basis_points == a.default_creator_fee_basis_points
    &&& b.next_campaign_id == a.next_campaign_id
    &&& b.campaigns_by_id == a.campaigns_by_id
    &&& b.campaign_ids_by_owner == a.campaign_ids_by_owner
    &&& b.campaign_ids_by_recipient == a.campaign_ids_by_recipient
    &&& b.next_donation_id == a.next_donation_id
    &&& b.storage_deposits == a.storage_deposits
}

impl Contract {
    /// Releases the next batch of a campaign's escrowed donations once its
    /// minimum has been raised: every donation of the batch that was not
    /// returned moves from escrowed to paid out, and (when the batch's net
    /// total is positive) the payout of that total to the campaign recipient
    /// is returned, with the fees that follow it. Anyone may call it, with the
    /// maximum gas attached. While the minimum has not been raised it returns
    /// `None` and changes nothing. Refused, with nothing changed, as
    /// `spec_release_check` says.
    #[verifier::loop_isolation(false)]
    pub fn process_escrowed_donations_batch(&mut self, ctx: &CallContext, campaign_id: CampaignId) -> (r: Result<
        Option<EscrowPayout>,
        CampaignError,
    >)
        requires
            old(self).wf(),
        ensures
            final(self).wf(),
            r is Err ==> *final(self) == *old(self),
            old(self).spec_release_below_min(*ctx, campaign_id)
                ==> r == Ok::<Option<EscrowPayout>, CampaignError>(None) && *final(self) == *old(self),
            !old(self).spec_release_below_min(*ctx, campaign_id) ==> (
                (r is Err && old(self).spec_release_check(*ctx, campaign_id) is Err) || (r is Ok && old(self).spec_release_check(*ctx, campaign_id) is Ok)),
            r matches Err(err) ==> old(self).spec_release_check(*ctx, campaign_id) == Err::<(), CampaignError>(err),
            r is Ok && !old(self).spec_release_below_min(*ctx, campaign_id) ==> {
                let dm = old(self).donations_by_id@;
                let e0 = old(self).escrowed_donation_ids_by_campaign_id@;
                let u0 = old(self).unescrowed_donation_ids_by_campaign_id@;
                let e1 = final(self).escrowed_donation_ids_by_campaign_id@;
                let u1 = final(self).unescrowed_donation_ids_by_campaign_id@;
                let batch = spec_batch(e0[campaign_id]@);
                let totals = spec_batch_totals(dm, batch);
                let c = old(self).campaigns_by_id@[campaign_id];
                &&& spec_same_but_escrow_sets(*old(self), *final(self))
                &&& final(self).donations_by_id == old(self).donations_by_id
                &&& e1.dom() == e0.dom() && u1.dom() == u0.dom()
                &&& forall|k: CampaignId| k != campaign_id && #[trigger] e0.contains_key(k) ==> e1[k] == e0[k]
                &&& forall|k: CampaignId| k != campaign_id && #[trigger] u0.contains_key(k) ==> u1[k] == u0[k]
                &&& e1[campaign_id]@ == spec_release(dm, e0[campaign_id]@, u0[campaign_id]@, batch).0
                &&& u1[campaign_id]@ == spec_release(dm, e0[campaign_id]@, u0[campaign_id]@, batch).1
                &&& (r->Ok_0 is Some <==> totals.0 > 0)
                &&& r->Ok_0 matches Some(p) ==> {
                    &&& p.transfer.amount == totals.0
                    &&& p.transfer.amount == spec_sum_net(spec_pending_donations(dm, batch))
                    &&& p.protocol_fee == spec_sum_protocol(spec_pending_donations(dm, batch))
                    &&& p.creator_fee == spec_sum_creator(spec_pending_donations(dm, batch))
                    &&& p.transfer.receiver@ == c.recipient@
                    &&& p.transfer.ft_id == c.ft_id
                    &&& p.campaign_id == campaign_id
                    &&& p.donation_ids@ == batch
                    &&& p.protocol_fee == totals.1
                    &&& p.creator_fee == totals.2
                    &&& spec_payouts_match(p.referrer_payouts@, spec_referrer_totals(dm, batch))
                }
            },
    {
        if ctx.prepaid_gas < MAX_TGAS {
            return Err(CampaignError::NotEnoughGas);
        }
        let campaign = match self.campaigns_by_id.get(campaign_id) {
            None => return Err(CampaignError::CampaignNotFound),
            Some(c) => c.copy(),
        };
        let min = match campaign.min_amount {
            Some(m) => m,
            None => u128::MAX,
        };
        if !(campaign.total_raised_amount >= min) {
            return Ok(None);
        }
        let batch = match self.escrowed_donation_ids_by_campaign_id.get(campaign_id) {
            None => return Err(CampaignError::CampaignNotFound),
            Some(s) => batch_of(s),
        };
        if !self.unescrowed_donation_ids_by_campaign_id.contains_key(campaign_id) {
            return Err(CampaignError::CampaignNotFound);
        }
        if !all_stored(&self.donations_by_id, &batch) {
            return Err(CampaignError::DonationNotFound);
        }
        let ghost dm = self.donations_by_id@;
        proof {
            lemma_release_pays_net_amounts(dm, batch@);
        }
        let mut recipient_total: u128 = 0;
        let mut protocol_fee_total: u128 = 0;
        let mut creator_fee_total: u128 = 0;
        let mut referrer_payouts: Vec<(String, u128)> = Vec::new();
        let mut i: usize = 0;
        while i < batch.len()
            invariant
                self.donations_by_id.wf(),
                dm == self.donations_by_id@,
                spec_all_stored(dm, batch@),
                i <= batch@.len(),
                (recipient_total as int, protocol_fee_total as int, creator_fee_total as int)
                    == spec_batch_totals(dm, batch@.subrange(0, i as int)),
                spec_payouts_match(referrer_payouts@, spec_referrer_totals(dm, batch@.subrange(0, i as int))),
            decreases batch@.len() - i,
        {
            proof {
                lemma_prefix_drop_last(batch@, i as int);
            }
            assert(dm.contains_key(batch@[i as int]));
            let d = match self.donations_by_id.get(batch[i]) {
                Some(d) => d,
                None => return Err(CampaignError::DonationNotFound),
            };
            if d.returned_at_ms.is_none() {
                let ghost full = spec_batch_totals(dm, batch@);
                if recipient_total > u128::MAX - d.net_amount || protocol_fee_total > u128::MAX - d.protocol_fee
                    || creator_fee_total > u128::MAX - d.creator_fee {
                    proof {
                        lemma_totals_mono(dm, batch@, i + 1, batch@.len() as int);
                        assert(batch@.subrange(0, batch@.len() as int) =~= batch@);
                    }
                    return Err(CampaignError::ArithmeticOverflow);
                }
                recipient_total = recipient_total + d.net_amount;
                protocol_fee_total = protocol_fee_total + d.protocol_fee;
                creator_fee_total = creator_fee_total + d.creator_fee;
                match &d.referrer_id {
                    Some(referrer) => {
                        let fee = match d.referrer_fee {
                            Some(f) => f,
                            None => 0,
                        };
                        let ghost m = spec_referrer_totals(dm, batch@.subrange(0, i as int));
                        if !add_payout(&mut referrer_payouts, referrer, fee, Ghost(m)) {
                            proof {
                                let k = referrer@;
                                lemma_referrer_mono(dm, batch@, i + 1, batch@.len() as int, k);
                                assert(batch@.subrange(0, batch@.len() as int) =~= batch@);
                            }
                            return Err(CampaignError::ArithmeticOverflow);
                        }
                    },
                    None => {},
                }
            }
            i += 1;
        }
        assert(batch@.subrange(0, batch@.len() as int) =~= batch@);
        proof {
            let m = spec_referrer_totals(dm, batch@);
            assert forall|k: Seq<char>| #[trigger] m.contains_key(k) implies m[k] <= u128::MAX by {
                let a = choose|a: int| 0 <= a < referrer_payouts@.len() && (#[trigger] referrer_payouts@[a]).0@ == k;
            }
        }
        release_batch(
            &mut self.escrowed_donation_ids_by_campaign_id,
            &mut self.unescrowed_donation_ids_by_campaign_id,
            &self.donations_by_id,
            campaign_id,
            &batch,
        );
        if recipient_total > 0 {
            Ok(Some(EscrowPayout {
                transfer: Transfer {
                    receiver: campaign.recipient.clone(),
                    amount: recipient_total,
                    ft_id: clone_opt_string(&campaign.ft_id),
                },
                campaign_id,
                donation_ids: batch,
                protocol_fee: protocol_fee_total,
                creator_fee: creator_fee_total,
                referrer_payouts,
            }))
        } else {
            Ok(None)
        }
    }
}

/// Donations after the release of `ids` is undone: each is marked as not returned.
pub open spec fn spec_unreturn(dm: Map<DonationId, Donation>, ids: Seq<u64>) -> Map<DonationId, Donation>
    decreases ids.len(),
{
    if ids.len() == 0 {
        dm
    } else {
        let prev = spec_unreturn(dm, ids.drop_last());
        let id = ids.last();
        prev.insert(id, Donation { returned_at_ms: None, ..prev[id] })
    }
}

/// Escrow sets (escrowed, paid out) after the donations `ids` go back into escrow.
pub open spec fn spec_reescrow(e: Seq<u64>, u: Seq<u64>, ids: Seq<u64>) -> (Seq<u64>, Seq<u64>)
    decreases ids.len(),
{
    if ids.len() == 0 {
        (e, u)
    } else {
        let prev = spec_reescrow(e, u, ids.drop_last());
        (set_add(prev.0, ids.last()), set_del(prev.1, ids.last()))
    }
}

/// A donation with the fee paid to `receiver_type` set to zero.
pub open spec fn spec_fee_zeroed(d: Donation, receiver_type: FundsReceiver) -> Donation {
    match receiver_type {
        FundsReceiver::Protocol => Donation { protocol_fee: 0, ..d },
        FundsReceiver::Referrer => Donation { referrer_fee: Some(0), ..d },
        FundsReceiver::Creator => Donation { creator_fee: 0, ..d },
        FundsReceiver::Recipient => d,
    }
}

/// Donations after the fee paid to `receiver_type` is zeroed on each of `ids`.
pub open spec fn spec_zero_fees(dm: Map<DonationId, Donation>, ids: Seq<u64>, receiver_type: FundsReceiver) -> Map<DonationId, Donation>
    decreases ids.len(),
{
    if ids.len() == 0 {
        dm
    } else {
        let prev = spec_zero_fees(dm, ids.drop_last(), receiver_type);
        let id = ids.last();
        prev.insert(id, spec_fee_zeroed(prev[id], receiver_type))
    }
}

/// The fee transfers that follow a successful release, as (receiver, amount,
/// kind): the protocol fee, then the creator fee (each when positive), then
/// each referrer payout.
pub open spec fn spec_fee_payouts(
    protocol_fee: u128,
    creator_fee: u128,
    protocol_account: Seq<char>,
    owner: Seq<char>,
    referrers: Seq<(String, u128)>,
) -> Seq<(Seq<char>, u128, FundsReceiver)> {
    let p = if protocol_fee > 0 { seq![(protocol_account, protocol_fee, FundsReceiver::Protocol)] } else { Seq::empty() };
    let c = if creator_fee > 0 { seq![(owner, creator_fee, FundsReceiver::Creator)] } else { Seq::empty() };
    p + c + referrers.map_values(|r: (String, u128)| (r.0@, r.1, FundsReceiver::Referrer))
}

/// What a fee payout sends, as (receiver, amount, kind).
pub open spec fn spec_fee_payout_view(p: FeePayout) -> (Seq<char>, u128, FundsReceiver) {
    (p.transfer.receiver@, p.transfer.amount, p.receiver_type)
}

/// Puts the donations `ids` back into campaign `cid`'s escrow, marked as not returned.
fn reescrow_batch(e: &mut IdMap<IdSet>, u: &mut IdMap<IdSet>, dm: &mut IdMap<Donation>, cid: CampaignId, ids: &Vec<u64>)
    requires
        old(e).wf(),
        id_sets_wf(old(e)@),
        old(u).wf(),
        id_sets_wf(old(u)@),
        old(dm).wf(),
        spec_all_stored(old(dm)@, ids@),
        old(e)@.contains_key(cid),
        old(u)@.contains_key(cid),
    ensures
        final(e).wf(),
        id_sets_wf(final(e)@),
        final(u).wf(),
        id_sets_wf(final(u)@),
        final(dm).wf(),
        final(dm)@ == spec_unreturn(old(dm)@, ids@),
        final(e)@.dom() == old(e)@.dom(),
        final(u)@.dom() == old(u)@.dom(),
        forall|k: CampaignId| k != cid && #[trigger] old(e)@.contains_key(k) ==> final(e)@[k] == old(e)@[k],
        forall|k: CampaignId| k != cid && #[trigger] old(u)@.contains_key(k) ==> final(u)@[k] == old(u)@[k],
        final(e)@[cid]@ == spec_reescrow(old(e)@[cid]@, old(u)@[cid]@, ids@).0,
        final(u)@[cid]@ == spec_reescrow(old(e)@[cid]@, old(u)@[cid]@, ids@).1,
{
    let ghost e0 = *e;
    let ghost u0 = *u;
    let ghost dm0 = *dm;
    let mut i: usize = 0;
    while i < ids.len()
        invariant
            e.wf(),
            id_sets_wf(e@),
            u.wf(),
            id_sets_wf(u@),
            dm.wf(),
            spec_all_stored(dm0@, ids@),
            e0@.contains_key(cid),
            u0@.contains_key(cid),
            i <= ids@.len(),
            dm@ == spec_unreturn(dm0@, ids@.subrange(0, i as int)),
            dm@.dom() == dm0@.dom(),
            e@.dom() == e0@.dom(),
            u@.dom() == u0@.dom(),
            forall|k: CampaignId| k != cid && #[trigger] e0@.contains_key(k) ==> e@[k] == e0@[k],
            forall|k: CampaignId| k != cid && #[trigger] u0@.contains_key(k) ==> u@[k] == u0@[k],
            e@[cid]@ == spec_reescrow(e0@[cid]@, u0@[cid]@, ids@.subrange(0, i as int)).0,
            u@[cid]@ == spec_reescrow(e0@[cid]@, u0@[cid]@, ids@.subrange(0, i as int)).1,
        decreases ids@.len() - i,
    {
        let id = ids[i];
        proof {
            lemma_prefix_drop_last(ids@, i as int);
        }
        assert(dm0@.contains_key(ids@[i as int]));
        id_sets_add(e, cid, id);
        id_sets_del(u, cid, id);
        let d = match dm.get(id) {
            Some(d) => d.copy(),
            None => {
                i += 1;
                continue;
            },
        };
        dm.insert(id, Donation { returned_at_ms: None, ..d });
        i += 1;
        assert(dm@.dom() =~= dm0@.dom());
    }
    assert(ids@.subrange(0, ids@.len() as int) =~= ids@);
}

/// Zeroes the fee paid to `receiver_type` on each of the donations `ids`.
fn zero_fees(dm: &mut IdMap<Donation>, ids: &Vec<u64>, receiver_type: FundsReceiver)
    requires
        old(dm).wf(),
        spec_all_stored(old(dm)@, ids@),
    ensures
        final(dm).wf(),
        final(dm)@ == spec_zero_fees(old(dm)@, ids@, receiver_type),
{
    let ghost dm0 = *dm;
    let mut i: usize = 0;
    while i < ids.len()
        invariant
            dm.wf(),
            spec_all_stored(dm0@, ids@),
            i <= ids@.len(),
            dm@ == spec_zero_fees(dm0@, ids@.subrange(0, i as int), receiver_type),
            dm@.dom() == dm0@.dom(),
        decreases ids@.len() - i,
    {
        let id = ids[i];
        proof {
            lemma_prefix_drop_last(ids@, i as int);
        }
        assert(dm0@.contains_key(ids@[i as int]));
        let d = match dm.get(id) {
            Some(d) => d.copy(),
            None => {
                i += 1;
                continue;
            },
        };
        let z = match receiver_type {
            FundsReceiver::Protocol => Donation { protocol_fee: 0, ..d },
            FundsReceiver::Referrer => Donation { referrer_fee: Some(0), ..d },
            FundsReceiver::Creator => Donation { creator_fee: 0, ..d },
            FundsReceiver::Recipient => d,
        };
        dm.insert(id, z);
        i += 1;
        assert(dm@.dom() =~= dm0@.dom());
    }
    assert(ids@.subrange(0, ids@.len() as int) =~= ids@);
}

impl Contract {
    /// Outcome of the payout of a released batch to the campaign recipient.
    /// If it failed, the batch goes back into escrow (each donation marked as
    /// not returned) and no fee is paid; refused, with nothing changed, when
    /// the campaign's escrow sets or a donation of the batch are missing. If it
    /// succeeded, the fee transfers of `spec_fee_payouts` are returned (the
    /// creator fee to the campaign owner), in the campaign's token; refused
    /// when the campaign is missing. Nothing is stored on success.
    #[verifier::loop_isolation(false)]
    pub fn escrowed_donations_recipient_transfer_callback(
        &mut self,
        amount: u128,
        recipient: String,
        campaign_id: CampaignId,
        donation_ids: Vec<DonationId>,
        protocol_fee: u128,
        creator_fee: u128,
        referrer_payouts: Vec<(String, u128)>,
        succeeded: bool,
    ) -> (r: Result<Vec<FeePayout>, CampaignError>)
        requires
            old(self).wf(),
        ensures
            final(self).wf(),
            r is Err ==> *final(self) == *old(self),
            !succeeded ==> {
                let e0 = old(self).escrowed_donation_ids_by_campaign_id@;
                let u0 = old(self).unescrowed_donation_ids_by_campaign_id@;
                let e1 = final(self).escrowed_donation_ids_by_campaign_id@;
                let u1 = final(self).unescrowed_donation_ids_by_campaign_id@;
                &&& (r is Ok <==> (e0.contains_key(campaign_id) && u0.contains_key(campaign_id)
                    && spec_all_stored(old(self).donations_by_id@, donation_ids@)))
                &&& r matches Err(err) ==> err == (if !e0.contains_key(campaign_id) || !u0.contains_key(campaign_id) {
                    CampaignError::CampaignNotFound
                } else {
                    CampaignError::DonationNotFound
                })
                &&& r is Ok ==> {
                    &&& r->Ok_0@.len() == 0
                    &&& final(self).donations_by_id@ == spec_unreturn(old(self).donations_by_id@, donation_ids@)
                    &&& e1.dom() == e0.dom() && u1.dom() == u0.dom()
                    &&& forall|k: CampaignId| k != campaign_id && #[trigger] e0.contains_key(k) ==> e1[k] == e0[k]
                    &&& forall|k: CampaignId| k != campaign_id && #[trigger] u0.contains_key(k) ==> u1[k] == u0[k]
                    &&& e1[campaign_id]@ == spec_reescrow(e0[campaign_id]@, u0[campaign_id]@, donation_ids@).0
                    &&& u1[campaign_id]@ == spec_reescrow(e0[campaign_id]@, u0[campaign_id]@, donation_ids@).1
                    &&& spec_same_but_escrow_sets(*old(self), *final(self))
                }
            },
            succeeded ==> {
                &&& *final(self) == *old(self)
                &&& (r is Ok <==> old(self).campaigns_by_id@.contains_key(campaign_id))
                &&& r matches Err(err) ==> err == CampaignError::CampaignNotFound
                &&& r matches Ok(payouts) ==> {
                    let c = old(self).campaigns_by_id@[campaign_id];
                    let expected = spec_fee_payouts(protocol_fee, creator_fee, old(self).protocol_fee_recipient_account@, c.owner@, referrer_payouts@);
                    &&& payouts@.len() == expected.len()
                    &&& forall|i: int| 0 <= i < payouts@.len() ==> {
                        &&& spec_fee_payout_view(#[trigger] payouts@[i]) == expected[i]
                        &&& payouts@[i].transfer.ft_id == c.ft_id
                        &&& payouts@[i].campaign_id == campaign_id
                        &&& payouts@[i].donation_ids@ == donation_ids@
                    }
                }
            },
    {
        if !succeeded {
            if !self.escrowed_donation_ids_by_campaign_id.contains_key(campaign_id)
                || !self.unescrowed_donation_ids_by_campaign_id.contains_key(campaign_id) {
                return Err(CampaignError::CampaignNotFound);
            }
            if !all_stored(&self.donations_by_id, &donation_ids) {
                return Err(CampaignError::DonationNotFound);
            }
            reescrow_batch(
                &mut self.escrowed_donation_ids_by_campaign_id,
                &mut self.unescrowed_donation_ids_by_campaign_id,
                &mut self.donations_by_id,
                campaign_id,
                &donation_ids,
            );
            return Ok(Vec::new());
        }
        let campaign = match self.campaigns_by_id.get(campaign_id) {
            None => return Err(CampaignError::CampaignNotFound),
            Some(c) => c.copy(),
        };
        let ghost expected = spec_fee_payouts(protocol_fee, creator_fee, self.protocol_fee_recipient_account@, campaign.owner@, referrer_payouts@);
        let mut payouts: Vec<FeePayout> = Vec::new();
        if protocol_fee > 0 {
            payouts.push(FeePayout {
                transfer: Transfer {
                    receiver: self.protocol_fee_recipient_account.clone(),
                    amount: protocol_fee,
                    ft_id: clone_opt_string(&campaign.ft_id),
                },
                receiver_type: FundsReceiver::Protocol,
                campaign_id,
                donation_ids: copy_ids(&donation_ids),
            });
        }
        if creator_fee > 0 {
            payouts.push(FeePayout {
                transfer: Transfer {
                    receiver: campaign.owner.clone(),
                    amount: creator_fee,
                    ft_id: clone_opt_string(&campaign.ft_id),
                },
                receiver_type: FundsReceiver::Creator,
                campaign_id,
                donation_ids: copy_ids(&donation_ids),
            });
        }
        let n0 = payouts.len();
        assert(n0 == expected.len() - referrer_payouts@.len());
        let mut i: usize = 0;
        while i < referrer_payouts.len()
            invariant
                i <= referrer_payouts@.len(),
                payouts@.len() == n0 + i,
                forall|j: int| 0 <= j < payouts@.len() ==> {
                    &&& spec_fee_payout_view(#[trigger] payouts@[j]) == expected[j]
                    &&& payouts@[j].transfer.ft_id == campaign.ft_id
                    &&& payouts@[j].campaign_id == campaign_id
                    &&& payouts@[j].donation_ids@ == donation_ids@
                },
            decreases referrer_payouts@.len() - i,
        {
            let (who, amount) = (referrer_payouts[i].0.clone(), referrer_payouts[i].1);
            payouts.push(FeePayout {
                transfer: Transfer { receiver: who, amount, ft_id: clone_opt_string(&campaign.ft_id) },
                receiver_type: FundsReceiver::Referrer,
                campaign_id,
                donation_ids: copy_ids(&donation_ids),
            });
            i += 1;
        }
        Ok(payouts)
    }

    /// Outcome of one fee transfer after a release. If it failed, the fee of
    /// that kind is zeroed on each donation of the batch (refused, with
    /// nothing changed, when one of them is missing); if it succeeded, nothing
    /// changes.
    pub fn escrowed_donations_fee_transfer_callback(
        &mut self,
        amount: u128,
        recipient: String,
        campaign_id: CampaignId,
        donation_ids: Vec<DonationId>,
        receiver_type: FundsReceiver,
        succeeded: bool,
    ) -> (r: Result<(), CampaignError>)
        requires
            old(self).wf(),
        ensures
            final(self).wf(),
            succeeded ==> r is Ok && *final(self) == *old(self),
            !succeeded ==> (r is Ok <==> spec_all_stored(old(self).donations_by_id@, donation_ids@)),
            r matches Err(err) ==> err == CampaignError::DonationNotFound && *final(self) == *old(self),
            !succeeded && r is Ok ==> {
                &&& final(self).donations_by_id@ == spec_zero_fees(old(self).donations_by_id@, donation_ids@, receiver_type)
                &&& spec_same_but_escrow_sets(*old(self), *final(self))
                &&& final(self).escrowed_donation_ids_by_campaign_id == old(self).escrowed_donation_ids_by_campaign_id
                &&& final(self).unescrowed_donation_ids_by_campaign_id == old(self).unescrowed_donation_ids_by_campaign_id
            },
    {
        if succeeded {
            return Ok(());
        }
        if !all_stored(&self.donations_by_id, &donation_ids) {
            return Err(CampaignError::DonationNotFound);
        }
        zero_fees(&mut self.donations_by_id, &donation_ids, receiver_type);
        Ok(())
    }
}

/// A donation marked as returned at `now`.
pub open spec fn spec_marked(d: Donation, now: u64) -> Donation {
    Donation { returned_at_ms: Some(now), ..d }
}

/// The donations of `batch` that a refund covers (those not returned yet),
/// marked as returned at `now`, in batch order.
pub open spec fn spec_refund_todo(dm: Map<DonationId, Donation>, batch: Seq<u64>, now: u64) -> Seq<Donation>
    decreases batch.len(),
{
    if batch.len() == 0 {
        Seq::empty()
    } else {
        let prev = spec_refund_todo(dm, batch.drop_last(), now);
        let d = dm[batch.last()];
        if d.returned_at_ms is None {
            prev.push(spec_marked(d, now))
        } else {
            prev
        }
    }
}

/// What is refunded of a donation: its total less the cost of the storage
/// its record takes (`costs`, by donation ID; nothing when the storage costs more).
pub open spec fn spec_refund_amount(d: Donation, costs: Map<u64, u128>) -> int {
    if d.total_amount >= costs[d.id] { d.total_amount - costs[d.id] } else { 0 }
}

/// Per donor, the (refund, escrow balance) totals over `todo`.
pub open spec fn spec_refund_totals(todo: Seq<Donation>, costs: Map<u64, u128>) -> Map<Seq<char>, (int, int)>
    decreases todo.len(),
{
    if todo.len() == 0 {
        Map::empty()
    } else {
        let prev = spec_refund_totals(todo.drop_last(), costs);
        let d = todo.last();
        let k = d.donor_id@;
        let so_far = if prev.contains_key(k) { prev[k] } else { (0int, 0int) };
        prev.insert(k, (so_far.0 + spec_refund_amount(d, costs), so_far.1 + d.net_amount))
    }
}

/// The donations of `todo` that go back to donor `k`, in order.
pub open spec fn spec_donor_refunds(todo: Seq<Donation>, k: Seq<char>) -> Seq<Donation>
    decreases todo.len(),
{
    if todo.len() == 0 {
        Seq::empty()
    } else {
        let prev = spec_donor_refunds(todo.drop_last(), k);
        if todo.last().donor_id@ == k { prev.push(todo.last()) } else { prev }
    }
}

/// Donation records after each of `todo` is stored.
pub open spec fn spec_store_all(dm: Map<DonationId, Donation>, todo: Seq<Donation>) -> Map<DonationId, Donation>
    decreases todo.len(),
{
    if todo.len() == 0 {
        dm
    } else {
        spec_store_all(dm, todo.drop_last()).insert(todo.last().id, todo.last())
    }
}

/// Campaign `cid`'s ID set after each of its donations in `todo` is taken
/// out and put back at its end.
pub open spec fn spec_requeue(s: Seq<u64>, todo: Seq<Donation>, cid: CampaignId) -> Seq<u64>
    decreases todo.len(),
{
    if todo.len() == 0 {
        s
    } else {
        let prev = spec_requeue(s, todo.drop_last(), cid);
        let d = todo.last();
        if d.campaign_id == cid { set_add(set_del(prev, d.id), d.id) } else { prev }
    }
}

/// Campaign `cid`'s ID set after each of its donations in `todo` is taken
/// out (`twice` when both the removal and the re-insertion of the record
/// take it out).
pub open spec fn spec_drop_ids(s: Seq<u64>, todo: Seq<Donation>, cid: CampaignId, twice: bool) -> Seq<u64>
    decreases todo.len(),
{
    if todo.len() == 0 {
        s
    } else {
        let prev = spec_drop_ids(s, todo.drop_last(), cid, twice);
        let d = todo.last();
        if d.campaign_id == cid {
            let once = set_del(prev, d.id);
            if twice { set_del(once, d.id) } else { once }
        } else {
            prev
        }
    }
}

/// Donor `k`'s ID set after each of its donations in `todo` is taken out and put back.
pub open spec fn spec_requeue_donor(s: Seq<u64>, todo: Seq<Donation>, k: Seq<char>) -> Seq<u64>
    decreases todo.len(),
{
    if todo.len() == 0 {
        s
    } else {
        let prev = spec_requeue_donor(s, todo.drop_last(), k);
        let d = todo.last();
        if d.donor_id@ == k { set_add(set_del(prev, d.id), d.id) } else { prev }
    }
}

/// A refund of one donor's donations in a batch, with the record that its
/// outcome is reported with through `transfer_refund_callback`.
pub struct RefundPayout {
    pub transfer: Transfer,
    pub donor_id: String,
    pub record: TempRefundRecord,
}

/// The refunds of `v` go to distinct donors and are exactly those of `todo`.
pub open spec fn spec_refunds_match(v: Seq<RefundPayout>, todo: Seq<Donation>, costs: Map<u64, u128>, ft_id: Option<String>) -> bool {
    let m = spec_refund_totals(todo, costs);
    &&& forall|i: int, j: int| 0 <= i < j < v.len() ==> (#[trigger] v[i]).donor_id@ != (#[trigger] v[j]).donor_id@
    &&& forall|i: int| 0 <= i < v.len() ==> {
        let p = #[trigger] v[i];
        &&& m.contains_key(p.donor_id@)
        &&& p.record.amount == m[p.donor_id@].0
        &&& p.record.escrow_balance == m[p.donor_id@].1
        &&& p.record.donations@ == spec_donor_refunds(todo, p.donor_id@)
        &&& p.transfer.receiver@ == p.donor_id@
        &&& p.transfer.amount == p.record.amount
        &&& p.transfer.ft_id == ft_id
    }
    &&& forall|k: Seq<char>| #[trigger] m.contains_key(k) ==> exists|i: int| 0 <= i < v.len() && (#[trigger] v[i]).donor_id@ == k
}

/// A copy of a list of donations.
fn copy_donations(v: &Vec<Donation>) -> (r: Vec<Donation>)
    ensures
        r@ == v@,
{
    let mut r: Vec<Donation> = Vec::new();
    let mut i: usize = 0;
    while i < v.len()
        invariant
            i <= v@.len(),
            r@ == v@.subrange(0, i as int),
        decreases v@.len() - i,
    {
        r.push(v[i].copy());
        i += 1;
        assert(r@ =~= v@.subrange(0, i as int));
    }
    assert(r@ =~= v@);
    r
}

/// The donations of `batch` that a refund covers, marked as returned at `now`.
fn collect_todo(dm: &IdMap<Donation>, batch: &Vec<u64>, now: u64) -> (r: Vec<Donation>)
    requires
        dm.wf(),
        spec_all_stored(dm@, batch@),
    ensures
        r@ == spec_refund_todo(dm@, batch@, now),
{
    let mut r: Vec<Donation> = Vec::new();
    let mut i: usize = 0;
    while i < batch.len()
        invariant
            dm.wf(),
            spec_all_stored(dm@, batch@),
            i <= batch@.len(),
            r@ == spec_refund_todo(dm@, batch@.subrange(0, i as int), now),
        decreases batch@.len() - i,
    {
        proof {
            lemma_prefix_drop_last(batch@, i as int);
        }
        assert(dm@.contains_key(batch@[i as int]));
        match dm.get(batch[i]) {
            Some(d) => {
                if d.returned_at_ms.is_none() {
                    r.push(Donation { returned_at_ms: Some(now), ..d.copy() });
                }
            },
            None => {},
        }
        i += 1;
    }
    assert(batch@.subrange(0, batch@.len() as int) =~= batch@);
    r
}

/// A donor's refund totals only grow along `todo`.
proof fn lemma_refund_totals_mono(todo: Seq<Donation>, cost: Map<u64, u128>, i: int, j: int, k: Seq<char>)
    requires
        0 <= i <= j <= todo.len(),
        spec_refund_totals(todo.subrange(0, i), cost).contains_key(k),
    ensures
        spec_refund_totals(todo.subrange(0, j), cost).contains_key(k),
        spec_refund_totals(todo.subrange(0, i), cost)[k].0 <= spec_refund_totals(todo.subrange(0, j), cost)[k].0,
        spec_refund_totals(todo.subrange(0, i), cost)[k].1 <= spec_refund_totals(todo.subrange(0, j), cost)[k].1,
    decreases j - i,
{
    if i < j {
        lemma_refund_totals_mono(todo, cost, i, j - 1, k);
        lemma_prefix_drop_last(todo, j - 1);
    }
}

/// Position of donor `k` among the refunds of `v`, if any.
fn find_refund(v: &Vec<RefundPayout>, k: &String) -> (r: Option<usize>)
    ensures
        r is None <==> forall|i: int| 0 <= i < v@.len() ==> (#[trigger] v@[i]).donor_id@ != k@,
        r matches Some(i) ==> i < v@.len() && v@[i as int].donor_id@ == k@,
{
    let mut i: usize = 0;
    while i < v.len()
        invariant
            i <= v@.len(),
            forall|j: int| 0 <= j < i ==> (#[trigger] v@[j]).donor_id@ != k@,
        decreases v@.len() - i,
    {
        if v[i].donor_id == *k {
            return Some(i);
        }
        i += 1;
    }
    None
}

/// Adds donation `d` to the refund of its donor (or starts one); refused on overflow.
fn add_refund(v: &mut Vec<RefundPayout>, d: &Donation, storage_cost: u128, costs: Ghost<Map<u64, u128>>, ft_id: &Option<String>, todo: Ghost<Seq<Donation>>) -> (ok: bool)
    requires
        storage_cost == costs@[d.id],
        spec_refunds_match(old(v)@, todo@, costs@, *ft_id),
        d.total_amount >= storage_cost,
    ensures
        ok ==> spec_refunds_match(final(v)@, todo@.push(*d), costs@, *ft_id),
        !ok ==> ({
            let m = spec_refund_totals(todo@.push(*d), costs@);
            m[d.donor_id@].0 > u128::MAX || m[d.donor_id@].1 > u128::MAX
        }),
{
    let ghost t2 = todo@.push(*d);
    let ghost m = spec_refund_totals(todo@, costs@);
    let ghost m2 = spec_refund_totals(t2, costs@);
    let ghost k = d.donor_id@;
    proof {
        assert(t2.drop_last() =~= todo@);
        assert forall|k2: Seq<char>| k2 != k implies spec_donor_refunds(t2, k2) == spec_donor_refunds(todo@, k2) by {
            assert(t2.drop_last() =~= todo@);
        }
        assert(spec_donor_refunds(t2, k) == spec_donor_refunds(todo@, k).push(*d));
    }
    let refund = d.total_amount - storage_cost;
    let ghost before = v@;
    match find_refund(v, &d.donor_id) {
        Some(i) => {
            let cur_amount = v[i].record.amount;
            let cur_escrow = v[i].record.escrow_balance;
            if cur_amount > u128::MAX - refund || cur_escrow > u128::MAX - d.net_amount {
                return false;
            }
            let mut donations = copy_donations(&v[i].record.donations);
            donations.push(d.copy());
            let entry = RefundPayout {
                transfer: Transfer { receiver: d.donor_id.clone(), amount: cur_amount + refund, ft_id: clone_opt_string(ft_id) },
                donor_id: d.donor_id.clone(),
                record: TempRefundRecord { amount: cur_amount + refund, escrow_balance: cur_escrow + d.net_amount, donations },
            };
            v.set(i, entry);
            assert forall|a: int| 0 <= a < v@.len() implies ({
                let p = #[trigger] v@[a];
                &&& m2.contains_key(p.donor_id@)
                &&& p.record.amount == m2[p.donor_id@].0
                &&& p.record.escrow_balance == m2[p.donor_id@].1
                &&& p.record.donations@ == spec_donor_refunds(t2, p.donor_id@)
                &&& p.transfer.receiver@ == p.donor_id@
                &&& p.transfer.amount == p.record.amount
                &&& p.transfer.ft_id == *ft_id
            }) by {
                if a != i {
                    assert(v@[a] == before[a]);
                    assert(before[a].donor_id@ != before[i as int].donor_id@);
                }
            }
            assert forall|key: Seq<char>| #[trigger] m2.contains_key(key) implies exists|a: int| 0 <= a < v@.len() && (#[trigger] v@[a]).donor_id@ == key by {
                if key == k {
                    assert(v@[i as int].donor_id@ == key);
                } else {
                    let a = choose|a: int| 0 <= a < before.len() && (#[trigger] before[a]).donor_id@ == key;
                    assert(v@[a].donor_id@ == key);
                }
            }
            assert forall|a: int, b: int| 0 <= a < b < v@.len() implies (#[trigger] v@[a]).donor_id@ != (#[trigger] v@[b]).donor_id@ by {
                assert(before[a].donor_id@ != before[b].donor_id@);
            }
            true
        },
        None => {
            assert(!m.contains_key(k)) by {
                if m.contains_key(k) {
                    let a = choose|a: int| 0 <= a < before.len() && (#[trigger] before[a]).donor_id@ == k;
                }
            }
            assert(spec_donor_refunds(todo@, k) =~= Seq::<Donation>::empty()) by {
                lemma_no_donor_refunds(todo@, costs@, k);
            }
            let mut donations: Vec<Donation> = Vec::new();
            donations.push(d.copy());
            assert(donations@ =~= spec_donor_refunds(t2, k));
            v.push(RefundPayout {
                transfer: Transfer { receiver: d.donor_id.clone(), amount: refund, ft_id: clone_opt_string(ft_id) },
                donor_id: d.donor_id.clone(),
                record: TempRefundRecord { amount: refund, escrow_balance: d.net_amount, donations },
            });
            assert forall|a: int| 0 <= a < v@.len() implies ({
                let p = #[trigger] v@[a];
                &&& m2.contains_key(p.donor_id@)
                &&& p.record.amount == m2[p.donor_id@].0
                &&& p.record.escrow_balance == m2[p.donor_id@].1
                &&& p.record.donations@ == spec_donor_refunds(t2, p.donor_id@)
                &&& p.transfer.receiver@ == p.donor_id@
                &&& p.transfer.amount == p.record.amount
                &&& p.transfer.ft_id == *ft_id
            }) by {
                if a < before.len() {
                    assert(v@[a] == before[a]);
                }
            }
            assert forall|key: Seq<char>| #[trigger] m2.contains_key(key) implies exists|a: int| 0 <= a < v@.len() && (#[trigger] v@[a]).donor_id@ == key by {
                if key == k {
                    assert(v@[before.len() as int].donor_id@ == key);
                } else {
                    let a = choose|a: int| 0 <= a < before.len() && (#[trigger] before[a]).donor_id@ == key;
                    assert(v@[a].donor_id@ == key);
                }
            }
            assert forall|a: int, b: int| 0 <= a < b < v@.len() implies (#[trigger] v@[a]).donor_id@ != (#[trigger] v@[b]).donor_id@ by {
                if b < before.len() {
                    assert(before[a].donor_id@ != before[b].donor_id@);
                } else {
                    assert(v@[a] == before[a]);
                }
            }
            true
        },
    }
}

/// A donor without refund totals has no refunded donations.
proof fn lemma_no_donor_refunds(todo: Seq<Donation>, cost: Map<u64, u128>, k: Seq<char>)
    requires
        !spec_refund_totals(todo, cost).contains_key(k),
    ensures
        spec_donor_refunds(todo, k) == Seq::<Donation>::empty(),
    decreases todo.len(),
{
    if todo.len() > 0 {
        lemma_no_donor_refunds(todo.drop_last(), cost, k);
    }
}

/// Campaign `cid`'s ID set after each of its donations in `ds` is added
/// (`add`) or taken out.
pub open spec fn spec_file_ids(s: Seq<u64>, ds: Seq<Donation>, cid: CampaignId, add: bool) -> Seq<u64>
    decreases ds.len(),
{
    if ds.len() == 0 {
        s
    } else {
        let prev = spec_file_ids(s, ds.drop_last(), cid, add);
        let d = ds.last();
        if d.campaign_id == cid {
            if add { set_add(prev, d.id) } else { set_del(prev, d.id) }
        } else {
            prev
        }
    }
}

/// Donor `k`'s ID set after each of its donations in `ds` is added.
pub open spec fn spec_file_donor(s: Seq<u64>, ds: Seq<Donation>, k: Seq<char>) -> Seq<u64>
    decreases ds.len(),
{
    if ds.len() == 0 {
        s
    } else {
        let prev = spec_file_donor(s, ds.drop_last(), k);
        if ds.last().donor_id@ == k { set_add(prev, ds.last().id) } else { prev }
    }
}

/// Donors with an ID set after the donors of `ds` are added to `dom`.
pub open spec fn spec_donor_dom(dom: Set<Seq<char>>, ds: Seq<Donation>) -> Set<Seq<char>>
    decreases ds.len(),
{
    if ds.len() == 0 {
        dom
    } else {
        spec_donor_dom(dom, ds.drop_last()).insert(ds.last().donor_id@)
    }
}

/// `ds` with each donation marked as not returned.
pub open spec fn spec_unreturned(ds: Seq<Donation>) -> Seq<Donation> {
    ds.map_values(|d: Donation| Donation { returned_at_ms: None, ..d })
}

impl Contract {
    /// Why refunding a batch of a campaign's escrow is refused, if it is.
    pub open spec fn spec_refund_check(&self, ctx: CallContext, campaign_id: CampaignId, costs: Map<u64, u128>) -> Result<(), CampaignError> {
        let e = self.escrowed_donation_ids_by_campaign_id@;
        let u = self.unescrowed_donation_ids_by_campaign_id@;
        let dm = self.donations_by_id@;
        if !self.campaigns_by_id@.contains_key(campaign_id) {
            Err(CampaignError::CampaignNotFound)
        } else if !(unwrap_or(self.campaigns_by_id@[campaign_id].end_ms, u64::MAX) < ctx.block_timestamp_ms) {
            Err(CampaignError::RefundsNotAvailable)
        } else if !(self.campaigns_by_id@[campaign_id].total_raised_amount < unwrap_or(self.campaigns_by_id@[campaign_id].min_amount, u128::MAX)) {
            Err(CampaignError::MinAmountReached)
        } else if !e.contains_key(campaign_id) {
            Err(CampaignError::CampaignNotFound)
        } else if !spec_all_stored(dm, spec_batch(e[campaign_id]@)) {
            Err(CampaignError::DonationNotFound)
        } else {
            let todo = spec_refund_todo(dm, spec_batch(e[campaign_id]@), ctx.block_timestamp_ms);
            let totals = spec_refund_totals(todo, costs);
            if exists|j: int| 0 <= j < todo.len() && (!e.contains_key((#[trigger] todo[j]).campaign_id) || !u.contains_key(todo[j].campaign_id)) {
                Err(CampaignError::CampaignNotFound)
            } else if exists|j: int| 0 <= j < todo.len() && !self.donation_ids_by_donor_id@.contains_key((#[trigger] todo[j]).donor_id@) {
                Err(CampaignError::DonorNotFound)
            } else if exists|j: int| 0 <= j < todo.len() && !costs.contains_key((#[trigger] todo[j]).id) {
                Err(CampaignError::StorageCostMissing)
            } else if (exists|j: int| 0 <= j < todo.len() && (#[trigger] todo[j]).total_amount < costs[todo[j].id])
                || (exists|k: Seq<char>| #[trigger] totals.contains_key(k) && (totals[k].0 > u128::MAX || totals[k].1 > u128::MAX)) {
                Err(CampaignError::ArithmeticOverflow)
            } else {
                Ok(())
            }
        }
    }

    /// Takes each donation of `todo` out of the records and stores it again
    /// (marked) as escrowed: it moves to the end of its campaign's escrowed set.
    fn requeue_refunded(&mut self, todo: &Vec<Donation>)
        requires
            old(self).wf(),
            forall|j: int| 0 <= j < todo@.len() ==> old(self).escrowed_donation_ids_by_campaign_id@.contains_key((#[trigger] todo@[j]).campaign_id)
                && old(self).unescrowed_donation_ids_by_campaign_id@.contains_key(todo@[j].campaign_id)
                && old(self).donation_ids_by_donor_id@.contains_key(todo@[j].donor_id@),
        ensures
            final(self).wf(),
            spec_same_config(*old(self), *final(self)),
            final(self).donations_by_id@ == spec_store_all(old(self).donations_by_id@, todo@),
            ({
                let (e0, u0, t0, d0) = (old(self).escrowed_donation_ids_by_campaign_id@, old(self).unescrowed_donation_ids_by_campaign_id@, old(self).returned_donation_ids_by_campaign_id@, old(self).donation_ids_by_donor_id@);
                let (e1, u1, t1, d1) = (final(self).escrowed_donation_ids_by_campaign_id@, final(self).unescrowed_donation_ids_by_campaign_id@, final(self).returned_donation_ids_by_campaign_id@, final(self).donation_ids_by_donor_id@);
                &&& e1.dom() == e0.dom() && u1.dom() == u0.dom() && t1.dom() == t0.dom() && d1.dom() == d0.dom()
                &&& forall|k: CampaignId| #[trigger] e0.contains_key(k) ==> e1[k]@ == spec_requeue(e0[k]@, todo@, k)
                &&& forall|k: CampaignId| #[trigger] u0.contains_key(k) ==> u1[k]@ == spec_drop_ids(u0[k]@, todo@, k, true)
                &&& forall|k: CampaignId| #[trigger] t0.contains_key(k) ==> t1[k]@ == spec_drop_ids(t0[k]@, todo@, k, false)
                &&& forall|k: Seq<char>| #[trigger] d0.contains_key(k) ==> d1[k]@ == spec_requeue_donor(d0[k]@, todo@, k)
            }),
    {
        let ghost s0 = *self;
        let mut i: usize = 0;
        while i < todo.len()
            invariant
                self.wf(),
                i <= todo@.len(),
                spec_same_config(s0, *self),
                forall|j: int| 0 <= j < todo@.len() ==> s0.escrowed_donation_ids_by_campaign_id@.contains_key((#[trigger] todo@[j]).campaign_id)
                    && s0.unescrowed_donation_ids_by_campaign_id@.contains_key(todo@[j].campaign_id)
                    && s0.donation_ids_by_donor_id@.contains_key(todo@[j].donor_id@),
                self.donations_by_id@ == spec_store_all(s0.donations_by_id@, todo@.subrange(0, i as int)),
                ({
                    let (e0, u0, t0, d0) = (s0.escrowed_donation_ids_by_campaign_id@, s0.unescrowed_donation_ids_by_campaign_id@, s0.returned_donation_ids_by_campaign_id@, s0.donation_ids_by_donor_id@);
                    let (e1, u1, t1, d1) = (self.escrowed_donation_ids_by_campaign_id@, self.unescrowed_donation_ids_by_campaign_id@, self.returned_donation_ids_by_campaign_id@, self.donation_ids_by_donor_id@);
                    let pre = todo@.subrange(0, i as int);
                    &&& e1.dom() == e0.dom() && u1.dom() == u0.dom() && t1.dom() == t0.dom() && d1.dom() == d0.dom()
                    &&& forall|k: CampaignId| #[trigger] e0.contains_key(k) ==> e1[k]@ == spec_requeue(e0[k]@, pre, k)
                    &&& forall|k: CampaignId| #[trigger] u0.contains_key(k) ==> u1[k]@ == spec_drop_ids(u0[k]@, pre, k, true)
                    &&& forall|k: CampaignId| #[trigger] t0.contains_key(k) ==> t1[k]@ == spec_drop_ids(t0[k]@, pre, k, false)
                    &&& forall|k: Seq<char>| #[trigger] d0.contains_key(k) ==> d1[k]@ == spec_requeue_donor(d0[k]@, pre, k)
                }),
            decreases todo@.len() - i,
        {
            proof {
                lemma_prefix_drop_last(todo@, i as int);
            }
            let d = todo[i].copy();
            assert(s0.escrowed_donation_ids_by_campaign_id@.contains_key(todo@[i as int].campaign_id));
            let ghost dm_before = self.donations_by_id@;
            self.internal_remove_donation_record(&d);
            self.internal_insert_donation_record(d, true);
            assert(self.donations_by_id@ =~= dm_before.insert(todo@[i as int].id, todo@[i as int]));
            assert(self.donation_ids_by_donor_id@.dom() =~= s0.donation_ids_by_donor_id@.dom());
            i += 1;
        }
        assert(todo@.subrange(0, todo@.len() as int) =~= todo@);
    }

    /// Files each donation of `ds` (stored as given) as escrowed or paid out.
    fn file_donations(&mut self, ds: &Vec<Donation>, escrow: bool)
        requires
            old(self).wf(),
        ensures
            final(self).wf(),
            spec_same_config(*old(self), *final(self)),
            final(self).donations_by_id@ == spec_store_all(old(self).donations_by_id@, ds@),
            ({
                let (e0, u0, t0, d0) = (old(self).escrowed_donation_ids_by_campaign_id@, old(self).unescrowed_donation_ids_by_campaign_id@, old(self).returned_donation_ids_by_campaign_id@, old(self).donation_ids_by_donor_id@);
                let (e1, u1, t1, d1) = (final(self).escrowed_donation_ids_by_campaign_id@, final(self).unescrowed_donation_ids_by_campaign_id@, final(self).returned_donation_ids_by_campaign_id@, final(self).donation_ids_by_donor_id@);
                &&& e1.dom() == e0.dom() && u1.dom() == u0.dom() && t1.dom() == t0.dom()
                &&& forall|k: CampaignId| #[trigger] e0.contains_key(k) ==> e1[k]@ == spec_file_ids(e0[k]@, ds@, k, escrow)
                &&& forall|k: CampaignId| #[trigger] u0.contains_key(k) ==> u1[k]@ == spec_file_ids(u0[k]@, ds@, k, !escrow)
                &&& forall|k: CampaignId| #[trigger] t0.contains_key(k) ==> t1[k]@ == spec_file_ids(t0[k]@, ds@, k, false)
                &&& d1.dom() == spec_donor_dom(d0.dom(), ds@)
                &&& forall|k: Seq<char>| #[trigger] d1.contains_key(k) ==> d1[k]@ == spec_file_donor(account_ids(d0, k), ds@, k)
            }),
    {
        let ghost s0 = *self;
        let mut i: usize = 0;
        while i < ds.len()
            invariant
                self.wf(),
                i <= ds@.len(),
                spec_same_config(s0, *self),
                self.donations_by_id@ == spec_store_all(s0.donations_by_id@, ds@.subrange(0, i as int)),
                ({
                    let (e0, u0, t0, d0) = (s0.escrowed_donation_ids_by_campaign_id@, s0.unescrowed_donation_ids_by_campaign_id@, s0.returned_donation_ids_by_campaign_id@, s0.donation_ids_by_donor_id@);
                    let (e1, u1, t1, d1) = (self.escrowed_donation_ids_by_campaign_id@, self.unescrowed_donation_ids_by_campaign_id@, self.returned_donation_ids_by_campaign_id@, self.donation_ids_by_donor_id@);
                    let pre = ds@.subrange(0, i as int);
                    &&& e1.dom() == e0.dom() && u1.dom() == u0.dom() && t1.dom() == t0.dom()
                    &&& forall|k: CampaignId| #[trigger] e0.contains_key(k) ==> e1[k]@ == spec_file_ids(e0[k]@, pre, k, escrow)
                    &&& forall|k: CampaignId| #[trigger] u0.contains_key(k) ==> u1[k]@ == spec_file_ids(u0[k]@, pre, k, !escrow)
                    &&& forall|k: CampaignId| #[trigger] t0.contains_key(k) ==> t1[k]@ == spec_file_ids(t0[k]@, pre, k, false)
                    &&& d1.dom() == spec_donor_dom(d0.dom(), pre)
                    &&& forall|k: Seq<char>| #[trigger] d1.contains_key(k) ==> d1[k]@ == spec_file_donor(account_ids(d0, k), pre, k)
                }),
            decreases ds@.len() - i,
        {
            proof {
                lemma_prefix_drop_last(ds@, i as int);
            }
            let ghost d_before = self.donation_ids_by_donor_id@;
            let d = ds[i].copy();
            self.internal_insert_donation_record(d, escrow);
            proof {
                let d0 = s0.donation_ids_by_donor_id@;
                let pre = ds@.subrange(0, i as int);
                let k0 = ds@[i as int].donor_id@;
                assert forall|k: Seq<char>| #[trigger] self.donation_ids_by_donor_id@.contains_key(k) implies
                    self.donation_ids_by_donor_id@[k]@ == spec_file_donor(account_ids(d0, k), ds@.subrange(0, i + 1), k) by {
                    if k == k0 {
                        assert(account_ids(d_before, k) == spec_file_donor(account_ids(d0, k), pre, k)) by {
                            if !d_before.contains_key(k) {
                                lemma_file_donor_absent(d0, pre, k);
                            }
                        }
                    }
                }
            }
            i += 1;
        }
        assert(ds@.subrange(0, ds@.len() as int) =~= ds@);
    }
}

/// A donor with no ID set before or after filing `ds` had none of `ds`'s
/// donations, so its (empty) set is unchanged.
proof fn lemma_file_donor_absent(d0: Map<Seq<char>, IdSet>, ds: Seq<Donation>, k: Seq<char>)
    requires
        !spec_donor_dom(d0.dom(), ds).contains(k),
    ensures
        spec_file_donor(account_ids(d0, k), ds, k) == Seq::<u64>::empty(),
        !d0.contains_key(k),
    decreases ds.len(),
{
    if ds.len() > 0 {
        lemma_file_donor_absent(d0, ds.drop_last(), k);
    }
}

impl Contract {
    /// Refunds the next batch of a campaign's escrowed donations once it has
    /// ended without raising its minimum: each donation of the batch not
    /// returned yet is marked as returned now and moves to the end of its
    /// escrow set, and one refund per donor is returned (what it gave less
    /// the cost of the storage that each of its records takes, given by the
    /// host in `storage_costs` by donation ID, in the campaign's token).
    /// Anyone may call it. Refused, with nothing changed, as
    /// `spec_refund_check` says.
    #[verifier::loop_isolation(false)]
    pub fn process_refunds_batch(&mut self, ctx: &CallContext, campaign_id: CampaignId, storage_costs: &IdMap<u128>) -> (r: Result<
        Vec<RefundPayout>,
        CampaignError,
    >)
        requires
            old(self).wf(),
            storage_costs.wf(),
        ensures
            final(self).wf(),
            r is Err ==> *final(self) == *old(self),
            (r is Err && old(self).spec_refund_check(*ctx, campaign_id, storage_costs@) is Err) || (r is Ok && old(self).spec_refund_check(*ctx, campaign_id, storage_costs@) is Ok),
            r matches Err(err) ==> old(self).spec_refund_check(*ctx, campaign_id, storage_costs@) == Err::<(), CampaignError>(err),
            r matches Ok(refunds) ==> {
                let dm = old(self).donations_by_id@;
                let (e0, u0, t0, d0) = (old(self).escrowed_donation_ids_by_campaign_id@, old(self).unescrowed_donation_ids_by_campaign_id@, old(self).returned_donation_ids_by_campaign_id@, old(self).donation_ids_by_donor_id@);
                let (e1, u1, t1, d1) = (final(self).escrowed_donation_ids_by_campaign_id@, final(self).unescrowed_donation_ids_by_campaign_id@, final(self).returned_donation_ids_by_campaign_id@, final(self).donation_ids_by_donor_id@);
                let todo = spec_refund_todo(dm, spec_batch(e0[campaign_id]@), ctx.block_timestamp_ms);
                &&& spec_same_config(*old(self), *final(self))
                &&& final(self).donations_by_id@ == spec_store_all(dm, todo)
                &&& e1.dom() == e0.dom() && u1.dom() == u0.dom() && t1.dom() == t0.dom() && d1.dom() == d0.dom()
                &&& forall|k: CampaignId| #[trigger] e0.contains_key(k) ==> e1[k]@ == spec_requeue(e0[k]@, todo, k)
                &&& forall|k: CampaignId| #[trigger] u0.contains_key(k) ==> u1[k]@ == spec_drop_ids(u0[k]@, todo, k, true)
                &&& forall|k: CampaignId| #[trigger] t0.contains_key(k) ==> t1[k]@ == spec_drop_ids(t0[k]@, todo, k, false)
                &&& forall|k: Seq<char>| #[trigger] d0.contains_key(k) ==> d1[k]@ == spec_requeue_donor(d0[k]@, todo, k)
                &&& spec_refunds_match(refunds@, todo, storage_costs@, old(self).campaigns_by_id@[campaign_id].ft_id)
            },
    {
        let now = ctx.block_timestamp_ms;
        let campaign = match self.campaigns_by_id.get(campaign_id) {
            None => return Err(CampaignError::CampaignNotFound),
            Some(c) => c.copy(),
        };
        let end = match campaign.end_ms {
            Some(e) => e,
            None => u64::MAX,
        };
        if !(end < now) {
            return Err(CampaignError::RefundsNotAvailable);
        }
        let min = match campaign.min_amount {
            Some(m) => m,
            None => u128::MAX,
        };
        if !(campaign.total_raised_amount < min) {
            return Err(CampaignError::MinAmountReached);
        }
        let batch = match self.escrowed_donation_ids_by_campaign_id.get(campaign_id) {
            None => return Err(CampaignError::CampaignNotFound),
            Some(s) => batch_of(s),
        };
        if !all_stored(&self.donations_by_id, &batch) {
            return Err(CampaignError::DonationNotFound);
        }
        let todo = collect_todo(&self.donations_by_id, &batch, now);
        let ghost t = todo@;
        let mut i: usize = 0;
        while i < todo.len()
            invariant
                i <= t.len(),
                todo@ == t,
                forall|j: int| 0 <= j < i ==> self.escrowed_donation_ids_by_campaign_id@.contains_key((#[trigger] t[j]).campaign_id)
                    && self.unescrowed_donation_ids_by_campaign_id@.contains_key(t[j].campaign_id),
            decreases t.len() - i,
        {
            if !self.escrowed_donation_ids_by_campaign_id.contains_key(todo[i].campaign_id)
                || !self.unescrowed_donation_ids_by_campaign_id.contains_key(todo[i].campaign_id) {
                return Err(CampaignError::CampaignNotFound);
            }
            i += 1;
        }
        let mut i: usize = 0;
        while i < todo.len()
            invariant
                i <= t.len(),
                todo@ == t,
                forall|j: int| 0 <= j < i ==> self.donation_ids_by_donor_id@.contains_key((#[trigger] t[j]).donor_id@),
            decreases t.len() - i,
        {
            if !self.donation_ids_by_donor_id.contains_key(&todo[i].donor_id) {
                return Err(CampaignError::DonorNotFound);
            }
            i += 1;
        }
        let mut i: usize = 0;
        while i < todo.len()
            invariant
                i <= t.len(),
                todo@ == t,
                forall|j: int| 0 <= j < i ==> storage_costs@.contains_key((#[trigger] t[j]).id),
            decreases t.len() - i,
        {
            if !storage_costs.contains_key(todo[i].id) {
                return Err(CampaignError::StorageCostMissing);
            }
            i += 1;
        }
        let ghost costs = storage_costs@;
        let mut refunds: Vec<RefundPayout> = Vec::new();
        let mut i: usize = 0;
        while i < todo.len()
            invariant
                i <= t.len(),
                todo@ == t,
                costs == storage_costs@,
                forall|j: int| 0 <= j < t.len() ==> costs.contains_key((#[trigger] t[j]).id),
                forall|j: int| 0 <= j < i ==> (#[trigger] t[j]).total_amount >= costs[t[j].id],
                spec_refunds_match(refunds@, t.subrange(0, i as int), costs, campaign.ft_id),
            decreases t.len() - i,
        {
            proof {
                lemma_prefix_drop_last(t, i as int);
                assert(t.subrange(0, i + 1) =~= t.subrange(0, i as int).push(t[i as int]));
            }
            let cost = match storage_costs.get(todo[i].id) {
                Some(c) => *c,
                None => return Err(CampaignError::StorageCostMissing),
            };
            if todo[i].total_amount < cost {
                return Err(CampaignError::ArithmeticOverflow);
            }
            if !add_refund(&mut refunds, &todo[i], cost, Ghost(costs), &campaign.ft_id, Ghost(t.subrange(0, i as int))) {
                proof {
                    let k = t[i as int].donor_id@;
                    lemma_refund_totals_mono(t, costs, i + 1, t.len() as int, k);
                    assert(t.subrange(0, t.len() as int) =~= t);
                }
                return Err(CampaignError::ArithmeticOverflow);
            }
            i += 1;
        }
        proof {
            assert(t.subrange(0, t.len() as int) =~= t);
            let m = spec_refund_totals(t, costs);
            assert forall|k: Seq<char>| #[trigger] m.contains_key(k) implies !(m[k].0 > u128::MAX || m[k].1 > u128::MAX) by {
                let a = choose|a: int| 0 <= a < refunds@.len() && (#[trigger] refunds@[a]).donor_id@ == k;
            }
        }
        self.requeue_refunded(&todo);
        Ok(refunds)
    }

    /// Outcome of a refund. If it failed, each of its donations is stored
    /// again as escrowed and not returned. If it succeeded, each is stored as
    /// paid out (still marked as returned) and the campaign's escrow balance
    /// goes down by the refund's escrow balance; refused, with nothing
    /// changed, when the campaign is missing or its escrow balance is smaller.
    pub fn transfer_refund_callback(
        &mut self,
        donor_id: String,
        temp_refund_record: TempRefundRecord,
        campaign_id: CampaignId,
        succeeded: bool,
    ) -> (r: Result<(), CampaignError>)
        requires
            old(self).wf(),
        ensures
            final(self).wf(),
            r is Err ==> *final(self) == *old(self),
            !succeeded ==> r is Ok,
            succeeded ==> (r is Ok <==> (old(self).campaigns_by_id@.contains_key(campaign_id)
                && old(self).campaigns_by_id@[campaign_id].escrow_balance >= temp_refund_record.escrow_balance)),
            r matches Err(err) ==> err == (if !old(self).campaigns_by_id@.contains_key(campaign_id) {
                CampaignError::CampaignNotFound
            } else {
                CampaignError::ArithmeticOverflow
            }),
            r is Ok ==> {
                let ds = if succeeded { temp_refund_record.donations@ } else { spec_unreturned(temp_refund_record.donations@) };
                let escrow = !succeeded;
                let (e0, u0, t0, d0) = (old(self).escrowed_donation_ids_by_campaign_id@, old(self).unescrowed_donation_ids_by_campaign_id@, old(self).returned_donation_ids_by_campaign_id@, old(self).donation_ids_by_donor_id@);
                let (e1, u1, t1, d1) = (final(self).escrowed_donation_ids_by_campaign_id@, final(self).unescrowed_donation_ids_by_campaign_id@, final(self).returned_donation_ids_by_campaign_id@, final(self).donation_ids_by_donor_id@);
                &&& final(self).donations_by_id@ == spec_store_all(old(self).donations_by_id@, ds)
                &&& e1.dom() == e0.dom() && u1.dom() == u0.dom() && t1.dom() == t0.dom()
                &&& forall|k: CampaignId| #[trigger] e0.contains_key(k) ==> e1[k]@ == spec_file_ids(e0[k]@, ds, k, escrow)
                &&& forall|k: CampaignId| #[trigger] u0.contains_key(k) ==> u1[k]@ == spec_file_ids(u0[k]@, ds, k, !escrow)
                &&& forall|k: CampaignId| #[trigger] t0.contains_key(k) ==> t1[k]@ == spec_file_ids(t0[k]@, ds, k, false)
                &&& d1.dom() == spec_donor_dom(d0.dom(), ds)
                &&& forall|k: Seq<char>| #[trigger] d1.contains_key(k) ==> d1[k]@ == spec_file_donor(account_ids(d0, k), ds, k)
                &&& final(self).storage_deposits == old(self).storage_deposits
                &&& final(self).owner == old(self).owner
                &&& final(self).next_donation_id == old(self).next_donation_id
                &&& !succeeded ==> final(self).campaigns_by_id == old(self).campaigns_by_id
                &&& succeeded ==> final(self).campaigns_by_id@ == old(self).campaigns_by_id@.insert(campaign_id, Campaign {
                    escrow_balance: (old(self).campaigns_by_id@[campaign_id].escrow_balance - temp_refund_record.escrow_balance) as u128,
                    ..old(self).campaigns_by_id@[campaign_id]
                })
            },
    {
        if !succeeded {
            let ds = &temp_refund_record.donations;
            let mut unreturned: Vec<Donation> = Vec::new();
            let mut i: usize = 0;
            while i < ds.len()
                invariant
                    i <= ds@.len(),
                    unreturned@ == spec_unreturned(ds@).subrange(0, i as int),
                decreases ds@.len() - i,
            {
                unreturned.push(Donation { returned_at_ms: None, ..ds[i].copy() });
                i += 1;
                assert(unreturned@ =~= spec_unreturned(ds@).subrange(0, i as int));
            }
            assert(unreturned@ =~= spec_unreturned(ds@));
            self.file_donations(&unreturned, true);
            return Ok(());
        }
        let campaign = match self.campaigns_by_id.get(campaign_id) {
            None => return Err(CampaignError::CampaignNotFound),
            Some(c) => c.copy(),
        };
        if campaign.escrow_balance < temp_refund_record.escrow_balance {
            return Err(CampaignError::ArithmeticOverflow);
        }
        self.file_donations(&temp_refund_record.donations, false);
        let updated = Campaign { escrow_balance: campaign.escrow_balance - temp_refund_record.escrow_balance, ..campaign };
        self.campaigns_by_id.insert(campaign_id, updated);
        Ok(())
    }
}

/// A failed payout of a released batch puts it back into escrow: after
/// `escrowed_donations_recipient_transfer_callback` reports the failure (its
/// escrow sets become `spec_reescrow` of the batch), every donation of the
/// batch is escrowed and not paid out, every donation escrowed before still
/// is, and the paid-out set stays free of duplicates.
pub proof fn lemma_failed_payout_reescrowed(e: Seq<u64>, u: Seq<u64>, ids: Seq<u64>)
    requires
        u.no_duplicates(),
    ensures
        spec_reescrow(e, u, ids).1.no_duplicates(),
        forall|j: int| 0 <= j < ids.len() ==> spec_reescrow(e, u, ids).0.contains(#[trigger] ids[j])
            && !spec_reescrow(e, u, ids).1.contains(ids[j]),
        forall|y: u64| #[trigger] e.contains(y) ==> spec_reescrow(e, u, ids).0.contains(y),
    decreases ids.len(),
{
    if ids.len() > 0 {
        let prev = spec_reescrow(e, u, ids.drop_last());
        let x = ids.last();
        lemma_failed_payout_reescrowed(e, u, ids.drop_last());
        lemma_set_add_contains(prev.0, x);
        lemma_set_del_contains(prev.1, x);
        if prev.1.contains(x) {
            lemma_swap_remove(prev.1, prev.1.index_of(x));
        }
        assert forall|j: int| 0 <= j < ids.len() implies spec_reescrow(e, u, ids).0.contains(#[trigger] ids[j])
            && !spec_reescrow(e, u, ids).1.contains(ids[j]) by {
            if j < ids.len() - 1 {
                assert(ids.drop_last()[j] == ids[j]);
            }
        }
    }
}

/// After a failed payout of a released batch, each stored donation of the
/// batch is stored again as not returned, with its other fields as they
/// were, and every other donation is unchanged (`spec_unreturn`).
pub proof fn lemma_failed_payout_unreturned(dm: Map<DonationId, Donation>, ids: Seq<u64>)
    ensures
        forall|k: u64| dm.contains_key(k) ==> #[trigger] spec_unreturn(dm, ids).contains_key(k),
        forall|k: u64| #[trigger] dm.contains_key(k) && !ids.contains(k) ==> spec_unreturn(dm, ids)[k] == dm[k],
        forall|k: u64| #[trigger] dm.contains_key(k) && ids.contains(k)
            ==> spec_unreturn(dm, ids)[k] == (Donation { returned_at_ms: None, ..dm[k] }),
    decreases ids.len(),
{
    if ids.len() > 0 {
        let rest = ids.drop_last();
        let x = ids.last();
        lemma_failed_payout_unreturned(dm, rest);
        assert forall|k: u64| #[trigger] dm.contains_key(k) && ids.contains(k)
            implies spec_unreturn(dm, ids)[k] == (Donation { returned_at_ms: None, ..dm[k] }) by {
            if k != x {
                let j = choose|j: int| 0 <= j < ids.len() && ids[j] == k;
                assert(rest[j] == k);
            }
        }
        assert forall|k: u64| #[trigger] dm.contains_key(k) && !ids.contains(k) implies spec_unreturn(dm, ids)[k] == dm[k] by {
            assert(k != x) by {
                assert(ids[ids.len() - 1] == x);
            }
            if rest.contains(k) {
                let j = choose|j: int| 0 <= j < rest.len() && rest[j] == k;
                assert(ids[j] == k);
            }
        }
    }
}

/// The stored donations of `batch` that have not been returned, in order.
pub open spec fn spec_pending_donations(dm: Map<DonationId, Donation>, batch: Seq<u64>) -> Seq<Donation> {
    batch.map_values(|id: u64| dm[id]).filter(|d: Donation| d.returned_at_ms is None)
}

/// Sum of the net amounts of `ds`.
pub open spec fn spec_sum_net(ds: Seq<Donation>) -> int
    decreases ds.len(),
{
    if ds.len() == 0 { 0 } else { spec_sum_net(ds.drop_last()) + ds.last().net_amount }
}

/// Sum of the protocol fees of `ds`.
pub open spec fn spec_sum_protocol(ds: Seq<Donation>) -> int
    decreases ds.len(),
{
    if ds.len() == 0 { 0 } else { spec_sum_protocol(ds.drop_last()) + ds.last().protocol_fee }
}

/// Sum of the creator fees of `ds`.
pub open spec fn spec_sum_creator(ds: Seq<Donation>) -> int
    decreases ds.len(),
{
    if ds.len() == 0 { 0 } else { spec_sum_creator(ds.drop_last()) + ds.last().creator_fee }
}

/// Sum of the referrer fees of `ds` (zero where there is none).
pub open spec fn spec_sum_referrer(ds: Seq<Donation>) -> int
    decreases ds.len(),
{
    if ds.len() == 0 { 0 } else { spec_sum_referrer(ds.drop_last()) + unwrap_or(ds.last().referrer_fee, 0) }
}

/// Sum of the total (gross) amounts of `ds`.
pub open spec fn spec_sum_gross(ds: Seq<Donation>) -> int
    decreases ds.len(),
{
    if ds.len() == 0 { 0 } else { spec_sum_gross(ds.drop_last()) + ds.last().total_amount }
}

/// A donation's net amount and fees together do not exceed what was given.
pub open spec fn spec_within_total(d: Donation) -> bool {
    d.net_amount + d.protocol_fee + d.creator_fee + unwrap_or(d.referrer_fee, 0) <= d.total_amount
}

proof fn lemma_pending_push(dm: Map<DonationId, Donation>, batch: Seq<u64>)
    requires
        batch.len() > 0,
    ensures
        spec_pending_donations(dm, batch) == if dm[batch.last()].returned_at_ms is None {
            spec_pending_donations(dm, batch.drop_last()).push(dm[batch.last()])
        } else {
            spec_pending_donations(dm, batch.drop_last())
        },
{
    let f = |d: Donation| d.returned_at_ms is None;
    let m = batch.map_values(|id: u64| dm[id]);
    let m0 = batch.drop_last().map_values(|id: u64| dm[id]);
    assert(m.drop_last() =~= m0);
    assert(m.last() == dm[batch.last()]);
    reveal(Seq::filter);
    assert(m.len() > 0);
}

/// A released batch pays the campaign recipient exactly the net amounts of
/// its donations that were not returned, and the protocol and creator fee
/// payouts are exactly their fees. When each of those donations keeps its
/// net amount and fees within what was given, the recipient payout, the
/// protocol and creator fees and the referrer fees together never exceed
/// the total given.
pub proof fn lemma_release_pays_net_amounts(dm: Map<DonationId, Donation>, batch: Seq<u64>)
    ensures
        spec_batch_totals(dm, batch).0 == spec_sum_net(spec_pending_donations(dm, batch)),
        spec_batch_totals(dm, batch).1 == spec_sum_protocol(spec_pending_donations(dm, batch)),
        spec_batch_totals(dm, batch).2 == spec_sum_creator(spec_pending_donations(dm, batch)),
        (forall|j: int| 0 <= j < spec_pending_donations(dm, batch).len() ==> spec_within_total(#[trigger] spec_pending_donations(dm, batch)[j]))
            ==> spec_batch_totals(dm, batch).0 + spec_batch_totals(dm, batch).1 + spec_batch_totals(dm, batch).2
                + spec_sum_referrer(spec_pending_donations(dm, batch)) <= spec_sum_gross(spec_pending_donations(dm, batch)),
    decreases batch.len(),
{
    if batch.len() > 0 {
        lemma_release_pays_net_amounts(dm, batch.drop_last());
        lemma_pending_push(dm, batch);
        let p = spec_pending_donations(dm, batch);
        let p0 = spec_pending_donations(dm, batch.drop_last());
        if dm[batch.last()].returned_at_ms is None {
            assert(p.drop_last() =~= p0);
            assert(p.last() == dm[batch.last()]);
            if forall|j: int| 0 <= j < p.len() ==> spec_within_total(#[trigger] p[j]) {
                assert forall|j: int| 0 <= j < p0.len() implies spec_within_total(#[trigger] p0[j]) by {
                    assert(p[j] == p0[j]);
                }
                assert(spec_within_total(p[p.len() - 1]));
            }
        }
    } else {
        reveal(Seq::filter);
        assert(batch.map_values(|id: u64| dm[id]).len() == 0);
        assert(spec_pending_donations(dm, batch) =~= Seq::<Donation>::empty());
    }
}

} // verus!
