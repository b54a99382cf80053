//! Payouts from the matching pool: set by the chef after the round, open to
//! challenge during a cooldown, then paid out by an admin.
use vstd::prelude::*;
use crate::collections::{AccountMap, AccountSet};
use crate::env::{CallContext, Transfer};
use crate::pot::contract::{account_set_values_wf, Contract};
use crate::pot::types::{Payout, PayoutExternal, PayoutInput, PayoutsChallenge, PotError};
use crate::provider::PROVIDER_ID_DELIMITER;
use crate::text::{chars_of, decimal_chars, spec_decimal, string_from_chars};
use crate::util::clone_opt_string;

verus! {

/// What the contract compares of a payout: (ID, recipient, amount, paid at, memo).
pub type PayoutView = (Seq<char>, Seq<char>, u128, Option<u64>, Option<String>);

pub open spec fn spec_payout_view(p: Payout) -> PayoutView {
    (p.id@, p.recipient_id@, p.amount, p.paid_at, p.memo)
}

/// Payouts by ID, as views.
pub open spec fn spec_payouts_view(m: Map<Seq<char>, Payout>) -> Map<Seq<char>, PayoutView> {
    m.map_values(|p: Payout| spec_payout_view(p))
}

/// Payout IDs by recipient, as views.
pub open spec fn spec_id_sets_view(m: Map<Seq<char>, AccountSet>) -> Map<Seq<char>, Seq<Seq<char>>> {
    m.map_values(|s: AccountSet| s@)
}

/// ID of the `n`-th payout of `recipient`: `"{recipient}:{n}"`.
pub open spec fn spec_payout_id(recipient: Seq<char>, n: nat) -> Seq<char> {
    recipient + seq![PROVIDER_ID_DELIMITER] + spec_decimal(n)
}

/// `s` with `x` added at the end unless present.
pub open spec fn spec_set_push(s: Seq<Seq<char>>, x: Seq<char>) -> Seq<Seq<char>> {
    if s.contains(x) { s } else { s.push(x) }
}

/// Payouts and ID sets after each of `inputs` is added: it gets the next ID
/// of its recipient (number of IDs it has, plus one).
pub open spec fn spec_apply_payouts(
    pv: Map<Seq<char>, PayoutView>,
    sv: Map<Seq<char>, Seq<Seq<char>>>,
    inputs: Seq<PayoutInput>,
) -> (Map<Seq<char>, PayoutView>, Map<Seq<char>, Seq<Seq<char>>>)
    decreases inputs.len(),
{
    if inputs.len() == 0 {
        (pv, sv)
    } else {
        let prev = spec_apply_payouts(pv, sv, inputs.drop_last());
        let x = inputs.last();
        let r = x.recipient_id@;
        let ids = if prev.1.contains_key(r) { prev.1[r] } else { Seq::empty() };
        let id = spec_payout_id(r, ids.len() + 1);
        (prev.0.insert(id, (id, r, x.amount, None, x.memo)), prev.1.insert(r, spec_set_push(ids, id)))
    }
}

/// `pv` without the keys `ids`.
pub open spec fn spec_remove_all(pv: Map<Seq<char>, PayoutView>, ids: Seq<Seq<char>>) -> Map<Seq<char>, PayoutView>
    decreases ids.len(),
{
    if ids.len() == 0 {
        pv
    } else {
        spec_remove_all(pv, ids.drop_last()).remove(ids.last())
    }
}

/// Payouts and ID sets after the payouts of each of `recipients` are cleared.
pub open spec fn spec_clear_payouts(
    pv: Map<Seq<char>, PayoutView>,
    sv: Map<Seq<char>, Seq<Seq<char>>>,
    recipients: Seq<Seq<char>>,
) -> (Map<Seq<char>, PayoutView>, Map<Seq<char>, Seq<Seq<char>>>)
    decreases recipients.len(),
{
    if recipients.len() == 0 {
        (pv, sv)
    } else {
        let prev = spec_clear_payouts(pv, sv, recipients.drop_last());
        let a = recipients.last();
        if prev.1.contains_key(a) {
            (spec_remove_all(prev.0, prev.1[a]), prev.1.remove(a))
        } else {
            prev
        }
    }
}

/// Sum of the amounts of `inputs`.
pub open spec fn spec_payouts_total(inputs: Seq<PayoutInput>) -> int
    decreases inputs.len(),
{
    if inputs.len() == 0 { 0 } else { spec_payouts_total(inputs.drop_last()) + inputs.last().amount }
}

impl Contract {
    /// Checks of the payouts `inputs`, in order: each recipient must be
    /// approved, and neither the running total nor the cooldown and
    /// compliance end times may overflow. The running total when all pass.
    pub open spec fn spec_inputs_check(&self, now: u64, inputs: Seq<PayoutInput>) -> Result<int, PotError>
        decreases inputs.len(),
    {
        if inputs.len() == 0 {
            Ok(0)
        } else {
            match self.spec_inputs_check(now, inputs.drop_last()) {
                Err(e) => Err(e),
                Ok(t) => {
                    let x = inputs.last();
                    if !self.approved_application_ids@.contains(x.recipient_id@) {
                        Err(PotError::ProjectNotApproved)
                    } else if t + x.amount > u128::MAX || now + self.cooldown_period_ms > u64::MAX
                        || (self.compliance_period_ms matches Some(c) && now + c > u64::MAX) {
                        Err(PotError::ArithmeticOverflow)
                    } else {
                        Ok(t + x.amount)
                    }
                },
            }
        }
    }

    /// Why `chef_set_payouts` refuses, if it does.
    pub open spec fn spec_set_payouts_check(&self, ctx: CallContext, inputs: Seq<PayoutInput>) -> Result<(), PotError> {
        if self.spec_chef_check(ctx) is Err {
            self.spec_chef_check(ctx)
        } else if !(ctx.block_timestamp_ms >= self.public_round_end_ms) {
            Err(PotError::RoundNotClosed)
        } else if self.all_paid_out {
            Err(PotError::AlreadyPaidOut)
        } else {
            match self.spec_inputs_check(ctx.block_timestamp_ms, inputs) {
                Err(e) => Err(e),
                Ok(t) => if t > self.matching_pool_balance { Err(PotError::PayoutsExceedMatchingPool) } else { Ok(()) },
            }
        }
    }

    /// Sets payouts from the matching pool (chef, admin or owner), after the
    /// round closed and before everything is paid out. With `clear_existing`,
    /// the payouts of every approved project are removed first. Each payout
    /// goes to an approved project under the ID `"{project}:{n}"`; the
    /// cooldown (and compliance period, if any) starts now. The payouts set
    /// by one call never exceed the matching pool balance. Refused, with
    /// nothing changed, as `spec_set_payouts_check` says.
    #[verifier::loop_isolation(false)]
    pub fn chef_set_payouts(&mut self, ctx: &CallContext, payouts: Vec<PayoutInput>, clear_existing: bool) -> (r: Result<(), PotError>)
        requires
            old(self).wf(),
        ensures
            final(self).wf(),
            r is Err ==> *final(self) == *old(self),
            r matches Err(e) ==> old(self).spec_set_payouts_check(*ctx, payouts@) == Err::<(), PotError>(e),
            r is Ok ==> old(self).spec_set_payouts_check(*ctx, payouts@) is Ok,
            r is Ok ==> {
                let base = if clear_existing {
                    spec_clear_payouts(spec_payouts_view(old(self).payouts_by_id@), spec_id_sets_view(old(self).payout_ids_by_recipient_id@), old(self).approved_application_ids@)
                } else {
                    (spec_payouts_view(old(self).payouts_by_id@), spec_id_sets_view(old(self).payout_ids_by_recipient_id@))
                };
                let after = spec_apply_payouts(base.0, base.1, payouts@);
                &&& spec_payouts_total(payouts@) <= old(self).matching_pool_balance
                &&& spec_payouts_view(final(self).payouts_by_id@) == after.0
                &&& spec_id_sets_view(final(self).payout_ids_by_recipient_id@) == after.1
                &&& payouts@.len() > 0 ==> final(self).cooldown_end_ms == Some((ctx.block_timestamp_ms + old(self).cooldown_period_ms) as u64)
                &&& payouts@.len() == 0 ==> final(self).cooldown_end_ms == old(self).cooldown_end_ms
                &&& (payouts@.len() > 0 && old(self).compliance_period_ms is Some) ==> final(self).compliance_end_ms
                    == Some((ctx.block_timestamp_ms + old(self).compliance_period_ms->0) as u64)
                &&& !(payouts@.len() > 0 && old(self).compliance_period_ms is Some) ==> final(self).compliance_end_ms == old(self).compliance_end_ms
                &&& final(self).matching_pool_balance == old(self).matching_pool_balance
                &&& final(self).applications_by_id == old(self).applications_by_id
                &&& final(self).approved_application_ids == old(self).approved_application_ids
                &&& final(self).donations_by_id == old(self).donations_by_id
            },
    {
        self.assert_chef_or_greater(ctx)?;
        self.assert_round_closed(ctx)?;
        if self.all_paid_out {
            return Err(PotError::AlreadyPaidOut);
        }
        let now = ctx.block_timestamp_ms;
        let mut total: u128 = 0;
        let mut i: usize = 0;
        while i < payouts.len()
            invariant
                i <= payouts@.len(),
                self.spec_inputs_check(now, payouts@.subrange(0, i as int)) == Ok::<int, PotError>(total as int),
            decreases payouts@.len() - i,
        {
            assert(payouts@.subrange(0, i + 1).drop_last() =~= payouts@.subrange(0, i as int));
            let x = &payouts[i];
            if !self.approved_application_ids.contains(&x.recipient_id) {
                proof { lemma_inputs_check_err(self, now, payouts@, i as int + 1); }
                return Err(PotError::ProjectNotApproved);
            }
            let compliance_overflow = match self.compliance_period_ms {
                Some(c) => now > u64::MAX - c,
                None => false,
            };
            if total > u128::MAX - x.amount || now > u64::MAX - self.cooldown_period_ms || compliance_overflow {
                proof { lemma_inputs_check_err(self, now, payouts@, i as int + 1); }
                return Err(PotError::ArithmeticOverflow);
            }
            total = total + x.amount;
            i += 1;
        }
        assert(payouts@.subrange(0, payouts@.len() as int) =~= payouts@);
        if total > self.matching_pool_balance {
            return Err(PotError::PayoutsExceedMatchingPool);
        }
        proof { lemma_inputs_total(self, now, payouts@); }
        if clear_existing {
            self.clear_payouts();
        }
        if payouts.len() > 0 {
            self.cooldown_end_ms = Some(now + self.cooldown_period_ms);
            match self.compliance_period_ms {
                Some(c) => {
                    self.compliance_end_ms = Some(now + c);
                },
                None => {},
            }
        }
        self.add_payouts(&payouts);
        Ok(())
    }

    /// Removes the payouts of every approved project, and their ID sets.
    fn clear_payouts(&mut self)
        requires
            old(self).wf(),
        ensures
            final(self).wf(),
            spec_payouts_view(final(self).payouts_by_id@) == spec_clear_payouts(spec_payouts_view(old(self).payouts_by_id@),
                spec_id_sets_view(old(self).payout_ids_by_recipient_id@), old(self).approved_application_ids@).0,
            spec_id_sets_view(final(self).payout_ids_by_recipient_id@) == spec_clear_payouts(spec_payouts_view(old(self).payouts_by_id@),
                spec_id_sets_view(old(self).payout_ids_by_recipient_id@), old(self).approved_application_ids@).1,
            final(self).approved_application_ids == old(self).approved_application_ids,
            final(self).applications_by_id == old(self).applications_by_id,
            final(self).donations_by_id == old(self).donations_by_id,
            final(self).matching_pool_balance == old(self).matching_pool_balance,
            final(self).cooldown_end_ms == old(self).cooldown_end_ms,
            final(self).compliance_end_ms == old(self).compliance_end_ms,
            final(self).compliance_period_ms == old(self).compliance_period_ms,
            final(self).cooldown_period_ms == old(self).cooldown_period_ms,
    {
        let ghost pv0 = spec_payouts_view(self.payouts_by_id@);
        let ghost sv0 = spec_id_sets_view(self.payout_ids_by_recipient_id@);
        let ghost s0 = *self;
        let n = self.approved_application_ids.len();
        let mut i: usize = 0;
        while i < n
            invariant
                self.wf(),
                n == self.approved_application_ids@.len(),
                i <= n,
                self.approved_application_ids == s0.approved_application_ids,
                self.applications_by_id == s0.applications_by_id,
                self.donations_by_id == s0.donations_by_id,
                self.matching_pool_balance == s0.matching_pool_balance,
                self.cooldown_end_ms == s0.cooldown_end_ms,
                self.compliance_end_ms == s0.compliance_end_ms,
                self.compliance_period_ms == s0.compliance_period_ms,
                self.cooldown_period_ms == s0.cooldown_period_ms,
                spec_payouts_view(self.payouts_by_id@) == spec_clear_payouts(pv0, sv0, self.approved_application_ids@.subrange(0, i as int)).0,
                spec_id_sets_view(self.payout_ids_by_recipient_id@) == spec_clear_payouts(pv0, sv0, self.approved_application_ids@.subrange(0, i as int)).1,
            decreases n - i,
        {
            let a = self.approved_application_ids.get(i);
            assert(self.approved_application_ids@.subrange(0, i + 1).drop_last() =~= self.approved_application_ids@.subrange(0, i as int));
            let ids = match self.payout_ids_by_recipient_id.get(&a) {
                Some(set) => Some(set.to_vec()),
                None => None,
            };
            match ids {
                Some(ids) => {
                    let ghost idv = ids@.map_values(|s: String| s@);
                    let ghost pv_start = spec_payouts_view(self.payouts_by_id@);
                    let ghost inner = *self;
                    let mut j: usize = 0;
                    while j < ids.len()
                        invariant
                            self.wf(),
                            self.payout_ids_by_recipient_id == inner.payout_ids_by_recipient_id,
                            self.approved_application_ids == s0.approved_application_ids,
                            self.applications_by_id == s0.applications_by_id,
                            self.donations_by_id == s0.donations_by_id,
                            self.matching_pool_balance == s0.matching_pool_balance,
                            self.cooldown_end_ms == s0.cooldown_end_ms,
                            self.compliance_end_ms == s0.compliance_end_ms,
                            self.compliance_period_ms == s0.compliance_period_ms,
                            self.cooldown_period_ms == s0.cooldown_period_ms,
                            j <= ids@.len(),
                            idv == ids@.map_values(|s: String| s@),
                            spec_payouts_view(self.payouts_by_id@) == spec_remove_all(pv_start, idv.subrange(0, j as int)),
                        decreases ids@.len() - j,
                    {
                        assert(idv.subrange(0, j + 1).drop_last() =~= idv.subrange(0, j as int));
                        self.payouts_by_id.remove(&ids[j]);
                        assert(spec_payouts_view(self.payouts_by_id@) =~= spec_remove_all(pv_start, idv.subrange(0, j as int)).remove(idv[j as int]));
                        j += 1;
                    }
                    assert(idv.subrange(0, ids@.len() as int) =~= idv);
                    self.payout_ids_by_recipient_id.remove(&a);
                    assert(spec_id_sets_view(self.payout_ids_by_recipient_id@) =~=
                        spec_clear_payouts(pv0, sv0, self.approved_application_ids@.subrange(0, i as int)).1.remove(a@));
                },
                None => {},
            }
            i += 1;
        }
        assert(self.approved_application_ids@.subrange(0, n as int) =~= self.approved_application_ids@);
    }

    /// Adds each of `inputs` as a payout (see `spec_apply_payouts`).
    fn add_payouts(&mut self, inputs: &Vec<PayoutInput>)
        requires
            old(self).wf(),
        ensures
            final(self).wf(),
            spec_payouts_view(final(self).payouts_by_id@) == spec_apply_payouts(spec_payouts_view(old(self).payouts_by_id@),
                spec_id_sets_view(old(self).payout_ids_by_recipient_id@), inputs@).0,
            spec_id_sets_view(final(self).payout_ids_by_recipient_id@) == spec_apply_payouts(spec_payouts_view(old(self).payouts_by_id@),
                spec_id_sets_view(old(self).payout_ids_by_recipient_id@), inputs@).1,
            final(self).approved_application_ids == old(self).approved_application_ids,
            final(self).applications_by_id == old(self).applications_by_id,
            final(self).donations_by_id == old(self).donations_by_id,
            final(self).matching_pool_balance == old(self).matching_pool_balance,
            final(self).cooldown_end_ms == old(self).cooldown_end_ms,
            final(self).compliance_end_ms == old(self).compliance_end_ms,
    {
        let ghost pv0 = spec_payouts_view(self.payouts_by_id@);
        let ghost sv0 = spec_id_sets_view(self.payout_ids_by_recipient_id@);
        let ghost s0 = *self;
        let mut i: usize = 0;
        while i < inputs.len()
            invariant
                self.wf(),
                i <= inputs@.len(),
                self.approved_application_ids == s0.approved_application_ids,
                self.applications_by_id == s0.applications_by_id,
                self.donations_by_id == s0.donations_by_id,
                self.matching_pool_balance == s0.matching_pool_balance,
                self.cooldown_end_ms == s0.cooldown_end_ms,
                self.compliance_end_ms == s0.compliance_end_ms,
                spec_payouts_view(self.payouts_by_id@) == spec_apply_payouts(pv0, sv0, inputs@.subrange(0, i as int)).0,
                spec_id_sets_view(self.payout_ids_by_recipient_id@) == spec_apply_payouts(pv0, sv0, inputs@.subrange(0, i as int)).1,
            decreases inputs@.len() - i,
        {
            assert(inputs@.subrange(0, i + 1).drop_last() =~= inputs@.subrange(0, i as int));
            let x = &inputs[i];
            let mut set = match self.payout_ids_by_recipient_id.get(&x.recipient_id) {
                Some(s) => s.copy(),
                None => AccountSet::new(),
            };
            let count = set.len();
            let mut id_chars = chars_of(x.recipient_id.as_str());
            id_chars.push(PROVIDER_ID_DELIMITER);
            let digits = decimal_chars(count as u128 + 1);
            let ghost base = id_chars@;
            let mut k: usize = 0;
            while k < digits.len()
                invariant
                    k <= digits@.len(),
                    id_chars@ == base + digits@.subrange(0, k as int),
                decreases digits@.len() - k,
            {
                id_chars.push(digits[k]);
                k += 1;
                assert(id_chars@ =~= base + digits@.subrange(0, k as int));
            }
            assert(id_chars@ =~= spec_payout_id(x.recipient_id@, (count + 1) as nat));
            let payout_id = string_from_chars(&id_chars);
            let payout = Payout {
                id: payout_id.clone(),
                recipient_id: x.recipient_id.clone(),
                amount: x.amount,
                paid_at: None,
                memo: clone_opt_string(&x.memo),
            };
            set.insert(payout_id.clone());
            let ghost prev_sv = spec_id_sets_view(self.payout_ids_by_recipient_id@);
            let ghost prev_pv = spec_payouts_view(self.payouts_by_id@);
            self.payout_ids_by_recipient_id.insert(x.recipient_id.clone(), set);
            self.payouts_by_id.insert(payout_id, payout);
            assert(spec_id_sets_view(self.payout_ids_by_recipient_id@) =~= prev_sv.insert(x.recipient_id@, spec_set_push(
                if prev_sv.contains_key(x.recipient_id@) { prev_sv[x.recipient_id@] } else { Seq::empty() }, id_chars@)));
            assert(spec_payouts_view(self.payouts_by_id@) =~= prev_pv.insert(id_chars@, (id_chars@, x.recipient_id@, x.amount, None, x.memo)));
            i += 1;
        }
        assert(inputs@.subrange(0, inputs@.len() as int) =~= inputs@);
    }
}

/// A check that fails on a prefix fails on the whole list.
proof fn lemma_inputs_check_err(c: &Contract, now: u64, inputs: Seq<PayoutInput>, i: int)
    requires
        0 < i <= inputs.len(),
        c.spec_inputs_check(now, inputs.subrange(0, i)) is Err,
    ensures
        c.spec_inputs_check(now, inputs) == c.spec_inputs_check(now, inputs.subrange(0, i)),
    decreases inputs.len() - i,
{
    if i < inputs.len() {
        assert(inputs.subrange(0, i + 1).drop_last() =~= inputs.subrange(0, i));
        lemma_inputs_check_err(c, now, inputs, i + 1);
    } else {
        assert(inputs.subrange(0, i) =~= inputs);
    }
}

/// A passing check returns the total of the payouts.
proof fn lemma_inputs_total(c: &Contract, now: u64, inputs: Seq<PayoutInput>)
    requires
        c.spec_inputs_check(now, inputs) is Ok,
    ensures
        c.spec_inputs_check(now, inputs) == Ok::<int, PotError>(spec_payouts_total(inputs)),
    decreases inputs.len(),
{
    if inputs.len() > 0 {
        lemma_inputs_total(c, now, inputs.drop_last());
    }
}

/// A payout transfer to a project; its outcome is reported through
/// `transfer_payout_callback`.
pub struct PayoutTransfer {
    pub transfer: Transfer,
    pub payout: Payout,
}

/// The transfers that pay the unpaid payouts with IDs `ids` (in that order)
/// to `receiver`, in NEAR; `None` when one of the payouts is not stored.
pub open spec fn spec_project_transfers(c: Contract, receiver: String, ids: Seq<Seq<char>>) -> Option<Seq<PayoutTransfer>>
    decreases ids.len(),
{
    if ids.len() == 0 {
        Some(Seq::empty())
    } else {
        match spec_project_transfers(c, receiver, ids.drop_last()) {
            None => None,
            Some(prev) => {
                let k = ids.last();
                if !c.payouts_by_id@.contains_key(k) {
                    None
                } else if c.payouts_by_id@[k].paid_at is None {
                    Some(prev.push(PayoutTransfer {
                        transfer: Transfer { receiver, amount: c.payouts_by_id@[k].amount, ft_id: None },
                        payout: c.payouts_by_id@[k],
                    }))
                } else {
                    Some(prev)
                }
            },
        }
    }
}

/// The payout transfers of the approved projects `projects`, in order: a
/// project not listed in `listed` (when given) is skipped; one without
/// application is refused (`ApplicationNotFound`); the owner, an admin or the
/// chef is skipped; otherwise every unpaid payout filed under the project is
/// paid to the project of its application (`PayoutNotFound` when a filed
/// payout is not stored).
pub open spec fn spec_payout_transfers(c: Contract, listed: Option<Seq<Seq<char>>>, projects: Seq<Seq<char>>) -> Result<Seq<PayoutTransfer>, PotError>
    decreases projects.len(),
{
    if projects.len() == 0 {
        Ok(Seq::empty())
    } else {
        match spec_payout_transfers(c, listed, projects.drop_last()) {
            Err(e) => Err(e),
            Ok(prev) => {
                let p = projects.last();
                if listed matches Some(l) && !l.contains(p) {
                    Ok(prev)
                } else if !c.applications_by_id@.contains_key(p) {
                    Err(PotError::ApplicationNotFound)
                } else if c.spec_is_owner(p) || c.spec_is_admin(p) || c.spec_is_chef(p) {
                    Ok(prev)
                } else if !c.payout_ids_by_recipient_id@.contains_key(p) {
                    Ok(prev)
                } else {
                    match spec_project_transfers(c, c.applications_by_id@[p].project_id, c.payout_ids_by_recipient_id@[p]@) {
                        None => Err(PotError::PayoutNotFound),
                        Some(ts) => Ok(prev + ts),
                    }
                }
            },
        }
    }
}

/// Once a prefix of the payout IDs names a payout that is not stored, so do
/// all the IDs.
proof fn lemma_project_transfers_none(c: Contract, receiver: String, ids: Seq<Seq<char>>, i: int)
    requires
        0 <= i <= ids.len(),
        spec_project_transfers(c, receiver, ids.subrange(0, i)) is None,
    ensures
        spec_project_transfers(c, receiver, ids) is None,
    decreases ids.len() - i,
{
    if i < ids.len() {
        assert(ids.subrange(0, i + 1).drop_last() =~= ids.subrange(0, i));
        lemma_project_transfers_none(c, receiver, ids, i + 1);
    } else {
        assert(ids.subrange(0, i) =~= ids);
    }
}

/// Once a prefix of the projects is refused, all of them are, with the same error.
proof fn lemma_payout_transfers_err(c: Contract, listed: Option<Seq<Seq<char>>>, projects: Seq<Seq<char>>, i: int, e: PotError)
    requires
        0 <= i <= projects.len(),
        spec_payout_transfers(c, listed, projects.subrange(0, i)) == Err::<Seq<PayoutTransfer>, PotError>(e),
    ensures
        spec_payout_transfers(c, listed, projects) == Err::<Seq<PayoutTransfer>, PotError>(e),
    decreases projects.len() - i,
{
    if i < projects.len() {
        assert(projects.subrange(0, i + 1).drop_last() =~= projects.subrange(0, i));
        lemma_payout_transfers_err(c, listed, projects, i + 1, e);
    } else {
        assert(projects.subrange(0, i) =~= projects);
    }
}

impl Contract {
    /// Every payouts challenge is resolved.
    pub open spec fn spec_challenges_resolved(&self) -> bool {
        forall|k: Seq<char>| #[trigger] self.payouts_challenges@.contains_key(k) ==> self.payouts_challenges@[k].resolved
    }

    /// Fails unless every payouts challenge is resolved.
    pub fn assert_all_payouts_challenges_resolved(&self) -> (r: Result<(), PotError>)
        requires
            self.wf(),
        ensures
            r is Ok <==> self.spec_challenges_resolved(),
            r is Err ==> r == Err::<(), PotError>(PotError::ChallengesUnresolved),
    {
        let n = self.payouts_challenges.len();
        proof {
            self.payouts_challenges.lemma_wf();
        }
        let mut i: usize = 0;
        while i < n
            invariant
                self.wf(),
                n == self.payouts_challenges.order().len(),
                i <= n,
                forall|k: Seq<char>| #[trigger] self.payouts_challenges@.contains_key(k) <==> self.payouts_challenges.order().contains(k),
                forall|j: int| 0 <= j < i ==> self.payouts_challenges@[#[trigger] self.payouts_challenges.order()[j]].resolved,
            decreases n - i,
        {
            assert(self.payouts_challenges.order().contains(self.payouts_challenges.order()[i as int]));
            if !self.payouts_challenges.value_at(i).resolved {
                let ghost k = self.payouts_challenges.order()[i as int];
                assert(self.payouts_challenges@.contains_key(k) && !self.payouts_challenges@[k].resolved);
                return Err(PotError::ChallengesUnresolved);
            }
            i += 1;
        }
        proof {
            assert forall|k: Seq<char>| #[trigger] self.payouts_challenges@.contains_key(k) implies self.payouts_challenges@[k].resolved by {
                let j = self.payouts_challenges.order().index_of(k);
                assert(self.payouts_challenges.order()[j] == k);
            }
        }
        Ok(())
    }

    /// The cooldown is under way: it was set and has not ended.
    pub fn assert_cooldown_period_in_process(&self, ctx: &CallContext) -> (r: Result<(), PotError>)
        ensures
            r is Ok <==> (self.cooldown_end_ms matches Some(end) && ctx.block_timestamp_ms < end),
            self.cooldown_end_ms is None ==> r == Err::<(), PotError>(PotError::CooldownNotSet),
            self.cooldown_end_ms is Some && r is Err ==> r == Err::<(), PotError>(PotError::CooldownNotOver),
    {
        match self.cooldown_end_ms {
            Some(end) => if ctx.block_timestamp_ms < end { Ok(()) } else { Err(PotError::CooldownNotOver) },
            None => Err(PotError::CooldownNotSet),
        }
    }

    /// Outcome of a payout transfer: on success the matching pool balance
    /// goes down by its amount and it is stored as paid now; on failure it is
    /// stored as not paid. Refused, with nothing changed, when the balance is
    /// smaller than the amount.
    pub fn transfer_payout_callback(&mut self, ctx: &CallContext, payout: Payout, succeeded: bool) -> (r: Result<(), PotError>)
        requires
            old(self).wf(),
        ensures
            final(self).wf(),
            r is Err ==> *final(self) == *old(self),
            (r is Err) <==> (succeeded && old(self).matching_pool_balance < payout.amount),
            r matches Err(e) ==> e == PotError::ArithmeticOverflow,
            r is Ok ==> {
                let paid_at = if succeeded { Some(ctx.block_timestamp_ms) } else { None };
                &&& final(self).payouts_by_id@ == old(self).payouts_by_id@.insert(payout.id@, Payout { paid_at, ..payout })
                &&& final(self).matching_pool_balance == if succeeded { old(self).matching_pool_balance - payout.amount } else { old(self).matching_pool_balance as int }
                &&& final(self).approved_application_ids == old(self).approved_application_ids
                &&& final(self).applications_by_id == old(self).applications_by_id
            },
    {
        if succeeded {
            if self.matching_pool_balance < payout.amount {
                return Err(PotError::ArithmeticOverflow);
            }
            self.matching_pool_balance = self.matching_pool_balance - payout.amount;
            let id = payout.id.clone();
            self.payouts_by_id.insert(id, Payout { paid_at: Some(ctx.block_timestamp_ms), ..payout });
        } else {
            let id = payout.id.clone();
            self.payouts_by_id.insert(id, Payout { paid_at: None, ..payout });
        }
        Ok(())
    }

    /// Why `admin_process_payouts` refuses before looking at any payout, if it does.
    pub open spec fn spec_process_payouts_check(&self, ctx: CallContext) -> Result<(), PotError> {
        if self.spec_admin_check(ctx) is Err {
            self.spec_admin_check(ctx)
        } else if !(ctx.block_timestamp_ms >= self.public_round_end_ms) {
            Err(PotError::RoundNotClosed)
        } else if self.cooldown_end_ms is None {
            Err(PotError::CooldownNotSet)
        } else if !(self.cooldown_end_ms->0 < ctx.block_timestamp_ms) {
            Err(PotError::CooldownNotOver)
        } else if !self.spec_challenges_resolved() {
            Err(PotError::ChallengesUnresolved)
        } else {
            Ok(())
        }
    }

    /// Pays out every unpaid payout of the approved projects (of those listed
    /// in `project_ids`, when given) once the round closed, the cooldown is
    /// over and every challenge is resolved (admin or owner): one transfer per
    /// unpaid payout, in the order of the approved projects and of each
    /// project's payouts (see `spec_payout_transfers`). Projects that are the
    /// owner, an admin or the chef are skipped. Refused when an approved
    /// project has no application or a filed payout is missing.
    #[verifier::loop_isolation(false)]
    pub fn admin_process_payouts(&self, ctx: &CallContext, project_ids: Option<Vec<String>>) -> (r: Result<Vec<PayoutTransfer>, PotError>)
        requires
            self.wf(),
        ensures
            self.spec_process_payouts_check(*ctx) is Err ==> r == Err::<Vec<PayoutTransfer>, PotError>(self.spec_process_payouts_check(*ctx)->Err_0),
            self.spec_process_payouts_check(*ctx) is Ok ==> {
                let listed = match project_ids { Some(ps) => Some(ps@.map_values(|s: String| s@)), None => None };
                match (r, spec_payout_transfers(*self, listed, self.approved_application_ids@)) {
                    (Ok(v), Ok(s)) => v@ == s,
                    (Err(e1), Err(e2)) => e1 == e2,
                    _ => false,
                }
            },
    {
        self.assert_admin_or_greater(ctx)?;
        self.assert_round_closed(ctx)?;
        self.assert_cooldown_period_complete(ctx)?;
        self.assert_all_payouts_challenges_resolved()?;
        let ghost listed_opt: Option<Seq<Seq<char>>> = match &project_ids { Some(ps) => Some(ps@.map_values(|s: String| s@)), None => None };
        let ghost listed = match &project_ids { Some(ps) => ps@.map_values(|s: String| s@), None => Seq::empty() };
        let ghost projects = self.approved_application_ids@;
        let filter = match &project_ids {
            Some(ps) => Some(crate::collections::AccountSet::from_vec(ps)),
            None => None,
        };
        let mut transfers: Vec<PayoutTransfer> = Vec::new();
        let n = self.approved_application_ids.len();
        let mut i: usize = 0;
        assert(projects.subrange(0, 0) =~= Seq::<Seq<char>>::empty());
        while i < n
            invariant
                self.wf(),
                projects == self.approved_application_ids@,
                n == projects.len(),
                i <= n,
                filter is Some <==> project_ids is Some,
                filter matches Some(f) ==> forall|a: Seq<char>| #[trigger] f@.contains(a) <==> listed.contains(a),
                project_ids matches Some(ps) ==> listed == ps@.map_values(|s: String| s@),
                listed_opt == (match project_ids { Some(ps) => Some(ps@.map_values(|s: String| s@)), None => None::<Seq<Seq<char>>> }),
                spec_payout_transfers(*self, listed_opt, projects.subrange(0, i as int)) == Ok::<Seq<PayoutTransfer>, PotError>(transfers@),
            decreases n - i,
        {
            let ghost before = transfers@;
            let project_id = self.approved_application_ids.get(i);
            proof {
                assert(projects.subrange(0, i + 1).drop_last() =~= projects.subrange(0, i as int));
                assert(projects.subrange(0, i + 1).last() == project_id@);
            }
            let skip = match &filter {
                Some(f) => !f.contains(&project_id),
                None => false,
            };
            if !skip {
                let application_project = match self.applications_by_id.get(&project_id) {
                    None => {
                        proof {
                            lemma_payout_transfers_err(*self, listed_opt, projects, i + 1, PotError::ApplicationNotFound);
                        }
                        return Err(PotError::ApplicationNotFound);
                    },
                    Some(a) => a.project_id.clone(),
                };
                if !(self.is_owner_or_admin(&project_id) || self.is_chef(&project_id)) {
                    match self.payout_ids_by_recipient_id.get(&project_id) {
                        Some(set) => {
                            let ghost ids = set@;
                            let m = set.len();
                            let mut j: usize = 0;
                            assert(ids.subrange(0, 0) =~= Seq::<Seq<char>>::empty());
                            while j < m
                                invariant
                                    self.wf(),
                                    m == ids.len(),
                                    ids == set@,
                                    j <= m,
                                    application_project == self.applications_by_id@[project_id@].project_id,
                                    spec_project_transfers(*self, application_project, ids.subrange(0, j as int)) matches Some(ts)
                                        && transfers@ == before + ts,
                                decreases m - j,
                            {
                                let payout_id = set.get(j);
                                proof {
                                    assert(ids.subrange(0, j + 1).drop_last() =~= ids.subrange(0, j as int));
                                    assert(ids.subrange(0, j + 1).last() == payout_id@);
                                }
                                let payout = match self.payouts_by_id.get(&payout_id) {
                                    None => {
                                        proof {
                                            lemma_project_transfers_none(*self, application_project, ids, j + 1);
                                            lemma_payout_transfers_err(*self, listed_opt, projects, i + 1, PotError::PayoutNotFound);
                                        }
                                        return Err(PotError::PayoutNotFound);
                                    },
                                    Some(p) => p.copy(),
                                };
                                if payout.paid_at.is_none() {
                                    transfers.push(PayoutTransfer {
                                        transfer: Transfer { receiver: application_project.clone(), amount: payout.amount, ft_id: None },
                                        payout,
                                    });
                                    proof {
                                        let ts = spec_project_transfers(*self, application_project, ids.subrange(0, j as int))->Some_0;
                                        assert(transfers@ =~= before + ts.push(transfers@.last()));
                                    }
                                }
                                j += 1;
                            }
                            proof {
                                assert(ids.subrange(0, m as int) =~= ids);
                            }
                        },
                        None => {},
                    }
                }
            }
            i += 1;
        }
        proof {
            assert(projects.subrange(0, n as int) =~= projects);
        }
        Ok(transfers)
    }
}

} // verus!
