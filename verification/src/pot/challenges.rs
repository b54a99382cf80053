//! Challenges of the payouts: raised by anyone during the cooldown (one per
//! account), answered and resolved by admins, and cleared once resolved.
use vstd::prelude::*;
use crate::env::CallContext;
use crate::pot::contract::Contract;
use crate::pot::types::{PayoutsChallenge, PayoutsChallengeExternal, PotError};
use crate::pot::views::spec_limit;
use crate::util::{page, page_bounds, unwrap_or};

verus! {

/// Most resolved challenges one call clears.
pub const CHALLENGE_REMOVAL_LIMIT: usize = 10;

/// `e` is the view form of `c`, made by `challenger_id`.
pub open spec fn spec_is_challenge_external(e: PayoutsChallengeExternal, challenger_id: Seq<char>, c: PayoutsChallenge) -> bool {
    &&& e.challenger_id@ == challenger_id
    &&& e.created_at == c.created_at
    &&& e.reason == c.reason
    &&& e.admin_notes == c.admin_notes
    &&& e.resolved == c.resolved
}

/// The challengers of `order` whose challenge in `m` is resolved, in order.
pub open spec fn spec_resolved_ids(order: Seq<Seq<char>>, m: Map<Seq<char>, PayoutsChallenge>) -> Seq<Seq<char>>
    decreases order.len(),
{
    if order.len() == 0 {
        Seq::empty()
    } else {
        let rest = spec_resolved_ids(order.drop_last(), m);
        if m[order.last()].resolved {
            rest.push(order.last())
        } else {
            rest
        }
    }
}

/// The resolved challengers of a prefix of `order` come first among those of `order`.
proof fn lemma_resolved_prefix(order: Seq<Seq<char>>, m: Map<Seq<char>, PayoutsChallenge>, i: int)
    requires
        0 <= i <= order.len(),
    ensures
        spec_resolved_ids(order.subrange(0, i), m).len() <= spec_resolved_ids(order, m).len(),
        spec_resolved_ids(order.subrange(0, i), m) == spec_resolved_ids(order, m).subrange(
            0, spec_resolved_ids(order.subrange(0, i), m).len() as int),
    decreases order.len() - i,
{
    if i == order.len() {
        assert(order.subrange(0, i) =~= order);
        assert(spec_resolved_ids(order, m).subrange(0, spec_resolved_ids(order, m).len() as int)
            =~= spec_resolved_ids(order, m));
    } else {
        lemma_resolved_prefix(order, m, i + 1);
        let a = spec_resolved_ids(order.subrange(0, i), m);
        let b = spec_resolved_ids(order.subrange(0, i + 1), m);
        assert(order.subrange(0, i + 1).drop_last() =~= order.subrange(0, i));
        let full = spec_resolved_ids(order, m);
        assert(a =~= b.subrange(0, a.len() as int));
        assert(a =~= full.subrange(0, a.len() as int));
    }
}

/// Every resolved challenger is in `order` and is resolved in `m`.
proof fn lemma_resolved_members(order: Seq<Seq<char>>, m: Map<Seq<char>, PayoutsChallenge>)
    ensures
        forall|j: int| 0 <= j < spec_resolved_ids(order, m).len() ==>
            order.contains(#[trigger] spec_resolved_ids(order, m)[j]) && m[spec_resolved_ids(order, m)[j]].resolved,
    decreases order.len(),
{
    if order.len() > 0 {
        lemma_resolved_members(order.drop_last(), m);
        let rest = spec_resolved_ids(order.drop_last(), m);
        assert forall|j: int| 0 <= j < spec_resolved_ids(order, m).len() implies
            order.contains(#[trigger] spec_resolved_ids(order, m)[j]) && m[spec_resolved_ids(order, m)[j]].resolved by {
            if j < rest.len() {
                let k = choose|k: int| 0 <= k < order.drop_last().len() && order.drop_last()[k] == rest[j];
                assert(order[k] == rest[j]);
            } else {
                assert(order[order.len() - 1] == order.last());
            }
        }
    }
}

impl Contract {
    /// Challenges the payouts with `reason`, replacing any earlier challenge
    /// of the caller; only while the cooldown is in process.
    pub fn challenge_payouts(&mut self, ctx: &CallContext, reason: String) -> (r: Result<(), PotError>)
        requires
            old(self).wf(),
        ensures
            final(self).wf(),
            r is Ok <==> (old(self).cooldown_end_ms matches Some(end) && ctx.block_timestamp_ms < end),
            old(self).cooldown_end_ms is None ==> r == Err::<(), PotError>(PotError::CooldownNotSet),
            old(self).cooldown_end_ms is Some && r is Err ==> r == Err::<(), PotError>(PotError::CooldownNotOver),
            r is Err ==> *final(self) == *old(self),
            r is Ok ==> final(self).payouts_challenges@ == old(self).payouts_challenges@.insert(
                ctx.predecessor@,
                PayoutsChallenge { created_at: ctx.block_timestamp_ms, reason, admin_notes: None, resolved: false },
            ),
            r is Ok ==> *final(self) == (Contract { payouts_challenges: final(self).payouts_challenges, ..*old(self) }),
    {
        self.assert_cooldown_period_in_process(ctx)?;
        let challenge = PayoutsChallenge { created_at: ctx.block_timestamp_ms, reason, admin_notes: None, resolved: false };
        self.payouts_challenges.insert(ctx.predecessor.clone(), challenge);
        Ok(())
    }

    /// Withdraws the caller's challenge, if any, while the cooldown is in
    /// process; a resolved challenge cannot be withdrawn.
    pub fn remove_payouts_challenge(&mut self, ctx: &CallContext) -> (r: Result<(), PotError>)
        requires
            old(self).wf(),
        ensures
            final(self).wf(),
            r is Err ==> *final(self) == *old(self),
            r == (match old(self).cooldown_end_ms {
                None => Err(PotError::CooldownNotSet),
                Some(end) => if ctx.block_timestamp_ms >= end {
                    Err(PotError::CooldownNotOver)
                } else if old(self).payouts_challenges@.contains_key(ctx.predecessor@)
                    && old(self).payouts_challenges@[ctx.predecessor@].resolved {
                    Err(PotError::ChallengeResolved)
                } else {
                    Ok(())
                },
            }),
            r is Ok ==> final(self).payouts_challenges@ == old(self).payouts_challenges@.remove(ctx.predecessor@),
            r is Ok ==> *final(self) == (Contract { payouts_challenges: final(self).payouts_challenges, ..*old(self) }),
    {
        self.assert_cooldown_period_in_process(ctx)?;
        let resolved = match self.payouts_challenges.get(&ctx.predecessor) {
            None => {
                assert(old(self).payouts_challenges@.remove(ctx.predecessor@) =~= old(self).payouts_challenges@);
                return Ok(());
            },
            Some(c) => c.resolved,
        };
        if resolved {
            return Err(PotError::ChallengeResolved);
        }
        self.payouts_challenges.remove(&ctx.predecessor);
        Ok(())
    }

    /// A page of the payouts challenges, in storage order.
    pub fn get_payouts_challenges(&self, from_index: Option<u64>, limit: Option<u64>) -> (r: Result<Vec<PayoutsChallengeExternal>, PotError>)
        requires
            self.wf(),
        ensures
            ({
                let ids = self.payouts_challenges.order();
                let start = unwrap_or(from_index, 0);
                let lim = unwrap_or(limit, usize::MAX as u64);
                if ids.len() < start {
                    r == Err::<Vec<PayoutsChallengeExternal>, PotError>(PotError::OutOfBounds)
                } else if lim == 0 {
                    r == Err::<Vec<PayoutsChallengeExternal>, PotError>(PotError::ZeroLimit)
                } else {
                    r matches Ok(v) && ({
                        let pg = page(ids, start as int, lim as usize as int);
                        &&& v@.len() == pg.len()
                        &&& forall|j: int| 0 <= j < pg.len()
                            ==> spec_is_challenge_external(#[trigger] v@[j], pg[j], self.payouts_challenges@[pg[j]])
                    })
                }
            }),
    {
        let start: u64 = match from_index {
            Some(v) => v,
            None => 0,
        };
        proof {
            self.payouts_challenges.lemma_wf();
        }
        let n = self.payouts_challenges.len();
        if (n as u64) < start {
            return Err(PotError::OutOfBounds);
        }
        let lim: u64 = match limit {
            Some(v) => v,
            None => usize::MAX as u64,
        };
        if lim == 0 {
            return Err(PotError::ZeroLimit);
        }
        let (s, e) = page_bounds(n, start as usize, lim as usize);
        let ghost ids = self.payouts_challenges.order();
        let ghost pg = ids.subrange(s as int, e as int);
        assert(page(ids, start as int, lim as usize as int) =~= pg);
        let mut out: Vec<PayoutsChallengeExternal> = Vec::new();
        let mut i = s;
        while i < e
            invariant
                self.wf(),
                s <= i <= e <= n,
                n == ids.len(),
                ids == self.payouts_challenges.order(),
                pg == ids.subrange(s as int, e as int),
                out@.len() == i - s,
                forall|j: int| 0 <= j < i - s ==> spec_is_challenge_external(#[trigger] out@[j], pg[j], self.payouts_challenges@[pg[j]]),
            decreases e - i,
        {
            let challenger_id = self.payouts_challenges.key_at(i);
            let c = self.payouts_challenges.value_at(i);
            out.push(c.to_external(challenger_id));
            i += 1;
        }
        Ok(out)
    }

    /// Adds admin notes to the challenge of `challenger_id` and marks it
    /// resolved or not (admin or owner); `None` keeps the current value.
    pub fn admin_update_payouts_challenge(
        &mut self,
        ctx: &CallContext,
        challenger_id: String,
        notes: Option<String>,
        resolve_challenge: Option<bool>,
    ) -> (r: Result<(), PotError>)
        requires
            old(self).wf(),
        ensures
            final(self).wf(),
            r is Err ==> *final(self) == *old(self),
            r == (if old(self).spec_admin_check(*ctx) is Err {
                old(self).spec_admin_check(*ctx)
            } else if !old(self).payouts_challenges@.contains_key(challenger_id@) {
                Err(PotError::ChallengeNotFound)
            } else {
                Ok(())
            }),
            r is Ok ==> ({
                let c = old(self).payouts_challenges@[challenger_id@];
                final(self).payouts_challenges@ == old(self).payouts_challenges@.insert(challenger_id@, PayoutsChallenge {
                    admin_notes: if notes is Some { notes } else { c.admin_notes },
                    resolved: unwrap_or(resolve_challenge, c.resolved),
                    ..c
                })
            }),
            r is Ok ==> *final(self) == (Contract { payouts_challenges: final(self).payouts_challenges, ..*old(self) }),
    {
        self.assert_admin_or_greater(ctx)?;
        let mut challenge = match self.payouts_challenges.get(&challenger_id) {
            None => return Err(PotError::ChallengeNotFound),
            Some(c) => c.copy(),
        };
        if let Some(n) = notes {
            challenge.admin_notes = Some(n);
        }
        challenge.resolved = match resolve_challenge {
            Some(b) => b,
            None => challenge.resolved,
        };
        self.payouts_challenges.insert(challenger_id, challenge);
        Ok(())
    }

    /// Clears the first `CHALLENGE_REMOVAL_LIMIT` resolved challenges, in
    /// storage order (admin or owner, once the cooldown is over), and
    /// returns their challengers, to whom the freed storage is owed.
    pub fn admin_remove_resolved_payouts_challenges(&mut self, ctx: &CallContext) -> (r: Result<Vec<String>, PotError>)
        requires
            old(self).wf(),
        ensures
            final(self).wf(),
            r is Err ==> *final(self) == *old(self),
            r is Err <==> (old(self).spec_admin_check(*ctx) is Err || !(old(self).cooldown_end_ms matches Some(end)
                && end < ctx.block_timestamp_ms)),
            r matches Err(e) ==> e == (if old(self).spec_admin_check(*ctx) is Err {
                old(self).spec_admin_check(*ctx)->Err_0
            } else if old(self).cooldown_end_ms is None {
                PotError::CooldownNotSet
            } else {
                PotError::CooldownNotOver
            }),
            r matches Ok(ids) ==> ({
                let all = spec_resolved_ids(old(self).payouts_challenges.order(), old(self).payouts_challenges@);
                let removed = if all.len() <= CHALLENGE_REMOVAL_LIMIT { all } else { all.subrange(0, CHALLENGE_REMOVAL_LIMIT as int) };
                &&& ids@.map_values(|s: String| s@) == removed
                &&& forall|k: Seq<char>| #[trigger] final(self).payouts_challenges@.contains_key(k)
                    <==> (old(self).payouts_challenges@.contains_key(k) && !removed.contains(k))
                &&& forall|k: Seq<char>| #[trigger] final(self).payouts_challenges@.contains_key(k)
                    ==> final(self).payouts_challenges@[k] == old(self).payouts_challenges@[k]
                &&& *final(self) == (Contract { payouts_challenges: final(self).payouts_challenges, ..*old(self) })
            }),
    {
        self.assert_admin_or_greater(ctx)?;
        self.assert_cooldown_period_complete(ctx)?;
        proof {
            self.payouts_challenges.lemma_wf();
            lemma_resolved_members(self.payouts_challenges.order(), self.payouts_challenges@);
        }
        let ghost order = self.payouts_challenges.order();
        let ghost m = self.payouts_challenges@;
        let ghost all = spec_resolved_ids(order, m);
        let n = self.payouts_challenges.len();
        let mut to_remove: Vec<String> = Vec::new();
        let mut i: usize = 0;
        while i < n && to_remove.len() < CHALLENGE_REMOVAL_LIMIT
            invariant
                self.wf(),
                *self == *old(self),
                order == self.payouts_challenges.order(),
                m == self.payouts_challenges@,
                all == spec_resolved_ids(order, m),
                n == order.len(),
                i <= n,
                to_remove@.map_values(|s: String| s@) == spec_resolved_ids(order.subrange(0, i as int), m),
                to_remove@.len() <= CHALLENGE_REMOVAL_LIMIT,
            decreases n - i,
        {
            let challenger_id = self.payouts_challenges.key_at(i);
            let resolved = self.payouts_challenges.value_at(i).resolved;
            assert(order.subrange(0, i + 1).drop_last() =~= order.subrange(0, i as int));
            i += 1;
            if resolved {
                to_remove.push(challenger_id);
                assert(to_remove@.map_values(|s: String| s@) =~= spec_resolved_ids(order.subrange(0, i as int), m));
            }
        }
        proof {
            lemma_resolved_prefix(order, m, i as int);
            if i == n {
                assert(order.subrange(0, n as int) =~= order);
            }
            let rm = to_remove@.map_values(|s: String| s@);
            if all.len() <= CHALLENGE_REMOVAL_LIMIT && i < n {
                assert(rm =~= all);
            }
        }
        let ghost removed = to_remove@.map_values(|s: String| s@);
        assert(removed == (if all.len() <= CHALLENGE_REMOVAL_LIMIT { all } else { all.subrange(0, CHALLENGE_REMOVAL_LIMIT as int) }));
        let mut j: usize = 0;
        while j < to_remove.len()
            invariant
                self.wf(),
                *self == (Contract { payouts_challenges: self.payouts_challenges, ..*old(self) }),
                m == old(self).payouts_challenges@,
                removed == to_remove@.map_values(|s: String| s@),
                j <= to_remove@.len(),
                forall|k: Seq<char>| #[trigger] self.payouts_challenges@.contains_key(k)
                    <==> (m.contains_key(k) && !removed.subrange(0, j as int).contains(k)),
                forall|k: Seq<char>| #[trigger] self.payouts_challenges@.contains_key(k) ==> self.payouts_challenges@[k] == m[k],
            decreases to_remove@.len() - j,
        {
            assert(to_remove@[j as int]@ == removed[j as int]);
            self.payouts_challenges.remove(&to_remove[j]);
            proof {
                crate::util::lemma_prefix_contains(removed, j as int);
            }
            j += 1;
        }
        assert(removed.subrange(0, removed.len() as int) =~= removed);
        Ok(to_remove)
    }
}

/// A challenge withdrawn is undone: when an account with no challenge
/// challenges the payouts (`challenge_payouts` adds its challenge) and then
/// withdraws it (`remove_payouts_challenge`), the challenges are as before.
pub proof fn lemma_challenge_withdrawn(before: Map<Seq<char>, PayoutsChallenge>, challenger: Seq<char>, challenge: PayoutsChallenge)
    requires
        !before.contains_key(challenger),
    ensures
        before.insert(challenger, challenge).remove(challenger) == before,
{
    assert(before.insert(challenger, challenge).remove(challenger) =~= before);
}

} // verus!
