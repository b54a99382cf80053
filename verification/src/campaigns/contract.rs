//! State of the campaigns contract, its configuration, ownership and the
//! lifecycle of campaign records.
use vstd::prelude::*;
use crate::campaigns::logic::{
    apply_campaign_update, new_creator_fee, new_referral_fee, spec_new_creator_fee,
    spec_new_referral_fee, spec_update_campaign, CampaignUpdate,
};
use crate::campaigns::types::{
    format_campaign, spec_format_campaign, Balance, Campaign, CampaignError, CampaignExternal,
    CampaignId, Config, Donation, DonationId, TimestampMs,
};
use crate::campaigns::validation::{
    assert_valid_creator_fee_basis_points, assert_valid_protocol_fee_basis_points,
    assert_valid_referral_fee_basis_points, MAX_CREATOR_FEE_BASIS_POINTS,
    MAX_PROTOCOL_FEE_BASIS_POINTS, MAX_REFERRAL_FEE_BASIS_POINTS,
};
use crate::collections::{
    account_sets_add, account_sets_del, lemma_set_add_then_del, account_sets_wf, id_sets_wf, set_add, set_del, AccountMap,
    AccountSet, IdMap, IdSet,
};
use crate::env::CallContext;
use crate::util::{lemma_prefix_contains, page, page_bounds, unwrap_or};

verus! {

broadcast use vstd::seq_lib::group_seq_properties;

/// The campaigns contract.
pub struct Contract {
    pub owner: String,
    pub admins: AccountSet,
    pub protocol_fee_basis_points: u32,
    pub protocol_fee_recipient_account: String,
    pub default_referral_fee_basis_points: u32,
    pub default_creator_fee_basis_points: u32,
    pub next_campaign_id: CampaignId,
    pub campaigns_by_id: IdMap<Campaign>,
    pub campaign_ids_by_owner: AccountMap<IdSet>,
    pub campaign_ids_by_recipient: AccountMap<IdSet>,
    pub next_donation_id: DonationId,
    pub donations_by_id: IdMap<Donation>,
    pub escrowed_donation_ids_by_campaign_id: IdMap<IdSet>,
    pub unescrowed_donation_ids_by_campaign_id: IdMap<IdSet>,
    pub returned_donation_ids_by_campaign_id: IdMap<IdSet>,
    pub donation_ids_by_donor_id: AccountMap<IdSet>,
    pub storage_deposits: AccountMap<Balance>,
}

/// The new campaign that `create_campaign` stores.
pub open spec fn spec_new_campaign(
    ctx: CallContext,
    name: String,
    description: Option<String>,
    cover_image_url: Option<String>,
    recipient: String,
    start_ms: TimestampMs,
    end_ms: Option<TimestampMs>,
    ft_id: Option<String>,
    target_amount: u128,
    min_amount: Option<u128>,
    max_amount: Option<u128>,
    referral_fee_basis_points: u32,
    creator_fee_basis_points: u32,
    allow_fee_avoidance: Option<bool>,
) -> Campaign {
    Campaign {
        owner: ctx.predecessor,
        name,
        description,
        cover_image_url,
        recipient,
        start_ms,
        end_ms,
        created_ms: ctx.block_timestamp_ms,
        ft_id,
        target_amount,
        min_amount,
        max_amount,
        total_raised_amount: 0,
        net_raised_amount: 0,
        escrow_balance: 0,
        referral_fee_basis_points,
        creator_fee_basis_points,
        allow_fee_avoidance: unwrap_or(allow_fee_avoidance, false),
    }
}

impl Contract {
    /// All collections are well formed.
    pub open spec fn wf(&self) -> bool {
        &&& self.admins.wf()
        &&& self.campaigns_by_id.wf()
        &&& self.campaign_ids_by_owner.wf()
        &&& account_sets_wf(self.campaign_ids_by_owner@)
        &&& self.campaign_ids_by_recipient.wf()
        &&& account_sets_wf(self.campaign_ids_by_recipient@)
        &&& self.donations_by_id.wf()
        &&& self.escrowed_donation_ids_by_campaign_id.wf()
        &&& id_sets_wf(self.escrowed_donation_ids_by_campaign_id@)
        &&& self.unescrowed_donation_ids_by_campaign_id.wf()
        &&& id_sets_wf(self.unescrowed_donation_ids_by_campaign_id@)
        &&& self.returned_donation_ids_by_campaign_id.wf()
        &&& id_sets_wf(self.returned_donation_ids_by_campaign_id@)
        &&& self.donation_ids_by_donor_id.wf()
        &&& account_sets_wf(self.donation_ids_by_donor_id@)
        &&& self.storage_deposits.wf()
    }

    /// The caller is the contract owner.
    pub open spec fn spec_is_owner(&self, ctx: CallContext) -> bool {
        ctx.predecessor@ == self.owner@
    }

    /// The caller is the contract owner or one of its admins.
    pub open spec fn spec_is_admin_or_greater(&self, ctx: CallContext) -> bool {
        self.spec_is_owner(ctx) || self.admins@.contains(ctx.predecessor@)
    }

    /// Owner check of privileged calls (which must also carry at least one yoctoNEAR).
    pub open spec fn spec_owner_check(&self, ctx: CallContext) -> Result<(), CampaignError> {
        if !self.spec_is_owner(ctx) {
            Err(CampaignError::OwnerOnly)
        } else if ctx.attached_deposit < 1 {
            Err(CampaignError::DepositRequired)
        } else {
            Ok(())
        }
    }

    /// Admin check of privileged calls (which must also carry at least one yoctoNEAR).
    pub open spec fn spec_admin_check(&self, ctx: CallContext) -> Result<(), CampaignError> {
        if !self.spec_is_admin_or_greater(ctx) {
            Err(CampaignError::AdminOnly)
        } else if ctx.attached_deposit < 1 {
            Err(CampaignError::DepositRequired)
        } else {
            Ok(())
        }
    }

    /// Check that the caller owns campaign `campaign_id`.
    pub open spec fn spec_campaign_owner_check(&self, ctx: CallContext, campaign_id: CampaignId) -> Result<
        (),
        CampaignError,
    > {
        if !self.campaigns_by_id@.contains_key(campaign_id) {
            Err(CampaignError::CampaignNotFound)
        } else if ctx.predecessor@ != self.campaigns_by_id@[campaign_id].owner@ {
            Err(CampaignError::OwnerOnly)
        } else {
            Ok(())
        }
    }

    /// A contract with no campaigns, donations or admins.
    pub fn new(
        owner: String,
        protocol_fee_basis_points: u32,
        protocol_fee_recipient_account: String,
        default_referral_fee_basis_points: u32,
        default_creator_fee_basis_points: u32,
    ) -> (c: Self)
        ensures
            c.wf(),
            c.owner == owner,
            c.admins@.len() == 0,
            c.protocol_fee_basis_points == protocol_fee_basis_points,
            c.protocol_fee_recipient_account == protocol_fee_recipient_account,
            c.default_referral_fee_basis_points == default_referral_fee_basis_points,
            c.default_creator_fee_basis_points == default_creator_fee_basis_points,
            c.next_campaign_id == 1,
            c.next_donation_id == 1,
            c.campaigns_by_id@ == Map::<CampaignId, Campaign>::empty(),
            c.donations_by_id@ == Map::<DonationId, Donation>::empty(),
            c.storage_deposits@ == Map::<Seq<char>, Balance>::empty(),
            c.escrowed_donation_ids_by_campaign_id@ == Map::<CampaignId, IdSet>::empty(),
            c.unescrowed_donation_ids_by_campaign_id@ == Map::<CampaignId, IdSet>::empty(),
            c.returned_donation_ids_by_campaign_id@ == Map::<CampaignId, IdSet>::empty(),
    {
        let c = Contract {
            owner,
            admins: AccountSet::new(),
            protocol_fee_basis_points,
            protocol_fee_recipient_account,
            default_referral_fee_basis_points,
            default_creator_fee_basis_points,
            next_campaign_id: 1,
            campaigns_by_id: IdMap::new(),
            campaign_ids_by_owner: AccountMap::new(),
            campaign_ids_by_recipient: AccountMap::new(),
            next_donation_id: 1,
            donations_by_id: IdMap::new(),
            escrowed_donation_ids_by_campaign_id: IdMap::new(),
            unescrowed_donation_ids_by_campaign_id: IdMap::new(),
            returned_donation_ids_by_campaign_id: IdMap::new(),
            donation_ids_by_donor_id: AccountMap::new(),
            storage_deposits: AccountMap::new(),
        };
        c
    }

    /// Test configuration: `owner` is also the fee recipient, and all rates are 1%.
    pub fn new_default_meta(owner: String) -> (c: Self)
        ensures
            c.wf(),
            c.owner == owner,
            c.protocol_fee_recipient_account == owner,
            c.protocol_fee_basis_points == 100,
            c.default_referral_fee_basis_points == 100,
            c.default_creator_fee_basis_points == 100,
            c.next_campaign_id == 1,
            c.campaigns_by_id@ == Map::<CampaignId, Campaign>::empty(),
            c.donations_by_id@ == Map::<DonationId, Donation>::empty(),
    {
        let recipient = owner.clone();
        Self::new(owner, 100, recipient, 100, 100)
    }

    pub fn get_config(&self) -> (config: Config)
        requires
            self.wf(),
        ensures
            config.owner == self.owner,
            config.admins@.map_values(|s: String| s@) == self.admins@,
            config.protocol_fee_basis_points == self.protocol_fee_basis_points,
            config.protocol_fee_recipient_account == self.protocol_fee_recipient_account,
            config.default_referral_fee_basis_points == self.default_referral_fee_basis_points,
            config.default_creator_fee_basis_points == self.default_creator_fee_basis_points,
            config.total_campaigns_count as int == self.campaigns_by_id.order().len() as u32 as int,
            config.total_donations_count as int == self.donations_by_id.order().len() as u32 as int,
    {
        Config {
            owner: self.owner.clone(),
            admins: self.admins.to_vec(),
            protocol_fee_basis_points: self.protocol_fee_basis_points,
            protocol_fee_recipient_account: self.protocol_fee_recipient_account.clone(),
            default_referral_fee_basis_points: self.default_referral_fee_basis_points,
            default_creator_fee_basis_points: self.default_creator_fee_basis_points,
            total_campaigns_count: self.campaigns_by_id.len() as u32,
            total_donations_count: self.donations_by_id.len() as u32,
        }
    }

    pub fn assert_contract_owner(&self, ctx: &CallContext) -> (r: Result<(), CampaignError>)
        ensures
            r == self.spec_owner_check(*ctx),
    {
        if ctx.predecessor != self.owner {
            return Err(CampaignError::OwnerOnly);
        }
        if ctx.attached_deposit < 1 {
            return Err(CampaignError::DepositRequired);
        }
        Ok(())
    }

    pub fn assert_contract_admin_or_greater(&self, ctx: &CallContext) -> (r: Result<
        (),
        CampaignError,
    >)
        requires
            self.wf(),
        ensures
            r == self.spec_admin_check(*ctx),
    {
        if !(ctx.predecessor == self.owner || self.admins.contains(&ctx.predecessor)) {
            return Err(CampaignError::AdminOnly);
        }
        if ctx.attached_deposit < 1 {
            return Err(CampaignError::DepositRequired);
        }
        Ok(())
    }

    pub fn assert_campaign_owner(&self, ctx: &CallContext, campaign_id: CampaignId) -> (r: Result<
        (),
        CampaignError,
    >)
        requires
            self.wf(),
        ensures
            r == self.spec_campaign_owner_check(*ctx, campaign_id),
    {
        match self.campaigns_by_id.get(campaign_id) {
            None => Err(CampaignError::CampaignNotFound),
            Some(c) => if ctx.predecessor != c.owner {
                Err(CampaignError::OwnerOnly)
            } else {
                Ok(())
            },
        }
    }

    pub fn get_owner(&self) -> (owner: String)
        ensures
            owner == self.owner,
    {
        self.owner.clone()
    }

    /// Hands ownership to `owner` (owner only).
    pub fn owner_change_owner(&mut self, ctx: &CallContext, owner: String) -> (r: Result<
        (),
        CampaignError,
    >)
        requires
            old(self).wf(),
        ensures
            final(self).wf(),
            r == old(self).spec_owner_check(*ctx),
            r is Ok ==> *final(self) == (Contract { owner, ..*old(self) }),
            r is Err ==> *final(self) == *old(self),
    {
        self.assert_contract_owner(ctx)?;
        self.owner = owner;
        Ok(())
    }

    /// Adds admins (owner only).
    pub fn owner_add_admins(&mut self, ctx: &CallContext, admins: Vec<String>) -> (r: Result<
        (),
        CampaignError,
    >)
        requires
            old(self).wf(),
        ensures
            final(self).wf(),
            r == old(self).spec_owner_check(*ctx),
            r is Err ==> *final(self) == *old(self),
            r is Ok ==> forall|a: Seq<char>| #[trigger] final(self).admins@.contains(a) <==> (
            old(self).admins@.contains(a) || admins@.map_values(|s: String| s@).contains(a)),
    {
        self.assert_contract_owner(ctx)?;
        let ghost before = self.admins@;
        let ghost added = admins@.map_values(|s: String| s@);
        let mut i: usize = 0;
        while i < admins.len()
            invariant
                self.wf(),
                i <= admins.len(),
                added == admins@.map_values(|s: String| s@),
                forall|a: Seq<char>| #[trigger] self.admins@.contains(a) <==> (before.contains(a) || added.subrange(0, i as int).contains(a)),
            decreases admins.len() - i,
        {
            let a = admins[i].clone();
            assert(a@ == added[i as int]);
            let ghost prev = self.admins@;
            self.admins.insert(a);
            assert(forall|x: Seq<char>| #[trigger] self.admins@.contains(x) <==> (prev.contains(x) || x == added[i as int]));
            proof {
                lemma_prefix_contains(added, i as int);
            }
            i += 1;
        }
        assert(added.subrange(0, admins.len() as int) =~= added);
        Ok(())
    }

    /// Removes admins (owner only).
    pub fn owner_remove_admins(&mut self, ctx: &CallContext, admins: Vec<String>) -> (r: Result<
        (),
        CampaignError,
    >)
        requires
            old(self).wf(),
        ensures
            final(self).wf(),
            r == old(self).spec_owner_check(*ctx),
            r is Err ==> *final(self) == *old(self),
            r is Ok ==> forall|a: Seq<char>| #[trigger] final(self).admins@.contains(a) <==> (
            old(self).admins@.contains(a) && !admins@.map_values(|s: String| s@).contains(a)),
    {
        self.assert_contract_owner(ctx)?;
        let ghost before = self.admins@;
        let ghost removed = admins@.map_values(|s: String| s@);
        let mut i: usize = 0;
        while i < admins.len()
            invariant
                self.wf(),
                i <= admins.len(),
                removed == admins@.map_values(|s: String| s@),
                forall|a: Seq<char>| #[trigger] self.admins@.contains(a) <==> (before.contains(a) && !removed.subrange(0, i as int).contains(a)),
            decreases admins.len() - i,
        {
            assert(admins@[i as int]@ == removed[i as int]);
            self.admins.remove(&admins[i]);
            proof {
                lemma_prefix_contains(removed, i as int);
            }
            i += 1;
        }
        assert(removed.subrange(0, admins.len() as int) =~= removed);
        Ok(())
    }

    /// Removes every admin (owner only).
    pub fn owner_clear_admins(&mut self, ctx: &CallContext) -> (r: Result<(), CampaignError>)
        requires
            old(self).wf(),
        ensures
            final(self).wf(),
            r == old(self).spec_owner_check(*ctx),
            r is Err ==> *final(self) == *old(self),
            r is Ok ==> final(self).admins@.len() == 0,
            r is Ok ==> final(self).owner == old(self).owner,
    {
        self.assert_contract_owner(ctx)?;
        self.admins.clear();
        Ok(())
    }

    /// Sets the protocol fee rate (admin or owner; at most 10%).
    pub fn admin_set_protocol_fee_basis_points(
        &mut self,
        ctx: &CallContext,
        protocol_fee_basis_points: u32,
    ) -> (r: Result<(), CampaignError>)
        requires
            old(self).wf(),
        ensures
            final(self).wf(),
            r is Ok <==> (old(self).spec_admin_check(*ctx) is Ok && protocol_fee_basis_points
                <= MAX_PROTOCOL_FEE_BASIS_POINTS),
            old(self).spec_admin_check(*ctx) is Err ==> r == old(self).spec_admin_check(*ctx),
            old(self).spec_admin_check(*ctx) is Ok && protocol_fee_basis_points
                > MAX_PROTOCOL_FEE_BASIS_POINTS ==> r == Err::<(), CampaignError>(
                CampaignError::ProtocolFeeTooHigh,
            ),
            r is Ok ==> *final(self) == (Contract { protocol_fee_basis_points, ..*old(self) }),
            r is Err ==> *final(self) == *old(self),
    {
        self.assert_contract_admin_or_greater(ctx)?;
        assert_valid_protocol_fee_basis_points(protocol_fee_basis_points)?;
        self.protocol_fee_basis_points = protocol_fee_basis_points;
        Ok(())
    }

    /// Sets the default referral fee rate of new campaigns (admin or owner; at most 10%).
    pub fn admin_set_referral_fee_basis_points(
        &mut self,
        ctx: &CallContext,
        referral_fee_basis_points: u32,
    ) -> (r: Result<(), CampaignError>)
        requires
            old(self).wf(),
        ensures
            final(self).wf(),
            r is Ok <==> (old(self).spec_admin_check(*ctx) is Ok && referral_fee_basis_points
                <= MAX_REFERRAL_FEE_BASIS_POINTS),
            old(self).spec_admin_check(*ctx) is Err ==> r == old(self).spec_admin_check(*ctx),
            old(self).spec_admin_check(*ctx) is Ok && referral_fee_basis_points
                > MAX_REFERRAL_FEE_BASIS_POINTS ==> r == Err::<(), CampaignError>(
                CampaignError::ReferralFeeTooHigh,
            ),
            r is Ok ==> *final(self) == (Contract {
                default_referral_fee_basis_points: referral_fee_basis_points,
                ..*old(self)
            }),
            r is Err ==> *final(self) == *old(self),
    {
        self.assert_contract_admin_or_greater(ctx)?;
        assert_valid_referral_fee_basis_points(referral_fee_basis_points)?;
        self.default_referral_fee_basis_points = referral_fee_basis_points;
        Ok(())
    }

    /// Sets the default creator fee rate of new campaigns (admin or owner; at most 10%).
    pub fn admin_set_creator_fee_basis_points(
        &mut self,
        ctx: &CallContext,
        creator_fee_basis_points: u32,
    ) -> (r: Result<(), CampaignError>)
        requires
            old(self).wf(),
        ensures
            final(self).wf(),
            r is Ok <==> (old(self).spec_admin_check(*ctx) is Ok && creator_fee_basis_points
                <= MAX_CREATOR_FEE_BASIS_POINTS),
            old(self).spec_admin_check(*ctx) is Err ==> r == old(self).spec_admin_check(*ctx),
            old(self).spec_admin_check(*ctx) is Ok && creator_fee_basis_points
                > MAX_CREATOR_FEE_BASIS_POINTS ==> r == Err::<(), CampaignError>(
                CampaignError::CreatorFeeTooHigh,
            ),
            r is Ok ==> *final(self) == (Contract {
                default_creator_fee_basis_points: creator_fee_basis_points,
                ..*old(self)
            }),
            r is Err ==> *final(self) == *old(self),
    {
        self.assert_contract_admin_or_greater(ctx)?;
        assert_valid_creator_fee_basis_points(creator_fee_basis_points)?;
        self.default_creator_fee_basis_points = creator_fee_basis_points;
        Ok(())
    }

    /// Sets the account that receives protocol fees (admin or owner).
    pub fn admin_set_protocol_fee_recipient_account(
        &mut self,
        ctx: &CallContext,
        protocol_fee_recipient_account: String,
    ) -> (r: Result<(), CampaignError>)
        requires
            old(self).wf(),
        ensures
            final(self).wf(),
            r == old(self).spec_admin_check(*ctx),
            r is Ok ==> *final(self) == (Contract { protocol_fee_recipient_account, ..*old(self) }),
            r is Err ==> *final(self) == *old(self),
    {
        self.assert_contract_admin_or_greater(ctx)?;
        self.protocol_fee_recipient_account = protocol_fee_recipient_account;
        Ok(())
    }
}


/// IDs of the donations a campaign holds, escrowed first, then paid out.
pub open spec fn spec_campaign_donation_ids(
    escrowed: Map<CampaignId, IdSet>,
    unescrowed: Map<CampaignId, IdSet>,
    campaign_id: CampaignId,
) -> Seq<DonationId> {
    (if escrowed.contains_key(campaign_id) {
        escrowed[campaign_id]@
    } else {
        Seq::empty()
    }) + (if unescrowed.contains_key(campaign_id) {
        unescrowed[campaign_id]@
    } else {
        Seq::empty()
    })
}

/// The set stored under account `k`, or the empty sequence.
pub open spec fn account_ids(m: Map<Seq<char>, IdSet>, k: Seq<char>) -> Seq<u64> {
    if m.contains_key(k) {
        m[k]@
    } else {
        Seq::empty()
    }
}

/// Limit of a page request: `limit`, or no limit when absent.
pub open spec fn spec_limit(limit: Option<u128>) -> usize {
    match limit {
        Some(v) => v as usize,
        None => usize::MAX,
    }
}

pub fn limit_of(limit: Option<u128>) -> (l: usize)
    ensures
        l == spec_limit(limit),
{
    match limit {
        Some(v) => v as usize,
        None => usize::MAX,
    }
}

impl Contract {
    /// Result of a paged view of campaigns with IDs `ids`.
    pub open spec fn spec_campaigns_page(&self, ids: Seq<u64>, from_index: Option<u128>, limit: Option<u128>) -> Result<
        Seq<CampaignExternal>,
        CampaignError,
    > {
        let start = unwrap_or(from_index, 0);
        let lim = spec_limit(limit);
        let p = page(ids, start as int, lim as int);
        if (ids.len() as u128) < start {
            Err(CampaignError::OutOfBounds)
        } else if lim == 0 {
            Err(CampaignError::ZeroLimit)
        } else if exists|j: int| 0 <= j < p.len() && !self.campaigns_by_id@.contains_key(#[trigger] p[j]) {
            Err(CampaignError::CampaignNotFound)
        } else {
            Ok(p.map_values(|id: u64| spec_format_campaign(id, self.campaigns_by_id@[id])))
        }
    }

    fn campaigns_page(&self, ids: &Vec<u64>, from_index: Option<u128>, limit: Option<u128>) -> (r: Result<
        Vec<CampaignExternal>,
        CampaignError,
    >)
        requires
            self.wf(),
        ensures
            match (r, self.spec_campaigns_page(ids@, from_index, limit)) {
                (Ok(v), Ok(s)) => v@ == s,
                (Err(e1), Err(e2)) => e1 == e2,
                _ => false,
            },
    {
        let start: u128 = match from_index {
            Some(v) => v,
            None => 0,
        };
        if (ids.len() as u128) < start {
            return Err(CampaignError::OutOfBounds);
        }
        let lim = limit_of(limit);
        if lim == 0 {
            return Err(CampaignError::ZeroLimit);
        }
        let (s, e) = page_bounds(ids.len(), start as usize, lim);
        let ghost p = page(ids@, start as int, lim as int);
        assert(p =~= ids@.subrange(s as int, e as int));
        let mut out: Vec<CampaignExternal> = Vec::new();
        let mut i = s;
        while i < e
            invariant
                self.wf(),
                s <= i <= e <= ids.len(),
                p == ids@.subrange(s as int, e as int),
                p == page(ids@, start as int, lim as int),
                lim == spec_limit(limit),
                lim != 0,
                start == unwrap_or(from_index, 0),
                !((ids@.len() as u128) < start),
                out@.len() == i - s,
                forall|j: int| 0 <= j < i - s ==> self.campaigns_by_id@.contains_key(#[trigger] p[j]),
                forall|j: int| 0 <= j < i - s ==> #[trigger] out@[j] == spec_format_campaign(p[j], self.campaigns_by_id@[p[j]]),
            decreases e - i,
        {
            let id = ids[i];
            match self.campaigns_by_id.get(id) {
                None => {
                    assert(p[i - s] == id);
                    assert(0 <= i - s < p.len() && !self.campaigns_by_id@.contains_key(p[(i - s) as int]));
                    assert(exists|j: int| 0 <= j < p.len() && !self.campaigns_by_id@.contains_key(#[trigger] p[j]));
                    assert(p == page(ids@, start as int, lim as int));
                    assert(self.spec_campaigns_page(ids@, from_index, limit) == Err::<Seq<CampaignExternal>, CampaignError>(CampaignError::CampaignNotFound));
                    return Err(CampaignError::CampaignNotFound);
                },
                Some(c) => {
                    out.push(format_campaign(&id, c));
                },
            }
            i += 1;
        }
        assert(out@ =~= p.map_values(|id: u64| spec_format_campaign(id, self.campaigns_by_id@[id])));
        Ok(out)
    }

    /// What storing campaign `c` under the new ID `id` does from `self` to
    /// `n`: the campaign is recorded, its ID joins the sets of its owner and
    /// of its recipient, and it gets empty donation ID sets.
    pub open spec fn spec_campaign_added(&self, n: Contract, id: CampaignId, c: Campaign) -> bool {
        &&& n.campaigns_by_id@ == self.campaigns_by_id@.insert(id, c)
        &&& n.campaign_ids_by_owner@[c.owner@]@ == set_add(account_ids(self.campaign_ids_by_owner@, c.owner@), id)
        &&& n.campaign_ids_by_recipient@[c.recipient@]@ == set_add(account_ids(self.campaign_ids_by_recipient@, c.recipient@), id)
        &&& n.escrowed_donation_ids_by_campaign_id@ == self.escrowed_donation_ids_by_campaign_id@.insert(id, n.escrowed_donation_ids_by_campaign_id@[id])
        &&& n.unescrowed_donation_ids_by_campaign_id@ == self.unescrowed_donation_ids_by_campaign_id@.insert(id, n.unescrowed_donation_ids_by_campaign_id@[id])
        &&& n.returned_donation_ids_by_campaign_id@ == self.returned_donation_ids_by_campaign_id@.insert(id, n.returned_donation_ids_by_campaign_id@[id])
        &&& n.escrowed_donation_ids_by_campaign_id@[id]@.len() == 0
        &&& n.unescrowed_donation_ids_by_campaign_id@[id]@.len() == 0
        &&& n.returned_donation_ids_by_campaign_id@[id]@.len() == 0
        &&& n.donations_by_id == self.donations_by_id
    }

    /// What deleting campaign `id` does from `self` to `n`: the campaign,
    /// its ID in the sets of its owner and recipient, and its donation ID
    /// sets are removed.
    pub open spec fn spec_campaign_removed(&self, n: Contract, id: CampaignId) -> bool {
        let c = self.campaigns_by_id@[id];
        &&& n.campaigns_by_id@ == self.campaigns_by_id@.remove(id)
        &&& n.campaign_ids_by_owner@[c.owner@]@ == set_del(self.campaign_ids_by_owner@[c.owner@]@, id)
        &&& n.campaign_ids_by_recipient@[c.recipient@]@ == set_del(self.campaign_ids_by_recipient@[c.recipient@]@, id)
        &&& n.escrowed_donation_ids_by_campaign_id@ == self.escrowed_donation_ids_by_campaign_id@.remove(id)
        &&& n.unescrowed_donation_ids_by_campaign_id@ == self.unescrowed_donation_ids_by_campaign_id@.remove(id)
        &&& n.returned_donation_ids_by_campaign_id@ == self.returned_donation_ids_by_campaign_id@.remove(id)
        &&& n.donations_by_id == self.donations_by_id
    }

    /// Stores a new campaign and its index entries.
    fn internal_insert_new_campaign_record(&mut self, campaign_id: CampaignId, campaign: Campaign)
        requires
            old(self).wf(),
        ensures
            final(self).wf(),
            final(self).campaigns_by_id@ == old(self).campaigns_by_id@.insert(campaign_id, campaign),
            final(self).campaign_ids_by_owner@[campaign.owner@]@ == set_add(
                account_ids(old(self).campaign_ids_by_owner@, campaign.owner@),
                campaign_id,
            ),
            final(self).campaign_ids_by_recipient@[campaign.recipient@]@ == set_add(
                account_ids(old(self).campaign_ids_by_recipient@, campaign.recipient@),
                campaign_id,
            ),
            final(self).escrowed_donation_ids_by_campaign_id@ == old(self).escrowed_donation_ids_by_campaign_id@.insert(campaign_id, final(self).escrowed_donation_ids_by_campaign_id@[campaign_id]),
            final(self).unescrowed_donation_ids_by_campaign_id@ == old(self).unescrowed_donation_ids_by_campaign_id@.insert(campaign_id, final(self).unescrowed_donation_ids_by_campaign_id@[campaign_id]),
            final(self).returned_donation_ids_by_campaign_id@ == old(self).returned_donation_ids_by_campaign_id@.insert(campaign_id, final(self).returned_donation_ids_by_campaign_id@[campaign_id]),
            final(self).escrowed_donation_ids_by_campaign_id@[campaign_id]@.len() == 0,
            final(self).unescrowed_donation_ids_by_campaign_id@[campaign_id]@.len() == 0,
            final(self).returned_donation_ids_by_campaign_id@[campaign_id]@.len() == 0,
            final(self).donations_by_id == old(self).donations_by_id,
            final(self).donation_ids_by_donor_id == old(self).donation_ids_by_donor_id,
            final(self).storage_deposits == old(self).storage_deposits,
            final(self).owner == old(self).owner,
            final(self).admins == old(self).admins,
            final(self).protocol_fee_basis_points == old(self).protocol_fee_basis_points,
            final(self).protocol_fee_recipient_account == old(self).protocol_fee_recipient_account,
            final(self).default_referral_fee_basis_points == old(self).default_referral_fee_basis_points,
            final(self).default_creator_fee_basis_points == old(self).default_creator_fee_basis_points,
            final(self).next_campaign_id == old(self).next_campaign_id,
            final(self).next_donation_id == old(self).next_donation_id,
    {
        let owner = campaign.owner.clone();
        let recipient = campaign.recipient.clone();
        self.campaigns_by_id.insert(campaign_id, campaign);
        account_sets_add(&mut self.campaign_ids_by_owner, &owner, campaign_id);
        account_sets_add(&mut self.campaign_ids_by_recipient, &recipient, campaign_id);
        self.escrowed_donation_ids_by_campaign_id.insert(campaign_id, IdSet::new());
        self.unescrowed_donation_ids_by_campaign_id.insert(campaign_id, IdSet::new());
        self.returned_donation_ids_by_campaign_id.insert(campaign_id, IdSet::new());
        proof {
            assert(self.escrowed_donation_ids_by_campaign_id@ =~= old(self).escrowed_donation_ids_by_campaign_id@.insert(campaign_id, self.escrowed_donation_ids_by_campaign_id@[campaign_id]));
            assert(self.unescrowed_donation_ids_by_campaign_id@ =~= old(self).unescrowed_donation_ids_by_campaign_id@.insert(campaign_id, self.unescrowed_donation_ids_by_campaign_id@[campaign_id]));
            assert(self.returned_donation_ids_by_campaign_id@ =~= old(self).returned_donation_ids_by_campaign_id@.insert(campaign_id, self.returned_donation_ids_by_campaign_id@[campaign_id]));
        }
    }

    /// Creates a campaign owned by the caller, under the next campaign ID. A
    /// referral rate above the maximum is refused; absent rates take the
    /// contract defaults, capped at the maximum.
    pub fn create_campaign(
        &mut self,
        ctx: &CallContext,
        name: String,
        description: Option<String>,
        cover_image_url: Option<String>,
        recipient: String,
        start_ms: TimestampMs,
        end_ms: Option<TimestampMs>,
        ft_id: Option<String>,
        target_amount: u128,
        min_amount: Option<u128>,
        max_amount: Option<u128>,
        referral_fee_basis_points: Option<u32>,
        creator_fee_basis_points: Option<u32>,
        allow_fee_avoidance: Option<bool>,
    ) -> (r: Result<CampaignExternal, CampaignError>)
        requires
            old(self).wf(),
            old(self).next_campaign_id < u64::MAX,
        ensures
            final(self).wf(),
            match spec_new_referral_fee(referral_fee_basis_points, old(self).default_referral_fee_basis_points) {
                Err(e) => r == Err::<CampaignExternal, CampaignError>(e) && *final(self) == *old(self),
                Ok(rbp) => {
                    let id = old(self).next_campaign_id;
                    let c = spec_new_campaign(
                        *ctx,
                        name,
                        description,
                        cover_image_url,
                        recipient,
                        start_ms,
                        end_ms,
                        ft_id,
                        target_amount,
                        min_amount,
                        max_amount,
                        rbp,
                        spec_new_creator_fee(creator_fee_basis_points, old(self).default_creator_fee_basis_points),
                        allow_fee_avoidance,
                    );
                    &&& r == Ok::<CampaignExternal, CampaignError>(spec_format_campaign(id, c))
                    &&& final(self).next_campaign_id == id + 1
                    &&& old(self).spec_campaign_added(*final(self), id, c)
                    &&& final(self).campaign_ids_by_owner@[ctx.predecessor@]@.contains(id)
                    &&& final(self).campaign_ids_by_recipient@[recipient@]@.contains(id)
                },
            },
    {
        let referral = new_referral_fee(referral_fee_basis_points, self.default_referral_fee_basis_points)?;
        let creator = new_creator_fee(creator_fee_basis_points, self.default_creator_fee_basis_points);
        let campaign_id = self.next_campaign_id;
        let campaign = Campaign {
            owner: ctx.predecessor.clone(),
            name,
            description,
            cover_image_url,
            recipient,
            start_ms,
            end_ms,
            created_ms: ctx.block_timestamp_ms,
            ft_id,
            target_amount,
            min_amount,
            max_amount,
            total_raised_amount: 0,
            net_raised_amount: 0,
            escrow_balance: 0,
            referral_fee_basis_points: referral,
            creator_fee_basis_points: creator,
            allow_fee_avoidance: match allow_fee_avoidance {
                Some(b) => b,
                None => false,
            },
        };
        let formatted = format_campaign(&campaign_id, &campaign);
        self.internal_insert_new_campaign_record(campaign_id, campaign);
        self.next_campaign_id = campaign_id + 1;
        Ok(formatted)
    }

    /// Applies an owner's changes to a campaign (see `spec_update_campaign`).
    pub fn update_campaign(
        &mut self,
        ctx: &CallContext,
        campaign_id: CampaignId,
        name: Option<String>,
        description: Option<String>,
        cover_image_url: Option<String>,
        start_ms: Option<TimestampMs>,
        end_ms: Option<TimestampMs>,
        ft_id: Option<String>,
        target_amount: Option<Balance>,
        max_amount: Option<Balance>,
        min_amount: Option<u128>,
        allow_fee_avoidance: Option<bool>,
    ) -> (r: Result<CampaignExternal, CampaignError>)
        requires
            old(self).wf(),
        ensures
            final(self).wf(),
            old(self).spec_campaign_owner_check(*ctx, campaign_id) is Err ==> r == Err::<
                CampaignExternal,
                CampaignError,
            >(old(self).spec_campaign_owner_check(*ctx, campaign_id)->Err_0),
            old(self).spec_campaign_owner_check(*ctx, campaign_id) is Ok ==> {
                let u = CampaignUpdate {
                    name,
                    description,
                    cover_image_url,
                    start_ms,
                    end_ms,
                    ft_id,
                    target_amount,
                    max_amount,
                    min_amount,
                    allow_fee_avoidance,
                };
                match spec_update_campaign(old(self).campaigns_by_id@[campaign_id], u, ctx.block_timestamp_ms) {
                    Err(e) => r == Err::<CampaignExternal, CampaignError>(e),
                    Ok(c) => r == Ok::<CampaignExternal, CampaignError>(spec_format_campaign(campaign_id, c))
                        && final(self).campaigns_by_id@ == old(self).campaigns_by_id@.insert(campaign_id, c)
                        && final(self).campaigns_by_id.order() == old(self).campaigns_by_id.order()
                        && *final(self) == (Contract { campaigns_by_id: final(self).campaigns_by_id, ..*old(self) }),
                }
            },
            r is Err ==> *final(self) == *old(self),
    {
        self.assert_campaign_owner(ctx, campaign_id)?;
        let update = CampaignUpdate {
            name,
            description,
            cover_image_url,
            start_ms,
            end_ms,
            ft_id,
            target_amount,
            max_amount,
            min_amount,
            allow_fee_avoidance,
        };
        let updated = match self.campaigns_by_id.get(campaign_id) {
            None => {
                return Err(CampaignError::CampaignNotFound);
            },
            Some(c) => apply_campaign_update(c, update, ctx.block_timestamp_ms)?,
        };
        let formatted = format_campaign(&campaign_id, &updated);
        self.campaigns_by_id.insert(campaign_id, updated);
        Ok(formatted)
    }

    /// Deletes a campaign of the caller that has not started and holds no donations.
    pub fn delete_campaign(&mut self, ctx: &CallContext, campaign_id: CampaignId) -> (r: Result<
        (),
        CampaignError,
    >)
        requires
            old(self).wf(),
        ensures
            final(self).wf(),
            old(self).spec_campaign_owner_check(*ctx, campaign_id) is Err ==> r == old(self).spec_campaign_owner_check(*ctx, campaign_id),
            r is Ok ==> {
                let c = old(self).campaigns_by_id@[campaign_id];
                &&& old(self).spec_campaign_owner_check(*ctx, campaign_id) is Ok
                &&& c.start_ms > ctx.block_timestamp_ms
                &&& spec_campaign_donation_ids(old(self).escrowed_donation_ids_by_campaign_id@, old(self).unescrowed_donation_ids_by_campaign_id@, campaign_id).len() == 0
                &&& old(self).spec_campaign_removed(*final(self), campaign_id)
            },
            old(self).spec_campaign_owner_check(*ctx, campaign_id) is Ok && !(old(self).campaigns_by_id@[campaign_id].start_ms > ctx.block_timestamp_ms) ==> r == Err::<(), CampaignError>(CampaignError::CampaignStarted),
            old(self).spec_campaign_owner_check(*ctx, campaign_id) is Ok && old(self).campaigns_by_id@[campaign_id].start_ms > ctx.block_timestamp_ms
                && spec_campaign_donation_ids(old(self).escrowed_donation_ids_by_campaign_id@, old(self).unescrowed_donation_ids_by_campaign_id@, campaign_id).len() > 0 ==> r == Err::<(), CampaignError>(CampaignError::HasDonations),
            r is Err ==> *final(self) == *old(self),
    {
        self.assert_campaign_owner(ctx, campaign_id)?;
        let (owner, recipient, start_ms) = match self.campaigns_by_id.get(campaign_id) {
            None => {
                return Err(CampaignError::CampaignNotFound);
            },
            Some(c) => (c.owner.clone(), c.recipient.clone(), c.start_ms),
        };
        if !(start_ms > ctx.block_timestamp_ms) {
            return Err(CampaignError::CampaignStarted);
        }
        let escrowed_count = match self.escrowed_donation_ids_by_campaign_id.get(campaign_id) {
            Some(s) => s.len(),
            None => 0,
        };
        let unescrowed_count = match self.unescrowed_donation_ids_by_campaign_id.get(campaign_id) {
            Some(s) => s.len(),
            None => 0,
        };
        if escrowed_count > 0 || unescrowed_count > 0 {
            return Err(CampaignError::HasDonations);
        }
        if !self.campaign_ids_by_owner.contains_key(&owner) || !self.campaign_ids_by_recipient.contains_key(&recipient) {
            return Err(CampaignError::CampaignNotFound);
        }
        self.campaigns_by_id.remove(campaign_id);
        account_sets_del(&mut self.campaign_ids_by_owner, &owner, campaign_id);
        account_sets_del(&mut self.campaign_ids_by_recipient, &recipient, campaign_id);
        self.escrowed_donation_ids_by_campaign_id.remove(campaign_id);
        self.unescrowed_donation_ids_by_campaign_id.remove(campaign_id);
        self.returned_donation_ids_by_campaign_id.remove(campaign_id);
        Ok(())
    }

    /// The campaign stored under `campaign_id`.
    pub fn get_campaign(&self, campaign_id: CampaignId) -> (r: Result<CampaignExternal, CampaignError>)
        requires
            self.wf(),
        ensures
            self.campaigns_by_id@.contains_key(campaign_id) ==> r == Ok::<CampaignExternal, CampaignError>(spec_format_campaign(campaign_id, self.campaigns_by_id@[campaign_id])),
            !self.campaigns_by_id@.contains_key(campaign_id) ==> r == Err::<CampaignExternal, CampaignError>(CampaignError::CampaignNotFound),
    {
        match self.campaigns_by_id.get(campaign_id) {
            None => Err(CampaignError::CampaignNotFound),
            Some(c) => Ok(format_campaign(&campaign_id, c)),
        }
    }

    /// A page of all campaigns, in storage order.
    pub fn get_campaigns(&self, from_index: Option<u128>, limit: Option<u128>) -> (r: Result<
        Vec<CampaignExternal>,
        CampaignError,
    >)
        requires
            self.wf(),
        ensures
            match (r, self.spec_campaigns_page(self.campaigns_by_id.order(), from_index, limit)) {
                (Ok(v), Ok(s)) => v@ == s,
                (Err(e1), Err(e2)) => e1 == e2,
                _ => false,
            },
    {
        let mut ids: Vec<u64> = Vec::new();
        let mut i: usize = 0;
        while i < self.campaigns_by_id.len()
            invariant
                self.wf(),
                i <= self.campaigns_by_id.order().len(),
                ids@ == self.campaigns_by_id.order().subrange(0, i as int),
            decreases self.campaigns_by_id.order().len() - i,
        {
            ids.push(self.campaigns_by_id.key_at(i));
            i += 1;
            assert(ids@ =~= self.campaigns_by_id.order().subrange(0, i as int));
        }
        assert(ids@ =~= self.campaigns_by_id.order());
        self.campaigns_page(&ids, from_index, limit)
    }

    /// A page of the campaigns owned by `owner_id`.
    pub fn get_campaigns_by_owner(&self, owner_id: String, from_index: Option<u128>, limit: Option<u128>) -> (r: Result<
        Vec<CampaignExternal>,
        CampaignError,
    >)
        requires
            self.wf(),
        ensures
            match (r, self.spec_campaigns_page(account_ids(self.campaign_ids_by_owner@, owner_id@), from_index, limit)) {
                (Ok(v), Ok(s)) => v@ == s,
                (Err(e1), Err(e2)) => e1 == e2,
                _ => false,
            },
    {
        let ids = match self.campaign_ids_by_owner.get(&owner_id) {
            None => Vec::new(),
            Some(s) => s.to_vec(),
        };
        assert(ids@ =~= account_ids(self.campaign_ids_by_owner@, owner_id@));
        self.campaigns_page(&ids, from_index, limit)
    }

    /// A page of the campaigns that pay `recipient_id`.
    pub fn get_campaigns_by_recipient(&self, recipient_id: String, from_index: Option<u128>, limit: Option<u128>) -> (r: Result<
        Vec<CampaignExternal>,
        CampaignError,
    >)
        requires
            self.wf(),
        ensures
            match (r, self.spec_campaigns_page(account_ids(self.campaign_ids_by_recipient@, recipient_id@), from_index, limit)) {
                (Ok(v), Ok(s)) => v@ == s,
                (Err(e1), Err(e2)) => e1 == e2,
                _ => false,
            },
    {
        let ids = match self.campaign_ids_by_recipient.get(&recipient_id) {
            None => Vec::new(),
            Some(s) => s.to_vec(),
        };
        assert(ids@ =~= account_ids(self.campaign_ids_by_recipient@, recipient_id@));
        self.campaigns_page(&ids, from_index, limit)
    }
}

/// A campaign created and deleted again is undone: when a campaign is
/// stored under a fresh ID (`create_campaign`) and then deleted
/// (`delete_campaign`), the campaigns, the ID sets of its owner and
/// recipient, and the donation ID sets are as they were before.
pub proof fn lemma_new_campaign_deleted(before: Contract, created: Contract, deleted: Contract, id: CampaignId, c: Campaign)
    requires
        !before.campaigns_by_id@.contains_key(id),
        !before.escrowed_donation_ids_by_campaign_id@.contains_key(id),
        !before.unescrowed_donation_ids_by_campaign_id@.contains_key(id),
        !before.returned_donation_ids_by_campaign_id@.contains_key(id),
        !account_ids(before.campaign_ids_by_owner@, c.owner@).contains(id),
        !account_ids(before.campaign_ids_by_recipient@, c.recipient@).contains(id),
        before.spec_campaign_added(created, id, c),
        created.spec_campaign_removed(deleted, id),
    ensures
        deleted.campaigns_by_id@ == before.campaigns_by_id@,
        deleted.campaign_ids_by_owner@[c.owner@]@ == account_ids(before.campaign_ids_by_owner@, c.owner@),
        deleted.campaign_ids_by_recipient@[c.recipient@]@ == account_ids(before.campaign_ids_by_recipient@, c.recipient@),
        deleted.escrowed_donation_ids_by_campaign_id@ == before.escrowed_donation_ids_by_campaign_id@,
        deleted.unescrowed_donation_ids_by_campaign_id@ == before.unescrowed_donation_ids_by_campaign_id@,
        deleted.returned_donation_ids_by_campaign_id@ == before.returned_donation_ids_by_campaign_id@,
        deleted.donations_by_id == before.donations_by_id,
{
    assert(created.campaigns_by_id@[id] == c);
    assert(deleted.campaigns_by_id@ =~= before.campaigns_by_id@);
    assert(deleted.escrowed_donation_ids_by_campaign_id@ =~= before.escrowed_donation_ids_by_campaign_id@);
    assert(deleted.unescrowed_donation_ids_by_campaign_id@ =~= before.unescrowed_donation_ids_by_campaign_id@);
    assert(deleted.returned_donation_ids_by_campaign_id@ =~= before.returned_donation_ids_by_campaign_id@);
    lemma_set_add_then_del(account_ids(before.campaign_ids_by_owner@, c.owner@), id);
    lemma_set_add_then_del(account_ids(before.campaign_ids_by_recipient@, c.recipient@), id);
}

} // verus!
