//! Donations to a pot: checks, the optional sybil check and protocol fee
//! lookup, the fee split, records and views.
use vstd::prelude::*;
use crate::collections::{account_sets_add, account_sets_wf, set_add, IdSet};
use crate::env::{CallContext, Transfer};
use crate::fees::{calculate_fee, calculate_fee_round_up, fee_ceil, fee_floor};
use crate::pot::contract::Contract;
use crate::pot::types::{Donation, DonationExternal, DonationId, PotError, ProjectId, ProtocolConfigProviderResult};
use crate::pot::validation::MAX_PROTOCOL_FEE_BASIS_POINTS;
use crate::provider::{spec_is_split, PROVIDER_ID_DELIMITER};
use crate::text::spec_count;
use crate::util::{clone_opt_string, page, page_bounds, unwrap_or};

verus! {

/// A donation waiting for an answer (sybil check or protocol configuration).
pub struct PendingDonation {
    pub deposit: u128,
    pub donor_id: String,
    pub project_id: Option<ProjectId>,
    pub message: Option<String>,
    pub referrer_id: Option<String>,
    pub matching_pool: bool,
    pub bypass_protocol_fee: Option<bool>,
    pub custom_chef_fee_basis_points: Option<u32>,
}

/// A recorded donation and the transfers that pay out its parts.
pub struct DonationResult {
    pub donation: DonationExternal,
    pub transfers: Vec<Transfer>,
}

/// Where a donation goes next.
pub enum DonateOutcome {
    /// It was recorded.
    Donated(DonationResult),
    /// Ask the sybil provider whether the donor is human; the answer goes to `sybil_callback`.
    QuerySybil { contract_id: String, method_name: String, pending: PendingDonation },
    /// Ask the protocol configuration provider for the fee; the answer goes
    /// to `handle_protocol_fee_callback`.
    QueryProtocolConfig { contract_id: String, method_name: String, pending: PendingDonation },
    /// The sybil check failed or could not be made: nothing was recorded and
    /// the deposit goes back to the donor by this transfer.
    Refunded(Transfer),
}

/// The parts of a donation of `deposit`: (protocol fee, chef fee, referrer
/// fee, what is left before storage), in that order of deduction, each fee
/// taken from what is left after the previous ones; `None` when one of them
/// exceeds what it is taken from.
pub open spec fn spec_fee_split(
    deposit: u128,
    protocol_fee: u128,
    chef_bp: Option<u32>,
    referrer_bp: Option<u32>,
) -> Option<(int, Option<int>, Option<int>, int)> {
    let r0 = deposit - protocol_fee;
    let chef_fee: Option<int> = match chef_bp {
        Some(bp) => Some(fee_floor(r0 as u128, bp)),
        None => None,
    };
    let r1 = r0 - unwrap_or(chef_fee, 0);
    let referrer_fee: Option<int> = match referrer_bp {
        Some(bp) => Some(fee_floor(r1 as u128, bp)),
        None => None,
    };
    let r2 = r1 - unwrap_or(referrer_fee, 0);
    if r0 < 0 || r1 < 0 || r2 < 0 {
        None
    } else {
        Some((protocol_fee as int, chef_fee, referrer_fee, r2))
    }
}

impl Contract {
    /// Chef fee rate of a donation: the requested rate, capped by the pot's;
    /// `None` when there is no chef or the rate is zero.
    pub open spec fn spec_chef_bp(&self, custom_chef_fee_basis_points: Option<u32>) -> Option<u32> {
        let requested = unwrap_or(custom_chef_fee_basis_points, self.chef_fee_basis_points);
        let bp = if requested < self.chef_fee_basis_points { requested } else { self.chef_fee_basis_points };
        if self.chef is Some && bp > 0 { Some(bp) } else { None }
    }

    /// Referrer fee rate of a donation that names a referrer.
    pub open spec fn spec_referrer_bp(&self, matching_pool: bool) -> u32 {
        if matching_pool { self.referral_fee_matching_pool_basis_points } else { self.referral_fee_public_round_basis_points }
    }

    /// Fee on `amount`: rounded up for the protocol fee, down otherwise.
    pub fn calculate_fee(&self, amount: u128, basis_points: u32, is_protocol: bool) -> (fee: u128)
        ensures
            fee == if is_protocol { fee_ceil(amount, basis_points) } else { fee_floor(amount, basis_points) },
    {
        if is_protocol {
            calculate_fee_round_up(amount, basis_points)
        } else {
            calculate_fee(amount, basis_points)
        }
    }

    /// Referrer fee on `amount`, at the matching pool or public round rate.
    pub fn calculate_referrer_fee(&self, amount: u128, matching_pool: bool) -> (fee: u128)
        ensures
            fee == fee_floor(amount, self.spec_referrer_bp(matching_pool)),
    {
        let multiplier = if matching_pool {
            self.referral_fee_matching_pool_basis_points
        } else {
            self.referral_fee_public_round_basis_points
        };
        self.calculate_fee(amount, multiplier, false)
    }

    /// The external form of donation `id`.
    pub fn format_donation(&self, donation: &Donation, id: DonationId) -> (r: DonationExternal)
        ensures
            r == self.spec_format_donation(*donation, id),
    {
        DonationExternal {
            id,
            donor_id: donation.donor_id.clone(),
            total_amount: donation.total_amount,
            net_amount: donation.net_amount,
            message: clone_opt_string(&donation.message),
            donated_at: donation.donated_at,
            project_id: clone_opt_string(&donation.project_id),
            referrer_id: clone_opt_string(&donation.referrer_id),
            referrer_fee: donation.referrer_fee,
            protocol_fee: donation.protocol_fee,
            matching_pool: self.matching_pool_donation_ids.contains(id),
            chef_id: clone_opt_string(&donation.chef_id),
            chef_fee: donation.chef_fee,
        }
    }

    pub open spec fn spec_format_donation(&self, d: Donation, id: DonationId) -> DonationExternal {
        DonationExternal {
            id,
            donor_id: d.donor_id,
            total_amount: d.total_amount,
            net_amount: d.net_amount,
            message: d.message,
            donated_at: d.donated_at,
            project_id: d.project_id,
            referrer_id: d.referrer_id,
            referrer_fee: d.referrer_fee,
            protocol_fee: d.protocol_fee,
            matching_pool: self.matching_pool_donation_ids@.contains(id),
            chef_id: d.chef_id,
            chef_fee: d.chef_fee,
        }
    }

    /// Stores donation `id` (the next ID: the count of donations plus one)
    /// and files it under its project (if any), its donor, and the matching
    /// pool or public round.
    pub fn insert_donation_record(&mut self, donation_id: DonationId, donation: Donation, matching_pool: bool)
        requires
            old(self).wf(),
            donation_id == old(self).donations_by_id@.len() + 1,
        ensures
            final(self).wf(),
            final(self).donations_by_id@ == old(self).donations_by_id@.insert(donation_id, donation),
            donation.project_id matches Some(p) ==> final(self).donation_ids_by_project_id@[p@]@ == set_add(
                crate::campaigns::contract::account_ids(old(self).donation_ids_by_project_id@, p@), donation_id),
            final(self).donation_ids_by_donor_id@[donation.donor_id@]@ == set_add(
                crate::campaigns::contract::account_ids(old(self).donation_ids_by_donor_id@, donation.donor_id@), donation_id),
            matching_pool ==> final(self).matching_pool_donation_ids@ == set_add(old(self).matching_pool_donation_ids@, donation_id)
                && final(self).public_round_donation_ids == old(self).public_round_donation_ids,
            !matching_pool ==> final(self).public_round_donation_ids@ == set_add(old(self).public_round_donation_ids@, donation_id)
                && final(self).matching_pool_donation_ids == old(self).matching_pool_donation_ids,
            final(self).applications_by_id == old(self).applications_by_id,
            final(self).approved_application_ids == old(self).approved_application_ids,
            final(self).payouts_by_id == old(self).payouts_by_id,
            final(self).matching_pool_balance == old(self).matching_pool_balance,
            final(self).total_matching_pool_donations == old(self).total_matching_pool_donations,
            final(self).total_public_donations == old(self).total_public_donations,
            final(self).chef == old(self).chef,
            final(self).owner == old(self).owner,
    {
        let ghost before = *self;
        let donor = donation.donor_id.clone();
        let project = clone_opt_string(&donation.project_id);
        assert(!self.donations_by_id@.contains_key(donation_id)) by {
            assert(self.spec_donation_ids_consistent());
            if self.donations_by_id@.contains_key(donation_id) {
                assert(donation_id <= self.donations_by_id@.len());
            }
        }
        proof {
            self.donations_by_id.lemma_wf();
        }
        self.donations_by_id.insert(donation_id, donation);
        proof {
            self.donations_by_id.lemma_wf();
        }
        assert(self.donations_by_id@.len() == before.donations_by_id@.len() + 1);
        match project {
            Some(p) => {
                account_sets_add(&mut self.donation_ids_by_project_id, &p, donation_id);
            },
            None => {},
        }
        account_sets_add(&mut self.donation_ids_by_donor_id, &donor, donation_id);
        if matching_pool {
            self.matching_pool_donation_ids.insert(donation_id);
        } else {
            self.public_round_donation_ids.insert(donation_id);
        }
        proof {
            crate::collections::lemma_set_add_contains(before.matching_pool_donation_ids@, donation_id);
            crate::collections::lemma_set_add_contains(before.public_round_donation_ids@, donation_id);
            assert forall|k: u64| #[trigger] self.donations_by_id@.contains_key(k) implies 1 <= k <= self.donations_by_id@.len() by {
                if k != donation_id {
                    assert(before.donations_by_id@.contains_key(k));
                }
            }
            assert forall|k: u64| #[trigger] self.matching_pool_donation_ids@.contains(k) implies self.donations_by_id@.contains_key(k) by {
                if k != donation_id {
                    assert(before.matching_pool_donation_ids@.contains(k));
                }
            }
            assert forall|k: u64| #[trigger] self.public_round_donation_ids@.contains(k) implies self.donations_by_id@.contains_key(k) by {
                if k != donation_id {
                    assert(before.public_round_donation_ids@.contains(k));
                }
            }
        }
    }

    /// Why `process_donation` refuses a donation, if it does.
    pub open spec fn spec_process_check(
        &self,
        deposit: u128,
        protocol_fee: u128,
        referrer: bool,
        matching_pool: bool,
        custom_chef_fee_basis_points: Option<u32>,
        storage_cost: u128,
    ) -> Result<(), PotError> {
        let split = spec_fee_split(deposit, protocol_fee, self.spec_chef_bp(custom_chef_fee_basis_points),
            if referrer { Some(self.spec_referrer_bp(matching_pool)) } else { None });
        if split is None || self.donations_by_id@.len() + 1 > u64::MAX {
            Err(PotError::ArithmeticOverflow)
        } else if !(split.unwrap().3 > storage_cost) {
            Err(PotError::InsufficientStorageDeposit)
        } else {
            let net = split.unwrap().3 - storage_cost;
            if matching_pool && (self.total_matching_pool_donations + net > u128::MAX || self.matching_pool_balance + net > u128::MAX) {
                Err(PotError::ArithmeticOverflow)
            } else if !matching_pool && self.total_public_donations + net > u128::MAX {
                Err(PotError::ArithmeticOverflow)
            } else {
                Ok(())
            }
        }
    }

    /// The chef fee, referrer fee and remainder of a donation (see `spec_fee_split`).
    pub fn fee_split(&self, deposit: u128, protocol_fee: u128, has_referrer: bool, matching_pool: bool, custom_chef_fee_basis_points: Option<u32>) -> (r: Option<(Option<u128>, Option<u128>, u128)>)
        ensures
            ({
                let s = spec_fee_split(deposit, protocol_fee, self.spec_chef_bp(custom_chef_fee_basis_points),
                    if has_referrer { Some(self.spec_referrer_bp(matching_pool)) } else { None });
                &&& (r is Some <==> s is Some)
                &&& r matches Some(parts) ==> {
                    &&& parts.0 == (match s.unwrap().1 { Some(f) => Some(f as u128), None => None::<u128> })
                    &&& parts.1 == (match s.unwrap().2 { Some(f) => Some(f as u128), None => None::<u128> })
                    &&& parts.2 == s.unwrap().3
                    &&& protocol_fee + unwrap_or(s.unwrap().1, 0) + unwrap_or(s.unwrap().2, 0) + parts.2 == deposit
                }
            }),
    {
        if deposit < protocol_fee {
            return None;
        }
        let mut remainder = deposit - protocol_fee;
        let mut chef_fee: Option<u128> = None;
        if self.chef.is_some() {
            let requested = match custom_chef_fee_basis_points {
                Some(b) => b,
                None => self.chef_fee_basis_points,
            };
            let bp = if requested < self.chef_fee_basis_points { requested } else { self.chef_fee_basis_points };
            if bp > 0 {
                let amount = self.calculate_fee(remainder, bp, false);
                if remainder < amount {
                    return None;
                }
                chef_fee = Some(amount);
                remainder = remainder - amount;
            }
        }
        let mut referrer_fee: Option<u128> = None;
        if has_referrer {
            let amount = self.calculate_referrer_fee(remainder, matching_pool);
            if remainder < amount {
                return None;
            }
            referrer_fee = Some(amount);
            remainder = remainder - amount;
        }
        Some((chef_fee, referrer_fee, remainder))
    }

    /// What `process_donation` does from state `self` to `after`, returning `r`.
    pub open spec fn spec_process_outcome(
        &self,
        after: Contract,
        ctx: CallContext,
        deposit: u128,
        donor_id: String,
        protocol_fee: u128,
        protocol_fee_recipient_account: Option<String>,
        project_id: Option<ProjectId>,
        message: Option<String>,
        referrer_id: Option<String>,
        matching_pool: bool,
        custom_chef_fee_basis_points: Option<u32>,
        storage_cost: u128,
        r: Result<DonationResult, PotError>,
    ) -> bool {
        &&& (r is Err ==> after == *self)
        &&& (r matches Err(e) ==> self.spec_process_check(deposit, protocol_fee, referrer_id is Some, matching_pool, custom_chef_fee_basis_points, storage_cost) == Err::<(), PotError>(e))
        &&& (r is Ok ==> self.spec_process_check(deposit, protocol_fee, referrer_id is Some, matching_pool, custom_chef_fee_basis_points, storage_cost) is Ok)
        &&& (r matches Ok(res) ==> {
                let split = spec_fee_split(deposit, protocol_fee, self.spec_chef_bp(custom_chef_fee_basis_points),
                    if referrer_id is Some { Some(self.spec_referrer_bp(matching_pool)) } else { None }).unwrap();
                let net = split.3 - storage_cost;
                let id = (self.donations_by_id@.len() + 1) as u64;
                let d = res.donation;
                &&& d.id == id
                &&& d.donor_id == donor_id && d.total_amount == deposit && d.net_amount == net
                &&& d.message == message && d.donated_at == ctx.block_timestamp_ms
                &&& d.project_id == project_id && d.referrer_id == referrer_id
                &&& d.protocol_fee == protocol_fee
                &&& d.chef_fee == (match split.1 { Some(f) => Some(f as u128), None => None::<u128> })
                &&& d.chef_id == (if split.1 is Some { self.chef } else { None })
                &&& d.referrer_fee == (match split.2 { Some(f) => Some(f as u128), None => None::<u128> })
                &&& d.matching_pool == matching_pool
                &&& matching_pool ==> after.matching_pool_donation_ids@ == self.matching_pool_donation_ids@.push(id)
                    && after.public_round_donation_ids == self.public_round_donation_ids
                &&& !matching_pool ==> after.public_round_donation_ids@ == self.public_round_donation_ids@.push(id)
                    && after.matching_pool_donation_ids == self.matching_pool_donation_ids
                &&& protocol_fee + unwrap_or(split.1, 0) + unwrap_or(split.2, 0) + storage_cost + net == deposit
                &&& after.donations_by_id@.contains_key(id)
                &&& after.spec_format_donation(after.donations_by_id@[id], id) == d
                &&& matching_pool ==> after.matching_pool_balance == self.matching_pool_balance + net
                    && after.total_matching_pool_donations == self.total_matching_pool_donations + net
                    && after.total_public_donations == self.total_public_donations
                &&& !matching_pool ==> after.total_public_donations == self.total_public_donations + net
                    && after.matching_pool_balance == self.matching_pool_balance
                &&& after.applications_by_id == self.applications_by_id
                &&& after.approved_application_ids == self.approved_application_ids
                &&& after.payouts_by_id == self.payouts_by_id
                &&& res.transfers@ == spec_donation_transfers(protocol_fee_recipient_account, protocol_fee, d.chef_id, d.chef_fee, referrer_id, d.referrer_fee, project_id, net as u128)
            })
    }

    /// Records a donation of `deposit` by `donor_id` and pays out its parts.
    /// The protocol fee (already computed) comes off first, then the chef fee
    /// (at the requested rate capped by the pot's, when there is a chef), then
    /// the referrer fee (when a referrer is named), then the cost of the
    /// record's storage; what is left is the net amount, which goes to the
    /// project, or to the matching pool for a matching pool donation. The
    /// donation gets the next ID (count of donations plus one). Refused, with
    /// nothing changed, as `spec_process_check` says.
    #[verifier::rlimit(100)]
    #[verifier::spinoff_prover]
    pub fn process_donation(
        &mut self,
        ctx: &CallContext,
        deposit: u128,
        donor_id: String,
        protocol_fee: u128,
        protocol_fee_recipient_account: Option<String>,
        project_id: Option<ProjectId>,
        message: Option<String>,
        referrer_id: Option<String>,
        matching_pool: bool,
        custom_chef_fee_basis_points: Option<u32>,
        storage_cost: u128,
    ) -> (r: Result<DonationResult, PotError>)
        requires
            old(self).wf(),
        ensures
            final(self).wf(),
            old(self).spec_process_outcome(*final(self), *ctx, deposit, donor_id, protocol_fee, protocol_fee_recipient_account,
                project_id, message, referrer_id, matching_pool, custom_chef_fee_basis_points, storage_cost, r),
    {
        let (chef_fee, referrer_fee, remainder) = match self.fee_split(deposit, protocol_fee, referrer_id.is_some(), matching_pool, custom_chef_fee_basis_points) {
            None => return Err(PotError::ArithmeticOverflow),
            Some(parts) => parts,
        };
        let chef_id: Option<String> = if chef_fee.is_some() { clone_opt_string(&self.chef) } else { None };
        let n = self.donations_by_id.len();
        proof {
            self.donations_by_id.lemma_wf();
        }
        if n as u128 >= u64::MAX as u128 {
            return Err(PotError::ArithmeticOverflow);
        }
        let donation_id = (n as u64) + 1;
        if !(remainder > storage_cost) {
            return Err(PotError::InsufficientStorageDeposit);
        }
        let net = remainder - storage_cost;
        if matching_pool {
            if self.total_matching_pool_donations > u128::MAX - net || self.matching_pool_balance > u128::MAX - net {
                return Err(PotError::ArithmeticOverflow);
            }
        } else {
            if self.total_public_donations > u128::MAX - net {
                return Err(PotError::ArithmeticOverflow);
            }
        }
        let donation = Donation {
            donor_id: donor_id.clone(),
            total_amount: deposit,
            net_amount: net,
            message,
            donated_at: ctx.block_timestamp_ms,
            project_id: clone_opt_string(&project_id),
            referrer_id: clone_opt_string(&referrer_id),
            referrer_fee,
            protocol_fee,
            chef_id: clone_opt_string(&chef_id),
            chef_fee,
        };
        self.insert_donation_record(donation_id, donation.copy(), matching_pool);
        if matching_pool {
            self.total_matching_pool_donations = self.total_matching_pool_donations + net;
            self.matching_pool_balance = self.matching_pool_balance + net;
        } else {
            self.total_public_donations = self.total_public_donations + net;
        }
        let mut transfers: Vec<Transfer> = Vec::new();
        match protocol_fee_recipient_account {
            Some(a) => transfers.push(Transfer { receiver: a, amount: protocol_fee, ft_id: None }),
            None => {},
        }
        match (&chef_id, chef_fee) {
            (Some(c), Some(f)) => transfers.push(Transfer { receiver: c.clone(), amount: f, ft_id: None }),
            _ => {},
        }
        match (&referrer_id, referrer_fee) {
            (Some(a), Some(f)) => transfers.push(Transfer { receiver: a.clone(), amount: f, ft_id: None }),
            _ => {},
        }
        match &project_id {
            Some(p) => transfers.push(Transfer { receiver: p.clone(), amount: net, ft_id: None }),
            None => {},
        }
        let formatted = self.format_donation(&donation, donation_id);
        proof {
            broadcast use vstd::seq_lib::group_seq_properties;
        }
        assert(matching_pool ==> formatted.matching_pool);
        let ghost split = spec_fee_split(deposit, protocol_fee, old(self).spec_chef_bp(custom_chef_fee_basis_points),
            if referrer_id is Some { Some(old(self).spec_referrer_bp(matching_pool)) } else { None }).unwrap();
        assert(split.3 == remainder);
        assert(formatted.chef_fee == (match split.1 { Some(f) => Some(f as u128), None => None::<u128> }));
        assert(formatted.referrer_fee == (match split.2 { Some(f) => Some(f as u128), None => None::<u128> }));
        assert(formatted.chef_id == (if split.1 is Some { old(self).chef } else { None }));
        assert(protocol_fee + unwrap_or(split.1, 0) + unwrap_or(split.2, 0) + storage_cost + net == deposit);
        assert(transfers@ == spec_donation_transfers(protocol_fee_recipient_account, protocol_fee, formatted.chef_id, formatted.chef_fee, referrer_id, formatted.referrer_fee, project_id, net as u128));
        assert(self.donations_by_id@.contains_key(donation_id));
        assert(self.spec_format_donation(self.donations_by_id@[donation_id], donation_id) == formatted);
        assert(formatted.id == (old(self).donations_by_id@.len() + 1) as u64);
        assert(old(self).spec_process_check(deposit, protocol_fee, referrer_id is Some, matching_pool, custom_chef_fee_basis_points, storage_cost) is Ok);
        Ok(DonationResult { donation: formatted, transfers })
    }
}

/// Transfers that pay out a recorded donation: the protocol fee (when a
/// recipient is known), the chef fee, the referrer fee and, for a project
/// donation, the net amount to the project; all in NEAR.
pub open spec fn spec_donation_transfers(
    protocol_recipient: Option<String>,
    protocol_fee: u128,
    chef_id: Option<String>,
    chef_fee: Option<u128>,
    referrer_id: Option<String>,
    referrer_fee: Option<u128>,
    project_id: Option<String>,
    net: u128,
) -> Seq<Transfer> {
    let p = match protocol_recipient { Some(a) => seq![Transfer { receiver: a, amount: protocol_fee, ft_id: None }], None => Seq::empty() };
    let c = match (chef_id, chef_fee) { (Some(a), Some(f)) => seq![Transfer { receiver: a, amount: f, ft_id: None }], _ => Seq::empty() };
    let r = match (referrer_id, referrer_fee) { (Some(a), Some(f)) => seq![Transfer { receiver: a, amount: f, ft_id: None }], _ => Seq::empty() };
    let n = match project_id { Some(a) => seq![Transfer { receiver: a, amount: net, ft_id: None }], None => Seq::empty() };
    p + c + r + n
}

impl Contract {
    /// Why a donation call is refused before any fee is looked at, if it is:
    /// a named project must be approved; a matching pool donation comes
    /// before the round closes and names no project; a public donation comes
    /// during the round and names one; a project cannot donate to itself.
    pub open spec fn spec_donate_check(&self, ctx: CallContext, project_id: Option<ProjectId>, matching_pool: bool) -> Result<(), PotError> {
        if project_id is Some && !self.approved_application_ids@.contains(project_id->0@) {
            Err(PotError::ProjectNotApproved)
        } else if matching_pool && !(ctx.block_timestamp_ms < self.public_round_end_ms) {
            Err(PotError::RoundClosed)
        } else if matching_pool && project_id is Some {
            Err(PotError::ProjectIdNotAllowed)
        } else if !matching_pool && !self.spec_round_active(ctx.block_timestamp_ms) {
            Err(PotError::RoundNotActive)
        } else if !matching_pool && project_id is None {
            Err(PotError::ProjectIdRequired)
        } else if project_id is Some && (project_id->0@ == ctx.predecessor@ || project_id->0@ == ctx.signer@) {
            Err(PotError::SelfDonation)
        } else {
            Ok(())
        }
    }

    /// Donates the attached deposit, to an approved project during the round
    /// or to the matching pool before the round closes (see
    /// `spec_donate_check`); then goes on as `assert_caller_can_donate` says.
    pub fn donate(
        &mut self,
        ctx: &CallContext,
        project_id: Option<ProjectId>,
        message: Option<String>,
        referrer_id: Option<String>,
        matching_pool: Option<bool>,
        bypass_protocol_fee: Option<bool>,
        custom_chef_fee_basis_points: Option<u32>,
        storage_cost: u128,
    ) -> (r: Result<DonateOutcome, PotError>)
        requires
            old(self).wf(),
        ensures
            final(self).wf(),
            r is Err ==> *final(self) == *old(self),
            old(self).spec_donate_check(*ctx, project_id, unwrap_or(matching_pool, false)) is Err
                ==> r == Err::<DonateOutcome, PotError>(old(self).spec_donate_check(*ctx, project_id, unwrap_or(matching_pool, false))->Err_0),
            r is Ok && !unwrap_or(matching_pool, false)
                ==> old(self).public_round_start_ms <= ctx.block_timestamp_ms && ctx.block_timestamp_ms < old(self).public_round_end_ms,
            !unwrap_or(matching_pool, false) && (project_id is None || old(self).approved_application_ids@.contains(project_id->0@))
                && !(old(self).public_round_start_ms <= ctx.block_timestamp_ms && ctx.block_timestamp_ms < old(self).public_round_end_ms)
                ==> r == Err::<DonateOutcome, PotError>(PotError::RoundNotActive),
            old(self).spec_donate_check(*ctx, project_id, unwrap_or(matching_pool, false)) is Ok
                ==> old(self).spec_can_donate_outcome(*final(self), *ctx, PendingDonation {
                    deposit: ctx.attached_deposit,
                    donor_id: ctx.predecessor,
                    project_id,
                    message,
                    referrer_id,
                    matching_pool: unwrap_or(matching_pool, false),
                    bypass_protocol_fee,
                    custom_chef_fee_basis_points,
                }, storage_cost, r),
    {
        proof {
            lemma_public_donation_only_during_round(*self, *ctx, project_id);
        }
        match &project_id {
            Some(p) => self.assert_approved_application(p)?,
            None => {},
        }
        let is_matching_pool = match matching_pool {
            Some(b) => b,
            None => false,
        };
        if is_matching_pool {
            self.assert_round_not_closed(ctx)?;
            if project_id.is_some() {
                return Err(PotError::ProjectIdNotAllowed);
            }
        } else {
            self.assert_round_active(ctx)?;
            if project_id.is_none() {
                return Err(PotError::ProjectIdRequired);
            }
        }
        match &project_id {
            Some(p) => {
                if *p == ctx.predecessor || *p == ctx.signer {
                    return Err(PotError::SelfDonation);
                }
            },
            None => {},
        }
        let pending = PendingDonation {
            deposit: ctx.attached_deposit,
            donor_id: ctx.predecessor.clone(),
            project_id,
            message,
            referrer_id,
            matching_pool: is_matching_pool,
            bypass_protocol_fee,
            custom_chef_fee_basis_points,
        };
        self.assert_caller_can_donate(ctx, pending, storage_cost)
    }

    /// What `assert_caller_can_donate` does from `self` to `after`.
    pub open spec fn spec_can_donate_outcome(&self, after: Contract, ctx: CallContext, pending: PendingDonation, storage_cost: u128, r: Result<DonateOutcome, PotError>) -> bool {
        if pending.matching_pool {
            if pending.deposit < self.min_matching_pool_donation_amount {
                r == Err::<DonateOutcome, PotError>(PotError::DonationTooSmall) && after == *self
            } else {
                self.spec_protocol_fee_outcome(after, ctx, pending, storage_cost, r)
            }
        } else {
            match self.sybil_wrapper_provider {
                Some(p) => {
                    &&& after == *self
                    &&& (r is Ok <==> spec_count(p.0@, PROVIDER_ID_DELIMITER) == 1)
                    &&& r matches Err(e) ==> e == PotError::InvalidProvider
                    &&& r matches Ok(o) ==> (o matches DonateOutcome::QuerySybil { contract_id, method_name, pending: pd }
                        && spec_is_split(p.0@, contract_id@, method_name@) && pd == pending)
                },
                None => self.spec_protocol_fee_outcome(after, ctx, pending, storage_cost, r),
            }
        }
    }

    /// Matching pool donations must reach the minimum and skip the sybil
    /// check; public donations are checked by the sybil provider when one is
    /// set. Then the protocol fee is handled (`handle_protocol_fee`).
    pub fn assert_caller_can_donate(&mut self, ctx: &CallContext, pending: PendingDonation, storage_cost: u128) -> (r: Result<DonateOutcome, PotError>)
        requires
            old(self).wf(),
        ensures
            final(self).wf(),
            old(self).spec_can_donate_outcome(*final(self), *ctx, pending, storage_cost, r),
    {
        if pending.matching_pool {
            if pending.deposit < self.min_matching_pool_donation_amount {
                return Err(PotError::DonationTooSmall);
            }
            return self.handle_protocol_fee(ctx, pending, storage_cost);
        }
        match &self.sybil_wrapper_provider {
            Some(p) => match p.try_decompose() {
                None => Err(PotError::InvalidProvider),
                Some((contract_id, method_name)) => Ok(DonateOutcome::QuerySybil { contract_id, method_name, pending }),
            },
            None => self.handle_protocol_fee(ctx, pending, storage_cost),
        }
    }

    /// Answer of the sybil provider (`None` when the query failed): a donor
    /// found human goes on to `handle_protocol_fee`; otherwise nothing is
    /// recorded and the deposit is returned to the donor.
    pub fn sybil_callback(&mut self, ctx: &CallContext, pending: PendingDonation, is_human: Option<bool>, storage_cost: u128) -> (r: Result<DonateOutcome, PotError>)
        requires
            old(self).wf(),
        ensures
            final(self).wf(),
            is_human != Some(true) ==> r == Ok::<DonateOutcome, PotError>(DonateOutcome::Refunded(
                Transfer { receiver: pending.donor_id, amount: pending.deposit, ft_id: None })) && *final(self) == *old(self),
            is_human == Some(true) ==> old(self).spec_protocol_fee_outcome(*final(self), *ctx, pending, storage_cost, r),
    {
        match is_human {
            Some(true) => self.handle_protocol_fee(ctx, pending, storage_cost),
            _ => Ok(DonateOutcome::Refunded(Transfer { receiver: pending.donor_id, amount: pending.deposit, ft_id: None })),
        }
    }

    /// What `handle_protocol_fee` does from `self` to `after`.
    pub open spec fn spec_protocol_fee_outcome(&self, after: Contract, ctx: CallContext, pending: PendingDonation, storage_cost: u128, r: Result<DonateOutcome, PotError>) -> bool {
        let no_fee = unwrap_or(pending.bypass_protocol_fee, false) || self.protocol_config_provider is None;
        if no_fee {
            exists|res: Result<DonationResult, PotError>| #![auto]
                self.spec_process_outcome(after, ctx, pending.deposit, pending.donor_id, 0, None, pending.project_id,
                    pending.message, pending.referrer_id, pending.matching_pool, pending.custom_chef_fee_basis_points, storage_cost, res)
                && r == (match res { Ok(d) => Ok::<DonateOutcome, PotError>(DonateOutcome::Donated(d)), Err(e) => Err(e) })
        } else {
            let p = self.protocol_config_provider->0;
            &&& after == *self
            &&& (r is Ok <==> spec_count(p.0@, PROVIDER_ID_DELIMITER) == 1)
            &&& r matches Err(e) ==> e == PotError::InvalidProvider
            &&& r matches Ok(o) ==> (o matches DonateOutcome::QueryProtocolConfig { contract_id, method_name, pending: pd }
                && spec_is_split(p.0@, contract_id@, method_name@) && pd == pending)
        }
    }

    /// A donor who asks to skip the protocol fee, or a pot without a protocol
    /// configuration provider, pays none and the donation is processed now;
    /// otherwise the provider is asked for the fee first.
    pub fn handle_protocol_fee(&mut self, ctx: &CallContext, pending: PendingDonation, storage_cost: u128) -> (r: Result<DonateOutcome, PotError>)
        requires
            old(self).wf(),
        ensures
            final(self).wf(),
            old(self).spec_protocol_fee_outcome(*final(self), *ctx, pending, storage_cost, r),
    {
        let bypass = match pending.bypass_protocol_fee {
            Some(b) => b,
            None => false,
        };
        let provider = if bypass {
            None
        } else {
            match &self.protocol_config_provider {
                Some(p) => Some(p.try_decompose()),
                None => None,
            }
        };
        match provider {
            Some(None) => Err(PotError::InvalidProvider),
            Some(Some((contract_id, method_name))) => Ok(DonateOutcome::QueryProtocolConfig { contract_id, method_name, pending }),
            None => {
                let ghost pd = pending;
                let res = self.process_donation(ctx, pending.deposit, pending.donor_id, 0, None, pending.project_id,
                    pending.message, pending.referrer_id, pending.matching_pool, pending.custom_chef_fee_basis_points, storage_cost);
                let r = match res {
                    Ok(d) => Ok(DonateOutcome::Donated(d)),
                    Err(e) => Err(e),
                };
                assert(old(self).spec_process_outcome(*self, *ctx, pd.deposit, pd.donor_id, 0, None, pd.project_id,
                    pd.message, pd.referrer_id, pd.matching_pool, pd.custom_chef_fee_basis_points, storage_cost, res));
                r
            },
        }
    }

    /// Answer of the protocol configuration provider (`None` when the query
    /// failed, in which case no protocol fee is taken): the fee rate is capped
    /// at `MAX_PROTOCOL_FEE_BASIS_POINTS`, the fee is rounded up and goes to
    /// the account the provider names; then the donation is processed.
    pub fn handle_protocol_fee_callback(
        &mut self,
        ctx: &CallContext,
        pending: PendingDonation,
        config: Option<ProtocolConfigProviderResult>,
        storage_cost: u128,
    ) -> (r: Result<DonationResult, PotError>)
        requires
            old(self).wf(),
        ensures
            final(self).wf(),
            config is None ==> old(self).spec_process_outcome(*final(self), *ctx, pending.deposit, pending.donor_id, 0, None,
                pending.project_id, pending.message, pending.referrer_id, pending.matching_pool, pending.custom_chef_fee_basis_points, storage_cost, r),
            config matches Some(c) ==> {
                let bp = if c.basis_points < MAX_PROTOCOL_FEE_BASIS_POINTS { c.basis_points } else { MAX_PROTOCOL_FEE_BASIS_POINTS };
                old(self).spec_process_outcome(*final(self), *ctx, pending.deposit, pending.donor_id, fee_ceil(pending.deposit, bp) as u128,
                    Some(c.account_id), pending.project_id, pending.message, pending.referrer_id, pending.matching_pool,
                    pending.custom_chef_fee_basis_points, storage_cost, r)
            },
    {
        match config {
            None => self.process_donation(ctx, pending.deposit, pending.donor_id, 0, None, pending.project_id, pending.message,
                pending.referrer_id, pending.matching_pool, pending.custom_chef_fee_basis_points, storage_cost),
            Some(c) => {
                let bp = if c.basis_points < MAX_PROTOCOL_FEE_BASIS_POINTS { c.basis_points } else { MAX_PROTOCOL_FEE_BASIS_POINTS };
                let fee = self.calculate_fee(pending.deposit, bp, true);
                self.process_donation(ctx, pending.deposit, pending.donor_id, fee, Some(c.account_id), pending.project_id,
                    pending.message, pending.referrer_id, pending.matching_pool, pending.custom_chef_fee_basis_points, storage_cost)
            },
        }
    }
}

/// A public-round donation is taken only while the round runs: at a time
/// before the round's start or at or after its end, a donation to the
/// public round (to an approved project, or naming none) is refused with
/// `RoundNotActive`, and one that passes the checks comes at a time `t` with
/// `public_round_start_ms <= t < public_round_end_ms`.
pub proof fn lemma_public_donation_only_during_round(c: Contract, ctx: CallContext, project_id: Option<ProjectId>)
    ensures
        (project_id is None || c.approved_application_ids@.contains(project_id->0@))
            && !(c.public_round_start_ms <= ctx.block_timestamp_ms && ctx.block_timestamp_ms < c.public_round_end_ms)
            ==> c.spec_donate_check(ctx, project_id, false) == Err::<(), PotError>(PotError::RoundNotActive),
        c.spec_donate_check(ctx, project_id, false) is Ok
            ==> c.public_round_start_ms <= ctx.block_timestamp_ms && ctx.block_timestamp_ms < c.public_round_end_ms,
{
}

} // verus!
