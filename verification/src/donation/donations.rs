//! Donations: fee split, records and totals, payout of each part and what
//! happens when a transfer fails, and views.
use vstd::prelude::*;
use crate::collections::{account_sets_add, account_sets_del, set_add, set_del};
use crate::donation::contract::Contract;
use crate::donation::types::{Donation, DonationError, DonationExternal, FtReceiverMsg, TransferType};
use crate::env::{spec_storage_byte_cost, storage_cost, CallContext, Transfer};
use crate::fees::{calculate_fee, calculate_fee_round_up, fee_ceil, fee_floor};
use crate::text::{chars_of, string_from_chars};
use crate::util::{clone_opt_string, unwrap_or};

verus! {

/// `"near"`: the token ID of NEAR donations.
pub open spec fn spec_near() -> Seq<char> {
    seq!['n', 'e', 'a', 'r']
}

/// Whether `s` is `"near"`.
pub fn is_near(s: &String) -> (b: bool)
    ensures
        b == (s@ == spec_near()),
{
    let v = chars_of(s.as_str());
    let r = v.len() == 4 && v[0] == 'n' && v[1] == 'e' && v[2] == 'a' && v[3] == 'r';
    proof {
        if r {
            assert(v@ =~= spec_near());
        }
    }
    r
}

/// `"near"`, as a string.
pub fn near_id() -> (s: String)
    ensures
        s@ == spec_near(),
{
    let v = vec!['n', 'e', 'a', 'r'];
    assert(v@ =~= spec_near());
    string_from_chars(&v)
}

/// The transfer of `amount` to `receiver` in the donation's token (NEAR when its token is `"near"`).
pub open spec fn spec_transfer_in(d: Donation, receiver: String, amount: u128) -> Transfer {
    Transfer { receiver, amount, ft_id: if d.ft_id@ == spec_near() { None } else { Some(d.ft_id) } }
}

/// A transfer of one part of a donation; its outcome comes back through
/// `transfer_funds_callback`.
pub struct PendingTransfer {
    pub transfer: Transfer,
    pub remainder: u128,
    pub donation: Donation,
    pub transfer_type: TransferType,
}

/// What the contract does after a transfer: transfers back to the donor,
/// and the fee transfers that follow a successful donation transfer.
pub struct FundsCallbackOutcome {
    pub refunds: Vec<Transfer>,
    pub fee_transfers: Vec<PendingTransfer>,
}

/// (protocol fee, referrer fee, remainder) of a donation of `amount`: the
/// protocol fee (rounded up, waived on request) and the referrer fee (when a
/// referrer is named, rounded down) are both taken from the whole amount.
/// `None` when they exceed it.
pub open spec fn spec_fees(amount: u128, protocol_bp: u32, referral_bp: u32, has_referrer: bool, bypass_protocol_fee: Option<bool>) -> Option<(u128, Option<u128>, u128)> {
    let p = if unwrap_or(bypass_protocol_fee, false) { 0 } else { fee_ceil(amount, protocol_bp) };
    let r: Option<int> = if has_referrer { Some(fee_floor(amount, referral_bp)) } else { None };
    let rest = amount - p - unwrap_or(r, 0);
    if rest < 0 {
        None
    } else {
        Some((p as u128, match r { Some(x) => Some(x as u128), None => None }, rest as u128))
    }
}

impl Contract {
    /// Protocol fee on `amount`, rounded up.
    pub fn calculate_protocol_fee(&self, amount: u128) -> (fee: u128)
        ensures
            fee == fee_ceil(amount, self.protocol_fee_basis_points),
    {
        calculate_fee_round_up(amount, self.protocol_fee_basis_points)
    }

    /// Referrer fee on `amount`, rounded down.
    pub fn calculate_referrer_fee(&self, amount: u128) -> (fee: u128)
        ensures
            fee == fee_floor(amount, self.referral_fee_basis_points),
    {
        calculate_fee(amount, self.referral_fee_basis_points)
    }

    /// The fee split of a donation (see `spec_fees`); the parts add up to the amount.
    pub fn calculate_fees_and_remainder(&self, amount: u128, referrer_id: &Option<String>, bypass_protocol_fee: Option<bool>) -> (r: Result<
        (u128, Option<u128>, u128),
        DonationError,
    >)
        ensures
            match spec_fees(amount, self.protocol_fee_basis_points, self.referral_fee_basis_points, referrer_id is Some, bypass_protocol_fee) {
                Some(s) => r == Ok::<(u128, Option<u128>, u128), DonationError>(s),
                None => r == Err::<(u128, Option<u128>, u128), DonationError>(DonationError::FeesExceedAmount),
            },
            r matches Ok(s) ==> s.0 + unwrap_or(s.1, 0) + s.2 == amount,
    {
        let protocol_fee = match bypass_protocol_fee {
            Some(true) => 0,
            _ => self.calculate_protocol_fee(amount),
        };
        if amount < protocol_fee {
            return Err(DonationError::FeesExceedAmount);
        }
        let mut remainder = amount - protocol_fee;
        let mut referrer_fee: Option<u128> = None;
        if referrer_id.is_some() {
            let f = self.calculate_referrer_fee(amount);
            if remainder < f {
                return Err(DonationError::FeesExceedAmount);
            }
            remainder = remainder - f;
            referrer_fee = Some(f);
        }
        Ok((protocol_fee, referrer_fee, remainder))
    }

    /// Why recording donation `d` is refused: its fees exceed its amount, or a total overflows.
    pub open spec fn spec_insert_check(&self, d: Donation) -> Result<(), DonationError> {
        let fees = d.protocol_fee + unwrap_or(d.referrer_fee, 0);
        if fees > d.total_amount {
            Err(DonationError::FeesExceedAmount)
        } else if self.total_donations_amount + d.total_amount > u128::MAX {
            Err(DonationError::ArithmeticOverflow)
        } else {
            Ok(())
        }
    }

    /// Records donation `d` under its ID and files it under its recipient,
    /// donor and token; the totals grow by its amount, net amount and fees.
    pub fn insert_donation_record_internal(&mut self, donation: &Donation) -> (r: Result<(), DonationError>)
        requires
            old(self).wf(),
        ensures
            final(self).wf(),
            r == old(self).spec_insert_check(*donation),
            r is Err ==> *final(self) == *old(self),
            r is Ok ==> {
                let d = *donation;
                let o = *old(self);
                let n = *final(self);
                &&& n.donations_by_id@ == o.donations_by_id@.insert(d.id, d)
                &&& n.donation_ids_by_recipient_id@[d.recipient_id@]@ == set_add(crate::campaigns::contract::account_ids(o.donation_ids_by_recipient_id@, d.recipient_id@), d.id)
                &&& n.donation_ids_by_donor_id@[d.donor_id@]@ == set_add(crate::campaigns::contract::account_ids(o.donation_ids_by_donor_id@, d.donor_id@), d.id)
                &&& n.donation_ids_by_ft_id@[d.ft_id@]@ == set_add(crate::campaigns::contract::account_ids(o.donation_ids_by_ft_id@, d.ft_id@), d.id)
                &&& n.total_donations_amount == o.total_donations_amount + d.total_amount
                &&& n.net_donations_amount == o.net_donations_amount + d.total_amount - d.protocol_fee - unwrap_or(d.referrer_fee, 0)
                &&& n.total_protocol_fees == o.total_protocol_fees + d.protocol_fee
                &&& n.total_referrer_fees == o.total_referrer_fees + unwrap_or(d.referrer_fee, 0)
                &&& n.next_donation_id == o.next_donation_id
                &&& n.storage_deposits == o.storage_deposits
                &&& n.owner == o.owner
                &&& n.protocol_fee_recipient_account == o.protocol_fee_recipient_account
                &&& n.protocol_fee_basis_points == o.protocol_fee_basis_points
                &&& n.referral_fee_basis_points == o.referral_fee_basis_points
            },
    {
        let referrer_fee = match donation.referrer_fee {
            Some(f) => f,
            None => 0,
        };
        if donation.protocol_fee > donation.total_amount || referrer_fee > donation.total_amount - donation.protocol_fee {
            return Err(DonationError::FeesExceedAmount);
        }
        if self.total_donations_amount > u128::MAX - donation.total_amount {
            return Err(DonationError::ArithmeticOverflow);
        }
        let net = donation.total_amount - donation.protocol_fee - referrer_fee;
        self.donations_by_id.insert(donation.id, donation.copy());
        account_sets_add(&mut self.donation_ids_by_recipient_id, &donation.recipient_id, donation.id);
        account_sets_add(&mut self.donation_ids_by_donor_id, &donation.donor_id, donation.id);
        account_sets_add(&mut self.donation_ids_by_ft_id, &donation.ft_id, donation.id);
        self.total_donations_amount = self.total_donations_amount + donation.total_amount;
        self.net_donations_amount = self.net_donations_amount + net;
        self.total_protocol_fees = self.total_protocol_fees + donation.protocol_fee;
        self.total_referrer_fees = self.total_referrer_fees + referrer_fee;
        Ok(())
    }

    /// Records a new donation under the next donation ID (see `insert_donation_record_internal`).
    pub fn create_and_insert_donation_record(
        &mut self,
        donor_id: String,
        total_amount: u128,
        ft_id: String,
        message: Option<String>,
        donated_at_ms: u64,
        recipient_id: String,
        protocol_fee: u128,
        referrer_id: Option<String>,
        referrer_fee: Option<u128>,
    ) -> (r: Result<Donation, DonationError>)
        requires
            old(self).wf(),
        ensures
            final(self).wf(),
            r is Err ==> *final(self) == *old(self),
            ({
                let d = Donation { id: old(self).next_donation_id, donor_id, total_amount, ft_id, message, donated_at_ms,
                    recipient_id, protocol_fee, referrer_id, referrer_fee };
                &&& old(self).next_donation_id == u64::MAX ==> r == Err::<Donation, DonationError>(DonationError::ArithmeticOverflow)
                &&& old(self).next_donation_id < u64::MAX ==> {
                    &&& (r is Ok <==> old(self).spec_insert_check(d) is Ok)
                    &&& r matches Err(e) ==> old(self).spec_insert_check(d) == Err::<(), DonationError>(e)
                    &&& r matches Ok(x) ==> x == d && final(self).next_donation_id == d.id + 1
                        && final(self).donations_by_id@ == old(self).donations_by_id@.insert(d.id, d)
                        && final(self).total_donations_amount == old(self).total_donations_amount + total_amount
                        && final(self).storage_deposits == old(self).storage_deposits
                        && final(self).protocol_fee_recipient_account == old(self).protocol_fee_recipient_account
                }
            }),
    {
        if self.next_donation_id == u64::MAX {
            return Err(DonationError::ArithmeticOverflow);
        }
        let donation = Donation {
            id: self.next_donation_id,
            donor_id,
            total_amount,
            ft_id,
            message,
            donated_at_ms,
            recipient_id,
            protocol_fee,
            referrer_id,
            referrer_fee,
        };
        self.insert_donation_record_internal(&donation)?;
        self.next_donation_id = self.next_donation_id + 1;
        Ok(donation)
    }

    /// Storage balance of an account (zero when none).
    pub open spec fn spec_storage_balance(&self, account: Seq<char>) -> u128 {
        if self.storage_deposits@.contains_key(account) { self.storage_deposits@[account] } else { 0 }
    }

    pub fn storage_balance_of(&self, account_id: &String) -> (b: u128)
        requires
            self.wf(),
        ensures
            b == self.spec_storage_balance(account_id@),
    {
        match self.storage_deposits.get(account_id) {
            Some(b) => *b,
            None => 0,
        }
    }

    /// Charges `required` to the storage balance of `sender_id`; refused
    /// when the balance is smaller.
    pub fn verify_and_update_storage_balance(&mut self, sender_id: &String, required: u128) -> (r: Result<(), DonationError>)
        requires
            old(self).wf(),
        ensures
            final(self).wf(),
            (r is Ok) <==> old(self).spec_storage_balance(sender_id@) >= required,
            r matches Err(e) ==> e == DonationError::InsufficientStorageDeposit && *final(self) == *old(self),
            r is Ok ==> final(self).storage_deposits@ == old(self).storage_deposits@.insert(sender_id@, (old(self).spec_storage_balance(sender_id@) - required) as u128)
                && final(self).donations_by_id == old(self).donations_by_id
                && final(self).next_donation_id == old(self).next_donation_id,
    {
        let balance = self.storage_balance_of(sender_id);
        if balance < required {
            return Err(DonationError::InsufficientStorageDeposit);
        }
        self.storage_deposits.insert(sender_id.clone(), balance - required);
        Ok(())
    }
}

/// The transfer of one part of `donation` to `recipient_id`, in the
/// donation's token (see `spec_transfer_in`).
pub fn handle_transfer(recipient_id: String, amount: u128, remainder: u128, donation: &Donation, transfer_type: TransferType) -> (p: PendingTransfer)
    ensures
        p.transfer == spec_transfer_in(*donation, recipient_id, amount),
        p.transfer.receiver == recipient_id && p.transfer.amount == amount,
        donation.ft_id@ != seq!['n', 'e', 'a', 'r'] ==> p.transfer.ft_id == Some(donation.ft_id),
        donation.ft_id@ == seq!['n', 'e', 'a', 'r'] ==> p.transfer.ft_id is None,
        p.remainder == remainder,
        p.donation == *donation,
        p.transfer_type == transfer_type,
{
    let ft_id = if is_near(&donation.ft_id) { None } else { Some(donation.ft_id.clone()) };
    PendingTransfer {
        transfer: Transfer { receiver: recipient_id, amount, ft_id },
        remainder,
        donation: donation.copy(),
        transfer_type,
    }
}

impl Contract {
    /// Donates the attached NEAR to `recipient_id`. The fees come off (see
    /// `spec_fees`), the donation is recorded under the next ID with token
    /// `"near"`, the storage it takes (`storage_cost`) comes off what is left,
    /// and the rest is sent to the recipient (the fees follow once that
    /// transfer succeeds). Refused, with nothing changed, when the fees
    /// exceed the deposit, the rest does not exceed the storage cost, or a
    /// count or total overflows.
    pub fn donate(
        &mut self,
        ctx: &CallContext,
        recipient_id: String,
        message: Option<String>,
        referrer_id: Option<String>,
        bypass_protocol_fee: Option<bool>,
        storage_cost: u128,
    ) -> (r: Result<(Donation, PendingTransfer), DonationError>)
        requires
            old(self).wf(),
        ensures
            final(self).wf(),
            r is Err ==> *final(self) == *old(self),
            spec_fees(ctx.attached_deposit, old(self).protocol_fee_basis_points, old(self).referral_fee_basis_points, referrer_id is Some, bypass_protocol_fee) is None
                ==> r == Err::<(Donation, PendingTransfer), DonationError>(DonationError::FeesExceedAmount),
            ({
                let fees = spec_fees(ctx.attached_deposit, old(self).protocol_fee_basis_points, old(self).referral_fee_basis_points, referrer_id is Some, bypass_protocol_fee);
                let overflows = old(self).next_donation_id == u64::MAX || old(self).total_donations_amount + ctx.attached_deposit > u128::MAX;
                &&& fees is Some && fees.unwrap().2 <= storage_cost ==> r == Err::<(Donation, PendingTransfer), DonationError>(DonationError::InsufficientStorageDeposit)
                &&& fees is Some && fees.unwrap().2 > storage_cost && overflows ==> r == Err::<(Donation, PendingTransfer), DonationError>(DonationError::ArithmeticOverflow)
                &&& fees is Some && fees.unwrap().2 > storage_cost && !overflows ==> r is Ok
            }),
            r matches Ok(res) ==> {
                let fees = spec_fees(ctx.attached_deposit, old(self).protocol_fee_basis_points, old(self).referral_fee_basis_points, referrer_id is Some, bypass_protocol_fee).unwrap();
                let d = res.0;
                &&& fees.2 > storage_cost
                &&& d == Donation {
                    id: old(self).next_donation_id,
                    donor_id: ctx.predecessor,
                    total_amount: ctx.attached_deposit,
                    ft_id: d.ft_id,
                    message,
                    donated_at_ms: ctx.block_timestamp_ms,
                    recipient_id,
                    protocol_fee: fees.0,
                    referrer_id,
                    referrer_fee: fees.1,
                }
                &&& d.ft_id@ == spec_near()
                &&& final(self).donations_by_id@ == old(self).donations_by_id@.insert(d.id, d)
                &&& final(self).next_donation_id == d.id + 1
                &&& res.1.transfer == (Transfer { receiver: recipient_id, amount: (fees.2 - storage_cost) as u128, ft_id: None })
                &&& res.1.remainder == fees.2 - storage_cost
                &&& res.1.donation == d
                &&& res.1.transfer_type == TransferType::DonationTransfer
            },
    {
        let amount = ctx.attached_deposit;
        let (protocol_fee, referrer_fee, remainder) = self.calculate_fees_and_remainder(amount, &referrer_id, bypass_protocol_fee)?;
        if !(remainder > storage_cost) {
            return Err(DonationError::InsufficientStorageDeposit);
        }
        let donation = self.create_and_insert_donation_record(ctx.predecessor.clone(), amount, near_id(), message,
            ctx.block_timestamp_ms, recipient_id.clone(), protocol_fee, referrer_id, referrer_fee)?;
        let rest = remainder - storage_cost;
        let pending = handle_transfer(recipient_id, rest, rest, &donation, TransferType::DonationTransfer);
        Ok((donation, pending))
    }

    /// Donation in a fungible token (the NEP-141 transfer callback; the
    /// token is the calling contract): the fees come off the amount, the
    /// donation is recorded, the storage it takes (`storage_cost`) is charged
    /// to the donor's storage balance, and the rest is sent to the recipient
    /// in the token. Returns the unused amount (none) and that transfer.
    pub fn ft_on_transfer(
        &mut self,
        ctx: &CallContext,
        sender_id: String,
        amount: u128,
        msg: FtReceiverMsg,
        storage_cost: u128,
    ) -> (r: Result<(u128, PendingTransfer), DonationError>)
        requires
            old(self).wf(),
        ensures
            final(self).wf(),
            r is Err ==> *final(self) == *old(self),
            spec_fees(amount, old(self).protocol_fee_basis_points, old(self).referral_fee_basis_points, msg.referrer_id is Some, msg.bypass_protocol_fee) is None
                ==> r == Err::<(u128, PendingTransfer), DonationError>(DonationError::FeesExceedAmount),
            ({
                let fees = spec_fees(amount, old(self).protocol_fee_basis_points, old(self).referral_fee_basis_points, msg.referrer_id is Some, msg.bypass_protocol_fee);
                let short = old(self).spec_storage_balance(sender_id@) < storage_cost;
                let overflows = old(self).next_donation_id == u64::MAX || old(self).total_donations_amount + amount > u128::MAX;
                &&& fees is Some && short ==> r == Err::<(u128, PendingTransfer), DonationError>(DonationError::InsufficientStorageDeposit)
                &&& fees is Some && !short && overflows ==> r == Err::<(u128, PendingTransfer), DonationError>(DonationError::ArithmeticOverflow)
                &&& fees is Some && !short && !overflows ==> r is Ok
            }),
            r matches Ok(res) ==> {
                let fees = spec_fees(amount, old(self).protocol_fee_basis_points, old(self).referral_fee_basis_points, msg.referrer_id is Some, msg.bypass_protocol_fee).unwrap();
                let d = res.1.donation;
                &&& res.0 == 0
                &&& d == Donation {
                    id: old(self).next_donation_id,
                    donor_id: sender_id,
                    total_amount: amount,
                    ft_id: ctx.predecessor,
                    message: msg.message,
                    donated_at_ms: ctx.block_timestamp_ms,
                    recipient_id: msg.recipient_id,
                    protocol_fee: fees.0,
                    referrer_id: msg.referrer_id,
                    referrer_fee: fees.1,
                }
                &&& final(self).donations_by_id@ == old(self).donations_by_id@.insert(d.id, d)
                &&& old(self).spec_storage_balance(sender_id@) >= storage_cost
                &&& final(self).storage_deposits@ == old(self).storage_deposits@.insert(sender_id@, (old(self).spec_storage_balance(sender_id@) - storage_cost) as u128)
                &&& res.1.transfer == spec_transfer_in(d, msg.recipient_id, fees.2)
                &&& ctx.predecessor@ != seq!['n', 'e', 'a', 'r'] ==> res.1.transfer.ft_id == Some(ctx.predecessor)
                &&& res.1.remainder == fees.2
                &&& res.1.transfer_type == TransferType::DonationTransfer
            },
    {
        let (protocol_fee, referrer_fee, remainder) = self.calculate_fees_and_remainder(amount, &msg.referrer_id, msg.bypass_protocol_fee)?;
        if self.storage_balance_of(&sender_id) < storage_cost {
            return Err(DonationError::InsufficientStorageDeposit);
        }
        let donation = self.create_and_insert_donation_record(sender_id.clone(), amount, ctx.predecessor.clone(), msg.message,
            ctx.block_timestamp_ms, msg.recipient_id.clone(), protocol_fee, msg.referrer_id, referrer_fee)?;
        match self.verify_and_update_storage_balance(&sender_id, storage_cost) {
            Ok(()) => {},
            Err(e) => {
                assert(false);
                return Err(e);
            },
        }
        let pending = handle_transfer(msg.recipient_id, remainder, remainder, &donation, TransferType::DonationTransfer);
        Ok((0, pending))
    }

    /// The external form of a donation (the same fields).
    pub fn format_donation(&self, donation: &Donation) -> (r: DonationExternal)
        ensures
            r == (DonationExternal {
                id: donation.id,
                donor_id: donation.donor_id,
                total_amount: donation.total_amount,
                ft_id: donation.ft_id,
                message: donation.message,
                donated_at_ms: donation.donated_at_ms,
                recipient_id: donation.recipient_id,
                protocol_fee: donation.protocol_fee,
                referrer_id: donation.referrer_id,
                referrer_fee: donation.referrer_fee,
            }),
    {
        DonationExternal {
            id: donation.id,
            donor_id: donation.donor_id.clone(),
            total_amount: donation.total_amount,
            ft_id: donation.ft_id.clone(),
            message: clone_opt_string(&donation.message),
            donated_at_ms: donation.donated_at_ms,
            recipient_id: donation.recipient_id.clone(),
            protocol_fee: donation.protocol_fee,
            referrer_id: clone_opt_string(&donation.referrer_id),
            referrer_fee: donation.referrer_fee,
        }
    }

    /// Donation `donation_id`, if recorded.
    pub fn get_donation_by_id(&self, donation_id: u64) -> (r: Option<DonationExternal>)
        requires
            self.wf(),
        ensures
            r is Some <==> self.donations_by_id@.contains_key(donation_id),
            r matches Some(e) ==> e.id == self.donations_by_id@[donation_id].id && e.total_amount == self.donations_by_id@[donation_id].total_amount
                && e.donor_id == self.donations_by_id@[donation_id].donor_id && e.recipient_id == self.donations_by_id@[donation_id].recipient_id
                && e.protocol_fee == self.donations_by_id@[donation_id].protocol_fee && e.referrer_fee == self.donations_by_id@[donation_id].referrer_fee,
    {
        match self.donations_by_id.get(donation_id) {
            Some(d) => Some(self.format_donation(d)),
            None => None,
        }
    }

    /// Takes a donation's record off the books: its ID leaves its
    /// recipient's, donor's and token's sets (each of them that exists).
    pub fn remove_donation_record_internal(&mut self, donation: &Donation)
        requires
            old(self).wf(),
        ensures
            final(self).wf(),
            final(self).donations_by_id@ == old(self).donations_by_id@.remove(donation.id),
            final(self).donation_ids_by_recipient_id@.dom() == old(self).donation_ids_by_recipient_id@.dom(),
            final(self).donation_ids_by_donor_id@.dom() == old(self).donation_ids_by_donor_id@.dom(),
            final(self).donation_ids_by_ft_id@.dom() == old(self).donation_ids_by_ft_id@.dom(),
            old(self).donation_ids_by_recipient_id@.contains_key(donation.recipient_id@) ==> final(self).donation_ids_by_recipient_id@[donation.recipient_id@]@
                == set_del(old(self).donation_ids_by_recipient_id@[donation.recipient_id@]@, donation.id),
            old(self).donation_ids_by_donor_id@.contains_key(donation.donor_id@) ==> final(self).donation_ids_by_donor_id@[donation.donor_id@]@
                == set_del(old(self).donation_ids_by_donor_id@[donation.donor_id@]@, donation.id),
            old(self).donation_ids_by_ft_id@.contains_key(donation.ft_id@) ==> final(self).donation_ids_by_ft_id@[donation.ft_id@]@
                == set_del(old(self).donation_ids_by_ft_id@[donation.ft_id@]@, donation.id),
            forall|k: Seq<char>| k != donation.recipient_id@ && #[trigger] old(self).donation_ids_by_recipient_id@.contains_key(k)
                ==> final(self).donation_ids_by_recipient_id@[k] == old(self).donation_ids_by_recipient_id@[k],
            forall|k: Seq<char>| k != donation.donor_id@ && #[trigger] old(self).donation_ids_by_donor_id@.contains_key(k)
                ==> final(self).donation_ids_by_donor_id@[k] == old(self).donation_ids_by_donor_id@[k],
            forall|k: Seq<char>| k != donation.ft_id@ && #[trigger] old(self).donation_ids_by_ft_id@.contains_key(k)
                ==> final(self).donation_ids_by_ft_id@[k] == old(self).donation_ids_by_ft_id@[k],
            *final(self) == (Contract {
                donations_by_id: final(self).donations_by_id,
                donation_ids_by_recipient_id: final(self).donation_ids_by_recipient_id,
                donation_ids_by_donor_id: final(self).donation_ids_by_donor_id,
                donation_ids_by_ft_id: final(self).donation_ids_by_ft_id,
                ..*old(self)
            }),
    {
        self.donations_by_id.remove(donation.id);
        account_sets_del(&mut self.donation_ids_by_recipient_id, &donation.recipient_id, donation.id);
        account_sets_del(&mut self.donation_ids_by_donor_id, &donation.donor_id, donation.id);
        account_sets_del(&mut self.donation_ids_by_ft_id, &donation.ft_id, donation.id);
    }

    /// Outcome of the transfer of one part of a donation. On failure that
    /// part goes back to the donor: for the donation itself, its whole amount
    /// (its record is removed and the cost of the storage freed,
    /// the `freed_bytes` it freed, is added to the donor's storage balance); for a
    /// fee, that fee (which is set to zero on the stored record). On success
    /// of the donation transfer, the protocol fee and (when named) the
    /// referrer fee are sent. Refused, with nothing changed, when the storage
    /// balance would overflow or a failed referrer fee is not recorded.
    pub fn transfer_funds_callback(
        &mut self,
        remainder: u128,
        donation: Donation,
        transfer_type: TransferType,
        succeeded: bool,
        freed_bytes: u64,
    ) -> (r: Result<FundsCallbackOutcome, DonationError>)
        requires
            old(self).wf(),
        ensures
            final(self).wf(),
            r is Err ==> *final(self) == *old(self),
            succeeded ==> *final(self) == *old(self) && r is Ok,
            succeeded && transfer_type != TransferType::DonationTransfer ==> (r matches Ok(o) && o.refunds@.len() == 0 && o.fee_transfers@.len() == 0),
            succeeded && transfer_type == TransferType::DonationTransfer ==> (r matches Ok(o) && o.refunds@.len() == 0 && {
                let p = o.fee_transfers@;
                let n = if donation.referrer_fee is Some && donation.referrer_id is Some { 2int } else { 1int };
                &&& p.len() == n
                &&& p[0].transfer == spec_transfer_in(donation, old(self).protocol_fee_recipient_account, donation.protocol_fee)
                &&& p[0].transfer_type == TransferType::ProtocolFeeTransfer
                &&& p[0].donation == donation && p[0].remainder == remainder
                &&& n == 2 ==> p[1].transfer == spec_transfer_in(donation, donation.referrer_id->0, donation.referrer_fee->0)
                    && p[1].transfer_type == TransferType::ReferrerFeeTransfer && p[1].donation == donation && p[1].remainder == remainder
            }),
            !succeeded && transfer_type == TransferType::DonationTransfer ==> {
                let ok = old(self).spec_storage_balance(donation.donor_id@) + freed_bytes * spec_storage_byte_cost() <= u128::MAX;
                &&& (r is Ok <==> ok)
                &&& r matches Err(e) ==> e == DonationError::ArithmeticOverflow
                &&& r matches Ok(o) ==> {
                    &&& o.fee_transfers@.len() == 0
                    &&& o.refunds@ == seq![spec_transfer_in(donation, donation.donor_id, donation.total_amount)]
                    &&& final(self).donations_by_id@ == old(self).donations_by_id@.remove(donation.id)
                    &&& old(self).donation_ids_by_recipient_id@.contains_key(donation.recipient_id@) ==> final(self).donation_ids_by_recipient_id@[donation.recipient_id@]@
                        == set_del(old(self).donation_ids_by_recipient_id@[donation.recipient_id@]@, donation.id)
                    &&& old(self).donation_ids_by_donor_id@.contains_key(donation.donor_id@) ==> final(self).donation_ids_by_donor_id@[donation.donor_id@]@
                        == set_del(old(self).donation_ids_by_donor_id@[donation.donor_id@]@, donation.id)
                    &&& old(self).donation_ids_by_ft_id@.contains_key(donation.ft_id@) ==> final(self).donation_ids_by_ft_id@[donation.ft_id@]@
                        == set_del(old(self).donation_ids_by_ft_id@[donation.ft_id@]@, donation.id)
                    &&& final(self).storage_deposits@ == old(self).storage_deposits@.insert(donation.donor_id@,
                        (old(self).spec_storage_balance(donation.donor_id@) + freed_bytes * spec_storage_byte_cost()) as u128)
                    &&& *final(self) == (Contract {
                        donations_by_id: final(self).donations_by_id,
                        donation_ids_by_recipient_id: final(self).donation_ids_by_recipient_id,
                        donation_ids_by_donor_id: final(self).donation_ids_by_donor_id,
                        donation_ids_by_ft_id: final(self).donation_ids_by_ft_id,
                        storage_deposits: final(self).storage_deposits,
                        ..*old(self)
                    })
                }
            },
            !succeeded && transfer_type != TransferType::DonationTransfer ==> {
                &&& (r is Ok <==> (transfer_type == TransferType::ProtocolFeeTransfer || donation.referrer_fee is Some))
                &&& r matches Err(e) ==> e == DonationError::MissingReferrerFee
                &&& r matches Ok(o) ==> {
                    let updated = if transfer_type == TransferType::ProtocolFeeTransfer {
                        Donation { protocol_fee: 0, ..donation }
                    } else {
                        Donation { referrer_fee: Some(0), ..donation }
                    };
                    let refund = if transfer_type == TransferType::ProtocolFeeTransfer { donation.protocol_fee } else { donation.referrer_fee->0 };
                    &&& o.fee_transfers@.len() == 0
                    &&& o.refunds@ == seq![spec_transfer_in(donation, donation.donor_id, refund)]
                    &&& final(self).donations_by_id@ == old(self).donations_by_id@.insert(donation.id, updated)
                    &&& *final(self) == (Contract { donations_by_id: final(self).donations_by_id, ..*old(self) })
                }
            },
    {
        if succeeded {
            let mut fee_transfers: Vec<PendingTransfer> = Vec::new();
            if transfer_type == TransferType::DonationTransfer {
                fee_transfers.push(handle_transfer(self.protocol_fee_recipient_account.clone(), donation.protocol_fee, remainder,
                    &donation, TransferType::ProtocolFeeTransfer));
                match (&donation.referrer_fee, &donation.referrer_id) {
                    (Some(fee), Some(id)) => {
                        fee_transfers.push(handle_transfer(id.clone(), *fee, remainder, &donation, TransferType::ReferrerFeeTransfer));
                    },
                    _ => {},
                }
            }
            return Ok(FundsCallbackOutcome { refunds: Vec::new(), fee_transfers });
        }
        match transfer_type {
            TransferType::DonationTransfer => {
                let balance = self.storage_balance_of(&donation.donor_id);
                let freed_storage_cost = storage_cost(freed_bytes);
                if balance > u128::MAX - freed_storage_cost {
                    return Err(DonationError::ArithmeticOverflow);
                }
                self.remove_donation_record_internal(&donation);
                self.storage_deposits.insert(donation.donor_id.clone(), balance + freed_storage_cost);
                let mut refunds: Vec<Transfer> = Vec::new();
                refunds.push(handle_transfer(donation.donor_id.clone(), donation.total_amount, remainder, &donation,
                    TransferType::DonationTransfer).transfer);
                Ok(FundsCallbackOutcome { refunds, fee_transfers: Vec::new() })
            },
            TransferType::ProtocolFeeTransfer => {
                let refund = handle_transfer(donation.donor_id.clone(), donation.protocol_fee, remainder, &donation,
                    TransferType::ProtocolFeeTransfer).transfer;
                let updated = Donation { protocol_fee: 0, ..donation };
                self.donations_by_id.insert(updated.id, updated);
                let mut refunds: Vec<Transfer> = Vec::new();
                refunds.push(refund);
                Ok(FundsCallbackOutcome { refunds, fee_transfers: Vec::new() })
            },
            TransferType::ReferrerFeeTransfer => {
                let fee = match donation.referrer_fee {
                    Some(f) => f,
                    None => return Err(DonationError::MissingReferrerFee),
                };
                let refund = handle_transfer(donation.donor_id.clone(), fee, remainder, &donation,
                    TransferType::ReferrerFeeTransfer).transfer;
                let updated = Donation { referrer_fee: Some(0), ..donation };
                self.donations_by_id.insert(updated.id, updated);
                let mut refunds: Vec<Transfer> = Vec::new();
                refunds.push(refund);
                Ok(FundsCallbackOutcome { refunds, fee_transfers: Vec::new() })
            },
        }
    }
}

/// Every transfer made for a donation (to its recipient, of a fee, or back to
/// the donor) pays in the donation's own token: a token donation is paid by
/// a transfer on that token (`ft_id` is `Some` of it), and only a donation
/// in `"near"` is paid in NEAR (`ft_id` is `None`); the receiver and amount
/// are the ones given.
pub proof fn lemma_transfers_in_donated_token(d: Donation, receiver: String, amount: u128)
    ensures
        spec_transfer_in(d, receiver, amount).receiver == receiver,
        spec_transfer_in(d, receiver, amount).amount == amount,
        d.ft_id@ != seq!['n', 'e', 'a', 'r'] ==> spec_transfer_in(d, receiver, amount).ft_id == Some(d.ft_id),
        d.ft_id@ == seq!['n', 'e', 'a', 'r'] ==> spec_transfer_in(d, receiver, amount).ft_id is None,
{
}

} // verus!
