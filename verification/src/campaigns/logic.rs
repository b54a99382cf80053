//! Rules on a single campaign: when it accepts donations, how a donation is
//! split into fees, when it is escrowed, and what its owner may change.
use vstd::prelude::*;
use crate::campaigns::types::{Balance, Campaign, CampaignError, TimestampMs};
use crate::campaigns::validation::{
    MAX_CREATOR_FEE_BASIS_POINTS, MAX_PROTOCOL_FEE_BASIS_POINTS, MAX_REFERRAL_FEE_BASIS_POINTS,
};
use crate::fees::{calculate_fee, fee_floor, lemma_fee_bounds};
use crate::util::unwrap_or;

verus! {

/// Whether a campaign accepts donations at `now`: it has started, has not
/// ended, and has not reached its maximum.
pub open spec fn spec_live_check(c: Campaign, now: u64) -> Result<(), CampaignError> {
    if !(c.start_ms <= now) {
        Err(CampaignError::NotStarted)
    } else if c.end_ms is Some && !(c.end_ms->0 > now) {
        Err(CampaignError::Ended)
    } else if c.max_amount is Some && !(c.net_raised_amount < c.max_amount->0) {
        Err(CampaignError::MaxAmountReached)
    } else {
        Ok(())
    }
}

pub fn assert_campaign_live(campaign: &Campaign, now_ms: u64) -> (r: Result<(), CampaignError>)
    ensures
        r == spec_live_check(*campaign, now_ms),
{
    if !(campaign.start_ms <= now_ms) {
        return Err(CampaignError::NotStarted);
    }
    if let Some(end_ms) = campaign.end_ms {
        if !(end_ms > now_ms) {
            return Err(CampaignError::Ended);
        }
    }
    if let Some(max_amount) = campaign.max_amount {
        if !(campaign.net_raised_amount < max_amount) {
            return Err(CampaignError::MaxAmountReached);
        }
    }
    Ok(())
}

/// Protocol fee of a donation: waived when the donor asks and the campaign allows it.
pub open spec fn spec_protocol_fee(
    amount: u128,
    protocol_fee_basis_points: u32,
    c: Campaign,
    bypass_protocol_fee: Option<bool>,
) -> int {
    if unwrap_or(bypass_protocol_fee, false) && c.allow_fee_avoidance {
        0
    } else {
        fee_floor(amount, protocol_fee_basis_points)
    }
}

/// Referrer fee of a donation (zero without referrer).
pub open spec fn spec_referrer_fee(amount: u128, c: Campaign, has_referrer: bool) -> int {
    if has_referrer {
        fee_floor(amount, c.referral_fee_basis_points)
    } else {
        0
    }
}

/// Creator fee of a donation: waived whenever the donor asks.
pub open spec fn spec_creator_fee(amount: u128, c: Campaign, bypass_creator_fee: Option<bool>) -> int {
    if unwrap_or(bypass_creator_fee, false) {
        0
    } else {
        fee_floor(amount, c.creator_fee_basis_points)
    }
}

/// The fees of a donation do not exceed it.
pub open spec fn spec_fees_fit(
    amount: u128,
    protocol_fee_basis_points: u32,
    c: Campaign,
    has_referrer: bool,
    bypass_protocol_fee: Option<bool>,
    bypass_creator_fee: Option<bool>,
) -> bool {
    spec_protocol_fee(amount, protocol_fee_basis_points, c, bypass_protocol_fee) + spec_referrer_fee(
        amount,
        c,
        has_referrer,
    ) + spec_creator_fee(amount, c, bypass_creator_fee) <= amount
}

/// Splits a donation into (protocol fee, referrer fee, creator fee, remainder).
/// The referrer fee is present exactly when a referrer is given; all fees are
/// rounded down and the remainder is what is left of `amount`.
pub fn calculate_fees_and_remainder(
    amount: u128,
    protocol_fee_basis_points: u32,
    campaign: &Campaign,
    referrer_id: &Option<String>,
    bypass_protocol_fee: Option<bool>,
    bypass_creator_fee: Option<bool>,
) -> (r: (u128, Option<u128>, u128, u128))
    requires
        spec_fees_fit(
            amount,
            protocol_fee_basis_points,
            *campaign,
            referrer_id is Some,
            bypass_protocol_fee,
            bypass_creator_fee,
        ),
    ensures
        r.0 == spec_protocol_fee(amount, protocol_fee_basis_points, *campaign, bypass_protocol_fee),
        !campaign.allow_fee_avoidance ==> r.0 == fee_floor(amount, protocol_fee_basis_points),
        r.1 is Some <==> referrer_id is Some,
        r.1 matches Some(f) ==> f == spec_referrer_fee(amount, *campaign, true),
        r.2 == spec_creator_fee(amount, *campaign, bypass_creator_fee),
        r.3 == amount - r.0 - spec_referrer_fee(amount, *campaign, referrer_id is Some) - r.2,
{
    let mut remainder = amount;
    let user_can_avoid_fees = campaign.allow_fee_avoidance;
    let bypass_protocol = match bypass_protocol_fee {
        Some(b) => b,
        None => false,
    };
    let protocol_fee = if bypass_protocol && user_can_avoid_fees {
        0
    } else {
        calculate_fee(amount, protocol_fee_basis_points)
    };
    remainder = remainder - protocol_fee;
    let mut referrer_fee: Option<u128> = None;
    if referrer_id.is_some() {
        let referrer_amount = calculate_fee(amount, campaign.referral_fee_basis_points);
        remainder = remainder - referrer_amount;
        referrer_fee = Some(referrer_amount);
    }
    let bypass_creator = match bypass_creator_fee {
        Some(b) => b,
        None => false,
    };
    let creator_fee: u128 = if bypass_creator {
        0
    } else {
        calculate_fee(amount, campaign.creator_fee_basis_points)
    };
    remainder = remainder - creator_fee;
    (protocol_fee, referrer_fee, creator_fee, remainder)
}

/// Whether the fees of a donation fit in it (so that splitting it cannot underflow).
pub fn fees_fit(
    amount: u128,
    protocol_fee_basis_points: u32,
    campaign: &Campaign,
    has_referrer: bool,
    bypass_protocol_fee: Option<bool>,
    bypass_creator_fee: Option<bool>,
) -> (b: bool)
    ensures
        b == spec_fees_fit(
            amount,
            protocol_fee_basis_points,
            *campaign,
            has_referrer,
            bypass_protocol_fee,
            bypass_creator_fee,
        ),
{
    let bypass_protocol = match bypass_protocol_fee {
        Some(b) => b,
        None => false,
    };
    let p = if bypass_protocol && campaign.allow_fee_avoidance {
        0
    } else {
        calculate_fee(amount, protocol_fee_basis_points)
    };
    let r = if has_referrer {
        calculate_fee(amount, campaign.referral_fee_basis_points)
    } else {
        0
    };
    let bypass_creator = match bypass_creator_fee {
        Some(b) => b,
        None => false,
    };
    let c = if bypass_creator {
        0
    } else {
        calculate_fee(amount, campaign.creator_fee_basis_points)
    };
    p as u128 <= amount && r <= amount - p && c <= amount - p - r
}

/// With every rate at most 10% the fees of a donation always fit in it.
pub proof fn lemma_fees_fit_under_caps(
    amount: u128,
    protocol_fee_basis_points: u32,
    c: Campaign,
    has_referrer: bool,
    bypass_protocol_fee: Option<bool>,
    bypass_creator_fee: Option<bool>,
)
    requires
        protocol_fee_basis_points <= MAX_PROTOCOL_FEE_BASIS_POINTS,
        c.referral_fee_basis_points <= MAX_REFERRAL_FEE_BASIS_POINTS,
        c.creator_fee_basis_points <= MAX_CREATOR_FEE_BASIS_POINTS,
    ensures
        spec_fees_fit(
            amount,
            protocol_fee_basis_points,
            c,
            has_referrer,
            bypass_protocol_fee,
            bypass_creator_fee,
        ),
{
    lemma_fee_bounds(amount, protocol_fee_basis_points);
    lemma_fee_bounds(amount, c.referral_fee_basis_points);
    lemma_fee_bounds(amount, c.creator_fee_basis_points);
    let p = fee_floor(amount, protocol_fee_basis_points);
    let r = fee_floor(amount, c.referral_fee_basis_points);
    let k = fee_floor(amount, c.creator_fee_basis_points);
    assert forall|bp: u32| bp <= 1000 implies #[trigger] (bp as int * amount as int) <= 1000 * amount as int by {
        assert(bp as int * amount as int <= 1000 * amount as int) by (nonlinear_arith)
            requires
                bp <= 1000,
        ;
    }
    assert(protocol_fee_basis_points as int * amount as int <= 1000 * amount as int);
    assert(c.referral_fee_basis_points as int * amount as int <= 1000 * amount as int);
    assert(c.creator_fee_basis_points as int * amount as int <= 1000 * amount as int);
    assert(p * 10_000 + r * 10_000 + k * 10_000 <= 3000 * amount);
    assert(p + r + k <= amount);
}

/// A donation is escrowed while the campaign's minimum has not been raised.
pub open spec fn spec_should_escrow(c: Campaign) -> bool {
    c.total_raised_amount < unwrap_or(c.min_amount, 0)
}

/// Referral fee rate of a new campaign: a rate above the maximum is refused,
/// the contract default applies when none is given, and the result is capped.
pub open spec fn spec_new_referral_fee(requested: Option<u32>, default: u32) -> Result<
    u32,
    CampaignError,
> {
    match requested {
        Some(bp) => if bp > MAX_REFERRAL_FEE_BASIS_POINTS {
            Err(CampaignError::ReferralFeeTooHigh)
        } else {
            Ok(bp)
        },
        None => Ok(if default < MAX_REFERRAL_FEE_BASIS_POINTS {
            default
        } else {
            MAX_REFERRAL_FEE_BASIS_POINTS
        }),
    }
}

pub fn new_referral_fee(requested: Option<u32>, default: u32) -> (r: Result<u32, CampaignError>)
    ensures
        r == spec_new_referral_fee(requested, default),
{
    match requested {
        Some(bp) => if bp > MAX_REFERRAL_FEE_BASIS_POINTS {
            Err(CampaignError::ReferralFeeTooHigh)
        } else {
            Ok(bp)
        },
        None => Ok(
            if default < MAX_REFERRAL_FEE_BASIS_POINTS {
                default
            } else {
                MAX_REFERRAL_FEE_BASIS_POINTS
            },
        ),
    }
}

/// Creator fee rate of a new campaign: the requested rate or the default, capped.
pub open spec fn spec_new_creator_fee(requested: Option<u32>, default: u32) -> u32 {
    let bp = unwrap_or(requested, default);
    if bp < MAX_CREATOR_FEE_BASIS_POINTS {
        bp
    } else {
        MAX_CREATOR_FEE_BASIS_POINTS
    }
}

pub fn new_creator_fee(requested: Option<u32>, default: u32) -> (r: u32)
    ensures
        r == spec_new_creator_fee(requested, default),
{
    let bp = match requested {
        Some(b) => b,
        None => default,
    };
    if bp < MAX_CREATOR_FEE_BASIS_POINTS {
        bp
    } else {
        MAX_CREATOR_FEE_BASIS_POINTS
    }
}

/// Changes a campaign owner asks for; `None` leaves a field as it is.
pub struct CampaignUpdate {
    pub name: Option<String>,
    pub description: Option<String>,
    pub cover_image_url: Option<String>,
    pub start_ms: Option<TimestampMs>,
    pub end_ms: Option<TimestampMs>,
    pub ft_id: Option<String>,
    pub target_amount: Option<Balance>,
    pub max_amount: Option<Balance>,
    pub min_amount: Option<Balance>,
    pub allow_fee_avoidance: Option<bool>,
}

/// Result of applying `u` to `c` at `now`. Name, description, cover image and
/// fee avoidance can change at any time; a new start must lie in the future;
/// the token and the minimum can change only before the (possibly new) start;
/// the end must follow the start and can change only while the maximum has
/// not been passed and the minimum (if any) has been reached; target and
/// maximum can change only while the maximum has not been passed and before
/// the (possibly new) end. The checks run in that order and the first that
/// fails decides the error.
pub open spec fn spec_update_campaign(c: Campaign, u: CampaignUpdate, now: u64) -> Result<
    Campaign,
    CampaignError,
> {
    let start = unwrap_or(u.start_ms, c.start_ms);
    let end = if u.end_ms is Some {
        u.end_ms
    } else {
        c.end_ms
    };
    let below_max = c.net_raised_amount <= unwrap_or(c.max_amount, u128::MAX);
    if u.start_ms is Some && !(u.start_ms->0 > now) {
        Err(CampaignError::StartNotInFuture)
    } else if u.ft_id is Some && !(start > now) {
        Err(CampaignError::CampaignStarted)
    } else if u.end_ms is Some && !(start < u.end_ms->0) {
        Err(CampaignError::EndBeforeStart)
    } else if u.end_ms is Some && !below_max {
        Err(CampaignError::MaxAmountReached)
    } else if u.end_ms is Some && !(c.min_amount is None || c.net_raised_amount >= c.min_amount->0) {
        Err(CampaignError::MinAmountNotReached)
    } else if u.target_amount is Some && !below_max {
        Err(CampaignError::MaxAmountReached)
    } else if u.target_amount is Some && !(unwrap_or(end, u64::MAX) > now) {
        Err(CampaignError::EndReached)
    } else if u.max_amount is Some && !below_max {
        Err(CampaignError::MaxAmountReached)
    } else if u.max_amount is Some && !(unwrap_or(end, u64::MAX) > now) {
        Err(CampaignError::EndReached)
    } else if u.min_amount is Some && !(start > now) {
        Err(CampaignError::CampaignStarted)
    } else {
        Ok(
            Campaign {
                name: unwrap_or(u.name, c.name),
                description: if u.description is Some {
                    u.description
                } else {
                    c.description
                },
                cover_image_url: if u.cover_image_url is Some {
                    u.cover_image_url
                } else {
                    c.cover_image_url
                },
                start_ms: start,
                end_ms: end,
                ft_id: if u.ft_id is Some {
                    u.ft_id
                } else {
                    c.ft_id
                },
                target_amount: unwrap_or(u.target_amount, c.target_amount),
                max_amount: if u.max_amount is Some {
                    u.max_amount
                } else {
                    c.max_amount
                },
                min_amount: if u.min_amount is Some {
                    u.min_amount
                } else {
                    c.min_amount
                },
                allow_fee_avoidance: unwrap_or(u.allow_fee_avoidance, c.allow_fee_avoidance),
                ..c
            },
        )
    }
}

/// Applies an owner's update to a campaign (see `spec_update_campaign`).
pub fn apply_campaign_update(campaign: &Campaign, update: CampaignUpdate, now_ms: u64) -> (r: Result<
    Campaign,
    CampaignError,
>)
    ensures
        r == spec_update_campaign(*campaign, update, now_ms),
{
    let ghost u = update;
    let mut c = campaign.copy();
    let CampaignUpdate {
        name,
        description,
        cover_image_url,
        start_ms,
        end_ms,
        ft_id,
        target_amount,
        max_amount,
        min_amount,
        allow_fee_avoidance,
    } = update;
    if let Some(name) = name {
        c.name = name;
    }
    if let Some(description) = description {
        c.description = Some(description);
    }
    if let Some(cover_image_url) = cover_image_url {
        c.cover_image_url = Some(cover_image_url);
    }
    if let Some(start_ms) = start_ms {
        if !(start_ms > now_ms) {
            return Err(CampaignError::StartNotInFuture);
        }
        c.start_ms = start_ms;
    }
    if let Some(ft_id) = ft_id {
        if !(c.start_ms > now_ms) {
            return Err(CampaignError::CampaignStarted);
        }
        c.ft_id = Some(ft_id);
    }
    let below_max = match c.max_amount {
        Some(m) => c.net_raised_amount <= m,
        None => true,
    };
    if let Some(end_ms) = end_ms {
        if !(c.start_ms < end_ms) {
            return Err(CampaignError::EndBeforeStart);
        }
        if !below_max {
            return Err(CampaignError::MaxAmountReached);
        }
        let min_ok = match c.min_amount {
            None => true,
            Some(m) => c.net_raised_amount >= m,
        };
        if !min_ok {
            return Err(CampaignError::MinAmountNotReached);
        }
        c.end_ms = Some(end_ms);
    }
    let end_later = match c.end_ms {
        Some(e) => e > now_ms,
        None => u64::MAX > now_ms,
    };
    if let Some(target_amount) = target_amount {
        if !below_max {
            return Err(CampaignError::MaxAmountReached);
        }
        if !end_later {
            return Err(CampaignError::EndReached);
        }
        c.target_amount = target_amount;
    }
    if let Some(max_amount) = max_amount {
        if !below_max {
            return Err(CampaignError::MaxAmountReached);
        }
        if !end_later {
            return Err(CampaignError::EndReached);
        }
        c.max_amount = Some(max_amount);
    }
    if let Some(min_amount) = min_amount {
        if !(c.start_ms > now_ms) {
            return Err(CampaignError::CampaignStarted);
        }
        c.min_amount = Some(min_amount);
    }
    if let Some(allow_fee_avoidance) = allow_fee_avoidance {
        c.allow_fee_avoidance = allow_fee_avoidance;
    }
    Ok(c)
}

/// A donor can skip the protocol fee only where the campaign allows fee
/// avoidance: on a campaign that does not, the protocol fee is the fee at the
/// contract's rate (`amount * basis_points / 10_000`, rounded down) whatever
/// `bypass_protocol_fee` says; where it does, asking to skip it makes it zero.
pub proof fn lemma_protocol_fee_needs_consent(
    amount: u128,
    protocol_fee_basis_points: u32,
    c: Campaign,
    bypass_protocol_fee: Option<bool>,
)
    ensures
        !c.allow_fee_avoidance ==> spec_protocol_fee(amount, protocol_fee_basis_points, c, bypass_protocol_fee)
            == fee_floor(amount, protocol_fee_basis_points),
        !c.allow_fee_avoidance && amount * protocol_fee_basis_points <= u128::MAX
            ==> spec_protocol_fee(amount, protocol_fee_basis_points, c, bypass_protocol_fee)
            == (amount * protocol_fee_basis_points) / 10_000,
        !c.allow_fee_avoidance ==> spec_protocol_fee(amount, protocol_fee_basis_points, c, Some(true))
            == spec_protocol_fee(amount, protocol_fee_basis_points, c, None),
        c.allow_fee_avoidance ==> spec_protocol_fee(amount, protocol_fee_basis_points, c, Some(true)) == 0,
{
    assert(protocol_fee_basis_points as int * amount as int == amount * protocol_fee_basis_points) by (nonlinear_arith);
}

} // verus!
