use potlock::campaigns::contract::Contract;
use potlock::campaigns::types::{CampaignError, FtReceiverMsg, FundsReceiver};
use potlock::collections::IdMap;
use potlock::env::CallContext;

fn ctx(predecessor: &str, now: u64, deposit: u128, gas: u64) -> CallContext {
    CallContext {
        predecessor: predecessor.to_string(),
        signer: predecessor.to_string(),
        current_account: "campaigns.testnet".to_string(),
        block_timestamp_ms: now,
        attached_deposit: deposit,
        prepaid_gas: gas,
    }
}

fn at(predecessor: &str, now: u64, deposit: u128) -> CallContext {
    ctx(predecessor, now, deposit, 300_000_000_000_000)
}

fn campaign(min_amount: Option<u128>, max_amount: Option<u128>) -> Contract {
    let mut c = Contract::new_default_meta("owner.testnet".to_string());
    let created = c.create_campaign(
        &at("creator.testnet", 10, 1_000),
        "Clean Water".to_string(),
        None,
        None,
        "recipient.testnet".to_string(),
        100,
        Some(1_000),
        None,
        50_000,
        min_amount,
        max_amount,
        None,
        None,
        None,
    );
    assert_eq!(created.ok().unwrap().id, 1);
    c
}

fn costs(entries: &[(u64, u128)]) -> IdMap<u128> {
    let mut m = IdMap::new();
    for (id, cost) in entries {
        m.insert(*id, *cost);
    }
    m
}

fn donate(c: &mut Contract, now: u64, amount: u128) -> Result<(), CampaignError> {
    c.donate(&at("donor.testnet", now, amount), 1, None, None, None, None, 50).map(|_| ())
}

#[test]
fn fee_rates_above_the_cap_are_refused() {
    let mut c = Contract::new_default_meta("owner.testnet".to_string());
    assert!(c.admin_set_protocol_fee_basis_points(&at("owner.testnet", 1, 1), 1_001) == Err(CampaignError::ProtocolFeeTooHigh));
    assert!(c.admin_set_referral_fee_basis_points(&at("owner.testnet", 1, 1), 1_001) == Err(CampaignError::ReferralFeeTooHigh));
    assert!(c.admin_set_creator_fee_basis_points(&at("owner.testnet", 1, 1), 1_001) == Err(CampaignError::CreatorFeeTooHigh));
    assert!(c.admin_set_creator_fee_basis_points(&at("owner.testnet", 1, 1), 1_000).is_ok());
    assert_eq!(c.get_config().default_creator_fee_basis_points, 1_000);
    let r = c.create_campaign(
        &at("creator.testnet", 10, 1_000),
        "Too generous".to_string(),
        None,
        None,
        "recipient.testnet".to_string(),
        100,
        None,
        None,
        50_000,
        None,
        None,
        Some(1_001),
        None,
        None,
    );
    assert!(matches!(r, Err(CampaignError::ReferralFeeTooHigh)));
    assert!(matches!(c.get_campaign(1), Err(CampaignError::CampaignNotFound)));
}

#[test]
fn campaign_updates_are_checked_in_order() {
    let mut c = campaign(Some(1_000_000), None);
    let owner = |now: u64| at("creator.testnet", now, 1);
    let r = c.update_campaign(&owner(10), 1, None, None, None, Some(5), None, None, None, None, None, None);
    assert!(matches!(r, Err(CampaignError::StartNotInFuture)));
    let r = c.update_campaign(&owner(500), 1, None, None, None, None, None, Some("token.testnet".to_string()), None, None, None, None);
    assert!(matches!(r, Err(CampaignError::CampaignStarted)));
    let r = c.update_campaign(&owner(10), 1, None, None, None, None, Some(50), None, None, None, None, None);
    assert!(matches!(r, Err(CampaignError::EndBeforeStart)));
    let r = c.update_campaign(&owner(50), 1, None, None, None, None, Some(2_000), None, None, None, None, None);
    assert!(matches!(r, Err(CampaignError::MinAmountNotReached)));
    let r = c.update_campaign(&owner(2_000), 1, None, None, None, None, None, None, Some(7), None, None, None);
    assert!(matches!(r, Err(CampaignError::EndReached)));
    let r = c.update_campaign(&owner(500), 1, None, None, None, None, None, None, None, None, Some(5), None);
    assert!(matches!(r, Err(CampaignError::CampaignStarted)));
    let r = c.update_campaign(&owner(50), 1, Some("Clean Air".to_string()), None, None, None, None, None, Some(60_000), None, None, None);
    let updated = r.ok().unwrap();
    assert_eq!(updated.name, "Clean Air");
    assert_eq!(updated.target_amount, 60_000);
    assert_eq!(c.get_campaign(1).ok().unwrap().target_amount, 60_000);
}

#[test]
fn campaign_at_its_maximum_refuses_donations_and_updates() {
    let mut c = campaign(None, Some(5_000));
    assert!(donate(&mut c, 500, 10_000).is_ok());
    assert!(matches!(donate(&mut c, 510, 10_000), Err(CampaignError::MaxAmountReached)));
    let r = c.update_campaign(&at("creator.testnet", 520, 1), 1, None, None, None, None, None, None, Some(1), None, None, None);
    assert!(matches!(r, Err(CampaignError::MaxAmountReached)));
}

#[test]
fn donation_that_cannot_pay_its_storage_is_refused() {
    let mut c = campaign(None, None);
    let r = c.donate(&at("donor.testnet", 500, 10_000), 1, None, None, None, None, 20_000);
    assert!(matches!(r, Err(CampaignError::InsufficientStorageDeposit)));
    assert!(c.get_donations(None, None).ok().unwrap().is_empty());
}

#[test]
fn token_transfer_for_a_near_campaign_is_refused() {
    let mut c = campaign(None, None);
    let msg = FtReceiverMsg {
        campaign_id: 1,
        referrer_id: None,
        message: None,
        bypass_protocol_fee: None,
        bypass_creator_fee: None,
    };
    let r = c.ft_on_transfer(&at("token.testnet", 500, 0), "donor.testnet".to_string(), 10_000, msg, 50);
    assert!(matches!(r, Err(CampaignError::WrongToken)));
}

#[test]
fn campaign_with_donations_cannot_be_deleted() {
    let mut c = campaign(None, None);
    assert!(matches!(c.delete_campaign(&at("creator.testnet", 500, 1), 1), Err(CampaignError::CampaignStarted)));
    assert!(donate(&mut c, 500, 10_000).is_ok());
    let r = c.update_campaign(&at("creator.testnet", 600, 1), 1, None, None, None, Some(700), None, None, None, None, None, None);
    assert_eq!(r.ok().unwrap().start_ms, 700);
    assert!(matches!(c.delete_campaign(&at("creator.testnet", 650, 1), 1), Err(CampaignError::HasDonations)));
}

#[test]
fn escrow_release_and_refunds_are_gated() {
    let mut c = campaign(Some(1_000_000), None);
    assert!(donate(&mut c, 500, 10_000).is_ok());
    let low_gas = ctx("anyone.testnet", 600, 0, 1_000);
    assert!(matches!(c.process_escrowed_donations_batch(&low_gas, 1), Err(CampaignError::NotEnoughGas)));
    assert!(matches!(
        c.process_escrowed_donations_batch(&at("anyone.testnet", 600, 0), 1),
        Ok(None)
    ));
    assert!(matches!(
        c.process_refunds_batch(&at("anyone.testnet", 600, 0), 1, &costs(&[(1, 10)])),
        Err(CampaignError::RefundsNotAvailable)
    ));
    assert!(matches!(
        c.process_refunds_batch(&at("anyone.testnet", 2_000, 0), 1, &costs(&[])),
        Err(CampaignError::StorageCostMissing)
    ));
    let refunds = c.process_refunds_batch(&at("anyone.testnet", 2_000, 0), 1, &costs(&[(1, 10)])).ok().unwrap();
    assert_eq!(refunds.len(), 1);
    assert_eq!(refunds[0].transfer.amount, 10_000 - 10);

    let mut reached = campaign(Some(100), None);
    assert!(donate(&mut reached, 500, 10_000).is_ok());
    assert!(matches!(
        reached.process_refunds_batch(&at("anyone.testnet", 2_000, 0), 1, &costs(&[(1, 10)])),
        Err(CampaignError::MinAmountReached)
    ));
}

#[test]
fn storage_balance_errors() {
    let mut c = Contract::new_default_meta("owner.testnet".to_string());
    assert!(matches!(
        c.storage_withdraw(&at("donor.testnet", 1, 0), Some(5), 7),
        Err(CampaignError::WithdrawalExceedsBalance)
    ));
    assert!(matches!(c.storage_deposit(&at("donor.testnet", 1, 3), 10), Err(CampaignError::InsufficientStorageDeposit)));
    assert_eq!(c.storage_deposit(&at("donor.testnet", 1, u128::MAX), 0).ok().unwrap(), u128::MAX);
    assert!(matches!(c.storage_deposit(&at("donor.testnet", 1, 1), 0), Err(CampaignError::ArithmeticOverflow)));
    assert_eq!(c.storage_balance_of(&"donor.testnet".to_string()), u128::MAX);
}

#[test]
fn zero_limit_pages_are_refused() {
    let c = campaign(None, None);
    assert!(matches!(c.get_campaigns(None, Some(0)), Err(CampaignError::ZeroLimit)));
    assert!(matches!(c.get_donations(None, Some(0)), Err(CampaignError::ZeroLimit)));
}

#[test]
fn failed_fee_transfers_go_back_to_the_donor() {
    let mut c = campaign(None, None);
    let out = c.donate(&at("donor.testnet", 500, 10_000), 1, None, None, None, None, 50).ok().unwrap();
    let d = out.donation;
    let before = c.get_donation_by_id(d.id).ok().unwrap().unwrap();
    let r = c.transfer_funds_callback(0, d.copy(), FundsReceiver::Referrer, false, 0);
    assert!(matches!(r, Err(CampaignError::MissingReferrerFee)));
    let back = c.transfer_funds_callback(d.protocol_fee, d.copy(), FundsReceiver::Protocol, false, 0).ok().unwrap();
    assert_eq!(back.refunds.len(), 1);
    assert_eq!(back.refunds[0].receiver, "donor.testnet");
    assert_eq!(back.refunds[0].amount, 100);
    assert_eq!(back.donation.unwrap().protocol_fee, 0);
    let stored = c.get_donation_by_id(d.id).ok().unwrap().unwrap();
    assert_eq!(stored.protocol_fee, 0);
    assert_eq!(stored.creator_fee, 100);
    assert_eq!(stored.net_amount, before.net_amount);
    assert!(stored.net_amount > 0);
    assert_eq!(stored.total_amount, d.total_amount);
}

#[test]
fn created_and_deleted_campaign_leaves_nothing() {
    let mut c = Contract::new_default_meta("owner.testnet".to_string());
    assert!(c.get_campaigns(None, None).ok().unwrap().is_empty());
    let created = c
        .create_campaign(
            &at("creator.testnet", 10, 1_000),
            "Short lived".to_string(),
            None,
            None,
            "recipient.testnet".to_string(),
            100,
            None,
            None,
            1,
            None,
            None,
            None,
            None,
            None,
        )
        .ok()
        .unwrap();
    assert_eq!(c.get_campaigns_by_owner("creator.testnet".to_string(), None, None).ok().unwrap().len(), 1);
    assert!(c.delete_campaign(&at("creator.testnet", 20, 1), created.id).is_ok());
    assert!(c.get_campaigns(None, None).ok().unwrap().is_empty());
    assert!(c.get_campaigns_by_owner("creator.testnet".to_string(), None, None).ok().unwrap().is_empty());
    assert!(c.get_campaigns_by_recipient("recipient.testnet".to_string(), None, None).ok().unwrap().is_empty());
    assert!(matches!(c.get_campaign(created.id), Err(CampaignError::CampaignNotFound)));
}

#[test]
fn failed_payout_returns_the_whole_donation() {
    let mut c = campaign(None, None);
    let out = c.donate(&at("donor.testnet", 500, 10_000), 1, None, None, None, None, 50).ok().unwrap();
    let d = out.donation;
    let back = c.transfer_funds_callback(d.net_amount, d.copy(), FundsReceiver::Recipient, false, 100).ok().unwrap();
    assert!(back.donation.is_none());
    assert_eq!(back.refunds.len(), 2);
    assert_eq!(back.refunds[0].receiver, "donor.testnet");
    assert_eq!(back.refunds[0].amount, 10_000);
    assert_eq!(back.refunds[1].amount, 100 * 10_000_000_000_000_000_000u128);
    assert!(c.get_donation_by_id(d.id).ok().unwrap().is_none());
    assert!(c.get_donations_for_campaign(1, None, None).ok().unwrap().is_empty());
}

#[test]
fn refunds_take_each_records_own_storage_cost() {
    let mut c = campaign(Some(1_000_000), None);
    assert!(donate(&mut c, 500, 10_000).is_ok());
    assert!(donate(&mut c, 510, 20_000).is_ok());
    let refunds = c.process_refunds_batch(&at("anyone.testnet", 2_000, 0), 1, &costs(&[(1, 30), (2, 70)])).ok().unwrap();
    assert_eq!(refunds.len(), 1);
    assert_eq!(refunds[0].donor_id, "donor.testnet");
    assert_eq!(refunds[0].transfer.amount, (10_000 - 30) + (20_000 - 70));
    assert_eq!(refunds[0].record.donations.len(), 2);
}
