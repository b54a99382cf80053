use potlock::donation::contract::Contract;
use potlock::donation::types::{DonationError, FtReceiverMsg, TransferType};
use potlock::env::CallContext;
use potlock::pot::types::ContractSourceMetadata;

fn at(predecessor: &str, deposit: u128) -> CallContext {
    CallContext {
        predecessor: predecessor.to_string(),
        signer: predecessor.to_string(),
        current_account: "donate.testnet".to_string(),
        block_timestamp_ms: 42,
        attached_deposit: deposit,
        prepaid_gas: 300_000_000_000_000,
    }
}

fn contract() -> Contract {
    Contract::new(
        "owner.testnet".to_string(),
        250,
        100,
        "fees.testnet".to_string(),
        ContractSourceMetadata { version: "1".to_string(), commit_hash: "c".to_string(), link: "l".to_string() },
    )
}

#[test]
fn fees_round_protocol_up_and_referrer_down() {
    let c = contract();
    assert_eq!(c.calculate_protocol_fee(1_001), 26);
    assert_eq!(c.calculate_referrer_fee(1_001), 10);
    let (p, r, rest) = c.calculate_fees_and_remainder(1_001, &Some("ref.testnet".to_string()), None).ok().unwrap();
    assert_eq!((p, r, rest), (26, Some(10), 965));
    assert_eq!(p + r.unwrap() + rest, 1_001);
    let (p, r, rest) = c.calculate_fees_and_remainder(1_001, &None, Some(true)).ok().unwrap();
    assert_eq!((p, r, rest), (0, None, 1_001));
}

#[test]
fn donate_records_and_pays_recipient() {
    let mut c = contract();
    let (d, pending) = c
        .donate(&at("alice.testnet", 1_001), "bob.testnet".to_string(), Some("gm".to_string()), Some("ref.testnet".to_string()), None, 5)
        .ok()
        .unwrap();
    assert_eq!(d.id, 1);
    assert_eq!(d.ft_id, "near");
    assert_eq!(d.protocol_fee, 26);
    assert_eq!(d.referrer_fee, Some(10));
    assert_eq!(pending.transfer.receiver, "bob.testnet");
    assert_eq!(pending.transfer.amount, 960);
    assert!(pending.transfer.ft_id.is_none());
    assert!(pending.transfer_type == TransferType::DonationTransfer);
    let all = c.get_donations(None, None).ok().unwrap();
    assert_eq!(all.len(), 1);
    assert_eq!(c.get_donations_for_recipient("bob.testnet".to_string(), None, None).ok().unwrap().len(), 1);
    assert_eq!(c.get_donations_for_donor("alice.testnet".to_string(), None, None).ok().unwrap().len(), 1);
    assert_eq!(c.get_donations_for_ft("near".to_string(), None, None).ok().unwrap().len(), 1);
    assert_eq!(c.get_donations_for_ft("usdc.testnet".to_string(), None, None).ok().unwrap().len(), 0);
    assert!(matches!(c.get_donations(Some(2), None), Err(DonationError::OutOfBounds)));
    assert!(matches!(c.get_donations(None, Some(0)), Err(DonationError::ZeroLimit)));
    assert!(c.get_donation_by_id(1).is_some());
    assert!(c.get_donation_by_id(2).is_none());
}

#[test]
fn donation_too_small_for_storage_is_refused() {
    let mut c = contract();
    let r = c.donate(&at("alice.testnet", 10), "bob.testnet".to_string(), None, None, None, 100);
    assert!(matches!(r, Err(DonationError::InsufficientStorageDeposit)));
    assert_eq!(c.get_donations(None, None).ok().unwrap().len(), 0);
}

#[test]
fn owner_settings() {
    let mut c = contract();
    assert!(c.owner_set_protocol_fee_basis_points(&at("stranger.testnet", 1), 1) == Err(DonationError::OwnerOnly));
    assert!(c.owner_set_protocol_fee_basis_points(&at("owner.testnet", 0), 1) == Err(DonationError::DepositRequired));
    assert!(c.owner_set_referral_fee_basis_points(&at("owner.testnet", 1), 300).is_ok());
    assert_eq!(c.get_config().referral_fee_basis_points, 300);
    assert!(c.owner_change_owner(&at("owner.testnet", 1), "dao.testnet".to_string()).is_ok());
    assert_eq!(c.get_owner(), "dao.testnet");
}

#[test]
fn default_contract_is_empty() {
    let c = Contract::default();
    assert_eq!(c.get_owner(), "");
    assert_eq!(c.get_config().total_donations_amount, 0);
    assert_eq!(c.next_donation_id, 1);
}

#[test]
fn fees_above_the_amount_are_refused() {
    let mut c = contract();
    c.owner_set_protocol_fee_basis_points(&at("owner.testnet", 1), 10_000).ok().unwrap();
    assert!(matches!(
        c.calculate_fees_and_remainder(1_000, &Some("ref.testnet".to_string()), None),
        Err(DonationError::FeesExceedAmount)
    ));
    let r = c.donate(&at("alice.testnet", 1_000), "bob.testnet".to_string(), None, Some("ref.testnet".to_string()), None, 5);
    assert!(matches!(r, Err(DonationError::FeesExceedAmount)));
    let (p, r, rest) = c.calculate_fees_and_remainder(1_000, &None, None).ok().unwrap();
    assert_eq!((p, r, rest), (1_000, None, 0));
}

#[test]
fn total_that_would_overflow_is_refused() {
    let mut c = contract();
    assert!(c.donate(&at("whale.testnet", u128::MAX), "bob.testnet".to_string(), None, None, None, 5).is_ok());
    assert_eq!(c.get_config().total_donations_amount, u128::MAX);
    let r = c.donate(&at("alice.testnet", 1_000), "bob.testnet".to_string(), None, None, None, 5);
    assert!(matches!(r, Err(DonationError::ArithmeticOverflow)));
    assert_eq!(c.get_donations(None, None).ok().unwrap().len(), 1);
}

#[test]
fn token_donation_needs_a_storage_balance() {
    let mut c = contract();
    let msg = FtReceiverMsg {
        recipient_id: "bob.testnet".to_string(),
        referrer_id: None,
        message: None,
        bypass_protocol_fee: None,
    };
    let r = c.ft_on_transfer(&at("usdc.testnet", 0), "alice.testnet".to_string(), 1_000, msg, 5);
    assert!(matches!(r, Err(DonationError::InsufficientStorageDeposit)));
    assert_eq!(c.get_donations(None, None).ok().unwrap().len(), 0);
}

#[test]
fn failed_donation_transfer_returns_it_to_the_donor() {
    let mut c = contract();
    let (d, pending) = c.donate(&at("alice.testnet", 1_001), "bob.testnet".to_string(), None, None, None, 5).ok().unwrap();
    let out = c.transfer_funds_callback(pending.remainder, d.copy(), TransferType::DonationTransfer, false, 10).ok().unwrap();
    assert!(out.fee_transfers.is_empty());
    assert_eq!(out.refunds.len(), 1);
    assert_eq!(out.refunds[0].receiver, "alice.testnet");
    assert_eq!(out.refunds[0].amount, 1_001);
    assert_eq!(c.storage_balance_of(&"alice.testnet".to_string()), 10 * 10_000_000_000_000_000_000u128);
    assert!(c.get_donation_by_id(d.id).is_none());
    assert!(c.get_donations_for_recipient("bob.testnet".to_string(), None, None).ok().unwrap().is_empty());
}
