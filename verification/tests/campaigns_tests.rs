use potlock::campaigns::contract::Contract;
use potlock::campaigns::types::CampaignError;
use potlock::env::CallContext;

fn at(predecessor: &str, now: u64, deposit: u128) -> CallContext {
    CallContext {
        predecessor: predecessor.to_string(),
        signer: predecessor.to_string(),
        current_account: "campaigns.testnet".to_string(),
        block_timestamp_ms: now,
        attached_deposit: deposit,
        prepaid_gas: 300_000_000_000_000,
    }
}

fn with_campaign(min_amount: Option<u128>) -> Contract {
    let mut c = Contract::new_default_meta("owner.testnet".to_string());
    let created = c
        .create_campaign(
            &at("creator.testnet", 10, 1_000),
            "Clean Water".to_string(),
            None,
            None,
            "recipient.testnet".to_string(),
            100,
            Some(1_000),
            None,
            50_000,
            min_amount,
            None,
            None,
            None,
            None,
        )
        .ok()
        .unwrap();
    assert_eq!(created.id, 1);
    c
}

#[test]
fn campaign_donation_fees() {
    let mut c = with_campaign(None);
    assert!(matches!(
        c.donate(&at("donor.testnet", 50, 10_000), 1, None, None, None, None, 50),
        Err(CampaignError::NotStarted)
    ));
    assert!(matches!(
        c.donate(&at("donor.testnet", 1_000, 10_000), 1, None, None, None, None, 50),
        Err(CampaignError::Ended)
    ));
    assert!(matches!(
        c.donate(&at("donor.testnet", 500, 10_000), 7, None, None, None, None, 50),
        Err(CampaignError::CampaignNotFound)
    ));
    let out = c.donate(&at("donor.testnet", 500, 10_000), 1, None, None, None, None, 50).ok().unwrap();
    let d = out.donation;
    assert_eq!(d.protocol_fee, 100);
    assert_eq!(d.creator_fee, 100);
    assert!(d.referrer_fee.is_none());
    assert!(!d.is_in_escrow);
    let payout = out.payout.expect("paid to recipient");
    assert_eq!(payout.transfer.receiver, "recipient.testnet");
    assert_eq!(c.get_donations_for_campaign(1, None, None).ok().unwrap().len(), 1);
}

#[test]
fn donations_below_minimum_are_escrowed() {
    let mut c = with_campaign(Some(1_000_000));
    let out = c.donate(&at("donor.testnet", 500, 10_000), 1, None, None, None, None, 50).ok().unwrap();
    assert!(out.donation.is_in_escrow);
    assert!(out.payout.is_none());
    assert_eq!(c.get_donatio(1).ok().unwrap(), vec![out.donation.id]);
}

#[test]
fn campaign_admin_and_paging() {
    let mut c = with_campaign(None);
    assert!(c.admin_set_protocol_fee_basis_points(&at("stranger.testnet", 1, 1), 5) == Err(CampaignError::AdminOnly));
    assert!(c.owner_add_admins(&at("stranger.testnet", 1, 1), vec!["a.testnet".to_string()]) == Err(CampaignError::OwnerOnly));
    assert!(c.owner_add_admins(&at("owner.testnet", 1, 1), vec!["a.testnet".to_string()]).is_ok());
    assert!(c.admin_set_protocol_fee_basis_points(&at("a.testnet", 1, 1), 5).is_ok());
    assert_eq!(c.get_config().protocol_fee_basis_points, 5);
    assert!(matches!(c.get_campaigns(Some(5), None), Err(CampaignError::OutOfBounds)));
    assert_eq!(c.get_campaigns(None, None).ok().unwrap().len(), 1);
    assert!(matches!(c.get_campaign(9), Err(CampaignError::CampaignNotFound)));
    assert!(matches!(c.delete_campaign(&at("stranger.testnet", 20, 1), 1), Err(CampaignError::OwnerOnly)));
    assert!(c.delete_campaign(&at("creator.testnet", 20, 1), 1).is_ok());
    assert!(matches!(c.get_campaign(1), Err(CampaignError::CampaignNotFound)));
}
