use potlock::env::CallContext;
use potlock::pot::contract::Contract;
use potlock::pot::types::{ApplicationStatus, CustomSybilCheck, PayoutInput, PotError};
use potlock::pot::validation::{
    assert_valid_cooldown_period_ms, assert_valid_provider_id, check_timestamps, MIN_COOLDOWN_PERIOD_MS,
};
use potlock::provider::ProviderId;

const OWNER: &str = "owner.testnet";
const ADMIN: &str = "admin.testnet";
const CHEF: &str = "chef.testnet";
const PROJECT: &str = "project.testnet";

fn at(predecessor: &str, now: u64, deposit: u128) -> CallContext {
    CallContext {
        predecessor: predecessor.to_string(),
        signer: predecessor.to_string(),
        current_account: "pot.potfactory.testnet".to_string(),
        block_timestamp_ms: now,
        attached_deposit: deposit,
        prepaid_gas: 300_000_000_000_000,
    }
}

/// Applications from 100 to 200, public round from 300 to 400.
fn pot() -> Contract {
    Contract::new(
        &at("deployer.testnet", 0, 0),
        Some(OWNER.to_string()),
        Some(vec![ADMIN.to_string()]),
        Some(CHEF.to_string()),
        "Round One".to_string(),
        "A round".to_string(),
        10,
        100,
        200,
        300,
        400,
        None,
        None,
        None,
        None,
        100,
        100,
        500,
        None,
    )
}

/// A pot with one approved project.
fn pot_with_project() -> Contract {
    let mut p = pot();
    let (app, refund) = p
        .handle_apply(&at(PROJECT, 150, 1_000), PROJECT.to_string(), Some("hi".to_string()), 1_000, 300)
        .ok()
        .expect("applied");
    assert_eq!(refund, 700);
    assert!(app.status == ApplicationStatus::Pending);
    p.chef_mark_application_approved(&at(CHEF, 250, 1), PROJECT.to_string(), "ok".to_string())
        .ok()
        .expect("approved");
    p
}

#[test]
fn new_pot_defaults() {
    let p = pot();
    let cfg = p.get_config();
    assert_eq!(cfg.owner, OWNER);
    assert_eq!(cfg.deployed_by, "deployer.testnet");
    assert_eq!(cfg.base_currency, "near");
    assert_eq!(cfg.matching_pool_balance, 0);
    assert_eq!(cfg.cooldown_period_ms, MIN_COOLDOWN_PERIOD_MS);
}

#[test]
fn pot_validators() {
    assert!(check_timestamps(1, 2, 3, 4).is_ok());
    assert!(check_timestamps(2, 2, 3, 4) == Err(PotError::ApplicationStartNotBeforeEnd));
    assert!(check_timestamps(1, 3, 3, 4) == Err(PotError::ApplicationEndNotBeforeRoundStart));
    assert!(check_timestamps(1, 2, 4, 4) == Err(PotError::RoundStartNotBeforeEnd));
    assert!(assert_valid_cooldown_period_ms(MIN_COOLDOWN_PERIOD_MS).is_ok());
    assert!(assert_valid_cooldown_period_ms(MIN_COOLDOWN_PERIOD_MS - 1) == Err(PotError::CooldownTooShort));
    assert!(assert_valid_provider_id(&ProviderId("registry.testnet:is_registered".to_string())).is_ok());
    assert!(assert_valid_provider_id(&ProviderId("registry.testnet".to_string())) == Err(PotError::InvalidProvider));
}

#[test]
fn application_lifecycle() {
    let mut p = pot();
    assert!(matches!(
        p.handle_apply(&at(PROJECT, 50, 1_000), PROJECT.to_string(), None, 1_000, 300),
        Err(PotError::ApplicationPeriodClosed)
    ));
    assert!(matches!(
        p.handle_apply(&at(PROJECT, 150, 100), PROJECT.to_string(), None, 100, 300),
        Err(PotError::InsufficientStorageDeposit)
    ));
    assert!(p.handle_apply(&at(PROJECT, 150, 1_000), PROJECT.to_string(), None, 1_000, 300).is_ok());
    assert!(matches!(
        p.handle_apply(&at(PROJECT, 160, 1_000), PROJECT.to_string(), None, 1_000, 300),
        Err(PotError::ApplicationExists)
    ));
    assert!(matches!(
        p.chef_mark_application_approved(&at("stranger.testnet", 250, 1), PROJECT.to_string(), "x".to_string()),
        Err(PotError::ChefOnly)
    ));
    let a = p.chef_mark_application_approved(&at(CHEF, 250, 1), PROJECT.to_string(), "ok".to_string()).ok().unwrap();
    assert!(a.status == ApplicationStatus::Approved);
    let approved = p.get_approved_applications(None, None).ok().unwrap();
    assert_eq!(approved.len(), 1);
    assert_eq!(approved[0].project_id, PROJECT);
    assert!(matches!(p.get_approved_applications(Some(2), None), Err(PotError::OutOfBounds)));
    assert!(matches!(p.get_approved_applications(None, Some(0)), Err(PotError::ZeroLimit)));
    p.chef_mark_application_rejected(&at(CHEF, 260, 1), PROJECT.to_string(), "no".to_string()).ok().unwrap();
    assert_eq!(p.get_approved_applications(None, None).ok().unwrap().len(), 0);
}

#[test]
fn donation_parts_add_up_to_the_deposit() {
    let mut p = pot_with_project();
    let ctx = at("donor.testnet", 350, 1_000_000);
    let r = p
        .process_donation(
            &ctx,
            1_000_000,
            "donor.testnet".to_string(),
            20_000,
            Some("fees.testnet".to_string()),
            Some(PROJECT.to_string()),
            None,
            Some("ref.testnet".to_string()),
            false,
            None,
            1_000,
        )
        .ok()
        .expect("donated");
    let d = r.donation;
    assert_eq!(d.id, 1);
    assert_eq!(d.protocol_fee, 20_000);
    assert_eq!(d.chef_fee, Some(49_000));
    assert_eq!(d.referrer_fee, Some(9_310));
    assert_eq!(d.net_amount, 920_690);
    assert_eq!(20_000 + 49_000 + 9_310 + 1_000 + d.net_amount, 1_000_000);
    assert!(!d.matching_pool);
    let amounts: Vec<u128> = r.transfers.iter().map(|t| t.amount).collect();
    assert_eq!(amounts, vec![20_000, 49_000, 9_310, 920_690]);
    assert_eq!(r.transfers[3].receiver, PROJECT);
    let for_project = p.get_donations_for_project(PROJECT.to_string(), None, None).ok().unwrap();
    assert_eq!(for_project.len(), 1);
    assert_eq!(p.get_public_round_donations(None, None).ok().unwrap().len(), 1);
    assert_eq!(p.get_matching_pool_donations(None, None).ok().unwrap().len(), 0);
    assert_eq!(p.get_donations_for_donor("donor.testnet".to_string(), None, None).ok().unwrap().len(), 1);
    assert_eq!(p.get_donations_for_donor("nobody.testnet".to_string(), None, None).ok().unwrap().len(), 0);
    assert!(matches!(p.get_donations(Some(5), None), Err(PotError::OutOfBounds)));
    assert!(matches!(p.get_donations(None, Some(0)), Err(PotError::ZeroLimit)));
}

#[test]
fn donation_smaller_than_storage_is_refused() {
    let mut p = pot_with_project();
    let ctx = at("donor.testnet", 350, 1_000);
    let r = p.process_donation(&ctx, 1_000, "donor.testnet".to_string(), 0, None, Some(PROJECT.to_string()), None, None, false, None, 2_000);
    assert!(matches!(r, Err(PotError::InsufficientStorageDeposit)));
    assert_eq!(p.get_donations(None, None).ok().unwrap().len(), 0);
}

fn funded_pot() -> Contract {
    let mut p = pot_with_project();
    let ctx = at("patron.testnet", 250, 1_000_000);
    let r = p
        .process_donation(&ctx, 1_000_000, "patron.testnet".to_string(), 0, None, None, None, None, true, Some(0), 0)
        .ok()
        .expect("matching pool donation");
    assert!(r.donation.matching_pool);
    p
}

#[test]
fn payouts_cannot_exceed_matching_pool() {
    let mut p = funded_pot();
    let chef = at(CHEF, 450, 1);
    assert_eq!(p.get_config().matching_pool_balance, 1_000_000);
    let too_much = vec![PayoutInput { amount: 1_000_001, recipient_id: PROJECT.to_string(), memo: None }];
    assert!(p.chef_set_payouts(&chef, too_much, false) == Err(PotError::PayoutsExceedMatchingPool));
    let early = vec![PayoutInput { amount: 10, recipient_id: PROJECT.to_string(), memo: None }];
    assert!(p.chef_set_payouts(&at(CHEF, 350, 1), early, false) == Err(PotError::RoundNotClosed));
    let unknown = vec![PayoutInput { amount: 10, recipient_id: "other.testnet".to_string(), memo: None }];
    assert!(p.chef_set_payouts(&chef, unknown, false) == Err(PotError::ProjectNotApproved));
    let ok = vec![PayoutInput { amount: 600_000, recipient_id: PROJECT.to_string(), memo: Some("m".to_string()) }];
    assert!(p.chef_set_payouts(&chef, ok, false).is_ok());
    let payouts = p.get_payouts(None, None).ok().unwrap();
    assert_eq!(payouts.len(), 1);
    assert_eq!(payouts[0].amount, 600_000);
    assert_eq!(payouts[0].recipient_id, PROJECT);
    assert!(payouts[0].paid_at.is_none());
}

#[test]
fn challenges_during_cooldown() {
    let mut p = funded_pot();
    let ok = vec![PayoutInput { amount: 600_000, recipient_id: PROJECT.to_string(), memo: None }];
    p.chef_set_payouts(&at(CHEF, 450, 1), ok, false).ok().unwrap();
    let end = 450 + MIN_COOLDOWN_PERIOD_MS;
    assert!(p.challenge_payouts(&at("critic.testnet", 500, 0), "unfair".to_string()).is_ok());
    assert!(p.challenge_payouts(&at("critic.testnet", end, 0), "late".to_string()) == Err(PotError::CooldownNotOver));
    let cs = p.get_payouts_challenges(None, None).ok().unwrap();
    assert_eq!(cs.len(), 1);
    assert_eq!(cs[0].challenger_id, "critic.testnet");
    assert!(!cs[0].resolved);
    // unresolved challenges block payouts and redistribution
    assert!(matches!(p.admin_process_payouts(&at(ADMIN, end + 1, 1), None), Err(PotError::ChallengesUnresolved)));
    assert!(p.admin_update_payouts_challenge(&at(ADMIN, 600, 1), "nobody".to_string(), None, Some(true))
        == Err(PotError::ChallengeNotFound));
    assert!(p.admin_update_payouts_challenge(&at(ADMIN, 600, 1), "critic.testnet".to_string(), Some("seen".to_string()), Some(true)).is_ok());
    assert!(p.remove_payouts_challenge(&at("critic.testnet", 700, 0)) == Err(PotError::ChallengeResolved));
    let cs = p.get_payouts_challenges(None, None).ok().unwrap();
    assert!(cs[0].resolved);
    assert_eq!(cs[0].admin_notes, Some("seen".to_string()));
    assert!(matches!(p.admin_remove_resolved_payouts_challenges(&at(ADMIN, 700, 1)), Err(PotError::CooldownNotOver)));
    let removed = p.admin_remove_resolved_payouts_challenges(&at(ADMIN, end + 1, 1)).ok().unwrap();
    assert_eq!(removed, vec!["critic.testnet".to_string()]);
    assert_eq!(p.get_payouts_challenges(None, None).ok().unwrap().len(), 0);
}

#[test]
fn withdrawn_challenge_is_removed() {
    let mut p = funded_pot();
    let ok = vec![PayoutInput { amount: 1, recipient_id: PROJECT.to_string(), memo: None }];
    p.chef_set_payouts(&at(CHEF, 450, 1), ok, false).ok().unwrap();
    p.challenge_payouts(&at("critic.testnet", 500, 0), "unfair".to_string()).ok().unwrap();
    assert!(p.remove_payouts_challenge(&at("critic.testnet", 600, 0)).is_ok());
    assert_eq!(p.get_payouts_challenges(None, None).ok().unwrap().len(), 0);
}

#[test]
fn payouts_are_paid_after_cooldown() {
    let mut p = funded_pot();
    let ok = vec![PayoutInput { amount: 600_000, recipient_id: PROJECT.to_string(), memo: None }];
    p.chef_set_payouts(&at(CHEF, 450, 1), ok, false).ok().unwrap();
    let after = 450 + MIN_COOLDOWN_PERIOD_MS + 1;
    assert!(matches!(p.admin_process_payouts(&at(ADMIN, 500, 1), None), Err(PotError::CooldownNotOver)));
    let transfers = p.admin_process_payouts(&at(ADMIN, after, 1), None).ok().unwrap();
    assert_eq!(transfers.len(), 1);
    assert_eq!(transfers[0].transfer.receiver, PROJECT);
    assert_eq!(transfers[0].transfer.amount, 600_000);
    let payout = transfers[0].payout.copy();
    assert!(p.transfer_payout_callback(&at("pot.potfactory.testnet", after, 0), payout, true).is_ok());
    assert_eq!(p.get_config().matching_pool_balance, 400_000);
    assert_eq!(p.get_payouts(None, None).ok().unwrap()[0].paid_at, Some(after));
}

#[test]
fn redistribution_of_remaining_matching_pool() {
    let mut p = funded_pot();
    let ok = vec![PayoutInput { amount: 600_000, recipient_id: PROJECT.to_string(), memo: None }];
    p.chef_set_payouts(&at(CHEF, 450, 1), ok, false).ok().unwrap();
    let after = 450 + MIN_COOLDOWN_PERIOD_MS + 1;
    let admin = at(ADMIN, after, 1);
    assert!(matches!(p.admin_redistribute_matching_pool(&admin), Err(PotError::RedistributionNotAllowed)));
    p.allow_remaining_funds_redistribution = true;
    assert!(matches!(p.admin_redistribute_matching_pool(&admin), Err(PotError::NoRedistributionRecipient)));
    assert!(p.admin_set_remaining_funds_redistribution_recipient(&admin, "dao.testnet".to_string()) == Err(PotError::RoundStarted));
    p.remaining_funds_redistribution_recipient = Some("dao.testnet".to_string());
    let t = p.admin_redistribute_matching_pool(&admin).ok().unwrap();
    assert_eq!(t.receiver, "dao.testnet");
    assert_eq!(t.amount, 1_000_000);
    assert_eq!(p.get_config().matching_pool_balance, 0);
    // a failed transfer puts the balance back
    p.redistribute_matching_pool_callback(&admin, t.amount, false);
    assert_eq!(p.get_config().matching_pool_balance, 1_000_000);
    assert!(!p.get_config().all_paid_out);
    let t = p.admin_redistribute_matching_pool(&admin).ok().unwrap();
    p.redistribute_matching_pool_callback(&admin, t.amount, true);
    assert!(p.get_config().all_paid_out);
}

#[test]
fn pot_settings() {
    let mut p = pot();
    let owner = at(OWNER, 10, 1);
    let admin = at(ADMIN, 10, 1);
    let stranger = at("stranger.testnet", 10, 1);
    assert!(p.admin_set_pot_name(&stranger, "x".to_string()) == Err(PotError::AdminOnly));
    assert!(p.admin_set_pot_name(&at(ADMIN, 10, 0), "x".to_string()) == Err(PotError::DepositRequired));
    assert!(p.admin_set_pot_name(&admin, "n".repeat(65)) == Err(PotError::NameTooLong));
    assert!(p.admin_set_pot_name(&admin, "Renamed".to_string()).is_ok());
    assert!(p.admin_set_pot_description(&admin, "d".repeat(257)) == Err(PotError::DescriptionTooLong));
    assert!(p.admin_set_max_projects(&admin, 101) == Err(PotError::TooManyProjects));
    assert!(p.admin_set_chef_fee_basis_points(&admin, 1001) == Err(PotError::ChefFeeTooHigh));
    assert!(p.admin_set_referral_fee_matching_pool_basis_points(&admin, 1001) == Err(PotError::ReferralFeeTooHigh));
    assert!(p.admin_set_referral_fee_public_round_basis_points(&admin, 200).is_ok());
    assert!(p.admin_set_base_currency(&admin, "usdc.testnet".to_string()) == Err(PotError::OnlyNearSupported));
    assert!(p.admin_set_base_currency(&admin, "near".to_string()).is_ok());
    assert!(p.admin_set_round_timestamps(&admin, None, Some(350), None, None) == Err(PotError::ApplicationEndNotBeforeRoundStart));
    assert!(p.admin_set_round_timestamps(&admin, None, None, Some(250), Some(500)).is_ok());
    assert!(p.admin_set_cooldown_end_ms(&admin, 5) == Err(PotError::CooldownNotSet));
    assert!(p.admin_set_registry_provider(&admin, "registry.testnet".to_string(), "is_registered".to_string()).is_ok());
    let bad_checks = vec![CustomSybilCheck { contract_id: "".to_string(), method_name: "m".to_string(), weight: 1 }];
    assert!(p.admin_set_custom_sybil_checks(&admin, bad_checks) == Err(PotError::InvalidProvider));
    let checks = vec![CustomSybilCheck { contract_id: "sybil.testnet".to_string(), method_name: "is_human".to_string(), weight: 5 }];
    assert!(p.admin_set_custom_sybil_checks(&admin, checks).is_ok());
    assert!(p.admin_add_blacklisted_donors(&admin, vec!["bad.testnet".to_string()]).is_ok());
    assert_eq!(p.get_blacklisted_donors(), vec!["bad.testnet".to_string()]);
    assert!(p.owner_add_admins(&admin, vec!["a2.testnet".to_string()]) == Err(PotError::OwnerOnly));
    assert!(p.owner_set_admins(&owner, vec!["a2.testnet".to_string()]).is_ok());
    assert!(p.is_admin(&"a2.testnet".to_string()));
    assert!(!p.is_admin(&ADMIN.to_string()));
    let cfg = p.get_config();
    assert_eq!(cfg.pot_name, "Renamed");
    assert_eq!(cfg.public_round_start_ms, 250);
    assert_eq!(cfg.referral_fee_public_round_basis_points, 200);
    assert_eq!(cfg.registry_provider.unwrap().0, "registry.testnet:is_registered");
    assert!(p.self_set_source_metadata(&owner, potlock::pot::types::ContractSourceMetadata {
        version: "1".to_string(), commit_hash: "c".to_string(), link: "l".to_string() }) == Err(PotError::NotContractAccount));
    assert!(p.get_contract_source_metadata().is_none());
}
