use potlock::env::CallContext;
use potlock::pot::applications::ApplyAction;
use potlock::pot::contract::Contract;
use potlock::pot::donations::{DonateOutcome, PendingDonation};
use potlock::pot::types::{ApplicationStatus, PayoutInput, PotError, ProtocolConfigProviderResult};
use potlock::pot::validation::MIN_COOLDOWN_PERIOD_MS;
use potlock::provider::ProviderId;

const OWNER: &str = "owner.testnet";
const ADMIN: &str = "admin.testnet";
const CHEF: &str = "chef.testnet";
const PROJECT: &str = "project.testnet";

fn at(predecessor: &str, now: u64, deposit: u128) -> CallContext {
    CallContext {
        predecessor: predecessor.to_string(),
        signer: predecessor.to_string(),
        current_account: "pot.potfactory.testnet".to_string(),
        block_timestamp_ms: now,
        attached_deposit: deposit,
        prepaid_gas: 300_000_000_000_000,
    }
}

/// Applications from 100 to 200, public round from 300 to 400.
fn pot_with(max_projects: u32, protocol_config_provider: Option<ProviderId>) -> Contract {
    Contract::new(
        &at("deployer.testnet", 0, 0),
        Some(OWNER.to_string()),
        Some(vec![ADMIN.to_string()]),
        Some(CHEF.to_string()),
        "Round One".to_string(),
        "A round".to_string(),
        max_projects,
        100,
        200,
        300,
        400,
        None,
        None,
        None,
        None,
        100,
        100,
        500,
        protocol_config_provider,
    )
}

fn approve(p: &mut Contract, project: &str) {
    p.handle_apply(&at(project, 150, 1_000), project.to_string(), None, 1_000, 300).ok().expect("applied");
    p.chef_mark_application_approved(&at(CHEF, 250, 1), project.to_string(), "ok".to_string())
        .ok()
        .expect("approved");
}

fn donate(p: &mut Contract, who: &str, now: u64, project: Option<&str>, matching_pool: bool) -> Result<DonateOutcome, PotError> {
    p.donate(
        &at(who, now, 1_000_000),
        project.map(|s| s.to_string()),
        None,
        None,
        Some(matching_pool),
        None,
        None,
        1_000,
    )
}

fn err(r: Result<DonateOutcome, PotError>) -> PotError {
    match r {
        Err(e) => e,
        Ok(_) => panic!("the donation was accepted"),
    }
}

#[test]
fn registry_decides_applications() {
    let mut p = pot_with(10, None);
    assert!(matches!(p.apply(&at(CHEF, 150, 1_000)), Err(PotError::CannotApply)));
    assert!(matches!(p.apply(&at(OWNER, 150, 1_000)), Err(PotError::CannotApply)));
    match p.apply(&at(PROJECT, 150, 1_000)) {
        Ok(ApplyAction::Apply { project_id, deposit }) => {
            assert_eq!(project_id, PROJECT);
            assert_eq!(deposit, 1_000);
        },
        _ => panic!("expected a direct application"),
    }
    p.admin_set_registry_provider(&at(ADMIN, 10, 1), "registry.testnet".to_string(), "is_registered".to_string())
        .ok()
        .unwrap();
    match p.apply(&at(PROJECT, 150, 1_000)) {
        Ok(ApplyAction::QueryRegistry { contract_id, method_name, project_id, deposit }) => {
            assert_eq!(contract_id, "registry.testnet");
            assert_eq!(method_name, "is_registered");
            assert_eq!(project_id, PROJECT);
            assert_eq!(deposit, 1_000);
        },
        _ => panic!("expected a registry query"),
    }
    let ctx = at("pot.potfactory.testnet", 150, 0);
    assert!(matches!(
        p.assert_can_apply_callback(&ctx, PROJECT.to_string(), None, 1_000, Some(false), 300),
        Err(PotError::NotRegistered)
    ));
    assert!(matches!(
        p.assert_can_apply_callback(&ctx, PROJECT.to_string(), None, 1_000, None, 300),
        Err(PotError::NotRegistered)
    ));
    let (app, refund) = p
        .assert_can_apply_callback(&ctx, PROJECT.to_string(), None, 1_000, Some(true), 300)
        .ok()
        .unwrap();
    assert!(app.status == ApplicationStatus::Pending);
    assert_eq!(refund, 700);
}

#[test]
fn unapply_only_pending_applications() {
    let mut p = pot_with(10, None);
    assert!(p.unapply(&at(PROJECT, 160, 0), 300) == Err(PotError::ApplicationNotFound));
    p.handle_apply(&at(PROJECT, 150, 1_000), PROJECT.to_string(), None, 1_000, 300).ok().unwrap();
    assert!(p.unapply(&at(PROJECT, 160, u128::MAX), 300) == Err(PotError::ArithmeticOverflow));
    assert!(p.unapply(&at(PROJECT, 160, 5), 300) == Ok(305));
    assert!(matches!(p.get_application_by_project_id(PROJECT.to_string()), Err(PotError::ApplicationNotFound)));
    approve(&mut p, PROJECT);
    assert!(p.unapply(&at(PROJECT, 260, 0), 300) == Err(PotError::ApplicationNotPending));
}

#[test]
fn approvals_stop_at_max_projects() {
    let mut p = pot_with(1, None);
    approve(&mut p, PROJECT);
    p.handle_apply(&at("second.testnet", 150, 1_000), "second.testnet".to_string(), None, 1_000, 300).ok().unwrap();
    let r = p.chef_mark_application_approved(&at(CHEF, 250, 1), "second.testnet".to_string(), "ok".to_string());
    assert!(matches!(r, Err(PotError::MaxProjectsReached)));
    assert_eq!(p.get_approved_applications(None, None).ok().unwrap().len(), 1);
}

#[test]
fn donation_calls_are_checked_in_order() {
    let mut p = pot_with(10, None);
    approve(&mut p, PROJECT);
    assert!(err(donate(&mut p, "donor.testnet", 350, Some("other.testnet"), false)) == PotError::ProjectNotApproved);
    assert!(err(donate(&mut p, "donor.testnet", 400, None, true)) == PotError::RoundClosed);
    assert!(err(donate(&mut p, "donor.testnet", 250, Some(PROJECT), true)) == PotError::ProjectIdNotAllowed);
    assert!(err(donate(&mut p, "donor.testnet", 250, Some(PROJECT), false)) == PotError::RoundNotActive);
    assert!(err(donate(&mut p, "donor.testnet", 350, None, false)) == PotError::ProjectIdRequired);
    assert!(err(donate(&mut p, PROJECT, 350, Some(PROJECT), false)) == PotError::SelfDonation);
    p.admin_set_min_matching_pool_donation_amount(&at(ADMIN, 10, 1), 2_000_000).ok().unwrap();
    assert!(err(donate(&mut p, "patron.testnet", 250, None, true)) == PotError::DonationTooSmall);
    assert!(p.get_donations(None, None).ok().unwrap().is_empty());
    match donate(&mut p, "donor.testnet", 350, Some(PROJECT), false) {
        Ok(DonateOutcome::Donated(d)) => assert_eq!(d.donation.project_id, Some(PROJECT.to_string())),
        _ => panic!("expected a recorded donation"),
    }
}

#[test]
fn sybil_provider_gates_public_donations() {
    let mut p = pot_with(10, None);
    approve(&mut p, PROJECT);
    p.admin_set_sybil_wrapper_provider(&at(ADMIN, 10, 1), "sybil.testnet".to_string(), "is_human".to_string())
        .ok()
        .unwrap();
    let pending: PendingDonation = match donate(&mut p, "donor.testnet", 350, Some(PROJECT), false) {
        Ok(DonateOutcome::QuerySybil { contract_id, method_name, pending }) => {
            assert_eq!(contract_id, "sybil.testnet");
            assert_eq!(method_name, "is_human");
            pending
        },
        _ => panic!("expected a sybil query"),
    };
    assert_eq!(pending.deposit, 1_000_000);
    let ctx = at("pot.potfactory.testnet", 350, 0);
    let again = PendingDonation {
        deposit: pending.deposit,
        donor_id: "donor.testnet".to_string(),
        project_id: Some(PROJECT.to_string()),
        message: None,
        referrer_id: None,
        matching_pool: false,
        bypass_protocol_fee: None,
        custom_chef_fee_basis_points: None,
    };
    match p.sybil_callback(&ctx, pending, Some(false), 1_000) {
        Ok(DonateOutcome::Refunded(t)) => {
            assert_eq!(t.receiver, "donor.testnet");
            assert_eq!(t.amount, 1_000_000);
            assert!(t.ft_id.is_none());
        },
        _ => panic!("expected the deposit to be returned"),
    }
    assert!(p.get_donations(None, None).ok().unwrap().is_empty());
    match p.sybil_callback(&ctx, again, Some(true), 1_000) {
        Ok(DonateOutcome::Donated(d)) => assert_eq!(d.donation.total_amount, 1_000_000),
        _ => panic!("expected a recorded donation"),
    }
    assert_eq!(p.get_donations(None, None).ok().unwrap().len(), 1);
}

#[test]
fn protocol_fee_comes_from_the_provider() {
    let provider = ProviderId("config.testnet:get_protocol_config".to_string());
    let mut p = pot_with(10, Some(provider));
    approve(&mut p, PROJECT);
    let pending = match donate(&mut p, "donor.testnet", 350, Some(PROJECT), false) {
        Ok(DonateOutcome::QueryProtocolConfig { contract_id, method_name, pending }) => {
            assert_eq!(contract_id, "config.testnet");
            assert_eq!(method_name, "get_protocol_config");
            pending
        },
        _ => panic!("expected a protocol configuration query"),
    };
    let config = ProtocolConfigProviderResult { basis_points: 200, account_id: "fees.testnet".to_string() };
    let r = p
        .handle_protocol_fee_callback(&at("pot.potfactory.testnet", 350, 0), pending, Some(config), 1_000)
        .ok()
        .unwrap();
    assert_eq!(r.donation.protocol_fee, 20_000);
    assert_eq!(r.donation.chef_fee, Some(49_000));
    assert_eq!(r.donation.net_amount, 930_000);
    assert_eq!(r.transfers[0].receiver, "fees.testnet");
    assert_eq!(r.transfers[0].amount, 20_000);
}

fn paid_pot() -> Contract {
    let mut p = pot_with(10, None);
    approve(&mut p, PROJECT);
    let outcome = donate(&mut p, "patron.testnet", 250, None, true);
    assert!(matches!(outcome, Ok(DonateOutcome::Donated(_))));
    p
}

#[test]
fn cooldown_can_only_be_extended() {
    let mut p = paid_pot();
    let payouts = vec![PayoutInput { amount: 10, recipient_id: PROJECT.to_string(), memo: None }];
    p.chef_set_payouts(&at(CHEF, 450, 1), payouts, false).ok().unwrap();
    let end = 450 + MIN_COOLDOWN_PERIOD_MS;
    assert_eq!(p.get_config().cooldown_end_ms, Some(end));
    assert!(p.admin_set_cooldown_end_ms(&at(ADMIN, 500, 1), end) == Err(PotError::CooldownCanOnlyExtend));
    assert!(p.admin_set_cooldown_end_ms(&at(ADMIN, 500, 1), end + 1).is_ok());
    assert_eq!(p.get_config().cooldown_end_ms, Some(end + 1));
}

#[test]
fn compliance_period_holds_back_redistribution() {
    let mut p = paid_pot();
    p.admin_set_compliance_period_ms(&at(ADMIN, 10, 1), 2 * MIN_COOLDOWN_PERIOD_MS).ok().unwrap();
    let payouts = vec![PayoutInput { amount: 10, recipient_id: PROJECT.to_string(), memo: None }];
    p.chef_set_payouts(&at(CHEF, 450, 1), payouts, false).ok().unwrap();
    let after_cooldown = at(ADMIN, 450 + MIN_COOLDOWN_PERIOD_MS + 1, 1);
    assert!(p.assert_compliance_period_complete(&after_cooldown) == Err(PotError::ComplianceNotOver));
    assert!(matches!(p.admin_redistribute_matching_pool(&after_cooldown), Err(PotError::ComplianceNotOver)));
    let after_compliance = at(ADMIN, 450 + 2 * MIN_COOLDOWN_PERIOD_MS + 1, 1);
    assert!(p.assert_compliance_period_complete(&after_compliance).is_ok());
}

#[test]
fn no_payouts_once_everything_is_paid_out() {
    let mut p = paid_pot();
    p.allow_remaining_funds_redistribution = true;
    p.remaining_funds_redistribution_recipient = Some("dao.testnet".to_string());
    let payouts = vec![PayoutInput { amount: 10, recipient_id: PROJECT.to_string(), memo: None }];
    p.chef_set_payouts(&at(CHEF, 450, 1), payouts, false).ok().unwrap();
    let admin = at(ADMIN, 450 + MIN_COOLDOWN_PERIOD_MS + 1, 1);
    let t = p.admin_redistribute_matching_pool(&admin).ok().unwrap();
    p.redistribute_matching_pool_callback(&admin, t.amount, true);
    assert!(p.get_config().all_paid_out);
    let more = vec![PayoutInput { amount: 1, recipient_id: PROJECT.to_string(), memo: None }];
    assert!(p.chef_set_payouts(&at(CHEF, 450, 1), more, false) == Err(PotError::AlreadyPaidOut));
}

#[test]
fn every_unpaid_payout_of_the_listed_projects_is_paid() {
    let mut p = pot_with(10, None);
    approve(&mut p, PROJECT);
    approve(&mut p, "second.testnet");
    assert!(matches!(donate(&mut p, "patron.testnet", 250, None, true), Ok(DonateOutcome::Donated(_))));
    let payouts = vec![
        PayoutInput { amount: 10, recipient_id: PROJECT.to_string(), memo: None },
        PayoutInput { amount: 20, recipient_id: PROJECT.to_string(), memo: None },
        PayoutInput { amount: 30, recipient_id: "second.testnet".to_string(), memo: None },
    ];
    p.chef_set_payouts(&at(CHEF, 450, 1), payouts, false).ok().unwrap();
    let admin = at(ADMIN, 450 + MIN_COOLDOWN_PERIOD_MS + 1, 1);
    let all = p.admin_process_payouts(&admin, None).ok().unwrap();
    let mut amounts: Vec<u128> = all.iter().map(|t| t.transfer.amount).collect();
    amounts.sort();
    assert_eq!(amounts, vec![10, 20, 30]);
    let listed = p.admin_process_payouts(&admin, Some(vec!["second.testnet".to_string()])).ok().unwrap();
    assert_eq!(listed.len(), 1);
    assert_eq!(listed[0].transfer.receiver, "second.testnet");
    assert_eq!(listed[0].transfer.amount, 30);
    let paid = listed[0].payout.copy();
    p.transfer_payout_callback(&admin, paid, true).ok().unwrap();
    let rest = p.admin_process_payouts(&admin, None).ok().unwrap();
    assert_eq!(rest.len(), 2);
    assert!(rest.iter().all(|t| t.transfer.receiver == PROJECT));
}

#[test]
fn public_donations_are_not_matching_pool_donations() {
    let mut p = pot_with(10, None);
    approve(&mut p, PROJECT);
    assert!(matches!(donate(&mut p, "patron.testnet", 250, None, true), Ok(DonateOutcome::Donated(_))));
    match donate(&mut p, "donor.testnet", 350, Some(PROJECT), false) {
        Ok(DonateOutcome::Donated(d)) => {
            assert_eq!(d.donation.id, 2);
            assert!(!d.donation.matching_pool);
        },
        _ => panic!("expected a recorded donation"),
    }
    assert_eq!(p.get_matching_pool_donations(None, None).ok().unwrap().len(), 1);
    assert_eq!(p.get_public_round_donations(None, None).ok().unwrap().len(), 1);
}
