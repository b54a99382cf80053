use potlock::env::CallContext;
use potlock::pot::types::ContractSourceMetadata;
use potlock::pot_factory::contract::Contract;
use potlock::pot_factory::pots::{pot_account_id, protocol_config_provider};
use potlock::pot_factory::slug::{is_whitespace, join_words, slug_filter, slugify};
use potlock::pot_factory::types::{PotArgs, PotFactoryError};
use potlock::pot_factory::validation::{
    assert_valid_chef_fee_basis_points, assert_valid_max_projects, assert_valid_pot_args,
    assert_valid_pot_description, assert_valid_pot_name, assert_valid_pot_timestamps,
    assert_valid_referral_fee_matching_pool_basis_points,
    assert_valid_referral_fee_public_round_basis_points,
};

const FACTORY: &str = "potfactory.testnet";
const YOCTO_PER_BYTE: u128 = 10_000_000_000_000_000_000;

fn ctx(predecessor: &str, deposit: u128) -> CallContext {
    CallContext {
        predecessor: predecessor.to_string(),
        signer: predecessor.to_string(),
        current_account: FACTORY.to_string(),
        block_timestamp_ms: 1_000,
        attached_deposit: deposit,
        prepaid_gas: 300_000_000_000_000,
    }
}

fn metadata() -> ContractSourceMetadata {
    ContractSourceMetadata {
        version: "0.1.0".to_string(),
        commit_hash: "abc".to_string(),
        link: "https://github.com/PotLock/core".to_string(),
    }
}

fn factory(require_whitelist: bool) -> Contract {
    Contract::new(
        "owner.testnet".to_string(),
        vec!["admin.testnet".to_string()],
        200,
        "fees.testnet".to_string(),
        500,
        vec!["deployer.testnet".to_string()],
        require_whitelist,
        metadata(),
    )
}

fn args(name: &str) -> PotArgs {
    PotArgs {
        owner: None,
        admins: None,
        chef: Some("chef.testnet".to_string()),
        pot_name: name.to_string(),
        pot_description: "A round".to_string(),
        max_projects: 20,
        application_start_ms: 10,
        application_end_ms: 20,
        public_round_start_ms: 30,
        public_round_end_ms: 40,
        min_matching_pool_donation_amount: None,
        cooldown_period_ms: None,
        registry_provider: None,
        sybil_wrapper_provider: None,
        custom_sybil_checks: None,
        custom_min_threshold_score: None,
        referral_fee_matching_pool_basis_points: 100,
        referral_fee_public_round_basis_points: 100,
        chef_fee_basis_points: 100,
        protocol_config_provider: None,
        source_metadata: metadata(),
    }
}

#[test]
fn slugify_lowercases_and_joins_words_with_hyphens() {
    assert_eq!(slugify("My Pot! 2024"), "my-pot-2024");
    assert_eq!(slugify("  Hello   World  "), "hello-world");
    assert_eq!(slugify("Café Ünïcode"), "café-ünïcode");
    assert_eq!(slugify("a!b"), "ab");
    assert_eq!(slugify("!!!"), "");
    assert_eq!(slugify(""), "");
}

#[test]
fn pot_account_id_appends_factory() {
    assert_eq!(pot_account_id(&"my-pot".to_string(), &FACTORY.to_string()), "my-pot.potfactory.testnet");
    let p = protocol_config_provider(&FACTORY.to_string());
    assert_eq!(p.0, "potfactory.testnet:get_protocol_config");
}

#[test]
fn factory_validators_accept_limits_and_refuse_beyond() {
    assert!(assert_valid_pot_name(&"a".repeat(64)).is_ok());
    assert!(assert_valid_pot_name(&"a".repeat(65)) == Err(PotFactoryError::NameTooLong));
    assert!(assert_valid_pot_description(&"d".repeat(256)).is_ok());
    assert!(assert_valid_pot_description(&"d".repeat(257)) == Err(PotFactoryError::DescriptionTooLong));
    assert!(assert_valid_max_projects(100).is_ok());
    assert!(assert_valid_max_projects(101) == Err(PotFactoryError::TooManyProjects));
    assert!(assert_valid_referral_fee_matching_pool_basis_points(1000).is_ok());
    assert!(assert_valid_referral_fee_matching_pool_basis_points(1001) == Err(PotFactoryError::ReferralFeeTooHigh));
    assert!(assert_valid_referral_fee_public_round_basis_points(1000).is_ok());
    assert!(assert_valid_referral_fee_public_round_basis_points(1001) == Err(PotFactoryError::ReferralFeeTooHigh));
    assert!(assert_valid_chef_fee_basis_points(1000).is_ok());
    assert!(assert_valid_chef_fee_basis_points(1001) == Err(PotFactoryError::ChefFeeTooHigh));
}

#[test]
fn factory_timestamps_must_be_strictly_ordered() {
    let mut a = args("Pot");
    assert!(assert_valid_pot_timestamps(&a).is_ok());
    a.application_end_ms = 10;
    assert!(assert_valid_pot_timestamps(&a) == Err(PotFactoryError::ApplicationStartNotBeforeEnd));
    let mut b = args("Pot");
    b.public_round_start_ms = 20;
    assert!(assert_valid_pot_timestamps(&b) == Err(PotFactoryError::ApplicationEndNotBeforeRoundStart));
    let mut c = args("Pot");
    c.public_round_end_ms = 30;
    assert!(assert_valid_pot_timestamps(&c) == Err(PotFactoryError::RoundStartNotBeforeEnd));
    let mut d = args("Pot");
    d.chef_fee_basis_points = 5000;
    d.public_round_end_ms = 0;
    assert!(assert_valid_pot_args(&d) == Err(PotFactoryError::ChefFeeTooHigh));
}

#[test]
fn min_deployment_deposit_formula() {
    let f = factory(false);
    assert_eq!(f.calculate_min_deployment_deposit(100_000, 500), 111_000 * YOCTO_PER_BYTE);
    assert_eq!(f.calculate_min_deployment_deposit(0, 0), 10_000 * YOCTO_PER_BYTE);
}

#[test]
fn deploy_pot_records_pot_and_refunds_excess() {
    let mut f = factory(false);
    let c = ctx("alice.testnet", 2_000_000_000_000_000_000_000_000);
    let d = match f.deploy_pot(&c, args("My Pot"), None, 100_000, 500, 200) {
        Ok(d) => d,
        Err(_) => panic!("deployment refused"),
    };
    assert_eq!(d.pot_id, "my-pot.potfactory.testnet");
    assert_eq!(d.pot.deployed_by, "alice.testnet");
    assert_eq!(d.pot.deployed_at_ms, 1_000);
    assert_eq!(d.min_deployment_deposit, 111_000 * YOCTO_PER_BYTE);
    assert_eq!(d.total_required_deposit, 111_200 * YOCTO_PER_BYTE);
    let refund = d.refund.expect("excess refunded");
    assert_eq!(refund.receiver, "alice.testnet");
    assert_eq!(refund.amount, 2_000_000_000_000_000_000_000_000 - 111_200 * YOCTO_PER_BYTE);
    assert_eq!(d.pot_args.protocol_config_provider.unwrap().0, "potfactory.testnet:get_protocol_config");
    assert_eq!(d.pot_args.pot_name, "My Pot");
    let pots = f.get_pots();
    assert_eq!(pots.len(), 1);
    assert_eq!(pots[0].id, "my-pot.potfactory.testnet");
    // the same handle again is refused
    let again = f.deploy_pot(&c, args("My Pot"), None, 100_000, 500, 200);
    assert!(matches!(again, Err(PotFactoryError::PotExists)));
}

#[test]
fn deploy_pot_exact_deposit_has_no_refund() {
    let mut f = factory(false);
    let c = ctx("alice.testnet", 111_200 * YOCTO_PER_BYTE);
    let d = f.deploy_pot(&c, args("Exact"), None, 100_000, 500, 200).ok().expect("deployed");
    assert!(d.refund.is_none());
}

#[test]
fn deploy_pot_refusals() {
    let mut f = factory(false);
    let rich = ctx("alice.testnet", 10_000_000_000_000_000_000_000_000);
    assert!(matches!(
        f.deploy_pot(&rich, args("Pot"), Some("Bad Handle".to_string()), 100, 10, 10),
        Err(PotFactoryError::InvalidPotAccountId)
    ));
    assert!(matches!(
        f.deploy_pot(&rich, args(&"n".repeat(70)), Some("long".to_string()), 100, 10, 10),
        Err(PotFactoryError::NameTooLong)
    ));
    let poor = ctx("alice.testnet", 1);
    match f.deploy_pot(&poor, args("Pot"), None, 100_000, 500, 200) {
        Err(PotFactoryError::InsufficientDeposit { required }) => assert_eq!(required, 111_200 * YOCTO_PER_BYTE),
        _ => panic!("expected insufficient deposit"),
    }
    assert_eq!(f.get_pots().len(), 0);
}

#[test]
fn deploy_pot_whitelist() {
    let mut f = factory(true);
    let stranger = ctx("stranger.testnet", 10_000_000_000_000_000_000_000_000);
    assert!(matches!(
        f.deploy_pot(&stranger, args("Pot"), None, 100, 10, 10),
        Err(PotFactoryError::NotWhitelistedDeployer)
    ));
    let deployer_no_deposit = ctx("deployer.testnet", 0);
    assert!(matches!(
        f.deploy_pot(&deployer_no_deposit, args("Pot"), None, 100, 10, 10),
        Err(PotFactoryError::DepositRequired)
    ));
    let deployer = ctx("deployer.testnet", 10_000_000_000_000_000_000_000_000);
    assert!(f.deploy_pot(&deployer, args("Pot"), None, 100, 10, 10).is_ok());
}

#[test]
fn failed_deployment_is_undone() {
    let mut f = factory(false);
    let c = ctx("alice.testnet", 2_000_000_000_000_000_000_000_000);
    let d = f.deploy_pot(&c, args("My Pot"), None, 100_000, 500, 200).ok().expect("deployed");
    let outcome = f.deploy_pot_callback(&c, d.pot_id.clone(), d.pot.copy(), d.total_required_deposit, false);
    assert!(outcome.pot.is_none());
    let back = outcome.refund.expect("deposit returned");
    assert_eq!(back.amount + d.refund.unwrap().amount, 2_000_000_000_000_000_000_000_000);
    assert_eq!(f.get_pots().len(), 0);
}

#[test]
fn successful_deployment_returns_pot() {
    let mut f = factory(false);
    let c = ctx("alice.testnet", 2_000_000_000_000_000_000_000_000);
    let d = f.deploy_pot(&c, args("My Pot"), None, 100_000, 500, 200).ok().expect("deployed");
    let outcome = f.deploy_pot_callback(&c, d.pot_id.clone(), d.pot.copy(), d.total_required_deposit, true);
    let pot = outcome.pot.expect("pot");
    assert_eq!(pot.id, "my-pot.potfactory.testnet");
    assert!(outcome.refund.is_none());
    assert_eq!(f.get_pots().len(), 1);
}

#[test]
fn get_pots_is_sorted_by_id() {
    let mut f = factory(false);
    let c = ctx("alice.testnet", 10_000_000_000_000_000_000_000_000);
    for h in ["zeta", "alpha", "mid", "alpha2"] {
        f.deploy_pot(&c, args("x"), Some(h.to_string()), 100, 10, 10).ok().expect("deployed");
    }
    let ids: Vec<String> = f.get_pots().into_iter().map(|p| p.id).collect();
    assert_eq!(
        ids,
        vec![
            "alpha.potfactory.testnet".to_string(),
            "alpha2.potfactory.testnet".to_string(),
            "mid.potfactory.testnet".to_string(),
            "zeta.potfactory.testnet".to_string(),
        ]
    );
}

#[test]
fn factory_admin_settings() {
    let mut f = factory(false);
    let owner = ctx("owner.testnet", 1);
    let admin = ctx("admin.testnet", 1);
    let stranger = ctx("stranger.testnet", 1);
    assert!(f.admin_set_protocol_fee_basis_points(&stranger, 1) == Err(PotFactoryError::AdminOnly));
    assert!(f.admin_set_protocol_fee_basis_points(&ctx("admin.testnet", 0), 1) == Err(PotFactoryError::DepositRequired));
    assert!(f.admin_set_protocol_config(&admin, 300, "new-fees.testnet".to_string()).is_ok());
    let pc = f.get_protocol_config();
    assert_eq!(pc.basis_points, 300);
    assert_eq!(pc.account_id, "new-fees.testnet");
    assert!(f.owner_add_admins(&admin, vec!["x.testnet".to_string()]) == Err(PotFactoryError::OwnerOnly));
    assert!(f.owner_add_admins(&owner, vec!["x.testnet".to_string()]).is_ok());
    assert!(f.owner_remove_admins(&owner, vec!["admin.testnet".to_string()]).is_ok());
    let cfg = f.get_config();
    assert_eq!(cfg.admins, vec!["x.testnet".to_string()]);
    assert!(f.admin_set_require_whitelist(&owner, true).is_ok());
    assert!(f.admin_add_whitelisted_deployers(&owner, vec!["d2.testnet".to_string()]).is_ok());
    assert!(f.admin_remove_whitelisted_deployers(&owner, vec!["deployer.testnet".to_string()]).is_ok());
    let cfg = f.get_config();
    assert!(cfg.require_whitelist);
    assert_eq!(cfg.whitelisted_deployers, vec!["d2.testnet".to_string()]);
    assert!(f.owner_clear_admins(&owner).is_ok());
    assert!(f.get_config().admins.is_empty());
    assert!(f.owner_change_owner(&owner, "new-owner.testnet".to_string()).is_ok());
    assert_eq!(f.get_config().owner, "new-owner.testnet");
}

#[test]
fn slugify_splits_on_unicode_whitespace() {
    assert_eq!(slugify("a\u{3000}b\u{00A0}c\td"), "a-b-c-d");
    assert_eq!(slugify("x\u{2003}\u{2003}y"), "x-y");
}

#[test]
fn slug_filter_and_join_words_on_given_characters() {
    let kept = slug_filter(&"héllo, wörld! 42".chars().collect());
    assert_eq!(kept.iter().collect::<String>(), "héllo wörld 42");
    let joined = join_words(&"  a  bc\u{3000}d ".chars().collect());
    assert_eq!(joined.iter().collect::<String>(), "a-bc-d");
    assert!(is_whitespace('\u{205F}'));
    assert!(!is_whitespace('\u{200B}'));
}
