use potlock::env::CallContext;
use potlock::pot_deployer::contract::Contract;
use potlock::pot_deployer::types::{PotArgs, PotDeployerError};
use potlock::pot_factory::validation::EXTRA_BYTES;

const DEPLOYER: &str = "deployer.testnet";
const YOCTO_PER_BYTE: u128 = 10_000_000_000_000_000_000;

fn ctx(predecessor: &str) -> CallContext {
    CallContext {
        predecessor: predecessor.to_string(),
        signer: predecessor.to_string(),
        current_account: DEPLOYER.to_string(),
        block_timestamp_ms: 1_000,
        attached_deposit: 0,
        prepaid_gas: 300_000_000_000_000,
    }
}

fn deployer() -> Contract {
    Contract::new(
        "owner.testnet".to_string(),
        vec!["admin.testnet".to_string()],
        200,
        "fees.testnet".to_string(),
        500,
        vec!["whitelisted.testnet".to_string()],
        true,
    )
}

fn args(name: &str) -> PotArgs {
    PotArgs {
        owner: None,
        admins: None,
        chef: "chef.testnet".to_string(),
        pot_name: name.to_string(),
        pot_description: "A round".to_string(),
        max_projects: 20,
        application_start_ms: 10,
        application_end_ms: 20,
        public_round_start_ms: 30,
        public_round_end_ms: 40,
        registry_provider: None,
        sybil_wrapper_provider: None,
        custom_sybil_checks: None,
        custom_min_threshold_score: None,
        patron_referral_fee_basis_points: 100,
        public_round_referral_fee_basis_points: 100,
        chef_fee_basis_points: 100,
    }
}

#[test]
fn only_owner_and_whitelisted_deployers_deploy() {
    let d = deployer();
    assert!(matches!(d.deploy_pot(&ctx("stranger.testnet"), args("My Pot"), 1_000, 100), Err(PotDeployerError::NotWhitelistedDeployer)));
    assert!(d.assert_admin_or_whitelisted_deployer(&ctx("owner.testnet")).is_ok());
    let plan = d.deploy_pot(&ctx("whitelisted.testnet"), args("My Pot"), 1_000, 100).ok().unwrap();
    assert_eq!(plan.pot_id, "my-pot.deployer.testnet");
    assert_eq!(plan.deposit, (1_000 + EXTRA_BYTES as u128 + 200) * YOCTO_PER_BYTE);
    assert_eq!(plan.deposit, d.get_min_deployment_deposit(1_000, 100));
    assert_eq!(plan.pot_args.pot_name, "My Pot");
}

#[test]
fn names_without_a_slug_are_refused() {
    let d = deployer();
    assert!(matches!(d.deploy_pot(&ctx("owner.testnet"), args("!!!"), 1_000, 100), Err(PotDeployerError::InvalidPotAccountId)));
}

#[test]
fn failed_deployments_are_not_recorded() {
    let mut d = deployer();
    assert!(matches!(
        d.deploy_pot_callback(&ctx("owner.testnet"), "my-pot.deployer.testnet".to_string(), false),
        Err(PotDeployerError::DeploymentFailed)
    ));
    assert!(d.get_pots().is_empty());
    let pot = d.deploy_pot_callback(&ctx("owner.testnet"), "my-pot.deployer.testnet".to_string(), true).ok().unwrap();
    assert_eq!(pot.deployed_by, "owner.testnet");
    let pots = d.get_pots();
    assert_eq!(pots.len(), 1);
    assert_eq!(pots[0].pot_id, "my-pot.deployer.testnet");
    let cfg = d.get_config();
    assert_eq!(cfg.whitelisted_deployers, vec!["whitelisted.testnet".to_string()]);
    assert_eq!(d.get_protocol_config().protocol_fee_basis_points, 200);
}
