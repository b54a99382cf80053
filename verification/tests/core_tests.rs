use potlock::env::{calculate_required_storage_deposit, is_valid_account_id, refund_deposit, refund_transfer, storage_byte_cost, storage_cost, StorageError};
use potlock::fees::{calculate_fee, calculate_fee_round_up};
use potlock::provider::{ProviderId, ProviderIdError};

#[test]
fn fee_formulas() {
    assert_eq!(calculate_fee(1_000_000, 250), 25_000);
    assert_eq!(calculate_fee(999, 100), 9);
    assert_eq!(calculate_fee_round_up(999, 100), 10);
    assert_eq!(calculate_fee_round_up(1_000, 100), 10);
    assert_eq!(calculate_fee(0, 10_000), 0);
    assert_eq!(calculate_fee(u128::MAX, 10_000), u128::MAX / 10_000);
}

#[test]
fn storage_prices() {
    assert_eq!(storage_byte_cost(), 10_000_000_000_000_000_000);
    assert_eq!(storage_cost(3), 30_000_000_000_000_000_000);
    assert_eq!(calculate_required_storage_deposit(100, 110), 100_000_000_000_000_000_000);
}

#[test]
fn storage_refunds() {
    let byte = 10_000_000_000_000_000_000u128;
    assert_eq!(refund_deposit(5 * byte, 100, 102).ok().unwrap(), 3 * byte);
    assert_eq!(refund_deposit(0, 102, 100).ok().unwrap(), 2 * byte);
    match refund_deposit(byte, 100, 102) {
        Err(StorageError::InsufficientDeposit { required }) => assert_eq!(required, 2 * byte),
        _ => panic!("expected insufficient deposit"),
    }
}

#[test]
fn account_id_syntax() {
    assert!(is_valid_account_id(b"alice.near"));
    assert!(is_valid_account_id(b"my-pot.potfactory.testnet"));
    assert!(!is_valid_account_id(b"a"));
    assert!(!is_valid_account_id(b"Alice.near"));
    assert!(!is_valid_account_id(b"alice..near"));
    assert!(!is_valid_account_id(b".alice"));
    assert!(!is_valid_account_id(b"with space.near"));
}

#[test]
fn provider_id_round_trip() {
    let p = ProviderId::new("registry.testnet".to_string(), "is_registered".to_string());
    assert_eq!(p.0, "registry.testnet:is_registered");
    let (c, m) = p.decompose();
    assert_eq!(c, "registry.testnet");
    assert_eq!(m, "is_registered");
    assert!(p.validate().is_ok());
}

#[test]
fn provider_id_refusals() {
    assert!(ProviderId("nodelimiter".to_string()).validate() == Err(ProviderIdError::InvalidFormat));
    assert!(ProviderId("a:b:c".to_string()).validate() == Err(ProviderIdError::InvalidFormat));
    assert!(ProviderId(":method".to_string()).validate() == Err(ProviderIdError::EmptyContractId));
    assert!(ProviderId("contract:".to_string()).validate() == Err(ProviderIdError::EmptyMethodName));
    assert!(ProviderId("a:b:c".to_string()).try_decompose().is_none());
}

#[test]
fn refunds_of_one_yocto_or_less_are_not_sent() {
    let caller = "alice.testnet".to_string();
    assert!(refund_transfer(0, &caller).is_none());
    assert!(refund_transfer(1, &caller).is_none());
    let t = refund_transfer(2, &caller).unwrap();
    assert_eq!(t.receiver, "alice.testnet");
    assert_eq!(t.amount, 2);
    assert!(t.ft_id.is_none());
}
