use potlock::env::CallContext;
use potlock::lists::contract::Contract;
use potlock::lists::types::{ListError, RegistrationInput, RegistrationStatus};
use potlock::lists::validation::{assert_valid_list_description, assert_valid_list_name, assert_valid_url};
use potlock::pot::types::ContractSourceMetadata;

fn at(predecessor: &str, now: u64, deposit: u128) -> CallContext {
    CallContext {
        predecessor: predecessor.to_string(),
        signer: predecessor.to_string(),
        current_account: "lists.testnet".to_string(),
        block_timestamp_ms: now,
        attached_deposit: deposit,
        prepaid_gas: 300_000_000_000_000,
    }
}

fn lists() -> Contract {
    Contract::new(ContractSourceMetadata {
        version: "1".to_string(),
        commit_hash: "c".to_string(),
        link: "l".to_string(),
    })
}

#[test]
fn list_validators() {
    assert!(assert_valid_list_name(&"n".repeat(64)).is_ok());
    assert!(assert_valid_list_name(&"n".repeat(65)) == Err(ListError::NameTooLong));
    assert!(assert_valid_list_description(&"d".repeat(256)).is_ok());
    assert!(assert_valid_list_description(&"d".repeat(257)) == Err(ListError::DescriptionTooLong));
    assert!(assert_valid_url("https://potlock.org").is_ok());
    assert!(assert_valid_url("http://potlock.org") == Err(ListError::InvalidUrl));
}

#[test]
fn create_and_view_lists() {
    let mut l = lists();
    let owner = at("owner.testnet", 5, 1);
    let first = l
        .create_list(&owner, "Public Goods".to_string(), None, Some(vec!["admin.testnet".to_string()]), RegistrationStatus::Pending)
        .ok()
        .unwrap();
    assert_eq!(first.id, 1);
    assert_eq!(first.admins, vec!["admin.testnet".to_string()]);
    let second = l.create_list(&owner, "Second".to_string(), None, None, RegistrationStatus::Approved).ok().unwrap();
    assert_eq!(second.id, 2);
    let all = l.get_lists(None, None).ok().unwrap();
    assert_eq!(all.len(), 2);
    assert_eq!(all[1].name, "Second");
    assert_eq!(l.get_lists(Some(1), Some(1)).ok().unwrap()[0].id, 2);
    assert_eq!(l.get_lists(Some(5), None).ok().unwrap().len(), 0);
    assert_eq!(l.get_lists_for_owner("owner.testnet".to_string()).ok().unwrap().len(), 2);
    assert!(matches!(l.get_lists_for_owner("nobody.testnet".to_string()), Err(ListError::ListNotFound)));
}

#[test]
fn upvotes_once_per_account() {
    let mut l = lists();
    l.create_list(&at("owner.testnet", 5, 1), "L".to_string(), None, None, RegistrationStatus::Pending).ok().unwrap();
    assert!(l.upvote(&at("fan.testnet", 6, 0), 1).ok().unwrap());
    assert!(!l.upvote(&at("fan.testnet", 7, 0), 1).ok().unwrap());
    assert!(matches!(l.upvote(&at("fan.testnet", 7, 0), 9), Err(ListError::ListNotFound)));
    assert_eq!(l.get_upvotes_for_list(1, None, None).ok().unwrap(), vec!["fan.testnet".to_string()]);
    assert!(l.remove_upvote(&at("fan.testnet", 8, 0), 1).ok().unwrap());
    assert_eq!(l.get_upvotes_for_list(1, None, None).ok().unwrap().len(), 0);
}

#[test]
fn registrations_by_admin_and_by_self() {
    let mut l = lists();
    l.create_list(&at("owner.testnet", 5, 1), "L".to_string(), None, None, RegistrationStatus::Pending).ok().unwrap();
    // a non-admin registers itself with the list's default status
    let mine = l.register_batch(&at("proj.testnet", 10, 1), 1, Some("me".to_string()), None).ok().unwrap();
    assert_eq!(mine.len(), 1);
    assert_eq!(mine[0].registrant_id, "proj.testnet");
    assert!(mine[0].status == RegistrationStatus::Pending);
    assert!(matches!(
        l.register_batch(&at("proj.testnet", 11, 1), 1, None, None),
        Err(ListError::AlreadyRegistered)
    ));
    // the owner registers another account as approved
    let input = RegistrationInput {
        registrant_id: "other.testnet".to_string(),
        status: RegistrationStatus::Approved,
        submitted_ms: None,
        updated_ms: None,
        notes: None,
    };
    let theirs = l.register_batch(&at("owner.testnet", 12, 1), 1, None, Some(vec![input])).ok().unwrap();
    assert_eq!(theirs[0].registered_by, "owner.testnet");
    let approved = l.get_registrations_for_list(1, Some(RegistrationStatus::Approved), None, None).ok().unwrap();
    assert_eq!(approved.len(), 1);
    assert_eq!(approved[0].registrant_id, "other.testnet");
    let all = l.get_registrations_for_list(1, None, None, None).ok().unwrap();
    assert_eq!(all.len(), 2);
    assert!(matches!(l.get_registrations_for_list(1, None, Some(3), None), Err(ListError::OutOfBounds)));
    assert!(matches!(l.get_registrations_for_list(1, None, None, Some(0)), Err(ListError::ZeroLimit)));
    assert!(matches!(l.get_registrations_for_list(7, None, None, None), Err(ListError::ListNotFound)));
    let for_other = l.get_registrations_for_registrant("other.testnet".to_string(), None, None, None).ok().unwrap();
    assert_eq!(for_other.len(), 1);
    assert!(matches!(
        l.get_registrations_for_registrant("nobody.testnet".to_string(), None, None, None),
        Err(ListError::RegistrationNotFound)
    ));
    assert!(l.is_registered(Some(1), "other.testnet".to_string(), None).ok().unwrap());
    assert!(!l.is_registered(Some(1), "proj.testnet".to_string(), None).ok().unwrap());
    assert_eq!(l.get_lists_for_registrant("proj.testnet".to_string()).ok().unwrap().len(), 1);
}

#[test]
fn list_admin_rights() {
    let mut l = lists();
    l.create_list(&at("owner.testnet", 5, 1), "L".to_string(), None, None, RegistrationStatus::Pending).ok().unwrap();
    assert!(matches!(
        l.owner_add_admins(&at("stranger.testnet", 6, 1), 1, vec!["a.testnet".to_string()]),
        Err(ListError::OwnerOnly)
    ));
    assert!(matches!(
        l.owner_add_admins(&at("owner.testnet", 6, 0), 1, vec!["a.testnet".to_string()]),
        Err(ListError::DepositRequired)
    ));
    let admins = l.owner_add_admins(&at("owner.testnet", 6, 1), 1, vec!["a.testnet".to_string()]).ok().unwrap();
    assert_eq!(admins, vec!["a.testnet".to_string()]);
    assert!(l.is_caller_list_admin_or_greater(&at("a.testnet", 7, 0), 1).ok().unwrap());
    assert!(matches!(l.assert_list_admin_or_greater(&at("stranger.testnet", 7, 1), 1), Err(ListError::AdminOnly)));
    assert_eq!(l.get_refunds().len(), 0);
}
