use potlock::env::CallContext;
use potlock::lists::contract::Contract;
use potlock::lists::types::{ListError, RegistrationInput, RegistrationStatus};
use potlock::pot::types::ContractSourceMetadata;

fn at(predecessor: &str, now: u64, deposit: u128) -> CallContext {
    CallContext {
        predecessor: predecessor.to_string(),
        signer: predecessor.to_string(),
        current_account: "lists.testnet".to_string(),
        block_timestamp_ms: now,
        attached_deposit: deposit,
        prepaid_gas: 300_000_000_000_000,
    }
}

fn one_list() -> Contract {
    let mut l = Contract::new(ContractSourceMetadata {
        version: "1".to_string(),
        commit_hash: "c".to_string(),
        link: "l".to_string(),
    });
    l.create_list(&at("owner.testnet", 5, 1), "L".to_string(), None, None, RegistrationStatus::Pending)
        .ok()
        .unwrap();
    l
}

fn input(who: &str) -> RegistrationInput {
    RegistrationInput {
        registrant_id: who.to_string(),
        status: RegistrationStatus::Approved,
        submitted_ms: None,
        updated_ms: None,
        notes: None,
    }
}

#[test]
fn admin_batches_are_bounded() {
    let mut l = one_list();
    let owner = at("owner.testnet", 10, 1);
    assert!(matches!(l.register_batch(&owner, 1, None, None), Err(ListError::RegistrationsRequired)));
    let too_many: Vec<RegistrationInput> = (0..91).map(|i| input(&format!("p{}.testnet", i))).collect();
    assert!(matches!(l.register_batch(&owner, 1, None, Some(too_many)), Err(ListError::BatchTooLarge)));
    let twice = vec![input("a.testnet"), input("a.testnet")];
    assert!(matches!(l.register_batch(&owner, 1, None, Some(twice)), Err(ListError::AlreadyRegistered)));
    assert_eq!(l.get_registrations_for_list(1, None, None, None).ok().unwrap().len(), 0);
    let most: Vec<RegistrationInput> = (0..90).map(|i| input(&format!("p{}.testnet", i))).collect();
    let done = l.register_batch(&owner, 1, None, Some(most)).ok().unwrap();
    assert_eq!(done.len(), 90);
    assert_eq!(done[0].id, 1);
    assert_eq!(done[89].id, 90);
}

#[test]
fn registrants_withdraw_only_pending_registrations() {
    let mut l = one_list();
    let mine = l.register_batch(&at("proj.testnet", 10, 1), 1, None, None).ok().unwrap();
    let id = mine[0].id;
    assert!(matches!(l.unregister_by_registration_id(&at("stranger.testnet", 11, 1), id), Err(ListError::NotAllowed)));
    l.update_registration(&at("owner.testnet", 12, 1), id, Some(RegistrationStatus::Approved), None)
        .ok()
        .unwrap();
    assert!(matches!(l.unregister_by_registration_id(&at("proj.testnet", 13, 1), id), Err(ListError::NotPending)));
    let refund_to = l.unregister_by_registration_id(&at("owner.testnet", 14, 1), id).ok().unwrap();
    assert_eq!(refund_to, "proj.testnet");
    assert!(matches!(l.get_registration(id), Err(ListError::RegistrationNotFound)));
    assert!(!l.is_registered(Some(1), "proj.testnet".to_string(), None).ok().unwrap());
}

#[test]
fn registration_withdrawn_is_undone() {
    let mut l = one_list();
    let other = l.register_batch(&at("other.testnet", 9, 1), 1, None, None).ok().unwrap();
    let before = l.get_registrations_for_list(1, None, None, None).ok().unwrap();
    let mine = l.register_batch(&at("proj.testnet", 10, 1), 1, Some("me".to_string()), None).ok().unwrap();
    assert_eq!(l.get_registrations_for_list(1, None, None, None).ok().unwrap().len(), 2);
    let refund_to = l.unregister_by_registration_id(&at("proj.testnet", 11, 1), mine[0].id).ok().unwrap();
    assert_eq!(refund_to, "proj.testnet");
    let after = l.get_registrations_for_list(1, None, None, None).ok().unwrap();
    assert_eq!(after.len(), before.len());
    assert_eq!(after[0].id, other[0].id);
    assert_eq!(after[0].registrant_id, "other.testnet");
}
