use arch_contracts::error::ContractError;
use arch_contracts::grant::{
    instantiate, message_senders, requests_probe, sudo, sudo_grant, Coin, CwGrant, CwGrantMessage, GrantSet,
    InstantiateMsg, SudoMsg,
};

/// A stand-in for the host's address validator: it accepts lower-case
/// alphanumeric text and nothing else.
fn validate(address: &str) -> Option<String> {
    let ok = !address.is_empty() && address.chars().all(|c| c.is_ascii_lowercase() || c.is_ascii_digit() || c == '.');
    if ok {
        Some(address.to_string())
    } else {
        None
    }
}

fn registry(addresses: &[&str]) -> GrantSet {
    let msg = InstantiateMsg { grants: addresses.iter().map(|a| a.to_string()).collect() };
    let verdicts: Vec<Option<String>> = msg.grants.iter().map(|a| validate(a)).collect();
    let (grants, res) = instantiate(&verdicts).unwrap();
    assert!(res.attributes.is_empty() && res.messages.is_empty());
    grants
}

fn batch(senders: &[&str], denoms: &[&str]) -> CwGrant {
    CwGrant {
        fee_requested: denoms.iter().map(|d| Coin { amount: 10, denom: d.to_string() }).collect(),
        msgs: senders
            .iter()
            .map(|s| CwGrantMessage { sender: s.to_string(), type_url: "/bank.MsgSend".to_string(), msg: vec![1, 2] })
            .collect(),
    }
}

fn decide(grants: &GrantSet, msg: &CwGrant) -> Result<(), ContractError> {
    let verdicts: Vec<Option<String>> = message_senders(msg).iter().map(|s| validate(s)).collect();
    sudo(grants, &SudoMsg::CwGrant(msg.clone()), &verdicts).map(|_| ())
}

#[test]
fn build() {
    let _msg = InstantiateMsg { grants: vec![] };
}

#[test]
fn granted_sender_twice_passes() {
    let grants = registry(&["alice"]);
    assert_eq!(decide(&grants, &batch(&["alice", "alice"], &["uarch"])), Ok(()));
}

#[test]
fn one_ungranted_sender_rejects_batch() {
    let grants = registry(&["alice"]);
    assert_eq!(decide(&grants, &batch(&["alice", "bob"], &["uarch"])), Err(ContractError::Unauthorized));
    assert_eq!(decide(&grants, &batch(&["bob", "alice"], &["uarch"])), Err(ContractError::Unauthorized));
}

#[test]
fn owner_scenario() {
    let grants = registry(&["arch1...owner"]);
    assert!(grants.contains(&"arch1...owner".to_string()));
    let ok = batch(&["arch1...owner"], &["uarch", "stake"]);
    assert!(!requests_probe(&ok.fee_requested));
    assert_eq!(decide(&grants, &ok), Ok(()));
    let bad = batch(&["arch1...owner", "unknown"], &["uarch", "stake"]);
    assert_eq!(decide(&grants, &bad), Err(ContractError::Unauthorized));
}

#[test]
fn empty_batch_passes() {
    let grants = registry(&[]);
    assert_eq!(decide(&grants, &batch(&[], &[])), Ok(()));
}

#[test]
fn invalid_sender_is_reported_in_order() {
    let grants = registry(&["alice"]);
    assert_eq!(decide(&grants, &batch(&["alice", "Not Valid"], &[])), Err(ContractError::InvalidAddress));
    assert_eq!(decide(&grants, &batch(&["bob", "Not Valid"], &[])), Err(ContractError::Unauthorized));
    assert_eq!(decide(&grants, &batch(&["Not Valid", "bob"], &[])), Err(ContractError::InvalidAddress));
}

#[test]
fn batch_decided_from_verdicts() {
    let grants = GrantSet::from_addresses(vec!["alice".to_string(), "carol".to_string()]);
    let verdicts = vec![Some("carol".to_string()), Some("alice".to_string())];
    assert!(sudo_grant(&grants, &verdicts).is_ok());
    let verdicts = vec![Some("carol".to_string()), None, Some("dave".to_string())];
    assert_eq!(sudo_grant(&grants, &verdicts), Err(ContractError::InvalidAddress));
}

#[test]
fn one_invalid_grant_fails_instantiation() {
    let verdicts = vec![Some("alice".to_string()), None, Some("carol".to_string())];
    assert!(matches!(instantiate(&verdicts), Err(ContractError::InvalidAddress)));
}

#[test]
fn registry_holds_exactly_the_grants() {
    let grants = registry(&["alice", "carol", "alice"]);
    assert!(grants.contains(&"alice".to_string()));
    assert!(grants.contains(&"carol".to_string()));
    assert!(!grants.contains(&"bob".to_string()));
    assert_eq!(grants.addresses().len(), 3);
}

#[test]
fn probe_denom_is_detected() {
    assert!(requests_probe(&batch(&[], &["uarch", "malicious"]).fee_requested));
    assert!(!requests_probe(&batch(&[], &["uarch", "Malicious", "malicious2"]).fee_requested));
    assert!(!requests_probe(&vec![]));
}

#[test]
fn senders_come_in_arrival_order() {
    let msg = batch(&["b", "a", "c"], &[]);
    assert_eq!(message_senders(&msg), vec!["b".to_string(), "a".to_string(), "c".to_string()]);
}
