use aquachain::chain::{Coin, Context};
use aquachain::sustainable::{ContractError, Evidence, SustainableActionRewardsContract, DEFAULT_DENOM};
use serde_json::Value;

const NOW: u64 = 1_571_797_419;

fn ctx(sender: &str) -> Context {
    Context { sender: sender.to_string(), funds: vec![], block_time: NOW }
}

fn pay(sender: &str, amount: u128) -> Context {
    Context {
        sender: sender.to_string(),
        funds: vec![Coin { denom: DEFAULT_DENOM.to_string(), amount }],
        block_time: NOW,
    }
}

fn sample_evidence(title: &str, points: &str) -> Evidence {
    let text = format!(
        r#"{{"title": "{title}", "location": "Delhi, India", "description": "Riverbank cleanup with photo evidence", "impact_points": "{points}"}}"#
    );
    let v: Value = serde_json::from_str(&text).unwrap();
    Evidence::from_value(&v)
}

fn rewards() -> SustainableActionRewardsContract {
    let mut c = SustainableActionRewardsContract::new();
    c.instantiate(&ctx("admin"), Some(DEFAULT_DENOM.to_string()));
    c
}

#[test]
fn submit_action_and_list() {
    let mut c = rewards();
    c.submit_action(&ctx("actor"), &sample_evidence("Yamuna cleanup — Okhla", "100")).unwrap();
    let listed = c.list_actions(None, None);
    assert_eq!(listed.len(), 1);
    assert_eq!(listed[0].id, 1);
    assert_eq!(listed[0].actor, "actor");
    assert_eq!(listed[0].impact_points, 100);
    assert!(!listed[0].verified);
}

#[test]
fn duplicate_evidence_rejected() {
    let mut c = rewards();
    let evidence = sample_evidence("Lake Pichola litter pick — Udaipur", "50");
    c.submit_action(&ctx("actor"), &evidence).unwrap();
    let dup = c.submit_action(&ctx("actor"), &evidence);
    assert!(dup.is_err());
    assert!(dup.unwrap_err().message().contains(&ContractError::DuplicateEvidence.message()));
}

#[test]
fn verify_requires_verifier_or_admin() {
    let mut c = rewards();
    c.submit_action(&ctx("actor"), &sample_evidence("Mumbai beach cleanup", "75")).unwrap();
    assert!(c.verify_action(&ctx("stranger"), 1).is_err());
    c.add_verifier(&ctx("admin"), "verifier".to_string()).unwrap();
    c.verify_action(&ctx("verifier"), 1).unwrap();
    assert!(c.get_action(1).unwrap().verified);
}

#[test]
fn impact_totals_after_verify() {
    let mut c = rewards();
    c.submit_action(&ctx("actor"), &sample_evidence("Nashik tree planting drive", "40")).unwrap();
    c.submit_action(&ctx("actor"), &sample_evidence("Bengaluru lake restoration", "60")).unwrap();
    c.verify_action(&ctx("admin"), 1).unwrap();
    c.verify_action(&ctx("admin"), 2).unwrap();
    assert_eq!(c.get_actor_impact(&"actor".to_string()), 100);
}

#[test]
fn no_double_reward() {
    let mut c = rewards();
    c.submit_action(&ctx("actor"), &sample_evidence("Gujarat rainwater harvesting demo", "30"))
        .unwrap();
    c.verify_action(&ctx("admin"), 1).unwrap();
    c.reward_actor(&pay("admin", 1000), 1).unwrap();
    let again = c.reward_actor(&pay("admin", 1000), 1);
    assert!(again.is_err());
    assert!(again.unwrap_err().message().contains(&ContractError::AlreadyRewarded.message()));
}

#[test]
fn mod_remove_verifier_is_admin_only() {
    let mut c = rewards();
    c.add_verifier(&ctx("admin"), "verifier".to_string()).unwrap();
    assert!(c.remove_verifier(&ctx("stranger"), "verifier".to_string()).is_err());
    c.remove_verifier(&ctx("admin"), "verifier".to_string()).unwrap();
    assert!(!c.is_verifier(&"verifier".to_string()));
}
