use aquachain::bounty::{BountyStatus, CommunityBountyContract, ContractError, WorkSubmission, DEFAULT_DENOM};
use aquachain::chain::{Coin, Context};
use aquachain::json::JsonPayload;
use serde_json::Value;

const NOW: u64 = 1_571_797_419;

fn ctx_at(sender: &str, time: u64) -> Context {
    Context { sender: sender.to_string(), funds: vec![], block_time: time }
}

fn ctx(sender: &str) -> Context {
    ctx_at(sender, NOW)
}

fn pay(sender: &str, amount: u128) -> Context {
    Context {
        sender: sender.to_string(),
        funds: vec![Coin { denom: DEFAULT_DENOM.to_string(), amount }],
        block_time: NOW,
    }
}

fn sample_work(summary: &str) -> JsonPayload {
    let text = format!(
        r#"{{"summary": "{summary}", "location": "Delhi, India", "evidence": "Photo set and weigh-in log attached", "hours_spent": "6"}}"#
    );
    let v: Value = serde_json::from_str(&text).unwrap();
    JsonPayload::from_value(&v)
}

fn board(poster: &str) -> CommunityBountyContract {
    let mut c = CommunityBountyContract::new();
    c.instantiate(&ctx(poster), Some(DEFAULT_DENOM.to_string()));
    c
}

fn post(c: &mut CommunityBountyContract, title: &str, description: &str, location: &str, deadline: u64, reward: u128) {
    c.post_bounty(
        &pay("poster", reward),
        title.to_string(),
        description.to_string(),
        location.to_string(),
        deadline,
    )
    .unwrap();
}

#[test]
fn post_bounty_and_list() {
    let mut c = board("poster");
    post(
        &mut c,
        "Yamuna cleanup crew — Okhla",
        "Remove plastic from a 500 m riverbank stretch",
        "Delhi, India",
        9_999_999_999,
        500,
    );
    let listed = c.list_bounties(None, None);
    assert_eq!(listed.len(), 1);
    assert_eq!(listed[0].id, 1);
    assert_eq!(listed[0].poster, "poster");
    assert_eq!(listed[0].reward_amount, 500);
    assert!(matches!(listed[0].status, BountyStatus::Open));
}

#[test]
fn reject_submit_after_deadline() {
    let mut c = board("poster");
    let deadline = NOW + 100;
    post(
        &mut c,
        "Lake Pichola litter pick",
        "Collect and sort waste along the lake path",
        "Udaipur, India",
        deadline,
        300,
    );
    let late = c.submit_work(&ctx_at("worker", NOW + 200), 1, &sample_work("Completed sweep"));
    assert!(late.is_err());
    assert!(late.unwrap_err().message().contains(&ContractError::DeadlinePassed.message()));
}

#[test]
fn poster_only_approve() {
    let mut c = board("poster");
    post(
        &mut c,
        "Juhu beach plastic sweep",
        "Morning volunteer shift with Mumbai NGO",
        "Mumbai, India",
        9_999_999_999,
        800,
    );
    c.submit_work(&ctx("worker"), 1, &sample_work("Collected 42 kg plastic")).unwrap();
    let bad = c.approve_work(&ctx("stranger"), 1, 1);
    assert!(bad.is_err());
    assert!(bad.unwrap_err().message().contains(&ContractError::Unauthorized.message()));
    c.approve_work(&ctx("poster"), 1, 1).unwrap();
    let bounty = c.get_bounty(1).unwrap();
    assert!(matches!(bounty.status, BountyStatus::Completed));
    assert_eq!(bounty.winner, Some("worker".to_string()));
}

#[test]
fn payout_equals_escrowed_reward() {
    let mut c = board("poster");
    let reward = 1_250u128;
    post(
        &mut c,
        "Bengaluru lake desilting",
        "Remove silt from stormwater inlet",
        "Bengaluru, India",
        9_999_999_999,
        reward,
    );
    c.submit_work(&ctx("worker"), 1, &sample_work("Desilting complete with photos")).unwrap();
    let res = c.approve_work(&ctx("poster"), 1, 1).unwrap();
    assert_eq!(res.messages.len(), 1);
    assert_eq!(res.messages[0].to_address, "worker");
    assert_eq!(res.messages[0].denom, DEFAULT_DENOM);
    assert_eq!(res.messages[0].amount, reward);
}

#[test]
fn cancel_returns_escrow_to_poster() {
    let mut c = board("poster");
    let reward = 600u128;
    post(
        &mut c,
        "Nashik rainwater harvesting install",
        "Help install rooftop collection barrels",
        "Nashik, India",
        9_999_999_999,
        reward,
    );
    assert!(c.cancel_bounty(&ctx("stranger"), 1).is_err());
    let res = c.cancel_bounty(&ctx("poster"), 1).unwrap();
    assert!(matches!(c.get_bounty(1).unwrap().status, BountyStatus::Cancelled));
    assert_eq!(res.messages.len(), 1);
    assert_eq!(res.messages[0].to_address, "poster");
    assert_eq!(res.messages[0].amount, reward);
}

#[test]
fn cannot_cancel_completed_bounty() {
    let mut c = board("poster");
    post(
        &mut c,
        "Gujarat mangrove planting",
        "Plant 200 saplings along tidal creek",
        "Gujarat, India",
        9_999_999_999,
        400,
    );
    c.submit_work(&ctx("worker"), 1, &sample_work("All saplings planted")).unwrap();
    c.approve_work(&ctx("poster"), 1, 1).unwrap();
    let err = c.cancel_bounty(&ctx("poster"), 1);
    assert!(err.is_err());
    assert!(err.unwrap_err().message().contains(&ContractError::CannotCancel.message()));
}

#[test]
fn list_submissions_filters_by_bounty() {
    let mut c = board("poster");
    for (title, loc) in [("Task A", "Delhi, India"), ("Task B", "Chennai, India")] {
        post(&mut c, title, "Demo bounty", loc, 9_999_999_999, 100);
    }
    c.submit_work(&ctx("worker_a"), 1, &sample_work("Work on bounty 1")).unwrap();
    c.submit_work(&ctx("worker_b"), 2, &sample_work("Work on bounty 2")).unwrap();
    let all: Vec<WorkSubmission> = c.list_submissions(None, None, None);
    assert_eq!(all.len(), 2);
    let for_one = c.list_submissions(Some(1), None, None);
    assert_eq!(for_one.len(), 1);
    assert_eq!(for_one[0].bounty_id, 1);
}
