use aquachain::actions::{ActionMetadata, ExecuteAction, ACTION_MINT_CREDITS, ACTION_POST_BOUNTY};
use aquachain::bounty::{BountyStatus, CommunityBountyContract};
use aquachain::chain::{Coin, Context};
use aquachain::dao::{ContractError, InstantiateConfig, LocalDaoContract, ProposalStatus, VoteOption};
use aquachain::json::JsonPayload;
use aquachain::marketplace::WaterCreditMarketplaceContract;
use serde_json::Value;

const NOW: u64 = 1_571_797_419;
const TEST_DENOM: &str = "ustake";
const DAO_ADDR: &str = "dao_contract";
const BOUNTY_ADDR: &str = "bounty_contract";
const WCM_ADDR: &str = "wcm_contract";

fn ctx_at(sender: &str, time: u64) -> Context {
    Context { sender: sender.to_string(), funds: vec![], block_time: time }
}

fn ctx(sender: &str) -> Context {
    ctx_at(sender, NOW)
}

fn pay_at(sender: &str, amount: u128, time: u64) -> Context {
    Context {
        sender: sender.to_string(),
        funds: vec![Coin { denom: TEST_DENOM.to_string(), amount }],
        block_time: time,
    }
}

fn json(text: &str) -> JsonPayload {
    let v: Value = serde_json::from_str(text).unwrap();
    JsonPayload::from_value(&v)
}

fn bounty_metadata(city: &str, deadline: u64, reward: &str) -> String {
    format!(
        r#"{{"location": "{city}", "summary": "Community sustainability decision", "deadline": {deadline}, "reward": "{reward}"}}"#
    )
}

fn mint_metadata(recipient: &str, amount: &str) -> String {
    format!(
        r#"{{"location": "Delhi, India", "summary": "Mint water credits for verified cleanup", "recipient": "{recipient}", "amount": "{amount}"}}"#
    )
}

/// The stored metadata of a proposal, read as the record its action calls for.
fn action_metadata(c: &LocalDaoContract, id: u64) -> Option<ActionMetadata> {
    let p = c.get_proposal(id).ok()?;
    let v: Value = serde_json::from_str(&p.metadata_str).ok()?;
    let text = |key: &str| v.get(key).and_then(|x| x.as_str()).map(|s| s.to_string());
    match p.action_tag.as_str() {
        "post_bounty" => Some(ActionMetadata::PostBounty {
            location: text("location")?,
            deadline: v.get("deadline")?.as_u64()?,
            reward: text("reward"),
        }),
        "mint_credits" => Some(ActionMetadata::MintCredits {
            recipient: text("recipient")?,
            amount: text("amount")?,
        }),
        "reward_sensor" => Some(ActionMetadata::RewardSensor {
            entry_id: v.get("entry_id")?.as_u64()?,
            reward: text("reward"),
        }),
        _ => None,
    }
}

fn execute(c: &mut LocalDaoContract, who: &Context, id: u64) -> Result<aquachain::chain::Response, ContractError> {
    let metadata = action_metadata(c, id);
    c.execute_proposal(who, id, &metadata)
}

fn dao_config(quorum_bps: u64, community_bounty: Option<&str>) -> InstantiateConfig {
    InstantiateConfig {
        quorum_bps: Some(quorum_bps),
        voting_period_seconds: Some(100),
        community_bounty: community_bounty.map(|s| s.to_string()),
        water_credit_marketplace: None,
        citizen_science_registry: None,
        default_denom: Some(TEST_DENOM.to_string()),
    }
}

/// A DAO with the given quorum, a voting period of 100 seconds and the bounty
/// board as the target of bounty actions.
fn dao(quorum_bps: u64) -> LocalDaoContract {
    let mut c = LocalDaoContract::new();
    c.instantiate(&ctx("deployer"), dao_config(quorum_bps, Some(BOUNTY_ADDR)));
    c
}

fn propose(c: &mut LocalDaoContract, title: &str, description: &str, city: &str, reward: &str) {
    let deadline = NOW + 3600;
    c.create_proposal(
        &ctx("proposer"),
        title.to_string(),
        description.to_string(),
        ACTION_POST_BOUNTY.to_string(),
        &json(&bounty_metadata(city, deadline, reward)),
    )
    .unwrap();
}

fn cleanup_proposal(c: &mut LocalDaoContract) {
    propose(
        c,
        "Yamuna cleanup budget — Okhla",
        "Allocate volunteer supplies for a Delhi riverbank cleanup.",
        "Delhi, India",
        "500",
    );
}

#[test]
fn create_proposal_and_vote_once() {
    let mut c = dao(3000);
    cleanup_proposal(&mut c);
    c.vote(&ctx("voter"), 1, VoteOption::Yes).unwrap();
    let vote = c.get_vote(1, "voter".to_string()).unwrap();
    assert!(matches!(vote.vote, VoteOption::Yes));
    let dup = c.vote(&ctx("voter"), 1, VoteOption::No);
    assert!(dup.is_err());
    assert!(dup.unwrap_err().message().contains(&ContractError::AlreadyVoted.message()));
}

#[test]
fn rejects_unsupported_action_tag() {
    let mut c = dao(3000);
    let err = c.create_proposal(
        &ctx("proposer"),
        "Legacy tag".to_string(),
        "Should fail".to_string(),
        "fund_cleanup".to_string(),
        &json(&bounty_metadata("Delhi, India", NOW + 3600, "500")),
    );
    assert!(err.is_err());
    assert!(err.unwrap_err().message().contains(&ContractError::UnsupportedAction.message()));
}

#[test]
fn open_proposal_cannot_execute() {
    let mut c = dao(3000);
    cleanup_proposal(&mut c);
    let err = execute(&mut c, &ctx("proposer"), 1);
    assert!(err.is_err());
    assert!(err.unwrap_err().message().contains(&ContractError::VotingNotEnded.message()));
}

#[test]
fn quorum_enforcement() {
    let mut c = dao(5000);
    cleanup_proposal(&mut c);
    c.vote(&ctx("voter_a"), 1, VoteOption::Yes).unwrap();
    propose(&mut c, "Register voters", "Bootstrap voter registry", "Bengaluru, India", "100");
    c.vote(&ctx("voter_b"), 2, VoteOption::Yes).unwrap();
    c.vote(&ctx("voter_c"), 2, VoteOption::Yes).unwrap();
    execute(&mut c, &ctx_at("proposer", NOW + 200), 1).unwrap();
    let p = c.get_proposal(1).unwrap();
    assert!(matches!(p.status, ProposalStatus::Failed));
}

#[test]
fn passed_post_bounty_executes_sibling_contract() {
    let mut bounty = CommunityBountyContract::new();
    bounty.instantiate(&ctx("deployer"), Some(TEST_DENOM.to_string()));
    let mut c = dao(3000);
    propose(
        &mut c,
        "Yamuna cleanup crew — Okhla",
        "Remove plastic from a 500 m riverbank stretch",
        "Delhi, India",
        "500",
    );
    c.vote(&ctx("voter_a"), 1, VoteOption::Yes).unwrap();
    c.vote(&ctx("voter_b"), 1, VoteOption::Yes).unwrap();
    let res = execute(&mut c, &pay_at("executor", 500, NOW + 200), 1).unwrap();
    assert!(matches!(c.get_proposal(1).unwrap().status, ProposalStatus::Executed));
    assert_eq!(res.actions.len(), 1);
    match res.actions[0].clone() {
        ExecuteAction::PostBounty { target, title, description, location, deadline, funds } => {
            assert_eq!(target, BOUNTY_ADDR);
            assert_eq!(location, "Delhi, India");
            let sibling = Context { sender: DAO_ADDR.to_string(), funds, block_time: NOW + 200 };
            bounty.post_bounty(&sibling, title, description, location, deadline).unwrap();
        }
        other => panic!("unexpected action {other:?}"),
    }
    let listed = bounty.list_bounties(None, None);
    assert_eq!(listed.len(), 1);
    assert_eq!(listed[0].reward_amount, 500);
    assert!(matches!(listed[0].status, BountyStatus::Open));
}

#[test]
fn passed_mint_credits_executes_sibling_contract() {
    let mut c = LocalDaoContract::new();
    c.instantiate(&ctx("deployer"), dao_config(3000, None));
    let mut wcm = WaterCreditMarketplaceContract::new();
    wcm.instantiate(&ctx(DAO_ADDR), Some(TEST_DENOM.to_string()));
    c.update_action_targets(&ctx("deployer"), None, Some(WCM_ADDR.to_string()), None).unwrap();
    c.create_proposal(
        &ctx("proposer"),
        "Mint cleanup credits".to_string(),
        "Reward verified river stewards with tradable credits.".to_string(),
        ACTION_MINT_CREDITS.to_string(),
        &json(&mint_metadata("beneficiary", "75")),
    )
    .unwrap();
    c.vote(&ctx("voter_a"), 1, VoteOption::Yes).unwrap();
    c.vote(&ctx("voter_b"), 1, VoteOption::Yes).unwrap();
    let res = execute(&mut c, &ctx_at("proposer", NOW + 200), 1).unwrap();
    assert!(matches!(c.get_proposal(1).unwrap().status, ProposalStatus::Executed));
    match res.actions[0].clone() {
        ExecuteAction::MintCredits { target, recipient, amount } => {
            assert_eq!(target, WCM_ADDR);
            wcm.mint_credits(&ctx_at(DAO_ADDR, NOW + 200), recipient, amount).unwrap();
        }
        other => panic!("unexpected action {other:?}"),
    }
    assert_eq!(wcm.get_balance(&"beneficiary".to_string()), 75);
}

#[test]
fn execute_requires_matching_reward_funds() {
    let mut c = dao(3000);
    propose(
        &mut c,
        "Yamuna cleanup crew — Okhla",
        "Remove plastic from a 500 m riverbank stretch",
        "Delhi, India",
        "500",
    );
    c.vote(&ctx("voter_a"), 1, VoteOption::Yes).unwrap();
    c.vote(&ctx("voter_b"), 1, VoteOption::Yes).unwrap();
    let err = execute(&mut c, &pay_at("proposer", 400, NOW + 200), 1);
    assert!(err.is_err());
    assert!(err.unwrap_err().message().contains(&ContractError::InvalidFundsAmount.message()));
    assert!(matches!(c.get_proposal(1).unwrap().status, ProposalStatus::Open));
}

#[test]
fn successful_execute_runs_once() {
    let mut c = dao(3000);
    cleanup_proposal(&mut c);
    c.vote(&ctx("voter_a"), 1, VoteOption::Yes).unwrap();
    c.vote(&ctx("voter_b"), 1, VoteOption::Yes).unwrap();
    let later = pay_at("proposer", 500, NOW + 200);
    execute(&mut c, &later, 1).unwrap();
    assert!(matches!(c.get_proposal(1).unwrap().status, ProposalStatus::Executed));
    let again = execute(&mut c, &later, 1);
    assert!(again.is_err());
    assert!(again.unwrap_err().message().contains("finalized"));
}

#[test]
fn failed_proposal_cannot_execute_successfully() {
    let mut c = dao(3000);
    cleanup_proposal(&mut c);
    c.vote(&ctx("voter_a"), 1, VoteOption::Yes).unwrap();
    c.vote(&ctx("voter_b"), 1, VoteOption::No).unwrap();
    execute(&mut c, &ctx_at("proposer", NOW + 200), 1).unwrap();
    assert!(matches!(c.get_proposal(1).unwrap().status, ProposalStatus::Failed));
}

#[test]
fn list_proposals_returns_created_rows() {
    let mut c = dao(3000);
    cleanup_proposal(&mut c);
    propose(
        &mut c,
        "Lake Pichola tree planting",
        "Approve sapling budget for Udaipur shoreline.",
        "Udaipur, India",
        "200",
    );
    let listed = c.list_proposals(None, None);
    assert_eq!(listed.len(), 2);
    assert_eq!(listed[1].title, "Lake Pichola tree planting");
}

#[test]
fn quorum_is_met_at_exactly_the_threshold() {
    let mut c = dao(5000);
    cleanup_proposal(&mut c);
    c.vote(&ctx("voter_a"), 1, VoteOption::Yes).unwrap();
    propose(&mut c, "Second", "Registers another voter", "Pune, India", "50");
    c.vote(&ctx("voter_b"), 2, VoteOption::No).unwrap();
    // One of two registered voters took part: 10000 * 1 / 2 = 5000 basis points.
    let res = execute(&mut c, &pay_at("proposer", 500, NOW + 200), 1).unwrap();
    assert!(matches!(c.get_proposal(1).unwrap().status, ProposalStatus::Executed));
    assert!(res.attributes.iter().any(|a| a.key == "yes_votes" && a.value == "1"));
    let res = execute(&mut c, &ctx_at("proposer", NOW + 200), 2).unwrap();
    assert!(matches!(c.get_proposal(2).unwrap().status, ProposalStatus::Failed));
    assert!(res.attributes.iter().any(|a| a.key == "reason" && a.value == "not_passed"));
}

#[test]
fn action_targets_are_set_by_the_admin_only() {
    let mut c = LocalDaoContract::new();
    c.instantiate(&ctx("deployer"), dao_config(3000, None));
    assert_eq!(
        c.update_action_targets(&ctx("stranger"), Some("b".to_string()), None, None).unwrap_err(),
        ContractError::Unauthorized
    );
    cleanup_proposal(&mut c);
    c.vote(&ctx("voter_a"), 1, VoteOption::Yes).unwrap();
    let later = pay_at("proposer", 500, NOW + 200);
    assert_eq!(execute(&mut c, &later, 1).unwrap_err(), ContractError::ActionTargetNotConfigured);
    assert!(matches!(c.get_proposal(1).unwrap().status, ProposalStatus::Open));
    c.update_action_targets(&ctx("deployer"), Some(BOUNTY_ADDR.to_string()), None, None).unwrap();
    assert_eq!(c.execute_proposal(&later, 1, &None).unwrap_err(), ContractError::InvalidActionMetadata);
    assert_eq!(execute(&mut c, &ctx_at("proposer", NOW + 200), 1).unwrap_err(), ContractError::MissingFunds);
    execute(&mut c, &later, 1).unwrap();
}
