use aquachain::chain::{Coin, Context};
use aquachain::json::JsonPayload;
use serde_json::Value;
use aquachain::citizen::{CitizenScienceRegistry, ContractError as CitizenError};
use aquachain::initiative::{ContractError as InitiativeError, WaterWellInitiativeContract};
use aquachain::donation::{ContractError as DonationError, WaterWellDonationContract};
use aquachain::exchange::{ContractError as ExchangeError, CrossPlatformExchangeContract, SwapDirection};
use aquachain::marketplace::{ContractError as MarketplaceError, WaterCreditMarketplaceContract};
use aquachain::bounty::{CommunityBountyContract, ContractError as BountyError};
use aquachain::actions::ActionMetadata;
use aquachain::dao::{ContractError as DaoError, InstantiateConfig, LocalDaoContract, VoteOption};
use aquachain::sustainable::{ContractError as SustainableError, Evidence, SustainableActionRewardsContract};
use aquachain::utility::{ContractError as UtilityError, UtilityWaterFootprintContract};

const NOW: u64 = 1_571_797_419;
const DENOM: &str = "ustake";

fn ctx_at(sender: &str, time: u64) -> Context {
    Context { sender: sender.to_string(), funds: vec![], block_time: time }
}

fn ctx(sender: &str) -> Context {
    ctx_at(sender, NOW)
}

fn pay_in(sender: &str, amount: u128, denom: &str) -> Context {
    Context {
        sender: sender.to_string(),
        funds: vec![Coin { denom: denom.to_string(), amount }],
        block_time: NOW,
    }
}

fn pay(sender: &str, amount: u128) -> Context {
    pay_in(sender, amount, DENOM)
}

fn payload(text: &str) -> JsonPayload {
    let v: Value = serde_json::from_str(text).unwrap();
    JsonPayload::from_value(&v)
}

#[test]
fn citizen_errors() {
    let mut c = CitizenScienceRegistry::new();
    assert_eq!(c.submit_sensor(&ctx("u"), &payload(r#"{"a": 1}"#)).unwrap_err(), CitizenError::NotFound);
    assert_eq!(c.activate(&ctx("admin"), 1).unwrap_err(), CitizenError::NotFound);
    c.instantiate(&ctx("admin"), None);
    assert_eq!(c.submit_sensor(&ctx("u"), &payload("[]")).unwrap_err(), CitizenError::InvalidJson);
    c.submit_sensor(&ctx("u"), &payload(r#"{"a": 1}"#)).unwrap();
    assert_eq!(c.submit_sensor(&ctx("v"), &payload(r#"{"a": 1}"#)).unwrap_err(), CitizenError::DuplicateData);
    assert_eq!(c.submit_data(&ctx("u"), 1, &payload(r#"{"t": 1}"#)).unwrap_err(), CitizenError::SensorInactive);
    assert_eq!(c.submit_data(&ctx("u"), 9, &payload(r#"{"t": 1}"#)).unwrap_err(), CitizenError::NotFound);
    assert_eq!(c.activate(&ctx("u"), 1).unwrap_err(), CitizenError::Unauthorized);
    c.activate(&ctx("admin"), 1).unwrap();
    assert_eq!(c.activate(&ctx("admin"), 1).unwrap_err(), CitizenError::AlreadyActivated);
    c.add_verifier(&ctx("admin"), "ver".to_string()).unwrap();
    assert_eq!(c.add_verifier(&ctx("admin"), "ver".to_string()).unwrap_err(), CitizenError::VerifierAlreadyExists);
    c.submit_data(&ctx("u"), 1, &payload(r#"{"t": 1}"#)).unwrap();
    assert_eq!(c.reward_submitter(&pay("admin", 5), 1).unwrap_err(), CitizenError::NotVerified);
    c.verify_data(&ctx("ver"), 1).unwrap();
    assert_eq!(c.verify_data(&ctx("ver"), 1).unwrap_err(), CitizenError::AlreadyVerified);
    assert_eq!(c.reward_submitter(&pay_in("admin", 5, "uatom"), 1).unwrap_err(), CitizenError::InvalidFunds);
    c.reward_submitter(&pay("admin", 5), 1).unwrap();
    assert_eq!(c.reward_submitter(&pay("admin", 5), 1).unwrap_err(), CitizenError::AlreadyRewarded);
    assert_eq!(CitizenError::AlreadyDeactivated.message(), "Sensor is already deactivated");
}

#[test]
fn initiative_errors() {
    let mut c = WaterWellInitiativeContract::new();
    assert_eq!(c.create_project(&ctx("o"), 10, &payload(r#"{"p": 1}"#)).unwrap_err(), InitiativeError::NotFound);
    c.instantiate(&ctx("admin"), None);
    assert_eq!(c.create_project(&ctx("o"), 0, &payload(r#"{"p": 1}"#)).unwrap_err(), InitiativeError::ZeroGoal);
    assert_eq!(c.create_project(&ctx("o"), 10, &payload("{}")).unwrap_err(), InitiativeError::InvalidJson);
    c.create_project(&ctx("o"), 10, &payload(r#"{"p": 1}"#)).unwrap();
    assert_eq!(c.create_project(&ctx("o"), 10, &payload(r#"{"p": 1}"#)).unwrap_err(), InitiativeError::DuplicateData);
    assert_eq!(c.donate(&pay("d", 5), 1).unwrap_err(), InitiativeError::NotValidated);
    assert_eq!(c.unlock(&ctx("admin"), 1).unwrap_err(), InitiativeError::GoalNotMet);
    assert_eq!(c.validate(&ctx("o"), 1).unwrap_err(), InitiativeError::Unauthorized);
    c.validate(&ctx("admin"), 1).unwrap();
    assert_eq!(c.validate(&ctx("admin"), 1).unwrap_err(), InitiativeError::AlreadyValidated);
    assert_eq!(c.donate(&ctx("d"), 1).unwrap_err(), InitiativeError::NoDonation);
    assert_eq!(c.donate(&pay("d", 11), 1).unwrap_err(), InitiativeError::ExceedGoal);
    assert_eq!(c.disburse(&ctx("o"), 1).unwrap_err(), InitiativeError::NotDisbursable);
    assert_eq!(c.refund(&ctx("d"), 1).unwrap_err(), InitiativeError::NotRefundable);
    c.donate(&pay("d", 10), 1).unwrap();
    assert_eq!(c.donate(&pay("d", 1), 1).unwrap_err(), InitiativeError::AlreadyFunded);
    assert_eq!(c.cancel(&ctx("admin"), 1).unwrap_err(), InitiativeError::CannotCancel);
    c.unlock(&ctx("admin"), 1).unwrap();
    assert_eq!(c.unlock(&ctx("admin"), 1).unwrap_err(), InitiativeError::AlreadyDisbursable);
    c.disburse(&ctx("o"), 1).unwrap();
    assert_eq!(c.disburse(&ctx("o"), 1).unwrap_err(), InitiativeError::AlreadyCompleted);
    c.create_project(&ctx("o"), 10, &payload(r#"{"p": 2}"#)).unwrap();
    c.cancel(&ctx("o"), 2).unwrap();
    assert_eq!(c.cancel(&ctx("o"), 2).unwrap_err(), InitiativeError::AlreadyCancelled);
    assert_eq!(c.validate(&ctx("admin"), 2).unwrap_err(), InitiativeError::Cancelled);
    assert_eq!(c.refund(&ctx("d"), 2).unwrap_err(), InitiativeError::NoRefundAvailable);
}

#[test]
fn donation_errors() {
    let mut c = WaterWellDonationContract::new();
    assert_eq!(c.create_project(&ctx("o"), 10).unwrap_err(), DonationError::NotFound);
    c.instantiate(&ctx("o"));
    assert_eq!(c.create_project(&ctx("x"), 10).unwrap_err(), DonationError::Unauthorized);
    assert_eq!(c.create_project(&ctx("o"), 0).unwrap_err(), DonationError::ZeroGoal);
    c.create_project(&ctx("o"), 10).unwrap();
    assert_eq!(c.donate(&pay("d", 1), 2).unwrap_err(), DonationError::NotFound);
    assert_eq!(c.donate(&pay_in("d", 1, "uatom"), 1).unwrap_err(), DonationError::NoDonation);
    assert_eq!(c.donate(&pay("d", 11), 1).unwrap_err(), DonationError::ExceedGoal);
    assert_eq!(c.disburse(&ctx("o"), 1).unwrap_err(), DonationError::GoalNotMet);
    c.donate(&pay("d", 10), 1).unwrap();
    c.disburse(&ctx("o"), 1).unwrap();
    assert_eq!(c.disburse(&ctx("o"), 1).unwrap_err(), DonationError::AlreadyDisbursed);
}

#[test]
fn exchange_errors() {
    let mut c = CrossPlatformExchangeContract::new();
    assert_eq!(
        c.register_partner(&ctx("admin"), "p".to_string(), "l".to_string(), "r".to_string()).unwrap_err(),
        ExchangeError::NotFound
    );
    c.instantiate(&ctx("admin"), None);
    assert_eq!(
        c.register_partner(&ctx("admin"), "  ".to_string(), "l".to_string(), "r".to_string()).unwrap_err(),
        ExchangeError::MissingPartnerDenom
    );
    c.register_partner(&ctx("admin"), " p ".to_string(), "l".to_string(), "r".to_string()).unwrap();
    assert_eq!(
        c.register_partner(&ctx("admin"), "p".to_string(), "l".to_string(), "r".to_string()).unwrap_err(),
        ExchangeError::PartnerExists
    );
    assert_eq!(c.set_rate(&ctx("admin"), "q".to_string(), 1, 1).unwrap_err(), ExchangeError::PartnerNotFound);
    assert_eq!(c.set_rate(&ctx("admin"), "p".to_string(), 0, 1).unwrap_err(), ExchangeError::InvalidRate);
    assert_eq!(c.swap(&pay("t", 10), "p".to_string(), SwapDirection::BaseToPartner, 10, 0).unwrap_err(), ExchangeError::RateNotSet);
    c.set_rate(&ctx("admin"), "p".to_string(), 10, 3).unwrap();
    assert_eq!(c.swap(&pay("t", 10), "p".to_string(), SwapDirection::BaseToPartner, 0, 0).unwrap_err(), ExchangeError::ZeroAmount);
    assert_eq!(c.swap(&pay("t", 9), "p".to_string(), SwapDirection::BaseToPartner, 10, 0).unwrap_err(), ExchangeError::InvalidFunds);
    assert_eq!(c.swap(&pay("t", 5), "p".to_string(), SwapDirection::BaseToPartner, 5, 0).unwrap_err(), ExchangeError::InexactAmount);
    c.swap(&pay("t", 10), "p".to_string(), SwapDirection::BaseToPartner, 10, 0).unwrap();
    assert_eq!(c.get_locked_balance("t".to_string(), "p".to_string()).unwrap(), 3);
    assert_eq!(c.swap(&ctx("t"), "p".to_string(), SwapDirection::PartnerToBase, 4, 100).unwrap_err(), ExchangeError::InsufficientLocked);
    assert_eq!(c.swap(&ctx("t"), "p".to_string(), SwapDirection::PartnerToBase, 3, 9).unwrap_err(), ExchangeError::InsufficientLiquidity);
    assert_eq!(c.withdraw(&ctx("t"), "p".to_string(), 4).unwrap_err(), ExchangeError::InsufficientLocked);
    assert_eq!(c.set_rate(&ctx("x"), "p".to_string(), 1, 1).unwrap_err(), ExchangeError::Unauthorized);
    assert_eq!(ExchangeError::PartnerInactive.message(), "Partner is inactive");
}

#[test]
fn marketplace_errors() {
    let mut c = WaterCreditMarketplaceContract::new();
    assert_eq!(c.mint_credits(&ctx("admin"), "s".to_string(), 5).unwrap_err(), MarketplaceError::NotFound);
    c.instantiate(&ctx("admin"), None);
    assert_eq!(c.mint_credits(&ctx("x"), "s".to_string(), 5).unwrap_err(), MarketplaceError::Unauthorized);
    assert_eq!(c.mint_credits(&ctx("admin"), "s".to_string(), 0).unwrap_err(), MarketplaceError::ZeroCredits);
    c.mint_credits(&ctx("admin"), "s".to_string(), 50).unwrap();
    assert_eq!(c.list_credit(&ctx("s"), 0, 5, "r".to_string(), None).unwrap_err(), MarketplaceError::ZeroCredits);
    assert_eq!(c.list_credit(&ctx("s"), 5, 0, "r".to_string(), None).unwrap_err(), MarketplaceError::ZeroPrice);
    assert_eq!(c.list_credit(&ctx("s"), 5, 5, "r".to_string(), Some(NOW)).unwrap_err(), MarketplaceError::InvalidExpiry);
    assert_eq!(c.list_credit(&ctx("s"), 51, 5, "r".to_string(), None).unwrap_err(), MarketplaceError::InsufficientCredits);
    c.list_credit(&ctx("s"), 5, 7, "r".to_string(), Some(NOW + 10)).unwrap();
    assert_eq!(c.buy_credit(&ctx("b"), 1).unwrap_err(), MarketplaceError::InvalidFunds);
    assert_eq!(c.buy_credit(&pay("b", 6), 1).unwrap_err(), MarketplaceError::WrongPrice);
    let late = Context { block_time: NOW + 11, ..pay("b", 7) };
    assert_eq!(c.buy_credit(&late, 1).unwrap_err(), MarketplaceError::ListingExpired);
    assert_eq!(c.cancel_listing(&ctx("b"), 1).unwrap_err(), MarketplaceError::Unauthorized);
    c.buy_credit(&pay("b", 7), 1).unwrap();
    assert_eq!(c.buy_credit(&pay("b", 7), 1).unwrap_err(), MarketplaceError::ListingInactive);
    assert_eq!(c.cancel_listing(&ctx("s"), 1).unwrap_err(), MarketplaceError::ListingInactive);
    assert_eq!(c.buy_credit(&pay("b", 7), 2).unwrap_err(), MarketplaceError::NotFound);
    assert_eq!(c.transfer_credit(&ctx("s"), "b".to_string(), 0).unwrap_err(), MarketplaceError::ZeroCredits);
    assert_eq!(c.transfer_credit(&ctx("s"), "b".to_string(), 46).unwrap_err(), MarketplaceError::InsufficientCredits);
}

#[test]
fn bounty_errors() {
    let mut c = CommunityBountyContract::new();
    let post = |c: &mut CommunityBountyContract, who: Context, title: &str, deadline: u64| {
        c.post_bounty(&who, title.to_string(), "d".to_string(), "Delhi".to_string(), deadline)
    };
    assert_eq!(post(&mut c, pay("p", 5), "t", NOW + 10).unwrap_err(), BountyError::NotFound);
    c.instantiate(&ctx("p"), None);
    assert_eq!(post(&mut c, pay("p", 5), " ", NOW + 10).unwrap_err(), BountyError::MissingFields);
    assert_eq!(post(&mut c, pay("p", 5), "t", NOW).unwrap_err(), BountyError::InvalidDeadline);
    assert_eq!(post(&mut c, ctx("p"), "t", NOW + 10).unwrap_err(), BountyError::InvalidFunds);
    assert_eq!(post(&mut c, pay("p", 0), "t", NOW + 10).unwrap_err(), BountyError::InvalidFunds);
    post(&mut c, pay("p", 5), "t", NOW + 10).unwrap();
    post(&mut c, pay("p", 5), "u", NOW + 10).unwrap();
    assert_eq!(c.submit_work(&ctx("w"), 1, &payload(r#""  ""#)).unwrap_err(), BountyError::InvalidJson);
    assert_eq!(c.submit_work(&ctx_at("w", NOW + 11), 1, &payload(r#"{"s": 1}"#)).unwrap_err(), BountyError::DeadlinePassed);
    c.submit_work(&ctx("w"), 2, &payload(r#"{"s": 1}"#)).unwrap();
    assert_eq!(c.approve_work(&ctx("p"), 1, 1).unwrap_err(), BountyError::WrongBounty);
    assert_eq!(c.approve_work(&ctx("p"), 1, 9).unwrap_err(), BountyError::NotFound);
    assert_eq!(c.approve_work(&ctx("w"), 2, 1).unwrap_err(), BountyError::Unauthorized);
    c.approve_work(&ctx("p"), 2, 1).unwrap();
    assert_eq!(c.approve_work(&ctx("p"), 2, 1).unwrap_err(), BountyError::BountyNotOpen);
    assert_eq!(c.submit_work(&ctx("w"), 2, &payload(r#"{"s": 2}"#)).unwrap_err(), BountyError::BountyNotOpen);
    assert_eq!(c.cancel_bounty(&ctx("p"), 2).unwrap_err(), BountyError::CannotCancel);
    assert_eq!(BountyError::SubmissionNotFound.message(), "Submission not found");
}

#[test]
fn dao_errors() {
    let mut c = LocalDaoContract::new();
    let propose = |c: &mut LocalDaoContract, title: &str, tag: &str, meta: &str| {
        c.create_proposal(&ctx("p"), title.to_string(), "d".to_string(), tag.to_string(), &payload(meta))
    };
    assert_eq!(propose(&mut c, "t", "post_bounty", r#"{"a": 1}"#).unwrap_err(), DaoError::NotFound);
    let config = InstantiateConfig {
        quorum_bps: None,
        voting_period_seconds: Some(100),
        community_bounty: Some("b".to_string()),
        water_credit_marketplace: None,
        citizen_science_registry: None,
        default_denom: None,
    };
    c.instantiate(&ctx("deployer"), config);
    assert_eq!(propose(&mut c, " ", "post_bounty", r#"{"a": 1}"#).unwrap_err(), DaoError::MissingTitle);
    assert_eq!(propose(&mut c, "t", "", r#"{"a": 1}"#).unwrap_err(), DaoError::MissingActionTag);
    assert_eq!(propose(&mut c, "t", "spend", r#"{"a": 1}"#).unwrap_err(), DaoError::UnsupportedAction);
    assert_eq!(propose(&mut c, "t", "post_bounty", r#"" ""#).unwrap_err(), DaoError::InvalidJson);
    propose(&mut c, "t", " post_bounty ", r#"{"location": "x", "deadline": 5}"#).unwrap();
    assert_eq!(c.get_proposal(1).unwrap().action_tag, "post_bounty");
    assert_eq!(c.vote(&ctx("v"), 2, VoteOption::Yes).unwrap_err(), DaoError::NotFound);
    c.vote(&ctx("v"), 1, VoteOption::Yes).unwrap();
    assert_eq!(c.vote(&ctx("v"), 1, VoteOption::No).unwrap_err(), DaoError::AlreadyVoted);
    assert_eq!(c.vote(&ctx_at("w", NOW + 101), 1, VoteOption::No).unwrap_err(), DaoError::VotingEnded);
    let meta = Some(ActionMetadata::PostBounty { location: "x".to_string(), deadline: 5, reward: None });
    assert_eq!(c.execute_proposal(&ctx("p"), 1, &meta).unwrap_err(), DaoError::VotingNotEnded);
    let paid = Context { block_time: NOW + 101, ..pay("p", 5) };
    c.execute_proposal(&paid, 1, &meta).unwrap();
    assert_eq!(c.vote(&ctx("w"), 1, VoteOption::No).unwrap_err(), DaoError::ProposalNotOpen);
    assert_eq!(c.execute_proposal(&paid, 1, &meta).unwrap_err(), DaoError::AlreadyFinalized);
    assert_eq!(DaoError::QuorumNotReached.message(), "Quorum not reached");
    assert_eq!(DaoError::ProposalNotPassed.message(), "Proposal did not pass");
}

#[test]
fn sustainable_errors() {
    let ev = |t: &str| {
        let v: Value = serde_json::from_str(t).unwrap();
        Evidence::from_value(&v)
    };
    let mut c = SustainableActionRewardsContract::new();
    assert_eq!(c.submit_action(&ctx("a"), &ev(r#"{"impact_points": 5}"#)).unwrap_err(), SustainableError::NotFound);
    c.instantiate(&ctx("admin"), None);
    assert_eq!(c.submit_action(&ctx("a"), &ev("{}")).unwrap_err(), SustainableError::InvalidJson);
    assert_eq!(c.submit_action(&ctx("a"), &ev(r#"{"impact_points": "0"}"#)).unwrap_err(), SustainableError::ZeroImpact);
    c.submit_action(&ctx("a"), &ev(r#"{"impact_points": 5}"#)).unwrap();
    assert_eq!(c.submit_action(&ctx("b"), &ev(r#"{"impact_points": 5}"#)).unwrap_err(), SustainableError::DuplicateEvidence);
    assert_eq!(c.verify_action(&ctx("x"), 1).unwrap_err(), SustainableError::Unauthorized);
    assert_eq!(c.verify_action(&ctx("admin"), 2).unwrap_err(), SustainableError::NotFound);
    assert_eq!(c.reward_actor(&pay("admin", 3), 1).unwrap_err(), SustainableError::NotVerified);
    c.verify_action(&ctx("admin"), 1).unwrap();
    assert_eq!(c.verify_action(&ctx("admin"), 1).unwrap_err(), SustainableError::AlreadyVerified);
    assert_eq!(c.reward_actor(&ctx("admin"), 1).unwrap_err(), SustainableError::InvalidFunds);
    let res = c.reward_actor(&pay("admin", 3), 1).unwrap();
    assert_eq!(res.messages[0].to_address, "a");
    assert_eq!(res.messages[0].amount, 3);
    assert_eq!(c.reward_actor(&pay("admin", 3), 1).unwrap_err(), SustainableError::AlreadyRewarded);
    c.add_verifier(&ctx("admin"), "v".to_string()).unwrap();
    assert_eq!(c.add_verifier(&ctx("admin"), "v".to_string()).unwrap_err(), SustainableError::VerifierAlreadyExists);
    assert_eq!(c.remove_verifier(&ctx("admin"), "w".to_string()).unwrap_err(), SustainableError::VerifierNotFound);
}

#[test]
fn utility_errors() {
    let mut c = UtilityWaterFootprintContract::new();
    assert_eq!(c.register_company(&ctx("o"), "Co", &payload(r#"{"a": 1}"#)).unwrap_err(), UtilityError::NotFound);
    c.instantiate(&ctx("admin"), None);
    assert_eq!(c.register_company(&ctx("o"), "  ", &payload(r#"{"a": 1}"#)).unwrap_err(), UtilityError::EmptyName);
    assert_eq!(c.register_company(&ctx("o"), "Co", &payload("[]")).unwrap_err(), UtilityError::InvalidJson);
    c.register_company(&ctx("o"), " Co ", &payload(r#"{"a": 1}"#)).unwrap();
    assert_eq!(c.get_company(1).unwrap().name, "Co");
    assert_eq!(c.log_usage(&ctx("o"), 2, "Q1", 10, 1).unwrap_err(), UtilityError::NotFound);
    assert_eq!(c.log_usage(&ctx("x"), 1, "Q1", 10, 1).unwrap_err(), UtilityError::Unauthorized);
    assert_eq!(c.log_usage(&ctx("o"), 1, " ", 10, 1).unwrap_err(), UtilityError::EmptyPeriod);
    assert_eq!(c.log_usage(&ctx("o"), 1, "Q1", 0, 0).unwrap_err(), UtilityError::ZeroUsage);
    assert_eq!(c.log_usage(&ctx("o"), 1, "Q1", 10, 11).unwrap_err(), UtilityError::IllogicalMetrics);
    c.log_usage(&ctx("o"), 1, " Q1 ", 10, 1).unwrap();
    assert_eq!(c.validate_log(&ctx("x"), 1).unwrap_err(), UtilityError::Unauthorized);
    c.validate_log(&ctx("admin"), 1).unwrap();
    assert_eq!(c.validate_log(&ctx("admin"), 1).unwrap_err(), UtilityError::AlreadyValidated);
    assert_eq!(c.issue_certificate(&ctx("admin"), 1, " ").unwrap_err(), UtilityError::EmptyPeriod);
    assert_eq!(c.issue_certificate(&ctx("admin"), 2, "Q1").unwrap_err(), UtilityError::NotFound);
    c.issue_certificate(&ctx("admin"), 1, "Q1").unwrap();
    assert_eq!(c.issue_certificate(&ctx("admin"), 1, " Q1").unwrap_err(), UtilityError::AlreadyIssued);
    assert_eq!(c.issue_certificate(&ctx("admin"), 1, "Q2").unwrap_err(), UtilityError::CriteriaNotMet);
    c.add_verifier(&ctx("admin"), "v".to_string()).unwrap();
    assert_eq!(c.add_verifier(&ctx("admin"), "v".to_string()).unwrap_err(), UtilityError::VerifierAlreadyExists);
    assert_eq!(c.remove_verifier(&ctx("admin"), "w".to_string()).unwrap_err(), UtilityError::VerifierNotFound);
    assert_eq!(UtilityError::NotValidated.message(), "Usage log is not validated");
}
