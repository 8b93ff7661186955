//! The actions a DAO proposal carries: checking the metadata each action
//! needs, the reward funds an action pays out, and the message an executed
//! proposal sends to the contract that carries the action out.
use vstd::prelude::*;
use crate::chain::{Coin, first_amount, opt_view};
use crate::dao::{ContractError, Proposal, ProposalView};
use crate::text::{is_blank, parse_u128, parse_u128_spec, str_is_blank, trim, trim_str};

verus! {

/// The actions a proposal may carry.
pub const ACTION_POST_BOUNTY: &'static str = "post_bounty";
pub const ACTION_MINT_CREDITS: &'static str = "mint_credits";
pub const ACTION_REWARD_SENSOR: &'static str = "reward_sensor";

/// Whether `tag` is one of the actions a proposal may carry.
pub open spec fn allowed_action(tag: Seq<char>) -> bool {
    tag == ACTION_POST_BOUNTY@ || tag == ACTION_MINT_CREDITS@ || tag == ACTION_REWARD_SENSOR@
}

/// Whether `action_tag` names one of the actions a proposal may carry.
pub fn is_allowed_action(action_tag: &str) -> (r: bool)
    ensures
        r == allowed_action(action_tag@),
{
    let tag = String::from_str(action_tag);
    tag == String::from_str(ACTION_POST_BOUNTY) || tag == String::from_str(ACTION_MINT_CREDITS)
        || tag == String::from_str(ACTION_REWARD_SENSOR)
}

/// The metadata of an action, read as the record its tag calls for.
#[derive(Debug, Clone, PartialEq, Eq)]
pub enum ActionMetadata {
    PostBounty { location: String, deadline: u64, reward: Option<String> },
    MintCredits { recipient: String, amount: String },
    RewardSensor { entry_id: u64, reward: Option<String> },
}

/// Whether the trimmed text spells a positive `u128`.
pub open spec fn positive_amount(s: Seq<char>) -> bool {
    match parse_u128_spec(trim(s)) {
        Some(n) => n > 0,
        None => false,
    }
}

/// The outcome of checking the metadata of an action: `parsed` is the
/// metadata read as the record the tag calls for, absent when it could not
/// be read so.
pub open spec fn metadata_check(tag: Seq<char>, parsed: Option<ActionMetadata>) -> Result<
    (),
    ContractError,
> {
    if tag == ACTION_POST_BOUNTY@ {
        match parsed {
            Some(ActionMetadata::PostBounty { location, deadline, .. }) => if is_blank(location@)
                || deadline == 0 {
                Err(ContractError::InvalidActionMetadata)
            } else {
                Ok(())
            },
            _ => Err(ContractError::InvalidActionMetadata),
        }
    } else if tag == ACTION_MINT_CREDITS@ {
        match parsed {
            Some(ActionMetadata::MintCredits { recipient, amount }) => if is_blank(recipient@)
                || is_blank(amount@) || !positive_amount(amount@) {
                Err(ContractError::InvalidActionMetadata)
            } else {
                Ok(())
            },
            _ => Err(ContractError::InvalidActionMetadata),
        }
    } else if tag == ACTION_REWARD_SENSOR@ {
        match parsed {
            Some(ActionMetadata::RewardSensor { entry_id, .. }) => if entry_id == 0 {
                Err(ContractError::InvalidActionMetadata)
            } else {
                Ok(())
            },
            _ => Err(ContractError::InvalidActionMetadata),
        }
    } else {
        Err(ContractError::UnsupportedAction)
    }
}

fn is_positive_amount(s: &String) -> (r: bool)
    ensures
        r == positive_amount(s@),
{
    let t = trim_str(s.as_str());
    match parse_u128(t.as_str()) {
        Some(n) => n > 0,
        None => false,
    }
}

/// Checks that an action's metadata holds what the action needs: a bounty
/// a location and a deadline, a mint a recipient and a positive amount, a
/// sensor reward an entry; any other tag is unsupported.
pub fn validate_action_metadata(action_tag: &str, parsed: &Option<ActionMetadata>) -> (r: Result<
    (),
    ContractError,
>)
    ensures
        r == metadata_check(action_tag@, *parsed),
{
    let tag = String::from_str(action_tag);
    if tag == String::from_str(ACTION_POST_BOUNTY) {
        match parsed {
            Some(ActionMetadata::PostBounty { location, deadline, .. }) => {
                if str_is_blank(location.as_str()) || *deadline == 0 {
                    Err(ContractError::InvalidActionMetadata)
                } else {
                    Ok(())
                }
            },
            _ => Err(ContractError::InvalidActionMetadata),
        }
    } else if tag == String::from_str(ACTION_MINT_CREDITS) {
        match parsed {
            Some(ActionMetadata::MintCredits { recipient, amount }) => {
                if str_is_blank(recipient.as_str()) || str_is_blank(amount.as_str())
                    || !is_positive_amount(amount) {
                    Err(ContractError::InvalidActionMetadata)
                } else {
                    Ok(())
                }
            },
            _ => Err(ContractError::InvalidActionMetadata),
        }
    } else if tag == String::from_str(ACTION_REWARD_SENSOR) {
        match parsed {
            Some(ActionMetadata::RewardSensor { entry_id, .. }) => {
                if *entry_id == 0 {
                    Err(ContractError::InvalidActionMetadata)
                } else {
                    Ok(())
                }
            },
            _ => Err(ContractError::InvalidActionMetadata),
        }
    } else {
        Err(ContractError::UnsupportedAction)
    }
}

/// The reward an action pays: with a reward in the metadata, the attached
/// coin of `denom` must carry exactly that positive amount; without one, the
/// attached coin of `denom` must carry some.  The payment is that coin.
pub open spec fn reward_funds(funds: Seq<Coin>, denom: Seq<char>, metadata_reward: Option<Seq<char>>) -> Result<
    u128,
    ContractError,
> {
    match metadata_reward {
        Some(text) => match parse_u128_spec(trim(text)) {
            None => Err(ContractError::InvalidActionMetadata),
            Some(expected) => if expected == 0 {
                Err(ContractError::InvalidActionMetadata)
            } else {
                match first_amount(funds, denom) {
                    None => Err(ContractError::MissingFunds),
                    Some(a) => if a != expected {
                        Err(ContractError::InvalidFundsAmount)
                    } else {
                        Ok(a)
                    },
                }
            },
        },
        None => match first_amount(funds, denom) {
            None => Err(ContractError::MissingFunds),
            Some(a) => if a == 0 {
                Err(ContractError::MissingFunds)
            } else {
                Ok(a)
            },
        },
    }
}

/// The coins an action forwards: the attached coin of `denom`, checked
/// against the reward the metadata names.
pub fn resolve_reward_funds(
    attached_funds: &Vec<Coin>,
    denom: &String,
    metadata_reward: &Option<String>,
) -> (r: Result<Vec<Coin>, ContractError>)
    ensures
        match reward_funds(
            attached_funds@,
            denom@,
            match metadata_reward {
                Some(t) => Some(t@),
                None => None,
            },
        ) {
            Ok(a) => r matches Ok(v) && v@.len() == 1 && v@[0].denom@ == denom@ && v@[0].amount == a,
            Err(e) => r == Err::<Vec<Coin>, ContractError>(e),
        },
{
    let attached = crate::chain::find_funds(attached_funds, denom);
    match metadata_reward {
        Some(text) => {
            let t = trim_str(text.as_str());
            let expected = match parse_u128(t.as_str()) {
                Some(n) => n,
                None => return Err(ContractError::InvalidActionMetadata),
            };
            if expected == 0 {
                return Err(ContractError::InvalidActionMetadata);
            }
            let amount = match attached {
                Some(a) => a,
                None => return Err(ContractError::MissingFunds),
            };
            if amount != expected {
                return Err(ContractError::InvalidFundsAmount);
            }
            Ok(vec![Coin { denom: denom.clone(), amount }])
        },
        None => {
            let amount = match attached {
                Some(a) => a,
                None => return Err(ContractError::MissingFunds),
            };
            if amount == 0 {
                return Err(ContractError::MissingFunds);
            }
            Ok(vec![Coin { denom: denom.clone(), amount }])
        },
    }
}

/// The contracts that carry the actions out, and the denomination of the
/// rewards an action forwards.
#[derive(Debug, Clone)]
pub struct ActionTargets {
    pub community_bounty: Option<String>,
    pub water_credit_marketplace: Option<String>,
    pub citizen_science_registry: Option<String>,
    pub default_denom: String,
}

pub struct ActionTargetsView {
    pub community_bounty: Option<Seq<char>>,
    pub water_credit_marketplace: Option<Seq<char>>,
    pub citizen_science_registry: Option<Seq<char>>,
    pub default_denom: Seq<char>,
}

impl View for ActionTargets {
    type V = ActionTargetsView;

    open spec fn view(&self) -> ActionTargetsView {
        ActionTargetsView {
            community_bounty: opt_view(self.community_bounty),
            water_credit_marketplace: opt_view(self.water_credit_marketplace),
            citizen_science_registry: opt_view(self.citizen_science_registry),
            default_denom: self.default_denom@,
        }
    }
}

/// A message to execute on another contract: post a bounty on the bounty
/// board, mint credits on the marketplace, or reward a data submitter on the
/// citizen science registry, with the coins forwarded along.
#[derive(Debug, Clone, PartialEq, Eq)]
pub enum ExecuteAction {
    PostBounty {
        target: String,
        title: String,
        description: String,
        location: String,
        deadline: u64,
        funds: Vec<Coin>,
    },
    MintCredits { target: String, recipient: String, amount: u128 },
    RewardSensor { target: String, entry_id: u64, funds: Vec<Coin> },
}

pub enum ExecuteActionView {
    PostBounty {
        target: Seq<char>,
        title: Seq<char>,
        description: Seq<char>,
        location: Seq<char>,
        deadline: u64,
        funds: Seq<(Seq<char>, u128)>,
    },
    MintCredits { target: Seq<char>, recipient: Seq<char>, amount: u128 },
    RewardSensor { target: Seq<char>, entry_id: u64, funds: Seq<(Seq<char>, u128)> },
}

/// Coins as (denomination, amount) pairs.
pub open spec fn coins_view(coins: Seq<Coin>) -> Seq<(Seq<char>, u128)> {
    coins.map_values(|c: Coin| (c.denom@, c.amount))
}

impl View for ExecuteAction {
    type V = ExecuteActionView;

    open spec fn view(&self) -> ExecuteActionView {
        match self {
            ExecuteAction::PostBounty { target, title, description, location, deadline, funds } =>
                ExecuteActionView::PostBounty {
                target: target@,
                title: title@,
                description: description@,
                location: location@,
                deadline: *deadline,
                funds: coins_view(funds@),
            },
            ExecuteAction::MintCredits { target, recipient, amount } => ExecuteActionView::MintCredits {
                target: target@,
                recipient: recipient@,
                amount: *amount,
            },
            ExecuteAction::RewardSensor { target, entry_id, funds } => ExecuteActionView::RewardSensor {
                target: target@,
                entry_id: *entry_id,
                funds: coins_view(funds@),
            },
        }
    }
}

/// The message an executed proposal sends: the configured target of its
/// action must exist and the metadata must read as the record the action
/// calls for; a bounty or a sensor reward forwards the reward funds, a bounty
/// takes the proposal's title and description and the trimmed location, and a
/// mint takes the trimmed recipient and the amount its trimmed text spells.
pub open spec fn execute_action_spec(
    t: ActionTargetsView,
    p: ProposalView,
    metadata: Option<ActionMetadata>,
    funds: Seq<Coin>,
) -> Result<ExecuteActionView, ContractError> {
    if p.action_tag == ACTION_POST_BOUNTY@ {
        match t.community_bounty {
            None => Err(ContractError::ActionTargetNotConfigured),
            Some(target) => match metadata {
                Some(ActionMetadata::PostBounty { location, deadline, reward }) => match reward_funds(
                    funds,
                    t.default_denom,
                    opt_view(reward),
                ) {
                    Err(e) => Err(e),
                    Ok(a) => Ok(
                        ExecuteActionView::PostBounty {
                            target,
                            title: p.title,
                            description: p.description,
                            location: trim(location@),
                            deadline,
                            funds: seq![(t.default_denom, a)],
                        },
                    ),
                },
                _ => Err(ContractError::InvalidActionMetadata),
            },
        }
    } else if p.action_tag == ACTION_MINT_CREDITS@ {
        match t.water_credit_marketplace {
            None => Err(ContractError::ActionTargetNotConfigured),
            Some(target) => match metadata {
                Some(ActionMetadata::MintCredits { recipient, amount }) => match parse_u128_spec(
                    trim(amount@),
                ) {
                    None => Err(ContractError::InvalidActionMetadata),
                    Some(n) => Ok(
                        ExecuteActionView::MintCredits { target, recipient: trim(recipient@), amount: n },
                    ),
                },
                _ => Err(ContractError::InvalidActionMetadata),
            },
        }
    } else if p.action_tag == ACTION_REWARD_SENSOR@ {
        match t.citizen_science_registry {
            None => Err(ContractError::ActionTargetNotConfigured),
            Some(target) => match metadata {
                Some(ActionMetadata::RewardSensor { entry_id, reward }) => match reward_funds(
                    funds,
                    t.default_denom,
                    opt_view(reward),
                ) {
                    Err(e) => Err(e),
                    Ok(a) => Ok(
                        ExecuteActionView::RewardSensor {
                            target,
                            entry_id,
                            funds: seq![(t.default_denom, a)],
                        },
                    ),
                },
                _ => Err(ContractError::InvalidActionMetadata),
            },
        }
    } else {
        Err(ContractError::UnsupportedAction)
    }
}

/// The reward coins, as a single (denomination, amount) pair.
fn reward_coins(funds: &Vec<Coin>, denom: &String, reward: &Option<String>) -> (r: Result<
    Vec<Coin>,
    ContractError,
>)
    ensures
        match reward_funds(funds@, denom@, opt_view(*reward)) {
            Ok(a) => r matches Ok(v) && coins_view(v@) == seq![(denom@, a)],
            Err(e) => r == Err::<Vec<Coin>, ContractError>(e),
        },
{
    let r = resolve_reward_funds(funds, denom, reward);
    match &r {
        Ok(v) => {
            assert(coins_view(v@) =~= seq![(v@[0].denom@, v@[0].amount)]);
        },
        Err(_) => {},
    }
    r
}

/// The message an executed proposal sends to the contract that carries its
/// action out, built from the configured targets, the proposal, its metadata
/// read as the record the action calls for, and the funds attached.
pub fn build_execute_action(
    targets: &ActionTargets,
    proposal: &Proposal,
    metadata: &Option<ActionMetadata>,
    funds: &Vec<Coin>,
) -> (r: Result<ExecuteAction, ContractError>)
    ensures
        match r {
            Ok(a) => execute_action_spec(targets@, proposal@, *metadata, funds@) == Ok::<
                ExecuteActionView,
                ContractError,
            >(a@),
            Err(e) => execute_action_spec(targets@, proposal@, *metadata, funds@) == Err::<
                ExecuteActionView,
                ContractError,
            >(e),
        },
{
    let tag = proposal.action_tag.clone();
    if tag == String::from_str(ACTION_POST_BOUNTY) {
        let target = match &targets.community_bounty {
            None => return Err(ContractError::ActionTargetNotConfigured),
            Some(t) => t.clone(),
        };
        match metadata {
            Some(ActionMetadata::PostBounty { location, deadline, reward }) => {
                let coins = reward_coins(funds, &targets.default_denom, reward)?;
                Ok(
                    ExecuteAction::PostBounty {
                        target,
                        title: proposal.title.clone(),
                        description: proposal.description.clone(),
                        location: trim_str(location.as_str()),
                        deadline: *deadline,
                        funds: coins,
                    },
                )
            },
            _ => Err(ContractError::InvalidActionMetadata),
        }
    } else if tag == String::from_str(ACTION_MINT_CREDITS) {
        let target = match &targets.water_credit_marketplace {
            None => return Err(ContractError::ActionTargetNotConfigured),
            Some(t) => t.clone(),
        };
        match metadata {
            Some(ActionMetadata::MintCredits { recipient, amount }) => {
                let text = trim_str(amount.as_str());
                match parse_u128(text.as_str()) {
                    None => Err(ContractError::InvalidActionMetadata),
                    Some(n) => Ok(
                        ExecuteAction::MintCredits {
                            target,
                            recipient: trim_str(recipient.as_str()),
                            amount: n,
                        },
                    ),
                }
            },
            _ => Err(ContractError::InvalidActionMetadata),
        }
    } else if tag == String::from_str(ACTION_REWARD_SENSOR) {
        let target = match &targets.citizen_science_registry {
            None => return Err(ContractError::ActionTargetNotConfigured),
            Some(t) => t.clone(),
        };
        match metadata {
            Some(ActionMetadata::RewardSensor { entry_id, reward }) => {
                let coins = reward_coins(funds, &targets.default_denom, reward)?;
                Ok(ExecuteAction::RewardSensor { target, entry_id: *entry_id, funds: coins })
            },
            _ => Err(ContractError::InvalidActionMetadata),
        }
    } else {
        Err(ContractError::UnsupportedAction)
    }
}

} // verus!
