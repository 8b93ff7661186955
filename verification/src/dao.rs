//! The local DAO: anyone proposes an action, voters vote once per proposal
//! until the voting period ends, and then the proposal is executed when
//! enough of the registered voters took part and the yes votes outnumber the
//! no votes, or fails otherwise.
use vstd::prelude::*;
use crate::actions::{
    ActionMetadata, ActionTargets, ActionTargetsView, ExecuteActionView, allowed_action,
    build_execute_action, execute_action_spec, is_allowed_action,
};
use crate::chain::{Context, Reply, Response, follows, opt_view, page_limit, page_size, reply};
use crate::json::{JsonPayload, nonblank_text};
use crate::keyed::KeyTable;
use crate::table::{Duplicate, IdTable, cap, entries_map, selected, strictly_sorted};
use crate::text::{decimal, is_blank, str_is_blank, trim, trim_str, u64_to_decimal};

verus! {

/// The quorum, in basis points of registered voters, when instantiation names none.
pub const DEFAULT_QUORUM_BPS: u64 = 3000;

/// The voting period, in seconds, when instantiation names none.
pub const DEFAULT_VOTING_PERIOD_SECONDS: u64 = 604800;

/// The life cycle of a proposal.
#[derive(Debug, Clone, Copy, PartialEq, Eq, Structural)]
pub enum ProposalStatus {
    Open,
    Passed,
    Failed,
    Executed,
}

/// A vote.
#[derive(Debug, Clone, Copy, PartialEq, Eq, Structural)]
pub enum VoteOption {
    Yes,
    No,
    Abstain,
}

/// The name of a vote, as responses report it.
pub open spec fn vote_name(v: VoteOption) -> Seq<char> {
    match v {
        VoteOption::Yes => "Yes"@,
        VoteOption::No => "No"@,
        VoteOption::Abstain => "Abstain"@,
    }
}

impl VoteOption {
    /// The name of the vote.
    pub fn name(&self) -> (r: String)
        ensures
            r@ == vote_name(*self),
    {
        match self {
            VoteOption::Yes => String::from_str("Yes"),
            VoteOption::No => String::from_str("No"),
            VoteOption::Abstain => String::from_str("Abstain"),
        }
    }
}

/// A proposal and its tally.
#[derive(Debug, Clone, PartialEq, Eq)]
pub struct Proposal {
    pub id: u64,
    pub proposer: String,
    pub title: String,
    pub description: String,
    pub action_tag: String,
    pub metadata_str: String,
    pub status: ProposalStatus,
    pub yes_votes: u64,
    pub no_votes: u64,
    pub abstain_votes: u64,
    pub voting_end: u64,
    pub created_at: u64,
}

pub struct ProposalView {
    pub id: u64,
    pub proposer: Seq<char>,
    pub title: Seq<char>,
    pub description: Seq<char>,
    pub action_tag: Seq<char>,
    pub metadata_str: Seq<char>,
    pub status: ProposalStatus,
    pub yes_votes: u64,
    pub no_votes: u64,
    pub abstain_votes: u64,
    pub voting_end: u64,
    pub created_at: u64,
}

impl View for Proposal {
    type V = ProposalView;

    open spec fn view(&self) -> ProposalView {
        ProposalView {
            id: self.id,
            proposer: self.proposer@,
            title: self.title@,
            description: self.description@,
            action_tag: self.action_tag@,
            metadata_str: self.metadata_str@,
            status: self.status,
            yes_votes: self.yes_votes,
            no_votes: self.no_votes,
            abstain_votes: self.abstain_votes,
            voting_end: self.voting_end,
            created_at: self.created_at,
        }
    }
}

impl Duplicate for Proposal {
    fn duplicate(&self) -> (r: Self) {
        Proposal {
            id: self.id,
            proposer: self.proposer.clone(),
            title: self.title.clone(),
            description: self.description.clone(),
            action_tag: self.action_tag.clone(),
            metadata_str: self.metadata_str.clone(),
            status: self.status,
            yes_votes: self.yes_votes,
            no_votes: self.no_votes,
            abstain_votes: self.abstain_votes,
            voting_end: self.voting_end,
            created_at: self.created_at,
        }
    }
}

/// A recorded vote.
#[derive(Debug, Clone, PartialEq, Eq)]
pub struct VoteRecord {
    pub proposal_id: u64,
    pub voter: String,
    pub vote: VoteOption,
}

pub struct VoteRecordView {
    pub proposal_id: u64,
    pub voter: Seq<char>,
    pub vote: VoteOption,
}

impl View for VoteRecord {
    type V = VoteRecordView;

    open spec fn view(&self) -> VoteRecordView {
        VoteRecordView { proposal_id: self.proposal_id, voter: self.voter@, vote: self.vote }
    }
}

/// The errors of the DAO.
#[derive(Debug, Clone, Copy, PartialEq, Eq, Structural)]
pub enum ContractError {
    /// A stored record or setting is missing.
    NotFound,
    Unauthorized,
    MissingTitle,
    MissingActionTag,
    UnsupportedAction,
    InvalidActionMetadata,
    MissingFunds,
    InvalidFundsAmount,
    ActionTargetNotConfigured,
    InvalidJson,
    ProposalNotOpen,
    VotingNotEnded,
    VotingEnded,
    AlreadyVoted,
    /// Not returned: a proposal short of quorum is recorded as failed.
    QuorumNotReached,
    /// Not returned: a proposal without a yes majority is recorded as failed.
    ProposalNotPassed,
    AlreadyFinalized,
}

pub open spec fn error_text(e: ContractError) -> Seq<char> {
    match e {
        ContractError::NotFound => "Record not found"@,
        ContractError::Unauthorized => "Unauthorized"@,
        ContractError::MissingTitle => "Title is required"@,
        ContractError::MissingActionTag => "Action tag is required"@,
        ContractError::UnsupportedAction => "Unsupported action"@,
        ContractError::InvalidActionMetadata => "Invalid action metadata"@,
        ContractError::MissingFunds => "Missing funds"@,
        ContractError::InvalidFundsAmount => "Invalid funds amount"@,
        ContractError::ActionTargetNotConfigured => "Action target not configured"@,
        ContractError::InvalidJson => "Metadata is not valid json"@,
        ContractError::ProposalNotOpen => "Proposal is not open"@,
        ContractError::VotingNotEnded => "Voting period has not ended"@,
        ContractError::VotingEnded => "Voting period has ended"@,
        ContractError::AlreadyVoted => "Already voted"@,
        ContractError::QuorumNotReached => "Quorum not reached"@,
        ContractError::ProposalNotPassed => "Proposal did not pass"@,
        ContractError::AlreadyFinalized => "Proposal already finalized"@,
    }
}

impl ContractError {
    /// The message of the error.
    pub fn message(&self) -> (r: String)
        ensures
            r@ == error_text(*self),
    {
        match self {
            ContractError::NotFound => String::from_str("Record not found"),
            ContractError::Unauthorized => String::from_str("Unauthorized"),
            ContractError::MissingTitle => String::from_str("Title is required"),
            ContractError::MissingActionTag => String::from_str("Action tag is required"),
            ContractError::UnsupportedAction => String::from_str("Unsupported action"),
            ContractError::InvalidActionMetadata => String::from_str("Invalid action metadata"),
            ContractError::MissingFunds => String::from_str("Missing funds"),
            ContractError::InvalidFundsAmount => String::from_str("Invalid funds amount"),
            ContractError::ActionTargetNotConfigured => String::from_str(
                "Action target not configured",
            ),
            ContractError::InvalidJson => String::from_str("Metadata is not valid json"),
            ContractError::ProposalNotOpen => String::from_str("Proposal is not open"),
            ContractError::VotingNotEnded => String::from_str("Voting period has not ended"),
            ContractError::VotingEnded => String::from_str("Voting period has ended"),
            ContractError::AlreadyVoted => String::from_str("Already voted"),
            ContractError::QuorumNotReached => String::from_str("Quorum not reached"),
            ContractError::ProposalNotPassed => String::from_str("Proposal did not pass"),
            ContractError::AlreadyFinalized => String::from_str("Proposal already finalized"),
        }
    }
}

/// The settings written at instantiation.
pub struct ConfigView {
    pub admin: Seq<char>,
    pub quorum_bps: u64,
    pub voting_period_seconds: u64,
    pub next_proposal_id: u64,
    pub total_voters: u64,
    pub targets: ActionTargetsView,
}

/// What instantiation sets: the quorum, the voting period, the contracts that
/// carry the actions out and the denomination of rewards, each optional.
pub struct InstantiateConfig {
    pub quorum_bps: Option<u64>,
    pub voting_period_seconds: Option<u64>,
    pub community_bounty: Option<String>,
    pub water_credit_marketplace: Option<String>,
    pub citizen_science_registry: Option<String>,
    pub default_denom: Option<String>,
}

/// The denomination of rewards when instantiation names none.
pub const DEFAULT_DENOM: &'static str = "ustake";

/// The storage of the DAO.
pub struct LocalDaoContract {
    ready: bool,
    admin: String,
    targets: ActionTargets,
    quorum_bps: u64,
    voting_period_seconds: u64,
    next_proposal_id: u64,
    total_voters: u64,
    proposals: IdTable<Proposal>,
    votes: KeyTable<(u64, String), VoteRecord>,
    voter_registry: KeyTable<String, bool>,
}

/// The abstract storage.
#[verifier::ext_equal]
pub struct DaoView {
    pub config: Option<ConfigView>,
    pub proposals: Map<u64, ProposalView>,
    pub votes: Map<(u64, Seq<char>), VoteRecordView>,
    pub voter_registry: Map<Seq<char>, bool>,
}

impl View for LocalDaoContract {
    type V = DaoView;

    closed spec fn view(&self) -> DaoView {
        DaoView {
            config: if self.ready {
                Some(
                    ConfigView {
                        admin: self.admin@,
                        targets: self.targets@,
                        quorum_bps: self.quorum_bps,
                        voting_period_seconds: self.voting_period_seconds,
                        next_proposal_id: self.next_proposal_id,
                        total_voters: self.total_voters,
                    },
                )
            } else {
                None
            },
            proposals: self.proposals@,
            votes: self.votes@,
            voter_registry: self.voter_registry@,
        }
    }
}

pub open spec fn create_proposal_spec(
    s: DaoView,
    ctx: Context,
    title: Seq<char>,
    description: Seq<char>,
    action_tag: Seq<char>,
    metadata: JsonPayload,
) -> Result<(DaoView, Reply), ContractError> {
    if is_blank(title) {
        Err(ContractError::MissingTitle)
    } else if is_blank(action_tag) {
        Err(ContractError::MissingActionTag)
    } else if !allowed_action(trim(action_tag)) {
        Err(ContractError::UnsupportedAction)
    } else {
        match nonblank_text(metadata) {
            None => Err(ContractError::InvalidJson),
            Some(m) => match s.config {
                None => Err(ContractError::NotFound),
                Some(c) => {
                    let id = c.next_proposal_id;
                    let now = ctx.block_time;
                    let end = (now + c.voting_period_seconds) as u64;
                    let p = ProposalView {
                        id,
                        proposer: ctx.sender@,
                        title: trim(title),
                        description: trim(description),
                        action_tag: trim(action_tag),
                        metadata_str: m@,
                        status: ProposalStatus::Open,
                        yes_votes: 0,
                        no_votes: 0,
                        abstain_votes: 0,
                        voting_end: end,
                        created_at: now,
                    };
                    Ok(
                        (
                            DaoView {
                                config: Some(ConfigView { next_proposal_id: (id + 1) as u64, ..c }),
                                proposals: s.proposals.insert(id, p),
                                ..s
                            },
                            reply(
                                seq![
                                    ("action"@, "create_proposal"@),
                                    ("proposal_id"@, decimal(id as nat)),
                                    ("proposer"@, ctx.sender@),
                                    ("action_tag"@, trim(action_tag)),
                                    ("voting_end"@, decimal(end as nat)),
                                ],
                            ),
                        ),
                    )
                },
            },
        }
    }
}

/// The tally with one more vote for `v`.
pub open spec fn tallied(p: ProposalView, v: VoteOption) -> ProposalView {
    match v {
        VoteOption::Yes => ProposalView { yes_votes: (p.yes_votes + 1) as u64, ..p },
        VoteOption::No => ProposalView { no_votes: (p.no_votes + 1) as u64, ..p },
        VoteOption::Abstain => ProposalView { abstain_votes: (p.abstain_votes + 1) as u64, ..p },
    }
}

pub open spec fn vote_spec(s: DaoView, ctx: Context, id: u64, v: VoteOption) -> Result<
    (DaoView, Reply),
    ContractError,
> {
    let voter = ctx.sender@;
    if !s.proposals.contains_key(id) {
        Err(ContractError::NotFound)
    } else {
        let p = s.proposals[id];
        if p.status != ProposalStatus::Open {
            Err(ContractError::ProposalNotOpen)
        } else if ctx.block_time > p.voting_end {
            Err(ContractError::VotingEnded)
        } else if s.votes.contains_key((id, voter)) {
            Err(ContractError::AlreadyVoted)
        } else {
            let registered = s.voter_registry.contains_key(voter) && s.voter_registry[voter];
            if !registered && s.config is None {
                Err(ContractError::NotFound)
            } else {
                let (config, registry) = if registered {
                    (s.config, s.voter_registry)
                } else {
                    let c = s.config.unwrap();
                    (
                        Some(ConfigView { total_voters: (c.total_voters + 1) as u64, ..c }),
                        s.voter_registry.insert(voter, true),
                    )
                };
                Ok(
                    (
                        DaoView {
                            config,
                            voter_registry: registry,
                            proposals: s.proposals.insert(id, tallied(p, v)),
                            votes: s.votes.insert(
                                (id, voter),
                                VoteRecordView { proposal_id: id, voter, vote: v },
                            ),
                        },
                        reply(
                            seq![
                                ("action"@, "vote"@),
                                ("proposal_id"@, decimal(id as nat)),
                                ("voter"@, voter),
                                ("vote"@, vote_name(v)),
                            ],
                        ),
                    ),
                )
            }
        }
    }
}

/// Whether an accepted vote keeps its option's tally, and the count of
/// registered voters when the voter is new, within `u64`.
pub open spec fn vote_in_range(s: DaoView, ctx: Context, id: u64, v: VoteOption) -> bool {
    let p = s.proposals[id];
    let registered = s.voter_registry.contains_key(ctx.sender@) && s.voter_registry[ctx.sender@];
    &&& !registered ==> s.config->Some_0.total_voters < u64::MAX
    &&& match v {
        VoteOption::Yes => p.yes_votes < u64::MAX,
        VoteOption::No => p.no_votes < u64::MAX,
        VoteOption::Abstain => p.abstain_votes < u64::MAX,
    }
}

/// Whether closing a proposal keeps its turnout within `u64`.
pub open spec fn execute_in_range(s: DaoView, ctx: Context, id: u64) -> bool {
    s.proposals.contains_key(id) && s.config is Some && s.proposals[id].status == ProposalStatus::Open
        && ctx.block_time > s.proposals[id].voting_end ==> s.proposals[id].yes_votes
        + s.proposals[id].no_votes + s.proposals[id].abstain_votes <= u64::MAX
}

/// `a * b`, or `u64::MAX` when the product does not fit.
pub open spec fn saturating_mul(a: u64, b: u64) -> u64 {
    if a * b > u64::MAX {
        u64::MAX
    } else {
        (a * b) as u64
    }
}

/// The turnout of a proposal in basis points of the registered voters
/// (counted as at least one).
pub open spec fn participation_bps(p: ProposalView, total_voters: u64) -> u64 {
    let participation = (p.yes_votes + p.no_votes + p.abstain_votes) as u64;
    let voters = if total_voters < 1 {
        1
    } else {
        total_voters
    };
    (saturating_mul(participation, 10000) / voters) as u64
}

/// Executing a proposal once its voting has ended: short of quorum, or
/// without more yes than no votes, it fails; otherwise the message of its
/// action is built from `metadata` (its metadata read as the record the
/// action calls for) and the attached funds, and the proposal is executed
/// with that message, or stays open when the message cannot be built.
pub open spec fn execute_proposal_spec(
    s: DaoView,
    ctx: Context,
    id: u64,
    metadata: Option<ActionMetadata>,
) -> Result<(DaoView, Reply), ContractError> {
    if !s.proposals.contains_key(id) {
        Err(ContractError::NotFound)
    } else {
        let p = s.proposals[id];
        if p.status != ProposalStatus::Open {
            Err(ContractError::AlreadyFinalized)
        } else if ctx.block_time <= p.voting_end {
            Err(ContractError::VotingNotEnded)
        } else {
            match s.config {
                None => Err(ContractError::NotFound),
                Some(c) => if participation_bps(p, c.total_voters) < c.quorum_bps {
                    Ok(
                        (
                            DaoView {
                                proposals: s.proposals.insert(
                                    id,
                                    ProposalView { status: ProposalStatus::Failed, ..p },
                                ),
                                ..s
                            },
                            reply(
                                seq![
                                    ("action"@, "execute_proposal"@),
                                    ("proposal_id"@, decimal(id as nat)),
                                    ("result"@, "failed"@),
                                    ("reason"@, "quorum_not_reached"@),
                                ],
                            ),
                        ),
                    )
                } else if p.yes_votes <= p.no_votes {
                    Ok(
                        (
                            DaoView {
                                proposals: s.proposals.insert(
                                    id,
                                    ProposalView { status: ProposalStatus::Failed, ..p },
                                ),
                                ..s
                            },
                            reply(
                                seq![
                                    ("action"@, "execute_proposal"@),
                                    ("proposal_id"@, decimal(id as nat)),
                                    ("result"@, "failed"@),
                                    ("reason"@, "not_passed"@),
                                ],
                            ),
                        ),
                    )
                } else {
                    match execute_action_spec(c.targets, p, metadata, ctx.funds@) {
                        Err(e) => Err(e),
                        Ok(action) => Ok(
                            (
                                DaoView {
                                    proposals: s.proposals.insert(
                                        id,
                                        ProposalView { status: ProposalStatus::Executed, ..p },
                                    ),
                                    ..s
                                },
                                Reply {
                                    attrs: seq![
                                        ("action"@, "execute_proposal"@),
                                        ("proposal_id"@, decimal(id as nat)),
                                        ("action_tag"@, p.action_tag),
                                        ("yes_votes"@, decimal(p.yes_votes as nat)),
                                        ("no_votes"@, decimal(p.no_votes as nat)),
                                    ],
                                    sends: Seq::empty(),
                                    calls: seq![action],
                                },
                            ),
                        ),
                    }
                },
            }
        }
    }
}

/// The action targets after an update: each target given replaces the stored
/// one, and each one left out stays.
pub open spec fn updated_targets(
    t: ActionTargetsView,
    community_bounty: Option<Seq<char>>,
    water_credit_marketplace: Option<Seq<char>>,
    citizen_science_registry: Option<Seq<char>>,
) -> ActionTargetsView {
    ActionTargetsView {
        community_bounty: if community_bounty is Some {
            community_bounty
        } else {
            t.community_bounty
        },
        water_credit_marketplace: if water_credit_marketplace is Some {
            water_credit_marketplace
        } else {
            t.water_credit_marketplace
        },
        citizen_science_registry: if citizen_science_registry is Some {
            citizen_science_registry
        } else {
            t.citizen_science_registry
        },
        ..t
    }
}

/// The admin updates the contracts that carry the actions out.
pub open spec fn update_action_targets_spec(
    s: DaoView,
    ctx: Context,
    community_bounty: Option<Seq<char>>,
    water_credit_marketplace: Option<Seq<char>>,
    citizen_science_registry: Option<Seq<char>>,
) -> Result<(DaoView, Reply), ContractError> {
    match s.config {
        None => Err(ContractError::NotFound),
        Some(c) => if ctx.sender@ != c.admin {
            Err(ContractError::Unauthorized)
        } else {
            Ok(
                (
                    DaoView {
                        config: Some(
                            ConfigView {
                                targets: updated_targets(
                                    c.targets,
                                    community_bounty,
                                    water_credit_marketplace,
                                    citizen_science_registry,
                                ),
                                ..c
                            },
                        ),
                        ..s
                    },
                    reply(seq![("action"@, "update_action_targets"@)]),
                ),
            )
        },
    }
}

/// The settings instantiation stores.
pub open spec fn instantiated_config(ctx: Context, config: InstantiateConfig) -> ConfigView {
    ConfigView {
        admin: ctx.sender@,
        quorum_bps: match config.quorum_bps {
            Some(q) => q,
            None => DEFAULT_QUORUM_BPS,
        },
        voting_period_seconds: match config.voting_period_seconds {
            Some(p) => p,
            None => DEFAULT_VOTING_PERIOD_SECONDS,
        },
        next_proposal_id: 1,
        total_voters: 0,
        targets: ActionTargetsView {
            community_bounty: opt_view(config.community_bounty),
            water_credit_marketplace: opt_view(config.water_credit_marketplace),
            citizen_science_registry: opt_view(config.citizen_science_registry),
            default_denom: match config.default_denom {
                Some(d) => d@,
                None => DEFAULT_DENOM@,
            },
        },
    }
}

/// Accepts every proposal.
pub open spec fn any_proposal(p: ProposalView) -> bool {
    true
}

impl LocalDaoContract {
    pub closed spec fn wf(&self) -> bool {
        &&& self.proposals.wf()
        &&& self.votes.wf()
        &&& self.voter_registry.wf()
    }

    /// The proposals in ascending id order.
    pub closed spec fn proposal_entries(&self) -> Seq<(u64, Proposal)> {
        self.proposals.entries()
    }

    /// The ordered proposals are the map of the view.
    pub proof fn lemma_entries(&self)
        requires
            self.wf(),
        ensures
            strictly_sorted(self.proposal_entries()),
            entries_map(self.proposal_entries()) == self@.proposals,
    {
    }

    /// A DAO whose storage is empty, before instantiation.
    pub fn new() -> (r: Self)
        ensures
            r.wf(),
            r@ == (DaoView {
                config: None,
                proposals: Map::empty(),
                votes: Map::empty(),
                voter_registry: Map::empty(),
            }),
    {
        LocalDaoContract {
            ready: false,
            admin: String::new(),
            targets: ActionTargets {
                community_bounty: None,
                water_credit_marketplace: None,
                citizen_science_registry: None,
                default_denom: String::new(),
            },
            quorum_bps: 0,
            voting_period_seconds: 0,
            next_proposal_id: 0,
            total_voters: 0,
            proposals: IdTable::new(),
            votes: KeyTable::new(),
            voter_registry: KeyTable::new(),
        }
    }

    /// Records the sender as admin, stores the quorum and the voting period
    /// (or their defaults), the action targets and the reward denomination
    /// (`DEFAULT_DENOM` when none is named), and starts proposal ids at 1 and
    /// the voter count at 0.
    pub fn instantiate(&mut self, ctx: &Context, config: InstantiateConfig) -> (r: Response)
        requires
            old(self).wf(),
        ensures
            final(self).wf(),
            final(self)@ == (DaoView { config: Some(instantiated_config(*ctx, config)), ..old(self)@ }),
            r.attrs() =~= seq![
                ("method"@, "instantiate"@),
                ("quorum_bps"@, decimal(instantiated_config(*ctx, config).quorum_bps as nat)),
                ("voting_period_seconds"@, decimal(
                    instantiated_config(*ctx, config).voting_period_seconds as nat,
                )),
            ],
            r.sends() =~= Seq::<(Seq<char>, Seq<char>, u128)>::empty(),
            r.calls() =~= Seq::<ExecuteActionView>::empty(),
    {
        let quorum = match config.quorum_bps {
            Some(q) => q,
            None => DEFAULT_QUORUM_BPS,
        };
        let period = match config.voting_period_seconds {
            Some(p) => p,
            None => DEFAULT_VOTING_PERIOD_SECONDS,
        };
        let denom = match config.default_denom {
            Some(d) => d,
            None => String::from_str(DEFAULT_DENOM),
        };
        self.admin = ctx.sender.clone();
        self.targets = ActionTargets {
            community_bounty: config.community_bounty,
            water_credit_marketplace: config.water_credit_marketplace,
            citizen_science_registry: config.citizen_science_registry,
            default_denom: denom,
        };
        self.quorum_bps = quorum;
        self.voting_period_seconds = period;
        self.next_proposal_id = 1;
        self.total_voters = 0;
        self.ready = true;
        Response::new().add_attr("method", "instantiate").add_attribute(
            "quorum_bps",
            u64_to_decimal(quorum),
        ).add_attribute("voting_period_seconds", u64_to_decimal(period))
    }

    /// The admin replaces the action targets it names; the others stay.
    pub fn update_action_targets(
        &mut self,
        ctx: &Context,
        community_bounty: Option<String>,
        water_credit_marketplace: Option<String>,
        citizen_science_registry: Option<String>,
    ) -> (r: Result<Response, ContractError>)
        requires
            old(self).wf(),
        ensures
            final(self).wf(),
            follows(
                r,
                old(self)@,
                final(self)@,
                update_action_targets_spec(
                    old(self)@,
                    *ctx,
                    opt_view(community_bounty),
                    opt_view(water_credit_marketplace),
                    opt_view(citizen_science_registry),
                ),
            ),
    {
        if !self.ready {
            return Err(ContractError::NotFound);
        }
        if ctx.sender != self.admin {
            return Err(ContractError::Unauthorized);
        }
        if community_bounty.is_some() {
            self.targets.community_bounty = community_bounty;
        }
        if water_credit_marketplace.is_some() {
            self.targets.water_credit_marketplace = water_credit_marketplace;
        }
        if citizen_science_registry.is_some() {
            self.targets.citizen_science_registry = citizen_science_registry;
        }
        Ok(Response::new().add_attr("action", "update_action_targets"))
    }

    /// Opens a proposal carrying one of the allowed actions for voting until
    /// the end of the voting period.
    pub fn create_proposal(
        &mut self,
        ctx: &Context,
        title: String,
        description: String,
        action_tag: String,
        metadata: &JsonPayload,
    ) -> (r: Result<Response, ContractError>)
        requires
            old(self).wf(),
            old(self)@.config matches Some(c) ==> c.next_proposal_id < u64::MAX
                && ctx.block_time + c.voting_period_seconds <= u64::MAX,
        ensures
            final(self).wf(),
            follows(
                r,
                old(self)@,
                final(self)@,
                create_proposal_spec(
                    old(self)@,
                    *ctx,
                    title@,
                    description@,
                    action_tag@,
                    *metadata,
                ),
            ),
    {
        if str_is_blank(title.as_str()) {
            return Err(ContractError::MissingTitle);
        }
        if str_is_blank(action_tag.as_str()) {
            return Err(ContractError::MissingActionTag);
        }
        let tag = trim_str(action_tag.as_str());
        if !is_allowed_action(tag.as_str()) {
            return Err(ContractError::UnsupportedAction);
        }
        let metadata_str = match metadata.nonblank() {
            Some(m) => m,
            None => return Err(ContractError::InvalidJson),
        };
        if !self.ready {
            return Err(ContractError::NotFound);
        }
        let now = ctx.block_time;
        let id = self.next_proposal_id;
        let end = now + self.voting_period_seconds;
        let proposal = Proposal {
            id,
            proposer: ctx.sender.clone(),
            title: trim_str(title.as_str()),
            description: trim_str(description.as_str()),
            action_tag: tag.clone(),
            metadata_str,
            status: ProposalStatus::Open,
            yes_votes: 0,
            no_votes: 0,
            abstain_votes: 0,
            voting_end: end,
            created_at: now,
        };
        self.proposals.insert(id, proposal);
        self.next_proposal_id = id + 1;
        Ok(
            Response::new().add_attr("action", "create_proposal").add_attribute(
                "proposal_id",
                u64_to_decimal(id),
            ).add_attribute("proposer", ctx.sender.clone()).add_attribute(
                "action_tag",
                tag,
            ).add_attribute("voting_end", u64_to_decimal(end)),
        )
    }

    /// Records the sender's vote on an open proposal before its voting ends;
    /// a first-time voter joins the registry of voters.
    pub fn vote(&mut self, ctx: &Context, proposal_id: u64, vote: VoteOption) -> (r: Result<
        Response,
        ContractError,
    >)
        requires
            old(self).wf(),
            vote_spec(old(self)@, *ctx, proposal_id, vote) is Ok ==> vote_in_range(
                old(self)@,
                *ctx,
                proposal_id,
                vote,
            ),
        ensures
            final(self).wf(),
            follows(r, old(self)@, final(self)@, vote_spec(old(self)@, *ctx, proposal_id, vote)),
    {
        let mut p = match self.proposals.get(proposal_id) {
            None => return Err(ContractError::NotFound),
            Some(p) => p.duplicate(),
        };
        if p.status != ProposalStatus::Open {
            return Err(ContractError::ProposalNotOpen);
        }
        if ctx.block_time > p.voting_end {
            return Err(ContractError::VotingEnded);
        }
        let voter = ctx.sender.clone();
        let key = (proposal_id, voter.clone());
        if self.votes.contains(&key) {
            return Err(ContractError::AlreadyVoted);
        }
        let registered = match self.voter_registry.get(&voter) {
            Some(b) => *b,
            None => false,
        };
        if !registered {
            if !self.ready {
                return Err(ContractError::NotFound);
            }
            self.voter_registry.insert(voter.clone(), true);
            self.total_voters = self.total_voters + 1;
        }
        match vote {
            VoteOption::Yes => p.yes_votes = p.yes_votes + 1,
            VoteOption::No => p.no_votes = p.no_votes + 1,
            VoteOption::Abstain => p.abstain_votes = p.abstain_votes + 1,
        }
        self.proposals.insert(proposal_id, p);
        self.votes.insert(key, VoteRecord { proposal_id, voter: voter.clone(), vote });
        Ok(
            Response::new().add_attr("action", "vote").add_attribute(
                "proposal_id",
                u64_to_decimal(proposal_id),
            ).add_attribute("voter", voter).add_attribute("vote", vote.name()),
        )
    }

    /// Closes an open proposal after its voting period: it fails without
    /// quorum or without more yes than no votes, and is executed otherwise.
    pub fn execute_proposal(
        &mut self,
        ctx: &Context,
        proposal_id: u64,
        metadata: &Option<ActionMetadata>,
    ) -> (r: Result<
        Response,
        ContractError,
    >)
        requires
            old(self).wf(),
            execute_in_range(old(self)@, *ctx, proposal_id),
        ensures
            final(self).wf(),
            follows(
                r,
                old(self)@,
                final(self)@,
                execute_proposal_spec(old(self)@, *ctx, proposal_id, *metadata),
            ),
    {
        let mut p = match self.proposals.get(proposal_id) {
            None => return Err(ContractError::NotFound),
            Some(p) => p.duplicate(),
        };
        if p.status != ProposalStatus::Open {
            return Err(ContractError::AlreadyFinalized);
        }
        if ctx.block_time <= p.voting_end {
            return Err(ContractError::VotingNotEnded);
        }
        if !self.ready {
            return Err(ContractError::NotFound);
        }
        let participation = p.yes_votes + p.no_votes + p.abstain_votes;
        let voters = if self.total_voters < 1 {
            1
        } else {
            self.total_voters
        };
        let scaled = if participation > u64::MAX / 10000 {
            u64::MAX
        } else {
            participation * 10000
        };
        proof {
            assert(participation > u64::MAX / 10000 <==> participation * 10000 > u64::MAX)
                by (nonlinear_arith);
        }
        let bps = scaled / voters;
        if bps < self.quorum_bps {
            p.status = ProposalStatus::Failed;
            self.proposals.insert(proposal_id, p);
            return Ok(
                Response::new().add_attr("action", "execute_proposal").add_attribute(
                    "proposal_id",
                    u64_to_decimal(proposal_id),
                ).add_attr("result", "failed").add_attr("reason", "quorum_not_reached"),
            );
        }
        if p.yes_votes <= p.no_votes {
            p.status = ProposalStatus::Failed;
            self.proposals.insert(proposal_id, p);
            return Ok(
                Response::new().add_attr("action", "execute_proposal").add_attribute(
                    "proposal_id",
                    u64_to_decimal(proposal_id),
                ).add_attr("result", "failed").add_attr("reason", "not_passed"),
            );
        }
        let action = build_execute_action(&self.targets, &p, metadata, &ctx.funds)?;
        p.status = ProposalStatus::Executed;
        let tag = p.action_tag.clone();
        let yes = p.yes_votes;
        let no = p.no_votes;
        self.proposals.insert(proposal_id, p);
        Ok(
            Response::new().add_attr("action", "execute_proposal").add_attribute(
                "proposal_id",
                u64_to_decimal(proposal_id),
            ).add_attribute("action_tag", tag).add_attribute(
                "yes_votes",
                u64_to_decimal(yes),
            ).add_attribute("no_votes", u64_to_decimal(no)).add_action(action),
        )
    }

    /// The stored proposal.
    pub fn get_proposal(&self, proposal_id: u64) -> (r: Result<Proposal, ContractError>)
        requires
            self.wf(),
        ensures
            match r {
                Ok(p) => self@.proposals.contains_key(proposal_id) && p@
                    == self@.proposals[proposal_id],
                Err(e) => !self@.proposals.contains_key(proposal_id) && e
                    == ContractError::NotFound,
            },
    {
        match self.proposals.get(proposal_id) {
            Some(p) => Ok(p.duplicate()),
            None => Err(ContractError::NotFound),
        }
    }

    /// Up to `limit` (10 by default, 30 at most) proposals after
    /// `start_after`, in ascending id order.
    pub fn list_proposals(&self, limit: Option<u32>, start_after: Option<u64>) -> (r: Vec<Proposal>)
        requires
            self.wf(),
        ensures
            r@.map_values(|p: Proposal| p@) == cap(
                selected(self.proposal_entries(), start_after, |p: ProposalView| any_proposal(p)),
                page_limit(limit, 10, 30),
            ),
    {
        let pred = |p: &Proposal| -> (b: bool)
            ensures
                b == any_proposal(p@),
            { true };
        let n = page_size(limit, 10, 30);
        self.proposals.select(start_after, n, pred, Ghost(|p: ProposalView| any_proposal(p)))
    }

    /// The recorded vote of `voter` on a proposal.
    pub fn get_vote(&self, proposal_id: u64, voter: String) -> (r: Result<VoteRecord, ContractError>)
        requires
            self.wf(),
        ensures
            match r {
                Ok(v) => self@.votes.contains_key((proposal_id, voter@)) && v@
                    == self@.votes[(proposal_id, voter@)],
                Err(e) => !self@.votes.contains_key((proposal_id, voter@)) && e
                    == ContractError::NotFound,
            },
    {
        match self.votes.get(&(proposal_id, voter)) {
            Some(v) => Ok(VoteRecord { proposal_id: v.proposal_id, voter: v.voter.clone(), vote: v.vote }),
            None => Err(ContractError::NotFound),
        }
    }

    /// The number of registered voters, once instantiated.
    pub fn total_voters(&self) -> (r: Option<u64>)
        ensures
            match r {
                Some(n) => self@.config matches Some(c) && n == c.total_voters,
                None => self@.config is None,
            },
    {
        if self.ready {
            Some(self.total_voters)
        } else {
            None
        }
    }

    /// The quorum, the voting period and the next proposal id, once instantiated.
    pub fn settings(&self) -> (r: Option<(u64, u64, u64)>)
        ensures
            match r {
                Some((q, p, n)) => self@.config matches Some(c) && q == c.quorum_bps && p
                    == c.voting_period_seconds && n == c.next_proposal_id,
                None => self@.config is None,
            },
    {
        if self.ready {
            Some((self.quorum_bps, self.voting_period_seconds, self.next_proposal_id))
        } else {
            None
        }
    }


    /// Whether a vote meets the bound of `vote`.
    pub fn vote_fits(&self, ctx: &Context, proposal_id: u64, vote: VoteOption) -> (r: bool)
        requires
            self.wf(),
        ensures
            r == (vote_spec(self@, *ctx, proposal_id, vote) is Ok ==> vote_in_range(
                self@,
                *ctx,
                proposal_id,
                vote,
            )),
    {
        let (status, voting_end, yes, no, abstain) = match self.proposals.get(proposal_id) {
            None => return true,
            Some(p) => (p.status, p.voting_end, p.yes_votes, p.no_votes, p.abstain_votes),
        };
        if status != ProposalStatus::Open || ctx.block_time > voting_end {
            return true;
        }
        if self.votes.contains(&(proposal_id, ctx.sender.clone())) {
            return true;
        }
        let registered = match self.voter_registry.get(&ctx.sender) {
            Some(b) => *b,
            None => false,
        };
        if !registered {
            if !self.ready {
                return true;
            }
            if self.total_voters == u64::MAX {
                return false;
            }
        }
        match vote {
            VoteOption::Yes => yes < u64::MAX,
            VoteOption::No => no < u64::MAX,
            VoteOption::Abstain => abstain < u64::MAX,
        }
    }

    /// Whether closing a proposal meets the bound of `execute_proposal`.
    pub fn execution_fits(&self, ctx: &Context, proposal_id: u64) -> (r: bool)
        requires
            self.wf(),
        ensures
            r == execute_in_range(self@, *ctx, proposal_id),
    {
        match self.proposals.get(proposal_id) {
            None => true,
            Some(p) => {
                if !self.ready || p.status != ProposalStatus::Open || ctx.block_time <= p.voting_end {
                    true
                } else {
                    p.yes_votes <= u64::MAX - p.no_votes && p.yes_votes + p.no_votes <= u64::MAX
                        - p.abstain_votes
                }
            },
        }
    }

}

/// A voter votes once on a proposal: voting again is refused, as already
/// voted while the vote is open.
pub proof fn one_vote_per_voter(
    s: DaoView,
    ctx: Context,
    again: Context,
    id: u64,
    v: VoteOption,
    v_again: VoteOption,
)
    requires
        vote_spec(s, ctx, id, v) is Ok,
        again.sender@ == ctx.sender@,
    ensures
        vote_spec(vote_spec(s, ctx, id, v)->Ok_0.0, again, id, v_again) is Err,
        again.block_time <= s.proposals[id].voting_end ==> vote_spec(
            vote_spec(s, ctx, id, v)->Ok_0.0,
            again,
            id,
            v_again,
        ) == Err::<(DaoView, Reply), ContractError>(ContractError::AlreadyVoted),
{
}

/// A vote adds one to the tally of its option and leaves the others.
pub proof fn vote_counts_once(s: DaoView, ctx: Context, id: u64, v: VoteOption)
    requires
        vote_spec(s, ctx, id, v) is Ok,
    ensures
        ({
            let before = s.proposals[id];
            let after = vote_spec(s, ctx, id, v)->Ok_0.0.proposals[id];
            &&& after.yes_votes == if v == VoteOption::Yes {
                (before.yes_votes + 1) as u64
            } else {
                before.yes_votes
            }
            &&& after.no_votes == if v == VoteOption::No {
                (before.no_votes + 1) as u64
            } else {
                before.no_votes
            }
            &&& after.abstain_votes == if v == VoteOption::Abstain {
                (before.abstain_votes + 1) as u64
            } else {
                before.abstain_votes
            }
        }),
{
}

/// A proposal is executed only with quorum and more yes than no votes, then
/// carrying exactly the message its action calls for, and is finalised once:
/// executing it again is refused.
pub proof fn proposal_finalised_once(
    s: DaoView,
    ctx: Context,
    again: Context,
    id: u64,
    metadata: Option<ActionMetadata>,
    metadata_again: Option<ActionMetadata>,
)
    requires
        execute_proposal_spec(s, ctx, id, metadata) is Ok,
    ensures
        ({
            let (after, rep) = execute_proposal_spec(s, ctx, id, metadata)->Ok_0;
            let p = s.proposals[id];
            let c = s.config->Some_0;
            &&& after.proposals[id].status == ProposalStatus::Executed ==> {
                &&& participation_bps(p, c.total_voters) >= c.quorum_bps
                &&& p.yes_votes > p.no_votes
                &&& rep.calls == seq![execute_action_spec(c.targets, p, metadata, ctx.funds@)->Ok_0]
            }
            &&& after.proposals[id].status != ProposalStatus::Open
            &&& execute_proposal_spec(after, again, id, metadata_again) == Err::<
                (DaoView, Reply),
                ContractError,
            >(ContractError::AlreadyFinalized)
        }),
{
}

/// The turnout weighed against the quorum counts every vote recorded on the
/// proposal, abstentions included: in basis points of the registered voters
/// (at least one), `(yes + no + abstain) * 10000` capped at `u64::MAX`.  Short
/// of the quorum the proposal fails as `quorum_not_reached`; with it, it is
/// executed with one message when yes outnumbers no, and fails as
/// `not_passed` otherwise.  So a proposal on which every registered voter
/// voted, at a quorum of at most 100%, passes the quorum check.
pub proof fn quorum_counts_every_vote(
    s: DaoView,
    ctx: Context,
    id: u64,
    metadata: Option<ActionMetadata>,
)
    requires
        execute_proposal_spec(s, ctx, id, metadata) is Ok,
        execute_in_range(s, ctx, id),
    ensures
        ({
            let (after, rep) = execute_proposal_spec(s, ctx, id, metadata)->Ok_0;
            let p = s.proposals[id];
            let c = s.config->Some_0;
            let turnout = p.yes_votes + p.no_votes + p.abstain_votes;
            let voters: int = if c.total_voters == 0 {
                1
            } else {
                c.total_voters as int
            };
            let scaled: int = if turnout * 10000 > u64::MAX {
                u64::MAX as int
            } else {
                turnout * 10000
            };
            let reached = scaled / voters >= c.quorum_bps;
            &&& !reached ==> after.proposals[id].status == ProposalStatus::Failed && rep.calls.len() == 0
                && rep.attrs.last() == ("reason"@, "quorum_not_reached"@)
            &&& reached && p.yes_votes > p.no_votes ==> after.proposals[id].status
                == ProposalStatus::Executed && rep.calls.len() == 1
            &&& reached && p.yes_votes <= p.no_votes ==> after.proposals[id].status
                == ProposalStatus::Failed && rep.calls.len() == 0 && rep.attrs.last() == (
                "reason"@,
                "not_passed"@,
            )
            &&& turnout >= voters && voters * 10000 <= u64::MAX && c.quorum_bps <= 10000 ==> reached
        }),
{
    let p = s.proposals[id];
    let c = s.config->Some_0;
    let turnout = p.yes_votes + p.no_votes + p.abstain_votes;
    let voters: int = if c.total_voters == 0 {
        1
    } else {
        c.total_voters as int
    };
    let scaled: int = if turnout * 10000 > u64::MAX {
        u64::MAX as int
    } else {
        turnout * 10000
    };
    assert(participation_bps(p, c.total_voters) == scaled / voters);
    if turnout >= voters && voters * 10000 <= u64::MAX {
        assert(scaled >= voters * 10000) by (nonlinear_arith)
            requires
                turnout >= voters,
                voters * 10000 <= u64::MAX,
                scaled == if turnout * 10000 > u64::MAX {
                    u64::MAX as int
                } else {
                    turnout * 10000
                },
        ;
        assert(scaled / voters >= 10000) by (nonlinear_arith)
            requires
                scaled >= voters * 10000,
                voters >= 1,
        ;
    }
}

/// A passed proposal whose message cannot be built (a missing target,
/// metadata that does not fit the action, or funds that do not match the
/// reward) is refused with that error and stays open.
pub proof fn unbuildable_action_keeps_proposal_open(
    s: DaoView,
    ctx: Context,
    id: u64,
    metadata: Option<ActionMetadata>,
)
    requires
        s.proposals.contains_key(id),
        s.proposals[id].status == ProposalStatus::Open,
        ctx.block_time > s.proposals[id].voting_end,
        s.config is Some,
        participation_bps(s.proposals[id], s.config->Some_0.total_voters)
            >= s.config->Some_0.quorum_bps,
        s.proposals[id].yes_votes > s.proposals[id].no_votes,
        execute_action_spec(s.config->Some_0.targets, s.proposals[id], metadata, ctx.funds@) is Err,
    ensures
        execute_proposal_spec(s, ctx, id, metadata) == Err::<(DaoView, Reply), ContractError>(
            execute_action_spec(s.config->Some_0.targets, s.proposals[id], metadata, ctx.funds@)->Err_0,
        ),
{
}

} // verus!
