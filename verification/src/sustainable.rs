//! Sustainable action rewards: actors submit evidence of an action with its
//! impact points, the admin or a verifier verifies it, which adds the points
//! to the actor's impact, and the admin rewards the actor with the funds
//! sent along.
use vstd::prelude::*;
use serde_json::Value;
use crate::chain::{
    Context, Reply, Response, find_funds, first_amount, flag, follows, opt_view, page_limit,
    page_size, reply,
};
use crate::digest::{content_hash, hash_text};
use crate::json::{
    JsonPayload, JsonScalar, JsonScalarView, json_member, json_shape, json_text, nonempty_text,
    scalar_of, value_member,
};
use crate::keyed::KeyTable;
use crate::table::{Duplicate, IdTable, cap, entries_map, selected, strictly_sorted};
use crate::text::{decimal, parse_u128, parse_u128_spec, trim, trim_str, u128_to_decimal, u64_to_decimal};

verus! {

/// The denomination used when instantiation names none.
pub const DEFAULT_DENOM: &'static str = "ustake";

/// An action submitted with its evidence.
#[derive(Debug, Clone, PartialEq, Eq)]
pub struct EcoAction {
    pub id: u64,
    pub actor: String,
    pub evidence_str: String,
    pub impact_points: u128,
    pub verified: bool,
    pub rewarded: bool,
    pub validator: Option<String>,
    pub created_at: u64,
}

pub struct EcoActionView {
    pub id: u64,
    pub actor: Seq<char>,
    pub evidence_str: Seq<char>,
    pub impact_points: u128,
    pub verified: bool,
    pub rewarded: bool,
    pub validator: Option<Seq<char>>,
    pub created_at: u64,
}

impl View for EcoAction {
    type V = EcoActionView;

    open spec fn view(&self) -> EcoActionView {
        EcoActionView {
            id: self.id,
            actor: self.actor@,
            evidence_str: self.evidence_str@,
            impact_points: self.impact_points,
            verified: self.verified,
            rewarded: self.rewarded,
            validator: opt_view(self.validator),
            created_at: self.created_at,
        }
    }
}

fn copy_opt_string(o: &Option<String>) -> (r: Option<String>)
    ensures
        opt_view(r) == opt_view(*o),
{
    match o {
        Some(s) => Some(s.clone()),
        None => None,
    }
}

impl Duplicate for EcoAction {
    fn duplicate(&self) -> (r: Self) {
        EcoAction {
            id: self.id,
            actor: self.actor.clone(),
            evidence_str: self.evidence_str.clone(),
            impact_points: self.impact_points,
            verified: self.verified,
            rewarded: self.rewarded,
            validator: copy_opt_string(&self.validator),
            created_at: self.created_at,
        }
    }
}

/// What a submission reads of its JSON evidence: the payload itself and its
/// `impact_points` member.
#[derive(Debug, Clone)]
pub struct Evidence {
    pub payload: JsonPayload,
    pub impact: Option<JsonScalar>,
}

/// The `impact_points` member of an evidence value, read as a scalar.
pub open spec fn impact_member(v: Value) -> Option<JsonScalarView> {
    match json_member(v, "impact_points"@) {
        Some(m) => Some(scalar_of(m)),
        None => None,
    }
}

/// The view of an optional scalar.
pub open spec fn opt_scalar(o: Option<JsonScalar>) -> Option<JsonScalarView> {
    match o {
        Some(x) => Some(x@),
        None => None,
    }
}

impl Evidence {
    /// The payload of `v` and its `impact_points` member.
    pub fn from_value(v: &Value) -> (r: Evidence)
        ensures
            r.payload.shape@ == json_shape(*v),
            r.payload.text matches Some(t) && t@ == json_text(*v),
            opt_scalar(r.impact) == impact_member(*v),
    {
        let impact = match value_member(v, "impact_points") {
            Some(m) => Some(JsonScalar::from_value(&m)),
            None => None,
        };
        Evidence { payload: JsonPayload::from_value(v), impact }
    }
}

/// The errors of the rewards contract.
#[derive(Debug, Clone, Copy, PartialEq, Eq, Structural)]
pub enum ContractError {
    /// A stored record or setting is missing.
    NotFound,
    Unauthorized,
    DuplicateEvidence,
    InvalidJson,
    ZeroImpact,
    AlreadyVerified,
    NotVerified,
    AlreadyRewarded,
    InvalidFunds,
    VerifierAlreadyExists,
    VerifierNotFound,
}

pub open spec fn error_text(e: ContractError) -> Seq<char> {
    match e {
        ContractError::NotFound => "Record not found"@,
        ContractError::Unauthorized => "Unauthorized"@,
        ContractError::DuplicateEvidence => "Duplicate evidence"@,
        ContractError::InvalidJson => "Evidence is not valid json"@,
        ContractError::ZeroImpact => "Impact points must be greater than zero"@,
        ContractError::AlreadyVerified => "Action is already verified"@,
        ContractError::NotVerified => "Action is not verified"@,
        ContractError::AlreadyRewarded => "Action is already rewarded"@,
        ContractError::InvalidFunds => "Reward funds required"@,
        ContractError::VerifierAlreadyExists => "Verifier already exists"@,
        ContractError::VerifierNotFound => "Verifier not found"@,
    }
}

impl ContractError {
    /// The message of the error.
    pub fn message(&self) -> (r: String)
        ensures
            r@ == error_text(*self),
    {
        match self {
            ContractError::NotFound => String::from_str("Record not found"),
            ContractError::Unauthorized => String::from_str("Unauthorized"),
            ContractError::DuplicateEvidence => String::from_str("Duplicate evidence"),
            ContractError::InvalidJson => String::from_str("Evidence is not valid json"),
            ContractError::ZeroImpact => String::from_str(
                "Impact points must be greater than zero",
            ),
            ContractError::AlreadyVerified => String::from_str("Action is already verified"),
            ContractError::NotVerified => String::from_str("Action is not verified"),
            ContractError::AlreadyRewarded => String::from_str("Action is already rewarded"),
            ContractError::InvalidFunds => String::from_str("Reward funds required"),
            ContractError::VerifierAlreadyExists => String::from_str("Verifier already exists"),
            ContractError::VerifierNotFound => String::from_str("Verifier not found"),
        }
    }
}

/// The text of a string or number member.
pub open spec fn scalar_text(m: Option<JsonScalar>) -> Option<Seq<char>> {
    match m {
        Some(JsonScalar::Text(s)) => Some(s@),
        Some(JsonScalar::Number(s)) => Some(s@),
        _ => None,
    }
}

/// The serialized evidence and its impact points: the evidence must not be
/// an empty string, array or object, and its `impact_points` member must be
/// a string or number whose trimmed text is a positive `u128`.
pub open spec fn evidence_spec(e: Evidence) -> Result<(Seq<char>, u128), ContractError> {
    match nonempty_text(e.payload) {
        None => Err(ContractError::InvalidJson),
        Some(t) => match scalar_text(e.impact) {
            None => Err(ContractError::InvalidJson),
            Some(s) => match parse_u128_spec(trim(s)) {
                None => Err(ContractError::InvalidJson),
                Some(n) => if n == 0 {
                    Err(ContractError::ZeroImpact)
                } else {
                    Ok((t@, n))
                },
            },
        },
    }
}

/// Reads the serialized evidence and its impact points.
pub fn parse_evidence(e: &Evidence) -> (r: Result<(String, u128), ContractError>)
    ensures
        match r {
            Ok((t, n)) => evidence_spec(*e) == Ok::<(Seq<char>, u128), ContractError>((t@, n)),
            Err(err) => evidence_spec(*e) == Err::<(Seq<char>, u128), ContractError>(err),
        },
{
    let text = match e.payload.nonempty() {
        Some(t) => t,
        None => return Err(ContractError::InvalidJson),
    };
    let raw = match &e.impact {
        Some(JsonScalar::Text(s)) => s,
        Some(JsonScalar::Number(s)) => s,
        _ => return Err(ContractError::InvalidJson),
    };
    let trimmed = trim_str(raw.as_str());
    let n = match parse_u128(trimmed.as_str()) {
        Some(n) => n,
        None => return Err(ContractError::InvalidJson),
    };
    if n == 0 {
        return Err(ContractError::ZeroImpact);
    }
    Ok((text, n))
}

/// The settings written at instantiation.
pub struct Config {
    pub admin: String,
    pub next_action_id: u64,
    pub denom: String,
}

pub struct ConfigView {
    pub admin: Seq<char>,
    pub next_action_id: u64,
    pub denom: Seq<char>,
}

impl View for Config {
    type V = ConfigView;

    open spec fn view(&self) -> ConfigView {
        ConfigView { admin: self.admin@, next_action_id: self.next_action_id, denom: self.denom@ }
    }
}

/// The storage of the rewards contract.
pub struct SustainableActionRewardsContract {
    ready: bool,
    config: Config,
    actions: IdTable<EcoAction>,
    evidence_hashes: KeyTable<String, bool>,
    actor_impact: KeyTable<String, u128>,
    verifiers: KeyTable<String, bool>,
}

/// The abstract storage: the settings once instantiated, and each map.
#[verifier::ext_equal]
pub struct RewardsView {
    pub config: Option<ConfigView>,
    pub actions: Map<u64, EcoActionView>,
    pub evidence_hashes: Map<Seq<char>, bool>,
    pub actor_impact: Map<Seq<char>, u128>,
    pub verifiers: Map<Seq<char>, bool>,
}

impl View for SustainableActionRewardsContract {
    type V = RewardsView;

    closed spec fn view(&self) -> RewardsView {
        RewardsView {
            config: if self.ready {
                Some(self.config@)
            } else {
                None
            },
            actions: self.actions@,
            evidence_hashes: self.evidence_hashes@,
            actor_impact: self.actor_impact@,
            verifiers: self.verifiers@,
        }
    }
}

/// The impact recorded for `actor`, zero when none is.
pub open spec fn impact_of(s: RewardsView, actor: Seq<char>) -> u128 {
    if s.actor_impact.contains_key(actor) {
        s.actor_impact[actor]
    } else {
        0
    }
}

/// The error of a message only the admin may send, if any.
pub open spec fn admin_error(s: RewardsView, sender: Seq<char>) -> Option<ContractError> {
    match s.config {
        None => Some(ContractError::NotFound),
        Some(c) => if c.admin != sender {
            Some(ContractError::Unauthorized)
        } else {
            None
        },
    }
}

/// The error of a message only the admin or a verifier may send, if any.
pub open spec fn verifier_error(s: RewardsView, sender: Seq<char>) -> Option<ContractError> {
    match s.config {
        None => Some(ContractError::NotFound),
        Some(c) => if c.admin == sender || flag(s.verifiers, sender) {
            None
        } else {
            Some(ContractError::Unauthorized)
        },
    }
}

/// The state after instantiation and its response.
pub open spec fn instantiate_spec(s: RewardsView, ctx: Context, denom: Option<Seq<char>>) -> (
    RewardsView,
    Reply,
) {
    let d = match denom {
        Some(d) => d,
        None => DEFAULT_DENOM@,
    };
    (
        RewardsView {
            config: Some(ConfigView { admin: ctx.sender@, next_action_id: 1, denom: d }),
            ..s
        },
        reply(seq![("method"@, "instantiate"@), ("denom"@, d)]),
    )
}

pub open spec fn submit_action_spec(s: RewardsView, ctx: Context, evidence: Evidence) -> Result<
    (RewardsView, Reply),
    ContractError,
> {
    match evidence_spec(evidence) {
        Err(e) => Err(e),
        Ok((t, points)) => {
            let h = content_hash(t);
            if flag(s.evidence_hashes, h) {
                Err(ContractError::DuplicateEvidence)
            } else {
                match s.config {
                    None => Err(ContractError::NotFound),
                    Some(c) => {
                        let id = c.next_action_id;
                        let action = EcoActionView {
                            id,
                            actor: ctx.sender@,
                            evidence_str: t,
                            impact_points: points,
                            verified: false,
                            rewarded: false,
                            validator: None,
                            created_at: ctx.block_time,
                        };
                        Ok(
                            (
                                RewardsView {
                                    config: Some(ConfigView { next_action_id: (id + 1) as u64, ..c }),
                                    actions: s.actions.insert(id, action),
                                    evidence_hashes: s.evidence_hashes.insert(h, true),
                                    ..s
                                },
                                reply(
                                    seq![
                                        ("action"@, "submit_action"@),
                                        ("action_id"@, decimal(id as nat)),
                                        ("actor"@, ctx.sender@),
                                        ("evidence_hash"@, h),
                                    ],
                                ),
                            ),
                        )
                    },
                }
            }
        },
    }
}

/// Whether verifying `action_id` keeps its actor's impact within `u128`.
pub open spec fn verify_in_range(s: RewardsView, action_id: u64) -> bool {
    s.actions.contains_key(action_id) ==> impact_of(s, s.actions[action_id].actor)
        + s.actions[action_id].impact_points <= u128::MAX
}

pub open spec fn verify_action_spec(s: RewardsView, ctx: Context, action_id: u64) -> Result<
    (RewardsView, Reply),
    ContractError,
> {
    match verifier_error(s, ctx.sender@) {
        Some(e) => Err(e),
        None => if !s.actions.contains_key(action_id) {
            Err(ContractError::NotFound)
        } else if s.actions[action_id].verified {
            Err(ContractError::AlreadyVerified)
        } else {
            let a = s.actions[action_id];
            Ok(
                (
                    RewardsView {
                        actions: s.actions.insert(
                            action_id,
                            EcoActionView { verified: true, validator: Some(ctx.sender@), ..a },
                        ),
                        actor_impact: s.actor_impact.insert(
                            a.actor,
                            (impact_of(s, a.actor) + a.impact_points) as u128,
                        ),
                        ..s
                    },
                    reply(
                        seq![
                            ("action"@, "verify_action"@),
                            ("action_id"@, decimal(action_id as nat)),
                            ("validator"@, ctx.sender@),
                            ("actor"@, a.actor),
                            ("impact_points"@, decimal(a.impact_points as nat)),
                        ],
                    ),
                ),
            )
        },
    }
}

pub open spec fn reward_actor_spec(s: RewardsView, ctx: Context, action_id: u64) -> Result<
    (RewardsView, Reply),
    ContractError,
> {
    match admin_error(s, ctx.sender@) {
        Some(e) => Err(e),
        None => if !s.actions.contains_key(action_id) {
            Err(ContractError::NotFound)
        } else if !s.actions[action_id].verified {
            Err(ContractError::NotVerified)
        } else if s.actions[action_id].rewarded {
            Err(ContractError::AlreadyRewarded)
        } else {
            let c = s.config.unwrap();
            match first_amount(ctx.funds@, c.denom) {
                None => Err(ContractError::InvalidFunds),
                Some(amount) => {
                    let a = s.actions[action_id];
                    Ok(
                        (
                            RewardsView {
                                actions: s.actions.insert(
                                    action_id,
                                    EcoActionView { rewarded: true, ..a },
                                ),
                                ..s
                            },
                            Reply {
                                attrs: seq![
                                    ("action"@, "reward_actor"@),
                                    ("action_id"@, decimal(action_id as nat)),
                                    ("recipient"@, a.actor),
                                    ("amount"@, decimal(amount as nat)),
                                ],
                                sends: seq![(a.actor, c.denom, amount)],
                                calls: Seq::empty(),
                            },
                        ),
                    )
                },
            }
        },
    }
}

pub open spec fn add_verifier_spec(s: RewardsView, ctx: Context, verifier: Seq<char>) -> Result<
    (RewardsView, Reply),
    ContractError,
> {
    match admin_error(s, ctx.sender@) {
        Some(e) => Err(e),
        None => if flag(s.verifiers, verifier) {
            Err(ContractError::VerifierAlreadyExists)
        } else {
            Ok(
                (
                    RewardsView { verifiers: s.verifiers.insert(verifier, true), ..s },
                    reply(seq![("action"@, "add_verifier"@), ("verifier"@, verifier)]),
                ),
            )
        },
    }
}

pub open spec fn remove_verifier_spec(s: RewardsView, ctx: Context, verifier: Seq<char>) -> Result<
    (RewardsView, Reply),
    ContractError,
> {
    match admin_error(s, ctx.sender@) {
        Some(e) => Err(e),
        None => if !flag(s.verifiers, verifier) {
            Err(ContractError::VerifierNotFound)
        } else {
            Ok(
                (
                    RewardsView { verifiers: s.verifiers.remove(verifier), ..s },
                    reply(seq![("action"@, "remove_verifier"@), ("verifier"@, verifier)]),
                ),
            )
        },
    }
}

/// Every action passes the listing filter.
pub open spec fn any_action(a: EcoActionView) -> bool {
    true
}

impl SustainableActionRewardsContract {
    pub closed spec fn wf(&self) -> bool {
        &&& self.actions.wf()
        &&& self.evidence_hashes.wf()
        &&& self.actor_impact.wf()
        &&& self.verifiers.wf()
    }

    /// The actions in ascending id order.
    pub closed spec fn action_entries(&self) -> Seq<(u64, EcoAction)> {
        self.actions.entries()
    }

    /// The ordered actions are the map of the view.
    pub proof fn lemma_entries(&self)
        requires
            self.wf(),
        ensures
            strictly_sorted(self.action_entries()),
            entries_map(self.action_entries()) == self@.actions,
    {
    }

    /// A contract whose storage is empty, before instantiation.
    pub fn new() -> (r: Self)
        ensures
            r.wf(),
            r@ == (RewardsView {
                config: None,
                actions: Map::empty(),
                evidence_hashes: Map::empty(),
                actor_impact: Map::empty(),
                verifiers: Map::empty(),
            }),
    {
        SustainableActionRewardsContract {
            ready: false,
            config: Config { admin: String::new(), next_action_id: 0, denom: String::new() },
            actions: IdTable::new(),
            evidence_hashes: KeyTable::new(),
            actor_impact: KeyTable::new(),
            verifiers: KeyTable::new(),
        }
    }

    /// Records the sender as admin, starts the action ids at 1 and stores the
    /// denomination of rewards.
    pub fn instantiate(&mut self, ctx: &Context, denom: Option<String>) -> (r: Response)
        requires
            old(self).wf(),
        ensures
            final(self).wf(),
            final(self)@ == instantiate_spec(old(self)@, *ctx, opt_view(denom)).0,
            r.attrs() == instantiate_spec(old(self)@, *ctx, opt_view(denom)).1.attrs,
            r.sends() == instantiate_spec(old(self)@, *ctx, opt_view(denom)).1.sends,
            r.calls() == instantiate_spec(old(self)@, *ctx, opt_view(denom)).1.calls,
    {
        let d = match denom {
            Some(d) => d,
            None => String::from_str(DEFAULT_DENOM),
        };
        self.config = Config { admin: ctx.sender.clone(), next_action_id: 1, denom: d.clone() };
        self.ready = true;
        Response::new().add_attr("method", "instantiate").add_attribute("denom", d)
    }

    fn admin_check(&self, ctx: &Context) -> (r: Option<ContractError>)
        ensures
            r == admin_error(self@, ctx.sender@),
    {
        if !self.ready {
            Some(ContractError::NotFound)
        } else if ctx.sender != self.config.admin {
            Some(ContractError::Unauthorized)
        } else {
            None
        }
    }

    fn verifier_check(&self, ctx: &Context) -> (r: Option<ContractError>)
        requires
            self.wf(),
        ensures
            r == verifier_error(self@, ctx.sender@),
    {
        if !self.ready {
            return Some(ContractError::NotFound);
        }
        if ctx.sender == self.config.admin {
            return None;
        }
        let listed = match self.verifiers.get(&ctx.sender) {
            Some(v) => *v,
            None => false,
        };
        if listed {
            None
        } else {
            Some(ContractError::Unauthorized)
        }
    }

    /// Records an action with its evidence and impact points, unless the
    /// evidence was seen before.
    pub fn submit_action(&mut self, ctx: &Context, evidence: &Evidence) -> (r: Result<
        Response,
        ContractError,
    >)
        requires
            old(self).wf(),
            old(self)@.config matches Some(c) ==> c.next_action_id < u64::MAX,
        ensures
            final(self).wf(),
            follows(r, old(self)@, final(self)@, submit_action_spec(old(self)@, *ctx, *evidence)),
    {
        let (text, points) = match parse_evidence(evidence) {
            Ok(p) => p,
            Err(e) => return Err(e),
        };
        let hash = hash_text(&text);
        if let Some(seen) = self.evidence_hashes.get(&hash) {
            if *seen {
                return Err(ContractError::DuplicateEvidence);
            }
        }
        if !self.ready {
            return Err(ContractError::NotFound);
        }
        let id = self.config.next_action_id;
        let action = EcoAction {
            id,
            actor: ctx.sender.clone(),
            evidence_str: text,
            impact_points: points,
            verified: false,
            rewarded: false,
            validator: None,
            created_at: ctx.block_time,
        };
        self.actions.insert(id, action);
        self.evidence_hashes.insert(hash.clone(), true);
        self.config.next_action_id = id + 1;
        Ok(
            Response::new().add_attr("action", "submit_action").add_attribute(
                "action_id",
                u64_to_decimal(id),
            ).add_attribute("actor", ctx.sender.clone()).add_attribute("evidence_hash", hash),
        )
    }

    /// The admin or a verifier verifies an action, adding its points to the
    /// actor's impact.
    pub fn verify_action(&mut self, ctx: &Context, action_id: u64) -> (r: Result<
        Response,
        ContractError,
    >)
        requires
            old(self).wf(),
            verify_action_spec(old(self)@, *ctx, action_id) is Ok ==> verify_in_range(
                old(self)@,
                action_id,
            ),
        ensures
            final(self).wf(),
            follows(r, old(self)@, final(self)@, verify_action_spec(old(self)@, *ctx, action_id)),
    {
        if let Some(e) = self.verifier_check(ctx) {
            return Err(e);
        }
        let updated = match self.actions.get(action_id) {
            None => return Err(ContractError::NotFound),
            Some(a) => {
                if a.verified {
                    return Err(ContractError::AlreadyVerified);
                }
                let mut a = a.duplicate();
                a.verified = true;
                a.validator = Some(ctx.sender.clone());
                a
            },
        };
        let actor = updated.actor.clone();
        let points = updated.impact_points;
        let prev = match self.actor_impact.get(&actor) {
            Some(p) => *p,
            None => 0,
        };
        self.actions.insert(action_id, updated);
        self.actor_impact.insert(actor.clone(), prev + points);
        Ok(
            Response::new().add_attr("action", "verify_action").add_attribute(
                "action_id",
                u64_to_decimal(action_id),
            ).add_attribute("validator", ctx.sender.clone()).add_attribute(
                "actor",
                actor,
            ).add_attribute("impact_points", u128_to_decimal(points)),
        )
    }

    /// The admin rewards the actor of a verified action with the funds
    /// attached in the stored denomination.
    pub fn reward_actor(&mut self, ctx: &Context, action_id: u64) -> (r: Result<
        Response,
        ContractError,
    >)
        requires
            old(self).wf(),
        ensures
            final(self).wf(),
            follows(r, old(self)@, final(self)@, reward_actor_spec(old(self)@, *ctx, action_id)),
    {
        if let Some(e) = self.admin_check(ctx) {
            return Err(e);
        }
        let mut action = match self.actions.get(action_id) {
            None => return Err(ContractError::NotFound),
            Some(a) => {
                if !a.verified {
                    return Err(ContractError::NotVerified);
                }
                if a.rewarded {
                    return Err(ContractError::AlreadyRewarded);
                }
                a.duplicate()
            },
        };
        let amount = match find_funds(&ctx.funds, &self.config.denom) {
            None => return Err(ContractError::InvalidFunds),
            Some(a) => a,
        };
        action.rewarded = true;
        let actor = action.actor.clone();
        self.actions.insert(action_id, action);
        Ok(
            Response::new().add_send(actor.clone(), self.config.denom.clone(), amount).add_attr(
                "action",
                "reward_actor",
            ).add_attribute("action_id", u64_to_decimal(action_id)).add_attribute(
                "recipient",
                actor,
            ).add_attribute("amount", u128_to_decimal(amount)),
        )
    }

    /// The admin adds a verifier.
    pub fn add_verifier(&mut self, ctx: &Context, verifier: String) -> (r: Result<
        Response,
        ContractError,
    >)
        requires
            old(self).wf(),
        ensures
            final(self).wf(),
            follows(r, old(self)@, final(self)@, add_verifier_spec(old(self)@, *ctx, verifier@)),
    {
        if let Some(e) = self.admin_check(ctx) {
            return Err(e);
        }
        if let Some(v) = self.verifiers.get(&verifier) {
            if *v {
                return Err(ContractError::VerifierAlreadyExists);
            }
        }
        self.verifiers.insert(verifier.clone(), true);
        Ok(Response::new().add_attr("action", "add_verifier").add_attribute("verifier", verifier))
    }

    /// The admin removes a verifier.
    pub fn remove_verifier(&mut self, ctx: &Context, verifier: String) -> (r: Result<
        Response,
        ContractError,
    >)
        requires
            old(self).wf(),
        ensures
            final(self).wf(),
            follows(
                r,
                old(self)@,
                final(self)@,
                remove_verifier_spec(old(self)@, *ctx, verifier@),
            ),
    {
        if let Some(e) = self.admin_check(ctx) {
            return Err(e);
        }
        let listed = match self.verifiers.get(&verifier) {
            Some(v) => *v,
            None => false,
        };
        if !listed {
            return Err(ContractError::VerifierNotFound);
        }
        self.verifiers.remove(&verifier);
        Ok(
            Response::new().add_attr("action", "remove_verifier").add_attribute(
                "verifier",
                verifier,
            ),
        )
    }

    /// The stored action.
    pub fn get_action(&self, action_id: u64) -> (r: Result<EcoAction, ContractError>)
        requires
            self.wf(),
        ensures
            match r {
                Ok(a) => self@.actions.contains_key(action_id) && a@ == self@.actions[action_id],
                Err(e) => !self@.actions.contains_key(action_id) && e == ContractError::NotFound,
            },
    {
        match self.actions.get(action_id) {
            Some(a) => Ok(a.duplicate()),
            None => Err(ContractError::NotFound),
        }
    }

    /// Up to `limit` (10 by default, 30 at most) actions after `start_after`,
    /// in ascending id order.
    pub fn list_actions(&self, limit: Option<u32>, start_after: Option<u64>) -> (r: Vec<EcoAction>)
        requires
            self.wf(),
        ensures
            r@.map_values(|a: EcoAction| a@) == cap(
                selected(self.action_entries(), start_after, |a: EcoActionView| any_action(a)),
                page_limit(limit, 10, 30),
            ),
    {
        let pred = |a: &EcoAction| -> (k: bool)
            ensures
                k == any_action(a@),
            { true };
        let n = page_size(limit, 10, 30);
        self.actions.select(start_after, n, pred, Ghost(|a: EcoActionView| any_action(a)))
    }

    /// The impact points verified for `actor`, zero when none were.
    pub fn get_actor_impact(&self, actor: &String) -> (r: u128)
        requires
            self.wf(),
        ensures
            r == impact_of(self@, actor@),
    {
        match self.actor_impact.get(actor) {
            Some(p) => *p,
            None => 0,
        }
    }

    /// Whether `address` is a stored verifier.
    pub fn is_verifier(&self, address: &String) -> (r: bool)
        requires
            self.wf(),
        ensures
            r == flag(self@.verifiers, address@),
    {
        match self.verifiers.get(address) {
            Some(v) => *v,
            None => false,
        }
    }

    /// The next action id, once instantiated.
    pub fn next_action_id(&self) -> (r: Option<u64>)
        ensures
            match r {
                Some(n) => self@.config matches Some(c) && n == c.next_action_id,
                None => self@.config is None,
            },
    {
        if self.ready {
            Some(self.config.next_action_id)
        } else {
            None
        }
    }


    /// Whether verifying an action meets the impact bound of `verify_action`.
    pub fn verification_fits(&self, ctx: &Context, action_id: u64) -> (r: bool)
        requires
            self.wf(),
        ensures
            r == (verify_action_spec(self@, *ctx, action_id) is Ok ==> verify_in_range(
                self@,
                action_id,
            )),
    {
        if self.verifier_check(ctx).is_some() {
            return true;
        }
        let (verified, actor, points) = match self.actions.get(action_id) {
            None => return true,
            Some(a) => (a.verified, a.actor.clone(), a.impact_points),
        };
        if verified {
            return true;
        }
        self.get_actor_impact(&actor) <= u128::MAX - points
    }

}

/// Evidence already recorded is refused when submitted again, by anyone.
pub proof fn evidence_recorded_once(s: RewardsView, ctx: Context, again: Context, evidence: Evidence)
    requires
        submit_action_spec(s, ctx, evidence) is Ok,
    ensures
        submit_action_spec(submit_action_spec(s, ctx, evidence)->Ok_0.0, again, evidence) == Err::<
            (RewardsView, Reply),
            ContractError,
        >(ContractError::DuplicateEvidence),
{
}

/// Verifying an action adds its impact points to its actor's impact and
/// leaves every other actor's impact as it was.
pub proof fn verify_adds_impact(s: RewardsView, ctx: Context, action_id: u64, other: Seq<char>)
    requires
        verify_action_spec(s, ctx, action_id) is Ok,
        verify_in_range(s, action_id),
    ensures
        ({
            let after = verify_action_spec(s, ctx, action_id)->Ok_0.0;
            let a = s.actions[action_id];
            &&& impact_of(after, a.actor) == impact_of(s, a.actor) + a.impact_points
            &&& other != a.actor ==> impact_of(after, other) == impact_of(s, other)
        }),
{
}

/// An action is verified once: the same sender is told it is already
/// verified, and no one succeeds again.
pub proof fn action_verified_once(s: RewardsView, ctx: Context, again: Context, action_id: u64)
    requires
        verify_action_spec(s, ctx, action_id) is Ok,
    ensures
        verify_action_spec(verify_action_spec(s, ctx, action_id)->Ok_0.0, again, action_id) is Err,
        again.sender@ == ctx.sender@ ==> verify_action_spec(
            verify_action_spec(s, ctx, action_id)->Ok_0.0,
            again,
            action_id,
        ) == Err::<(RewardsView, Reply), ContractError>(ContractError::AlreadyVerified),
{
}

/// Only a verified action is rewarded, and only once: the admin is told it
/// is already rewarded, and no one succeeds again.
pub proof fn action_rewarded_once(s: RewardsView, ctx: Context, again: Context, action_id: u64)
    requires
        reward_actor_spec(s, ctx, action_id) is Ok,
    ensures
        s.actions[action_id].verified,
        reward_actor_spec(reward_actor_spec(s, ctx, action_id)->Ok_0.0, again, action_id) is Err,
        again.sender@ == ctx.sender@ ==> reward_actor_spec(
            reward_actor_spec(s, ctx, action_id)->Ok_0.0,
            again,
            action_id,
        ) == Err::<(RewardsView, Reply), ContractError>(ContractError::AlreadyRewarded),
{
}

/// Rewarding pays the action's actor, not the admin who sends the message:
/// exactly one transfer of the amount attached in the configured
/// denomination.  Only the action's rewarded flag changes.
pub proof fn reward_pays_actor(s: RewardsView, ctx: Context, action_id: u64)
    requires
        reward_actor_spec(s, ctx, action_id) is Ok,
    ensures
        ({
            let (after, rep) = reward_actor_spec(s, ctx, action_id)->Ok_0;
            let a = s.actions[action_id];
            let c = s.config->Some_0;
            &&& s.config is Some
            &&& first_amount(ctx.funds@, c.denom) is Some
            &&& rep.sends == seq![(a.actor, c.denom, first_amount(ctx.funds@, c.denom)->Some_0)]
            &&& rep.calls.len() == 0
            &&& after.actions[action_id] == (EcoActionView { rewarded: true, ..a })
            &&& after.actor_impact == s.actor_impact
            &&& after.config == s.config
        }),
{
}

/// Whether the contract is instantiated and every stored action id is below
/// the next one to be handed out.
pub open spec fn action_ids_fresh(s: RewardsView) -> bool {
    &&& s.config is Some
    &&& forall|id: u64| #[trigger]
        s.actions.contains_key(id) ==> id < s.config->Some_0.next_action_id
}

/// A submitted action is stored under a fresh id with its evidence and
/// points, unverified and unrewarded, and every earlier action stays as it was.
pub proof fn action_is_stored(s: RewardsView, ctx: Context, evidence: Evidence, old_id: u64)
    requires
        action_ids_fresh(s),
        s.config->Some_0.next_action_id < u64::MAX,
        submit_action_spec(s, ctx, evidence) is Ok,
    ensures
        ({
            let after = submit_action_spec(s, ctx, evidence)->Ok_0.0;
            let id = s.config->Some_0.next_action_id;
            let parsed = evidence_spec(evidence)->Ok_0;
            &&& action_ids_fresh(after)
            &&& !s.actions.contains_key(id)
            &&& after.actions.contains_key(id)
            &&& after.actions[id].actor == ctx.sender@
            &&& after.actions[id].evidence_str == parsed.0
            &&& after.actions[id].impact_points == parsed.1
            &&& after.actions[id].impact_points > 0
            &&& !after.actions[id].verified
            &&& !after.actions[id].rewarded
            &&& s.actions.contains_key(old_id) ==> after.actions[old_id] == s.actions[old_id]
        }),
{
}

} // verus!
