//! Community bounties: a poster escrows a reward for a task with a deadline,
//! workers submit work before the deadline, and the poster approves one
//! submission, paying its worker, or cancels the bounty and takes the reward back.
use vstd::prelude::*;
use crate::actions::ExecuteActionView;
use crate::chain::{
    Context, Reply, Response, find_funds, first_amount, follows, opt_view, page_limit, page_size,
    reply,
};
use crate::json::{JsonPayload, nonblank_text};
use crate::table::{Duplicate, IdTable, cap, entries_map, selected, strictly_sorted};
use crate::text::{decimal, is_blank, str_is_blank, trim, trim_str, u128_to_decimal, u64_to_decimal};

verus! {

/// The denomination used when instantiation names none.
pub const DEFAULT_DENOM: &'static str = "ustake";

/// The life cycle of a bounty.
#[derive(Debug, Clone, Copy, PartialEq, Eq, Structural)]
pub enum BountyStatus {
    Open,
    Completed,
    Cancelled,
}

/// A task with an escrowed reward.
#[derive(Debug, Clone, PartialEq, Eq)]
pub struct Bounty {
    pub id: u64,
    pub poster: String,
    pub title: String,
    pub description: String,
    pub location: String,
    pub deadline: u64,
    pub reward_amount: u128,
    pub status: BountyStatus,
    pub winner: Option<String>,
    pub approved_submission_id: Option<u64>,
    pub created_at: u64,
}

pub struct BountyView {
    pub id: u64,
    pub poster: Seq<char>,
    pub title: Seq<char>,
    pub description: Seq<char>,
    pub location: Seq<char>,
    pub deadline: u64,
    pub reward_amount: u128,
    pub status: BountyStatus,
    pub winner: Option<Seq<char>>,
    pub approved_submission_id: Option<u64>,
    pub created_at: u64,
}

impl View for Bounty {
    type V = BountyView;

    open spec fn view(&self) -> BountyView {
        BountyView {
            id: self.id,
            poster: self.poster@,
            title: self.title@,
            description: self.description@,
            location: self.location@,
            deadline: self.deadline,
            reward_amount: self.reward_amount,
            status: self.status,
            winner: opt_view(self.winner),
            approved_submission_id: self.approved_submission_id,
            created_at: self.created_at,
        }
    }
}

impl Duplicate for Bounty {
    fn duplicate(&self) -> (r: Self) {
        Bounty {
            id: self.id,
            poster: self.poster.clone(),
            title: self.title.clone(),
            description: self.description.clone(),
            location: self.location.clone(),
            deadline: self.deadline,
            reward_amount: self.reward_amount,
            status: self.status,
            winner: match &self.winner {
                Some(w) => Some(w.clone()),
                None => None,
            },
            approved_submission_id: self.approved_submission_id,
            created_at: self.created_at,
        }
    }
}

/// Work submitted for a bounty.
#[derive(Debug, Clone, PartialEq, Eq)]
pub struct WorkSubmission {
    pub id: u64,
    pub bounty_id: u64,
    pub worker: String,
    pub work_str: String,
    pub submitted_at: u64,
    pub approved: bool,
}

pub struct WorkSubmissionView {
    pub id: u64,
    pub bounty_id: u64,
    pub worker: Seq<char>,
    pub work_str: Seq<char>,
    pub submitted_at: u64,
    pub approved: bool,
}

impl View for WorkSubmission {
    type V = WorkSubmissionView;

    open spec fn view(&self) -> WorkSubmissionView {
        WorkSubmissionView {
            id: self.id,
            bounty_id: self.bounty_id,
            worker: self.worker@,
            work_str: self.work_str@,
            submitted_at: self.submitted_at,
            approved: self.approved,
        }
    }
}

impl Duplicate for WorkSubmission {
    fn duplicate(&self) -> (r: Self) {
        WorkSubmission {
            id: self.id,
            bounty_id: self.bounty_id,
            worker: self.worker.clone(),
            work_str: self.work_str.clone(),
            submitted_at: self.submitted_at,
            approved: self.approved,
        }
    }
}

/// The errors of the bounty board.
#[derive(Debug, Clone, Copy, PartialEq, Eq, Structural)]
pub enum ContractError {
    /// A stored record or setting is missing.
    NotFound,
    Unauthorized,
    InvalidFunds,
    InvalidDeadline,
    MissingFields,
    BountyNotOpen,
    DeadlinePassed,
    /// Not returned: a missing submission is answered `NotFound`.
    SubmissionNotFound,
    WrongBounty,
    InvalidJson,
    CannotCancel,
}

pub open spec fn error_text(e: ContractError) -> Seq<char> {
    match e {
        ContractError::NotFound => "Record not found"@,
        ContractError::Unauthorized => "Unauthorized"@,
        ContractError::InvalidFunds => "Invalid funds"@,
        ContractError::InvalidDeadline => "Invalid deadline"@,
        ContractError::MissingFields => "Title and location are required"@,
        ContractError::BountyNotOpen => "Bounty is not open"@,
        ContractError::DeadlinePassed => "Submission deadline has passed"@,
        ContractError::SubmissionNotFound => "Submission not found"@,
        ContractError::WrongBounty => "Submission does not belong to bounty"@,
        ContractError::InvalidJson => "Work payload is not valid json"@,
        ContractError::CannotCancel => "Bounty cannot be cancelled"@,
    }
}

impl ContractError {
    /// The message of the error.
    pub fn message(&self) -> (r: String)
        ensures
            r@ == error_text(*self),
    {
        match self {
            ContractError::NotFound => String::from_str("Record not found"),
            ContractError::Unauthorized => String::from_str("Unauthorized"),
            ContractError::InvalidFunds => String::from_str("Invalid funds"),
            ContractError::InvalidDeadline => String::from_str("Invalid deadline"),
            ContractError::MissingFields => String::from_str("Title and location are required"),
            ContractError::BountyNotOpen => String::from_str("Bounty is not open"),
            ContractError::DeadlinePassed => String::from_str("Submission deadline has passed"),
            ContractError::SubmissionNotFound => String::from_str("Submission not found"),
            ContractError::WrongBounty => String::from_str("Submission does not belong to bounty"),
            ContractError::InvalidJson => String::from_str("Work payload is not valid json"),
            ContractError::CannotCancel => String::from_str("Bounty cannot be cancelled"),
        }
    }
}

/// The settings written at instantiation.
pub struct ConfigView {
    pub admin: Seq<char>,
    pub denom: Seq<char>,
    pub next_bounty_id: u64,
    pub next_submission_id: u64,
}

/// The storage of the bounty board.
pub struct CommunityBountyContract {
    ready: bool,
    admin: String,
    denom: String,
    next_bounty_id: u64,
    next_submission_id: u64,
    bounties: IdTable<Bounty>,
    submissions: IdTable<WorkSubmission>,
}

/// The abstract storage.
#[verifier::ext_equal]
pub struct BountyBoardView {
    pub config: Option<ConfigView>,
    pub bounties: Map<u64, BountyView>,
    pub submissions: Map<u64, WorkSubmissionView>,
}

impl View for CommunityBountyContract {
    type V = BountyBoardView;

    closed spec fn view(&self) -> BountyBoardView {
        BountyBoardView {
            config: if self.ready {
                Some(
                    ConfigView {
                        admin: self.admin@,
                        denom: self.denom@,
                        next_bounty_id: self.next_bounty_id,
                        next_submission_id: self.next_submission_id,
                    },
                )
            } else {
                None
            },
            bounties: self.bounties@,
            submissions: self.submissions@,
        }
    }
}

pub open spec fn post_bounty_spec(
    s: BountyBoardView,
    ctx: Context,
    title: Seq<char>,
    description: Seq<char>,
    location: Seq<char>,
    deadline: u64,
) -> Result<(BountyBoardView, Reply), ContractError> {
    let now = ctx.block_time;
    if is_blank(title) || is_blank(location) {
        Err(ContractError::MissingFields)
    } else if deadline <= now {
        Err(ContractError::InvalidDeadline)
    } else {
        match s.config {
            None => Err(ContractError::NotFound),
            Some(c) => match first_amount(ctx.funds@, c.denom) {
                None => Err(ContractError::InvalidFunds),
                Some(reward) => if reward == 0 {
                    Err(ContractError::InvalidFunds)
                } else {
                    let id = c.next_bounty_id;
                    let b = BountyView {
                        id,
                        poster: ctx.sender@,
                        title: trim(title),
                        description: trim(description),
                        location: trim(location),
                        deadline,
                        reward_amount: reward,
                        status: BountyStatus::Open,
                        winner: None,
                        approved_submission_id: None,
                        created_at: now,
                    };
                    Ok(
                        (
                            BountyBoardView {
                                config: Some(ConfigView { next_bounty_id: (id + 1) as u64, ..c }),
                                bounties: s.bounties.insert(id, b),
                                ..s
                            },
                            reply(
                                seq![
                                    ("action"@, "post_bounty"@),
                                    ("bounty_id"@, decimal(id as nat)),
                                    ("poster"@, ctx.sender@),
                                    ("reward_amount"@, decimal(reward as nat)),
                                    ("deadline"@, decimal(deadline as nat)),
                                ],
                            ),
                        ),
                    )
                },
            },
        }
    }
}

pub open spec fn submit_work_spec(
    s: BountyBoardView,
    ctx: Context,
    bounty_id: u64,
    work: JsonPayload,
) -> Result<(BountyBoardView, Reply), ContractError> {
    if !s.bounties.contains_key(bounty_id) {
        Err(ContractError::NotFound)
    } else if s.bounties[bounty_id].status != BountyStatus::Open {
        Err(ContractError::BountyNotOpen)
    } else if ctx.block_time > s.bounties[bounty_id].deadline {
        Err(ContractError::DeadlinePassed)
    } else {
        match nonblank_text(work) {
            None => Err(ContractError::InvalidJson),
            Some(t) => match s.config {
                None => Err(ContractError::NotFound),
                Some(c) => {
                    let id = c.next_submission_id;
                    let sub = WorkSubmissionView {
                        id,
                        bounty_id,
                        worker: ctx.sender@,
                        work_str: t@,
                        submitted_at: ctx.block_time,
                        approved: false,
                    };
                    Ok(
                        (
                            BountyBoardView {
                                config: Some(ConfigView { next_submission_id: (id + 1) as u64, ..c }),
                                submissions: s.submissions.insert(id, sub),
                                ..s
                            },
                            reply(
                                seq![
                                    ("action"@, "submit_work"@),
                                    ("bounty_id"@, decimal(bounty_id as nat)),
                                    ("submission_id"@, decimal(id as nat)),
                                    ("worker"@, ctx.sender@),
                                ],
                            ),
                        ),
                    )
                },
            },
        }
    }
}

pub open spec fn approve_work_spec(
    s: BountyBoardView,
    ctx: Context,
    bounty_id: u64,
    submission_id: u64,
) -> Result<(BountyBoardView, Reply), ContractError> {
    if !s.bounties.contains_key(bounty_id) {
        Err(ContractError::NotFound)
    } else {
        let b = s.bounties[bounty_id];
        if ctx.sender@ != b.poster {
            Err(ContractError::Unauthorized)
        } else if b.status != BountyStatus::Open {
            Err(ContractError::BountyNotOpen)
        } else if !s.submissions.contains_key(submission_id) {
            Err(ContractError::NotFound)
        } else {
            let sub = s.submissions[submission_id];
            if sub.bounty_id != bounty_id {
                Err(ContractError::WrongBounty)
            } else {
                match s.config {
                    None => Err(ContractError::NotFound),
                    Some(c) => Ok(
                        (
                            BountyBoardView {
                                submissions: s.submissions.insert(
                                    submission_id,
                                    WorkSubmissionView { approved: true, ..sub },
                                ),
                                bounties: s.bounties.insert(
                                    bounty_id,
                                    BountyView {
                                        status: BountyStatus::Completed,
                                        winner: Some(sub.worker),
                                        approved_submission_id: Some(submission_id),
                                        ..b
                                    },
                                ),
                                ..s
                            },
                            Reply {
                                attrs: seq![
                                    ("action"@, "approve_work"@),
                                    ("bounty_id"@, decimal(bounty_id as nat)),
                                    ("submission_id"@, decimal(submission_id as nat)),
                                    ("winner"@, sub.worker),
                                    ("amount"@, decimal(b.reward_amount as nat)),
                                ],
                                sends: seq![(sub.worker, c.denom, b.reward_amount)],
                                calls: Seq::empty(),
                            },
                        ),
                    ),
                }
            }
        }
    }
}

pub open spec fn cancel_bounty_spec(s: BountyBoardView, ctx: Context, bounty_id: u64) -> Result<
    (BountyBoardView, Reply),
    ContractError,
> {
    if !s.bounties.contains_key(bounty_id) {
        Err(ContractError::NotFound)
    } else {
        let b = s.bounties[bounty_id];
        if ctx.sender@ != b.poster {
            Err(ContractError::Unauthorized)
        } else if b.status != BountyStatus::Open {
            Err(ContractError::CannotCancel)
        } else {
            match s.config {
                None => Err(ContractError::NotFound),
                Some(c) => Ok(
                    (
                        BountyBoardView {
                            bounties: s.bounties.insert(
                                bounty_id,
                                BountyView { status: BountyStatus::Cancelled, ..b },
                            ),
                            ..s
                        },
                        Reply {
                            attrs: seq![
                                ("action"@, "cancel_bounty"@),
                                ("bounty_id"@, decimal(bounty_id as nat)),
                                ("poster"@, b.poster),
                                ("refund_amount"@, decimal(b.reward_amount as nat)),
                            ],
                            sends: seq![(b.poster, c.denom, b.reward_amount)],
                            calls: Seq::empty(),
                        },
                    ),
                ),
            }
        }
    }
}

/// Accepts every bounty.
pub open spec fn any_bounty(b: BountyView) -> bool {
    true
}

/// Whether a submission belongs to the optional bounty.
pub open spec fn submission_matches(bounty_id: Option<u64>, s: WorkSubmissionView) -> bool {
    bounty_id matches Some(id) ==> s.bounty_id == id
}

impl CommunityBountyContract {
    pub closed spec fn wf(&self) -> bool {
        &&& self.bounties.wf()
        &&& self.submissions.wf()
    }

    /// The bounties in ascending id order.
    pub closed spec fn bounty_entries(&self) -> Seq<(u64, Bounty)> {
        self.bounties.entries()
    }

    /// The submissions in ascending id order.
    pub closed spec fn submission_entries(&self) -> Seq<(u64, WorkSubmission)> {
        self.submissions.entries()
    }

    /// The ordered bounties and submissions are the maps of the view.
    pub proof fn lemma_entries(&self)
        requires
            self.wf(),
        ensures
            strictly_sorted(self.bounty_entries()),
            entries_map(self.bounty_entries()) == self@.bounties,
            strictly_sorted(self.submission_entries()),
            entries_map(self.submission_entries()) == self@.submissions,
    {
    }

    /// A board whose storage is empty, before instantiation.
    pub fn new() -> (r: Self)
        ensures
            r.wf(),
            r@ == (BountyBoardView { config: None, bounties: Map::empty(), submissions: Map::empty() }),
    {
        CommunityBountyContract {
            ready: false,
            admin: String::new(),
            denom: String::new(),
            next_bounty_id: 0,
            next_submission_id: 0,
            bounties: IdTable::new(),
            submissions: IdTable::new(),
        }
    }

    /// Records the sender as admin, starts both id counters at 1 and stores the
    /// reward denomination.
    pub fn instantiate(&mut self, ctx: &Context, denom: Option<String>) -> (r: Response)
        requires
            old(self).wf(),
        ensures
            final(self).wf(),
            final(self)@ == (BountyBoardView {
                config: Some(
                    ConfigView {
                        admin: ctx.sender@,
                        denom: match opt_view(denom) {
                            Some(d) => d,
                            None => DEFAULT_DENOM@,
                        },
                        next_bounty_id: 1,
                        next_submission_id: 1,
                    },
                ),
                ..old(self)@
            }),
            r.attrs() =~= seq![
                ("method"@, "instantiate"@),
                ("denom"@, match opt_view(denom) {
                    Some(d) => d,
                    None => DEFAULT_DENOM@,
                }),
            ],
            r.sends() =~= Seq::<(Seq<char>, Seq<char>, u128)>::empty(),
            r.calls() =~= Seq::<ExecuteActionView>::empty(),
    {
        let d = match denom {
            Some(d) => d,
            None => String::from_str(DEFAULT_DENOM),
        };
        self.admin = ctx.sender.clone();
        self.denom = d.clone();
        self.next_bounty_id = 1;
        self.next_submission_id = 1;
        self.ready = true;
        Response::new().add_attr("method", "instantiate").add_attribute("denom", d)
    }

    /// Posts a bounty whose reward is the funds attached in the stored denomination.
    pub fn post_bounty(
        &mut self,
        ctx: &Context,
        title: String,
        description: String,
        location: String,
        deadline: u64,
    ) -> (r: Result<Response, ContractError>)
        requires
            old(self).wf(),
            old(self)@.config matches Some(c) ==> c.next_bounty_id < u64::MAX,
        ensures
            final(self).wf(),
            follows(
                r,
                old(self)@,
                final(self)@,
                post_bounty_spec(old(self)@, *ctx, title@, description@, location@, deadline),
            ),
    {
        if str_is_blank(title.as_str()) || str_is_blank(location.as_str()) {
            return Err(ContractError::MissingFields);
        }
        let now = ctx.block_time;
        if deadline <= now {
            return Err(ContractError::InvalidDeadline);
        }
        if !self.ready {
            return Err(ContractError::NotFound);
        }
        let reward = match find_funds(&ctx.funds, &self.denom) {
            None => return Err(ContractError::InvalidFunds),
            Some(a) => a,
        };
        if reward == 0 {
            return Err(ContractError::InvalidFunds);
        }
        let id = self.next_bounty_id;
        let bounty = Bounty {
            id,
            poster: ctx.sender.clone(),
            title: trim_str(title.as_str()),
            description: trim_str(description.as_str()),
            location: trim_str(location.as_str()),
            deadline,
            reward_amount: reward,
            status: BountyStatus::Open,
            winner: None,
            approved_submission_id: None,
            created_at: now,
        };
        self.bounties.insert(id, bounty);
        self.next_bounty_id = id + 1;
        Ok(
            Response::new().add_attr("action", "post_bounty").add_attribute(
                "bounty_id",
                u64_to_decimal(id),
            ).add_attribute("poster", ctx.sender.clone()).add_attribute(
                "reward_amount",
                u128_to_decimal(reward),
            ).add_attribute("deadline", u64_to_decimal(deadline)),
        )
    }

    /// Submits work for an open bounty before its deadline.
    pub fn submit_work(&mut self, ctx: &Context, bounty_id: u64, work: &JsonPayload) -> (r: Result<
        Response,
        ContractError,
    >)
        requires
            old(self).wf(),
            old(self)@.config matches Some(c) ==> c.next_submission_id < u64::MAX,
        ensures
            final(self).wf(),
            follows(r, old(self)@, final(self)@, submit_work_spec(old(self)@, *ctx, bounty_id, *work)),
    {
        match self.bounties.get(bounty_id) {
            None => return Err(ContractError::NotFound),
            Some(b) => {
                if b.status != BountyStatus::Open {
                    return Err(ContractError::BountyNotOpen);
                }
                if ctx.block_time > b.deadline {
                    return Err(ContractError::DeadlinePassed);
                }
            },
        }
        let work_str = match work.nonblank() {
            Some(t) => t,
            None => return Err(ContractError::InvalidJson),
        };
        if !self.ready {
            return Err(ContractError::NotFound);
        }
        let id = self.next_submission_id;
        let submission = WorkSubmission {
            id,
            bounty_id,
            worker: ctx.sender.clone(),
            work_str,
            submitted_at: ctx.block_time,
            approved: false,
        };
        self.submissions.insert(id, submission);
        self.next_submission_id = id + 1;
        Ok(
            Response::new().add_attr("action", "submit_work").add_attribute(
                "bounty_id",
                u64_to_decimal(bounty_id),
            ).add_attribute("submission_id", u64_to_decimal(id)).add_attribute(
                "worker",
                ctx.sender.clone(),
            ),
        )
    }

    /// The poster approves a submission for their open bounty, paying its worker.
    pub fn approve_work(&mut self, ctx: &Context, bounty_id: u64, submission_id: u64) -> (r: Result<
        Response,
        ContractError,
    >)
        requires
            old(self).wf(),
        ensures
            final(self).wf(),
            follows(
                r,
                old(self)@,
                final(self)@,
                approve_work_spec(old(self)@, *ctx, bounty_id, submission_id),
            ),
    {
        let mut bounty = match self.bounties.get(bounty_id) {
            None => return Err(ContractError::NotFound),
            Some(b) => b.duplicate(),
        };
        if ctx.sender != bounty.poster {
            return Err(ContractError::Unauthorized);
        }
        if bounty.status != BountyStatus::Open {
            return Err(ContractError::BountyNotOpen);
        }
        let mut submission = match self.submissions.get(submission_id) {
            None => return Err(ContractError::NotFound),
            Some(s) => s.duplicate(),
        };
        if submission.bounty_id != bounty_id {
            return Err(ContractError::WrongBounty);
        }
        if !self.ready {
            return Err(ContractError::NotFound);
        }
        let reward = bounty.reward_amount;
        let worker = submission.worker.clone();
        submission.approved = true;
        self.submissions.insert(submission_id, submission);
        bounty.status = BountyStatus::Completed;
        bounty.winner = Some(worker.clone());
        bounty.approved_submission_id = Some(submission_id);
        self.bounties.insert(bounty_id, bounty);
        Ok(
            Response::new().add_send(worker.clone(), self.denom.clone(), reward).add_attr(
                "action",
                "approve_work",
            ).add_attribute("bounty_id", u64_to_decimal(bounty_id)).add_attribute(
                "submission_id",
                u64_to_decimal(submission_id),
            ).add_attribute("winner", worker).add_attribute("amount", u128_to_decimal(reward)),
        )
    }

    /// The poster cancels their open bounty and takes the reward back.
    pub fn cancel_bounty(&mut self, ctx: &Context, bounty_id: u64) -> (r: Result<
        Response,
        ContractError,
    >)
        requires
            old(self).wf(),
        ensures
            final(self).wf(),
            follows(r, old(self)@, final(self)@, cancel_bounty_spec(old(self)@, *ctx, bounty_id)),
    {
        let mut bounty = match self.bounties.get(bounty_id) {
            None => return Err(ContractError::NotFound),
            Some(b) => b.duplicate(),
        };
        if ctx.sender != bounty.poster {
            return Err(ContractError::Unauthorized);
        }
        if bounty.status != BountyStatus::Open {
            return Err(ContractError::CannotCancel);
        }
        if !self.ready {
            return Err(ContractError::NotFound);
        }
        let reward = bounty.reward_amount;
        let poster = bounty.poster.clone();
        bounty.status = BountyStatus::Cancelled;
        self.bounties.insert(bounty_id, bounty);
        Ok(
            Response::new().add_send(poster.clone(), self.denom.clone(), reward).add_attr(
                "action",
                "cancel_bounty",
            ).add_attribute("bounty_id", u64_to_decimal(bounty_id)).add_attribute(
                "poster",
                poster,
            ).add_attribute("refund_amount", u128_to_decimal(reward)),
        )
    }

    /// The stored bounty.
    pub fn get_bounty(&self, bounty_id: u64) -> (r: Result<Bounty, ContractError>)
        requires
            self.wf(),
        ensures
            match r {
                Ok(b) => self@.bounties.contains_key(bounty_id) && b@ == self@.bounties[bounty_id],
                Err(e) => !self@.bounties.contains_key(bounty_id) && e == ContractError::NotFound,
            },
    {
        match self.bounties.get(bounty_id) {
            Some(b) => Ok(b.duplicate()),
            None => Err(ContractError::NotFound),
        }
    }

    /// Up to `limit` (10 by default, 30 at most) bounties after `start_after`,
    /// in ascending id order.
    pub fn list_bounties(&self, limit: Option<u32>, start_after: Option<u64>) -> (r: Vec<Bounty>)
        requires
            self.wf(),
        ensures
            r@.map_values(|b: Bounty| b@) == cap(
                selected(self.bounty_entries(), start_after, |b: BountyView| any_bounty(b)),
                page_limit(limit, 10, 30),
            ),
    {
        let pred = |b: &Bounty| -> (k: bool)
            ensures
                k == any_bounty(b@),
            { true };
        let n = page_size(limit, 10, 30);
        self.bounties.select(start_after, n, pred, Ghost(|b: BountyView| any_bounty(b)))
    }

    /// Up to `limit` (20 by default, 50 at most) submissions after
    /// `start_after`, for the given bounty if one is named, in ascending id order.
    pub fn list_submissions(
        &self,
        bounty_id: Option<u64>,
        limit: Option<u32>,
        start_after: Option<u64>,
    ) -> (r: Vec<WorkSubmission>)
        requires
            self.wf(),
        ensures
            r@.map_values(|s: WorkSubmission| s@) == cap(
                selected(
                    self.submission_entries(),
                    start_after,
                    |s: WorkSubmissionView| submission_matches(bounty_id, s),
                ),
                page_limit(limit, 20, 50),
            ),
    {
        let pred = |s: &WorkSubmission| -> (k: bool)
            ensures
                k == submission_matches(bounty_id, s@),
            {
                match bounty_id {
                    Some(id) => s.bounty_id == id,
                    None => true,
                }
            };
        let n = page_size(limit, 20, 50);
        self.submissions.select(
            start_after,
            n,
            pred,
            Ghost(|s: WorkSubmissionView| submission_matches(bounty_id, s)),
        )
    }

    /// The next bounty id and the next submission id, once instantiated.
    pub fn next_ids(&self) -> (r: Option<(u64, u64)>)
        ensures
            match r {
                Some((b, s)) => self@.config matches Some(c) && b == c.next_bounty_id && s
                    == c.next_submission_id,
                None => self@.config is None,
            },
    {
        if self.ready {
            Some((self.next_bounty_id, self.next_submission_id))
        } else {
            None
        }
    }

}

/// Once a bounty is approved or cancelled its reward has left: every
/// further approval or cancellation of it is refused.
pub proof fn bounty_settled_once(
    s: BountyBoardView,
    ctx: Context,
    again: Context,
    bounty_id: u64,
    submission_id: u64,
    other_submission: u64,
)
    ensures
        approve_work_spec(s, ctx, bounty_id, submission_id) is Ok ==> {
            let after = approve_work_spec(s, ctx, bounty_id, submission_id)->Ok_0.0;
            &&& approve_work_spec(after, again, bounty_id, other_submission) is Err
            &&& cancel_bounty_spec(after, again, bounty_id) is Err
        },
        cancel_bounty_spec(s, ctx, bounty_id) is Ok ==> {
            let after = cancel_bounty_spec(s, ctx, bounty_id)->Ok_0.0;
            &&& approve_work_spec(after, again, bounty_id, other_submission) is Err
            &&& cancel_bounty_spec(after, again, bounty_id) is Err
        },
{
}

/// A bounty escrows the reward attached when it is posted, and settling it
/// pays exactly that reward: to the approved worker, or back to the poster
/// on cancellation.
pub proof fn reward_paid_as_escrowed(
    s: BountyBoardView,
    ctx: Context,
    title: Seq<char>,
    description: Seq<char>,
    location: Seq<char>,
    deadline: u64,
    bounty_id: u64,
    submission_id: u64,
)
    ensures
        post_bounty_spec(s, ctx, title, description, location, deadline) is Ok ==> {
            let after = post_bounty_spec(s, ctx, title, description, location, deadline)->Ok_0.0;
            let c = s.config->Some_0;
            after.bounties[c.next_bounty_id].reward_amount == first_amount(ctx.funds@, c.denom)->Some_0
        },
        approve_work_spec(s, ctx, bounty_id, submission_id) is Ok ==> approve_work_spec(
            s,
            ctx,
            bounty_id,
            submission_id,
        )->Ok_0.1.sends == seq![
            (
                s.submissions[submission_id].worker,
                s.config->Some_0.denom,
                s.bounties[bounty_id].reward_amount,
            ),
        ],
        cancel_bounty_spec(s, ctx, bounty_id) is Ok ==> cancel_bounty_spec(s, ctx, bounty_id)->Ok_0.1.sends
            == seq![
            (s.bounties[bounty_id].poster, s.config->Some_0.denom, s.bounties[bounty_id].reward_amount),
        ],
{
}

} // verus!
