//! The water well initiative: owners propose funded water projects, the admin
//! validates them, donors fund them up to their goal, the admin unlocks a
//! funded project and its owner or the admin disburses it; donors of a
//! cancelled project are refunded.
use vstd::prelude::*;
use crate::chain::{
    Context, Reply, Response, find_funds, first_amount, flag, follows, opt_view, page_limit,
    page_size, reply,
};
use crate::digest::{content_hash, hash_text};
use crate::json::{JsonPayload, nonempty_text};
use crate::keyed::KeyTable;
use crate::table::{Duplicate, IdTable, cap, entries_map, selected, strictly_sorted};
use crate::text::{decimal, u128_to_decimal, u64_to_decimal};

verus! {

/// The denomination used when instantiation names none.
pub const DEFAULT_DENOM: &'static str = "ustake";

/// The life cycle of a project.
#[derive(Debug, Clone, Copy, PartialEq, Eq, Hash, Structural)]
pub enum ProjectStatus {
    /// Created, awaiting admin validation.
    Proposed,
    /// Validated by the admin, open for donations.
    Fundraising,
    /// Goal reached, awaiting admin approval to disburse.
    Funded,
    /// Approved by the admin for disbursal.
    Disbursable,
    /// Funds disbursed.
    Completed,
    /// Abandoned.
    Cancelled,
}

/// The display name of a status (lowercase).
pub open spec fn status_label(s: ProjectStatus) -> Seq<char> {
    match s {
        ProjectStatus::Proposed => "proposed"@,
        ProjectStatus::Fundraising => "fundraising"@,
        ProjectStatus::Funded => "funded"@,
        ProjectStatus::Disbursable => "disbursable"@,
        ProjectStatus::Completed => "completed"@,
        ProjectStatus::Cancelled => "cancelled"@,
    }
}

/// The variant name of a status, as responses report it.
pub open spec fn status_name(s: ProjectStatus) -> Seq<char> {
    match s {
        ProjectStatus::Proposed => "Proposed"@,
        ProjectStatus::Fundraising => "Fundraising"@,
        ProjectStatus::Funded => "Funded"@,
        ProjectStatus::Disbursable => "Disbursable"@,
        ProjectStatus::Completed => "Completed"@,
        ProjectStatus::Cancelled => "Cancelled"@,
    }
}

impl ProjectStatus {
    /// The display name of the status (lowercase).
    pub fn label(&self) -> (r: String)
        ensures
            r@ == status_label(*self),
    {
        match self {
            ProjectStatus::Proposed => String::from_str("proposed"),
            ProjectStatus::Fundraising => String::from_str("fundraising"),
            ProjectStatus::Funded => String::from_str("funded"),
            ProjectStatus::Disbursable => String::from_str("disbursable"),
            ProjectStatus::Completed => String::from_str("completed"),
            ProjectStatus::Cancelled => String::from_str("cancelled"),
        }
    }

    /// The variant name of the status.
    pub fn name(&self) -> (r: String)
        ensures
            r@ == status_name(*self),
    {
        match self {
            ProjectStatus::Proposed => String::from_str("Proposed"),
            ProjectStatus::Fundraising => String::from_str("Fundraising"),
            ProjectStatus::Funded => String::from_str("Funded"),
            ProjectStatus::Disbursable => String::from_str("Disbursable"),
            ProjectStatus::Completed => String::from_str("Completed"),
            ProjectStatus::Cancelled => String::from_str("Cancelled"),
        }
    }
}

impl Default for ProjectStatus {
    fn default() -> (r: Self)
        ensures
            r == ProjectStatus::Proposed,
    {
        ProjectStatus::Proposed
    }
}

/// A water project.
#[derive(Debug, Clone, PartialEq, Eq)]
pub struct Project {
    pub id: u64,
    pub owner: String,
    pub goal: u128,
    pub data_str: String,
    pub total_donated: u128,
    pub status: ProjectStatus,
}

pub struct ProjectView {
    pub id: u64,
    pub owner: Seq<char>,
    pub goal: u128,
    pub data_str: Seq<char>,
    pub total_donated: u128,
    pub status: ProjectStatus,
}

impl View for Project {
    type V = ProjectView;

    open spec fn view(&self) -> ProjectView {
        ProjectView {
            id: self.id,
            owner: self.owner@,
            goal: self.goal,
            data_str: self.data_str@,
            total_donated: self.total_donated,
            status: self.status,
        }
    }
}

impl Duplicate for Project {
    fn duplicate(&self) -> (r: Self) {
        Project {
            id: self.id,
            owner: self.owner.clone(),
            goal: self.goal,
            data_str: self.data_str.clone(),
            total_donated: self.total_donated,
            status: self.status,
        }
    }
}

/// The errors of the initiative.
#[derive(Debug, Clone, Copy, PartialEq, Eq, Structural)]
pub enum ContractError {
    /// A stored record or setting is missing.
    NotFound,
    ZeroGoal,
    DuplicateData,
    InvalidJson,
    NoDonation,
    ExceedGoal,
    Unauthorized,
    GoalNotMet,
    NotValidated,
    AlreadyValidated,
    AlreadyFunded,
    NotDisbursable,
    AlreadyDisbursable,
    AlreadyCompleted,
    Cancelled,
    AlreadyCancelled,
    CannotCancel,
    NoRefundAvailable,
    NotRefundable,
}

pub open spec fn error_text(e: ContractError) -> Seq<char> {
    match e {
        ContractError::NotFound => "Record not found"@,
        ContractError::ZeroGoal => "Goal must be greater than zero"@,
        ContractError::DuplicateData => "Duplicate data entry"@,
        ContractError::InvalidJson => "Data is not valid json"@,
        ContractError::NoDonation => "Unvalid donation"@,
        ContractError::ExceedGoal => "Donation exceeds goal"@,
        ContractError::Unauthorized => "Unauthorized"@,
        ContractError::GoalNotMet => "Goal not reached yet"@,
        ContractError::NotValidated => "Project is not validated"@,
        ContractError::AlreadyValidated => "Project is already validated"@,
        ContractError::AlreadyFunded => "Project is already funded"@,
        ContractError::NotDisbursable => "Project is not yet ready for disbursal"@,
        ContractError::AlreadyDisbursable => "Project is already marked as disbursable"@,
        ContractError::AlreadyCompleted => "Project is already disbursed and completed"@,
        ContractError::Cancelled => "Project is cancelled"@,
        ContractError::AlreadyCancelled => "Project is already cancelled"@,
        ContractError::CannotCancel => "Project cannot be cancelled in its current status"@,
        ContractError::NoRefundAvailable => "No donation available to refund"@,
        ContractError::NotRefundable => "Project is not refundable"@,
    }
}

impl ContractError {
    /// The message of the error.
    pub fn message(&self) -> (r: String)
        ensures
            r@ == error_text(*self),
    {
        match self {
            ContractError::NotFound => String::from_str("Record not found"),
            ContractError::ZeroGoal => String::from_str("Goal must be greater than zero"),
            ContractError::DuplicateData => String::from_str("Duplicate data entry"),
            ContractError::InvalidJson => String::from_str("Data is not valid json"),
            ContractError::NoDonation => String::from_str("Unvalid donation"),
            ContractError::ExceedGoal => String::from_str("Donation exceeds goal"),
            ContractError::Unauthorized => String::from_str("Unauthorized"),
            ContractError::GoalNotMet => String::from_str("Goal not reached yet"),
            ContractError::NotValidated => String::from_str("Project is not validated"),
            ContractError::AlreadyValidated => String::from_str("Project is already validated"),
            ContractError::AlreadyFunded => String::from_str("Project is already funded"),
            ContractError::NotDisbursable => String::from_str(
                "Project is not yet ready for disbursal",
            ),
            ContractError::AlreadyDisbursable => String::from_str(
                "Project is already marked as disbursable",
            ),
            ContractError::AlreadyCompleted => String::from_str(
                "Project is already disbursed and completed",
            ),
            ContractError::Cancelled => String::from_str("Project is cancelled"),
            ContractError::AlreadyCancelled => String::from_str("Project is already cancelled"),
            ContractError::CannotCancel => String::from_str(
                "Project cannot be cancelled in its current status",
            ),
            ContractError::NoRefundAvailable => String::from_str("No donation available to refund"),
            ContractError::NotRefundable => String::from_str("Project is not refundable"),
        }
    }
}

/// The settings written at instantiation.
pub struct Config {
    pub admin: String,
    pub next_project_id: u64,
    pub denom: String,
}

pub struct ConfigView {
    pub admin: Seq<char>,
    pub next_project_id: u64,
    pub denom: Seq<char>,
}

impl View for Config {
    type V = ConfigView;

    open spec fn view(&self) -> ConfigView {
        ConfigView { admin: self.admin@, next_project_id: self.next_project_id, denom: self.denom@ }
    }
}

/// The storage of the initiative.
pub struct WaterWellInitiativeContract {
    ready: bool,
    config: Config,
    projects: IdTable<Project>,
    data_hashes: KeyTable<String, bool>,
    donations: KeyTable<(u64, String), u128>,
}

/// The abstract storage.
#[verifier::ext_equal]
pub struct InitiativeView {
    pub config: Option<ConfigView>,
    pub projects: Map<u64, ProjectView>,
    pub data_hashes: Map<Seq<char>, bool>,
    /// What each donor gave each project and has not had refunded.
    pub donations: Map<(u64, Seq<char>), u128>,
}

impl View for WaterWellInitiativeContract {
    type V = InitiativeView;

    closed spec fn view(&self) -> InitiativeView {
        InitiativeView {
            config: if self.ready {
                Some(self.config@)
            } else {
                None
            },
            projects: self.projects@,
            data_hashes: self.data_hashes@,
            donations: self.donations@,
        }
    }
}

/// The error of a message only the admin may send, if any.
pub open spec fn admin_error(s: InitiativeView, sender: Seq<char>) -> Option<ContractError> {
    match s.config {
        None => Some(ContractError::NotFound),
        Some(c) => if c.admin != sender {
            Some(ContractError::Unauthorized)
        } else {
            None
        },
    }
}

pub open spec fn instantiate_spec(s: InitiativeView, ctx: Context, denom: Option<Seq<char>>) -> (
    InitiativeView,
    Reply,
) {
    let d = match denom {
        Some(d) => d,
        None => DEFAULT_DENOM@,
    };
    (
        InitiativeView {
            config: Some(ConfigView { admin: ctx.sender@, next_project_id: 1, denom: d }),
            ..s
        },
        reply(seq![("method"@, "instantiate"@), ("denom"@, d)]),
    )
}

pub open spec fn create_project_spec(
    s: InitiativeView,
    ctx: Context,
    goal: u128,
    data: JsonPayload,
) -> Result<(InitiativeView, Reply), ContractError> {
    if goal == 0 {
        Err(ContractError::ZeroGoal)
    } else {
        match nonempty_text(data) {
            None => Err(ContractError::InvalidJson),
            Some(t) => {
                let h = content_hash(t@);
                if flag(s.data_hashes, h) {
                    Err(ContractError::DuplicateData)
                } else {
                    match s.config {
                        None => Err(ContractError::NotFound),
                        Some(c) => {
                            let id = c.next_project_id;
                            let p = ProjectView {
                                id,
                                owner: ctx.sender@,
                                goal,
                                data_str: t@,
                                total_donated: 0,
                                status: ProjectStatus::Proposed,
                            };
                            Ok(
                                (
                                    InitiativeView {
                                        config: Some(
                                            ConfigView { next_project_id: (id + 1) as u64, ..c },
                                        ),
                                        projects: s.projects.insert(id, p),
                                        data_hashes: s.data_hashes.insert(h, true),
                                        ..s
                                    },
                                    reply(
                                        seq![
                                            ("action"@, "create_project"@),
                                            ("project_id"@, decimal(id as nat)),
                                            ("status"@, "Proposed"@),
                                        ],
                                    ),
                                ),
                            )
                        },
                    }
                }
            },
        }
    }
}

/// The project with a new status.
pub open spec fn with_status(s: InitiativeView, id: u64, st: ProjectStatus) -> InitiativeView {
    InitiativeView {
        projects: s.projects.insert(id, ProjectView { status: st, ..s.projects[id] }),
        ..s
    }
}

pub open spec fn cancel_spec(s: InitiativeView, ctx: Context, id: u64) -> Result<
    (InitiativeView, Reply),
    ContractError,
> {
    match s.config {
        None => Err(ContractError::NotFound),
        Some(c) => if !s.projects.contains_key(id) {
            Err(ContractError::NotFound)
        } else {
            let p = s.projects[id];
            let is_owner = ctx.sender@ == p.owner;
            let is_admin = ctx.sender@ == c.admin;
            match p.status {
                ProjectStatus::Cancelled => Err(ContractError::AlreadyCancelled),
                ProjectStatus::Proposed if !is_owner && !is_admin => Err(
                    ContractError::Unauthorized,
                ),
                ProjectStatus::Fundraising if !is_admin => Err(ContractError::Unauthorized),
                ProjectStatus::Proposed | ProjectStatus::Fundraising => Ok(
                    (
                        with_status(s, id, ProjectStatus::Cancelled),
                        reply(
                            seq![
                                ("action"@, "cancel"@),
                                ("project_id"@, decimal(id as nat)),
                                ("cancelled_by"@, ctx.sender@),
                                ("status"@, "Cancelled"@),
                            ],
                        ),
                    ),
                ),
                _ => Err(ContractError::CannotCancel),
            }
        },
    }
}

pub open spec fn validate_spec(s: InitiativeView, ctx: Context, id: u64) -> Result<
    (InitiativeView, Reply),
    ContractError,
> {
    match admin_error(s, ctx.sender@) {
        Some(e) => Err(e),
        None => if !s.projects.contains_key(id) {
            Err(ContractError::NotFound)
        } else {
            match s.projects[id].status {
                ProjectStatus::Cancelled => Err(ContractError::Cancelled),
                ProjectStatus::Proposed => Ok(
                    (
                        with_status(s, id, ProjectStatus::Fundraising),
                        reply(
                            seq![
                                ("action"@, "validate"@),
                                ("admin"@, s.config.unwrap().admin),
                                ("owner"@, s.projects[id].owner),
                                ("project_id"@, decimal(id as nat)),
                                ("status"@, "Fundraising"@),
                            ],
                        ),
                    ),
                ),
                _ => Err(ContractError::AlreadyValidated),
            }
        },
    }
}

/// What the sender attached in the stored denomination (zero when nothing).
pub open spec fn donation_of(c: ConfigView, ctx: Context) -> u128 {
    match first_amount(ctx.funds@, c.denom) {
        Some(a) => a,
        None => 0,
    }
}

/// The sums a donation adds stay within `u128`: the project's total, once a
/// positive amount reaches a fundraising project, and the donor's record, once
/// the donation is accepted.
pub open spec fn donate_in_range(s: InitiativeView, ctx: Context, id: u64) -> bool {
    s.projects.contains_key(id) && s.projects[id].status == ProjectStatus::Fundraising
        && s.config is Some && donation_of(s.config.unwrap(), ctx) > 0 ==> {
        let p = s.projects[id];
        let d = donation_of(s.config.unwrap(), ctx);
        let prev = if s.donations.contains_key((id, ctx.sender@)) {
            s.donations[(id, ctx.sender@)]
        } else {
            0
        };
        &&& p.total_donated + d <= u128::MAX
        &&& p.total_donated + d <= p.goal ==> prev + d <= u128::MAX
    }
}

pub open spec fn donate_spec(s: InitiativeView, ctx: Context, id: u64) -> Result<
    (InitiativeView, Reply),
    ContractError,
> {
    if !s.projects.contains_key(id) {
        Err(ContractError::NotFound)
    } else {
        let p = s.projects[id];
        match p.status {
            ProjectStatus::Cancelled => Err(ContractError::Cancelled),
            ProjectStatus::Funded => Err(ContractError::AlreadyFunded),
            ProjectStatus::Completed => Err(ContractError::AlreadyCompleted),
            ProjectStatus::Fundraising => match s.config {
                None => Err(ContractError::NotFound),
                Some(c) => {
                    let d = donation_of(c, ctx);
                    if d == 0 {
                        Err(ContractError::NoDonation)
                    } else if p.total_donated + d > p.goal {
                        Err(ContractError::ExceedGoal)
                    } else {
                        let total = (p.total_donated + d) as u128;
                        let st = if total == p.goal {
                            ProjectStatus::Funded
                        } else {
                            ProjectStatus::Fundraising
                        };
                        let key = (id, ctx.sender@);
                        let prev = if s.donations.contains_key(key) {
                            s.donations[key]
                        } else {
                            0
                        };
                        Ok(
                            (
                                InitiativeView {
                                    projects: s.projects.insert(
                                        id,
                                        ProjectView { total_donated: total, status: st, ..p },
                                    ),
                                    donations: s.donations.insert(key, (prev + d) as u128),
                                    ..s
                                },
                                reply(
                                    seq![
                                        ("action"@, "donate"@),
                                        ("project_id"@, decimal(id as nat)),
                                        ("donor"@, ctx.sender@),
                                        ("amount"@, decimal(d as nat)),
                                        ("status"@, status_name(st)),
                                    ],
                                ),
                            ),
                        )
                    }
                },
            },
            _ => Err(ContractError::NotValidated),
        }
    }
}

pub open spec fn unlock_spec(s: InitiativeView, ctx: Context, id: u64) -> Result<
    (InitiativeView, Reply),
    ContractError,
> {
    match admin_error(s, ctx.sender@) {
        Some(e) => Err(e),
        None => if !s.projects.contains_key(id) {
            Err(ContractError::NotFound)
        } else {
            match s.projects[id].status {
                ProjectStatus::Cancelled => Err(ContractError::Cancelled),
                ProjectStatus::Funded => Ok(
                    (
                        with_status(s, id, ProjectStatus::Disbursable),
                        reply(
                            seq![
                                ("action"@, "unlock"@),
                                ("admin"@, s.config.unwrap().admin),
                                ("owner"@, s.projects[id].owner),
                                ("project_id"@, decimal(id as nat)),
                                ("status"@, "Disbursable"@),
                            ],
                        ),
                    ),
                ),
                ProjectStatus::Disbursable => Err(ContractError::AlreadyDisbursable),
                ProjectStatus::Completed => Err(ContractError::AlreadyCompleted),
                _ => Err(ContractError::GoalNotMet),
            }
        },
    }
}

pub open spec fn disburse_spec(s: InitiativeView, ctx: Context, id: u64) -> Result<
    (InitiativeView, Reply),
    ContractError,
> {
    if !s.projects.contains_key(id) {
        Err(ContractError::NotFound)
    } else {
        let p = s.projects[id];
        match p.status {
            ProjectStatus::Cancelled => Err(ContractError::Cancelled),
            ProjectStatus::Completed => Err(ContractError::AlreadyCompleted),
            ProjectStatus::Disbursable => match s.config {
                None => Err(ContractError::NotFound),
                Some(c) => if ctx.sender@ != p.owner && ctx.sender@ != c.admin {
                    Err(ContractError::Unauthorized)
                } else {
                    Ok(
                        (
                            with_status(s, id, ProjectStatus::Completed),
                            Reply {
                                attrs: seq![
                                    ("action"@, "disburse"@),
                                    ("project_id"@, decimal(id as nat)),
                                    ("sender"@, ctx.sender@),
                                    ("recipient"@, p.owner),
                                    ("amount"@, decimal(p.total_donated as nat)),
                                    ("status"@, "Completed"@),
                                ],
                                sends: seq![(p.owner, c.denom, p.total_donated)],
                                calls: Seq::empty(),
                            },
                        ),
                    )
                },
            },
            _ => Err(ContractError::NotDisbursable),
        }
    }
}

pub open spec fn refund_spec(s: InitiativeView, ctx: Context, id: u64) -> Result<
    (InitiativeView, Reply),
    ContractError,
> {
    if !s.projects.contains_key(id) {
        Err(ContractError::NotFound)
    } else if s.projects[id].status != ProjectStatus::Cancelled {
        Err(ContractError::NotRefundable)
    } else {
        let key = (id, ctx.sender@);
        let amount = if s.donations.contains_key(key) {
            s.donations[key]
        } else {
            0
        };
        if amount == 0 {
            Err(ContractError::NoRefundAvailable)
        } else {
            match s.config {
                None => Err(ContractError::NotFound),
                Some(c) => Ok(
                    (
                        InitiativeView { donations: s.donations.remove(key), ..s },
                        Reply {
                            attrs: seq![
                                ("action"@, "refund"@),
                                ("project_id"@, decimal(id as nat)),
                                ("refunded_to"@, ctx.sender@),
                                ("amount"@, decimal(amount as nat)),
                                ("status"@, "Cancelled"@),
                            ],
                            sends: seq![(ctx.sender@, c.denom, amount)],
                            calls: Seq::empty(),
                        },
                    ),
                ),
            }
        }
    }
}

/// Whether a project has the given status.
pub open spec fn has_status(st: ProjectStatus, p: ProjectView) -> bool {
    p.status == st
}

/// How many of `entries` have status `st`.
pub open spec fn status_count(entries: Seq<(u64, Project)>, st: ProjectStatus) -> nat {
    selected(entries, None, |p: ProjectView| has_status(st, p)).len()
}

/// Accepts every project.
pub open spec fn any_project(p: ProjectView) -> bool {
    true
}

impl WaterWellInitiativeContract {
    pub closed spec fn wf(&self) -> bool {
        &&& self.projects.wf()
        &&& self.data_hashes.wf()
        &&& self.donations.wf()
    }

    /// The projects in ascending id order.
    pub closed spec fn project_entries(&self) -> Seq<(u64, Project)> {
        self.projects.entries()
    }

    /// The ordered projects are the map of the view.
    pub proof fn lemma_entries(&self)
        requires
            self.wf(),
        ensures
            strictly_sorted(self.project_entries()),
            entries_map(self.project_entries()) == self@.projects,
    {
    }

    /// An initiative whose storage is empty, before instantiation.
    pub fn new() -> (r: Self)
        ensures
            r.wf(),
            r@ == (InitiativeView {
                config: None,
                projects: Map::empty(),
                data_hashes: Map::empty(),
                donations: Map::empty(),
            }),
    {
        WaterWellInitiativeContract {
            ready: false,
            config: Config { admin: String::new(), next_project_id: 0, denom: String::new() },
            projects: IdTable::new(),
            data_hashes: KeyTable::new(),
            donations: KeyTable::new(),
        }
    }

    fn admin_check(&self, ctx: &Context) -> (r: Option<ContractError>)
        ensures
            r == admin_error(self@, ctx.sender@),
    {
        if !self.ready {
            Some(ContractError::NotFound)
        } else if ctx.sender != self.config.admin {
            Some(ContractError::Unauthorized)
        } else {
            None
        }
    }

    /// Records the sender as admin, starts the project ids at 1 and stores the
    /// denomination of donations.
    pub fn instantiate(&mut self, ctx: &Context, denom: Option<String>) -> (r: Response)
        requires
            old(self).wf(),
        ensures
            final(self).wf(),
            final(self)@ == instantiate_spec(old(self)@, *ctx, opt_view(denom)).0,
            r.attrs() =~= instantiate_spec(old(self)@, *ctx, opt_view(denom)).1.attrs,
            r.sends() =~= instantiate_spec(old(self)@, *ctx, opt_view(denom)).1.sends,
            r.calls() =~= instantiate_spec(old(self)@, *ctx, opt_view(denom)).1.calls,
    {
        let d = match denom {
            Some(d) => d,
            None => String::from_str(DEFAULT_DENOM),
        };
        self.config = Config { admin: ctx.sender.clone(), next_project_id: 1, denom: d.clone() };
        self.ready = true;
        Response::new().add_attr("method", "instantiate").add_attribute("denom", d)
    }

    /// Proposes a project with a goal and a description, unless the
    /// description's text was seen before.
    pub fn create_project(&mut self, ctx: &Context, goal: u128, data: &JsonPayload) -> (r: Result<
        Response,
        ContractError,
    >)
        requires
            old(self).wf(),
            old(self)@.config matches Some(c) ==> c.next_project_id < u64::MAX,
        ensures
            final(self).wf(),
            follows(r, old(self)@, final(self)@, create_project_spec(old(self)@, *ctx, goal, *data)),
    {
        if goal == 0 {
            return Err(ContractError::ZeroGoal);
        }
        let text = match data.nonempty() {
            Some(t) => t,
            None => return Err(ContractError::InvalidJson),
        };
        let hash = hash_text(&text);
        if let Some(seen) = self.data_hashes.get(&hash) {
            if *seen {
                return Err(ContractError::DuplicateData);
            }
        }
        if !self.ready {
            return Err(ContractError::NotFound);
        }
        let id = self.config.next_project_id;
        let project = Project {
            id,
            owner: ctx.sender.clone(),
            goal,
            data_str: text,
            total_donated: 0,
            status: ProjectStatus::Proposed,
        };
        self.data_hashes.insert(hash, true);
        self.projects.insert(id, project);
        self.config.next_project_id = id + 1;
        Ok(
            Response::new().add_attr("action", "create_project").add_attribute(
                "project_id",
                u64_to_decimal(id),
            ).add_attr("status", "Proposed"),
        )
    }

    fn set_status(&mut self, id: u64, st: ProjectStatus)
        requires
            old(self).wf(),
            old(self)@.projects.contains_key(id),
        ensures
            final(self).wf(),
            final(self)@ == with_status(old(self)@, id, st),
    {
        let mut p = match self.projects.get(id) {
            Some(p) => p.duplicate(),
            None => return ,
        };
        p.status = st;
        self.projects.insert(id, p);
    }

    /// The owner or the admin cancels a proposed project; only the admin
    /// cancels one that is fundraising.
    pub fn cancel(&mut self, ctx: &Context, project_id: u64) -> (r: Result<Response, ContractError>)
        requires
            old(self).wf(),
        ensures
            final(self).wf(),
            follows(r, old(self)@, final(self)@, cancel_spec(old(self)@, *ctx, project_id)),
    {
        if !self.ready {
            return Err(ContractError::NotFound);
        }
        let (status, is_owner) = match self.projects.get(project_id) {
            None => return Err(ContractError::NotFound),
            Some(p) => (p.status, ctx.sender == p.owner),
        };
        let is_admin = ctx.sender == self.config.admin;
        match status {
            ProjectStatus::Cancelled => return Err(ContractError::AlreadyCancelled),
            ProjectStatus::Proposed => {
                if !is_owner && !is_admin {
                    return Err(ContractError::Unauthorized);
                }
            },
            ProjectStatus::Fundraising => {
                if !is_admin {
                    return Err(ContractError::Unauthorized);
                }
            },
            _ => return Err(ContractError::CannotCancel),
        }
        self.set_status(project_id, ProjectStatus::Cancelled);
        Ok(
            Response::new().add_attr("action", "cancel").add_attribute(
                "project_id",
                u64_to_decimal(project_id),
            ).add_attribute("cancelled_by", ctx.sender.clone()).add_attr("status", "Cancelled"),
        )
    }

    /// The admin opens a proposed project for donations.
    pub fn validate(&mut self, ctx: &Context, project_id: u64) -> (r: Result<
        Response,
        ContractError,
    >)
        requires
            old(self).wf(),
        ensures
            final(self).wf(),
            follows(r, old(self)@, final(self)@, validate_spec(old(self)@, *ctx, project_id)),
    {
        if let Some(e) = self.admin_check(ctx) {
            return Err(e);
        }
        let owner = match self.projects.get(project_id) {
            None => return Err(ContractError::NotFound),
            Some(p) => {
                match p.status {
                    ProjectStatus::Cancelled => return Err(ContractError::Cancelled),
                    ProjectStatus::Proposed => {},
                    _ => return Err(ContractError::AlreadyValidated),
                }
                p.owner.clone()
            },
        };
        self.set_status(project_id, ProjectStatus::Fundraising);
        Ok(
            Response::new().add_attr("action", "validate").add_attribute(
                "admin",
                self.config.admin.clone(),
            ).add_attribute("owner", owner).add_attribute(
                "project_id",
                u64_to_decimal(project_id),
            ).add_attr("status", "Fundraising"),
        )
    }

    /// Adds the funds attached in the stored denomination to a fundraising
    /// project, which becomes funded when its goal is reached exactly.
    pub fn donate(&mut self, ctx: &Context, project_id: u64) -> (r: Result<Response, ContractError>)
        requires
            old(self).wf(),
            donate_in_range(old(self)@, *ctx, project_id),
        ensures
            final(self).wf(),
            follows(r, old(self)@, final(self)@, donate_spec(old(self)@, *ctx, project_id)),
    {
        let mut p = match self.projects.get(project_id) {
            None => return Err(ContractError::NotFound),
            Some(p) => {
                match p.status {
                    ProjectStatus::Cancelled => return Err(ContractError::Cancelled),
                    ProjectStatus::Funded => return Err(ContractError::AlreadyFunded),
                    ProjectStatus::Completed => return Err(ContractError::AlreadyCompleted),
                    ProjectStatus::Fundraising => {},
                    _ => return Err(ContractError::NotValidated),
                }
                p.duplicate()
            },
        };
        if !self.ready {
            return Err(ContractError::NotFound);
        }
        let donation = match find_funds(&ctx.funds, &self.config.denom) {
            Some(a) => a,
            None => 0,
        };
        if donation == 0 {
            return Err(ContractError::NoDonation);
        }
        if p.total_donated + donation > p.goal {
            return Err(ContractError::ExceedGoal);
        }
        p.total_donated = p.total_donated + donation;
        if p.total_donated == p.goal {
            p.status = ProjectStatus::Funded;
        }
        let status = p.status;
        self.projects.insert(project_id, p);
        let key = (project_id, ctx.sender.clone());
        let prev = match self.donations.get(&key) {
            Some(a) => *a,
            None => 0,
        };
        self.donations.insert(key, prev + donation);
        Ok(
            Response::new().add_attr("action", "donate").add_attribute(
                "project_id",
                u64_to_decimal(project_id),
            ).add_attribute("donor", ctx.sender.clone()).add_attribute(
                "amount",
                u128_to_decimal(donation),
            ).add_attribute("status", status.name()),
        )
    }

    /// The admin approves a funded project for disbursal.
    pub fn unlock(&mut self, ctx: &Context, project_id: u64) -> (r: Result<Response, ContractError>)
        requires
            old(self).wf(),
        ensures
            final(self).wf(),
            follows(r, old(self)@, final(self)@, unlock_spec(old(self)@, *ctx, project_id)),
    {
        if let Some(e) = self.admin_check(ctx) {
            return Err(e);
        }
        let owner = match self.projects.get(project_id) {
            None => return Err(ContractError::NotFound),
            Some(p) => {
                match p.status {
                    ProjectStatus::Cancelled => return Err(ContractError::Cancelled),
                    ProjectStatus::Funded => {},
                    ProjectStatus::Disbursable => return Err(ContractError::AlreadyDisbursable),
                    ProjectStatus::Completed => return Err(ContractError::AlreadyCompleted),
                    _ => return Err(ContractError::GoalNotMet),
                }
                p.owner.clone()
            },
        };
        self.set_status(project_id, ProjectStatus::Disbursable);
        Ok(
            Response::new().add_attr("action", "unlock").add_attribute(
                "admin",
                self.config.admin.clone(),
            ).add_attribute("owner", owner).add_attribute(
                "project_id",
                u64_to_decimal(project_id),
            ).add_attr("status", "Disbursable"),
        )
    }

    /// The owner or the admin pays a disbursable project's donations to its owner.
    pub fn disburse(&mut self, ctx: &Context, project_id: u64) -> (r: Result<
        Response,
        ContractError,
    >)
        requires
            old(self).wf(),
        ensures
            final(self).wf(),
            follows(r, old(self)@, final(self)@, disburse_spec(old(self)@, *ctx, project_id)),
    {
        let (owner, total) = match self.projects.get(project_id) {
            None => return Err(ContractError::NotFound),
            Some(p) => {
                match p.status {
                    ProjectStatus::Cancelled => return Err(ContractError::Cancelled),
                    ProjectStatus::Completed => return Err(ContractError::AlreadyCompleted),
                    ProjectStatus::Disbursable => {},
                    _ => return Err(ContractError::NotDisbursable),
                }
                (p.owner.clone(), p.total_donated)
            },
        };
        if !self.ready {
            return Err(ContractError::NotFound);
        }
        if ctx.sender != owner && ctx.sender != self.config.admin {
            return Err(ContractError::Unauthorized);
        }
        self.set_status(project_id, ProjectStatus::Completed);
        Ok(
            Response::new().add_send(owner.clone(), self.config.denom.clone(), total).add_attr(
                "action",
                "disburse",
            ).add_attribute("project_id", u64_to_decimal(project_id)).add_attribute(
                "sender",
                ctx.sender.clone(),
            ).add_attribute("recipient", owner).add_attribute(
                "amount",
                u128_to_decimal(total),
            ).add_attr("status", "Completed"),
        )
    }

    /// Pays a donor of a cancelled project back what they gave it.
    pub fn refund(&mut self, ctx: &Context, project_id: u64) -> (r: Result<Response, ContractError>)
        requires
            old(self).wf(),
        ensures
            final(self).wf(),
            follows(r, old(self)@, final(self)@, refund_spec(old(self)@, *ctx, project_id)),
    {
        match self.projects.get(project_id) {
            None => return Err(ContractError::NotFound),
            Some(p) => {
                if p.status != ProjectStatus::Cancelled {
                    return Err(ContractError::NotRefundable);
                }
            },
        }
        let key = (project_id, ctx.sender.clone());
        let amount = match self.donations.get(&key) {
            Some(a) => *a,
            None => 0,
        };
        if amount == 0 {
            return Err(ContractError::NoRefundAvailable);
        }
        if !self.ready {
            return Err(ContractError::NotFound);
        }
        self.donations.remove(&key);
        Ok(
            Response::new().add_send(ctx.sender.clone(), self.config.denom.clone(), amount).add_attr(
                "action",
                "refund",
            ).add_attribute("project_id", u64_to_decimal(project_id)).add_attribute(
                "refunded_to",
                ctx.sender.clone(),
            ).add_attribute("amount", u128_to_decimal(amount)).add_attr("status", "Cancelled"),
        )
    }

    /// The stored project.
    pub fn get_project(&self, project_id: u64) -> (r: Result<Project, ContractError>)
        requires
            self.wf(),
        ensures
            match r {
                Ok(p) => self@.projects.contains_key(project_id) && p@
                    == self@.projects[project_id],
                Err(e) => !self@.projects.contains_key(project_id) && e == ContractError::NotFound,
            },
    {
        match self.projects.get(project_id) {
            Some(p) => Ok(p.duplicate()),
            None => Err(ContractError::NotFound),
        }
    }

    /// Up to `limit` (10 by default, 30 at most) projects after `start_after`,
    /// in ascending id order.
    pub fn list_projects(&self, limit: Option<u32>, start_after: Option<u64>) -> (r: Vec<Project>)
        requires
            self.wf(),
        ensures
            r@.map_values(|p: Project| p@) == cap(
                selected(self.project_entries(), start_after, |p: ProjectView| any_project(p)),
                page_limit(limit, 10, 30),
            ),
    {
        let pred = |p: &Project| -> (b: bool)
            ensures
                b == any_project(p@),
            { true };
        let n = page_size(limit, 10, 30);
        self.projects.select(start_after, n, pred, Ghost(|p: ProjectView| any_project(p)))
    }

    /// How many projects have status `st`.
    fn count_status(&self, st: ProjectStatus) -> (r: usize)
        requires
            self.wf(),
        ensures
            r == status_count(self.project_entries(), st),
    {
        let pred = |p: &Project| -> (b: bool)
            ensures
                b == has_status(st, p@),
            { p.status == st };
        self.projects.count(pred, Ghost(|p: ProjectView| has_status(st, p)))
    }

    /// For every status, in declaration order, its display name and how many
    /// projects have it.
    pub fn get_project_status_counts(&self) -> (r: Vec<(String, u32)>)
        requires
            self.wf(),
            self.project_entries().len() <= u32::MAX,
        ensures
            r@.len() == 6,
            forall|i: int|
                #![trigger r@[i]]
                0 <= i < 6 ==> r@[i].0@ == status_label(status_at(i)) && r@[i].1
                    == status_count(self.project_entries(), status_at(i)),
    {
        let mut r: Vec<(String, u32)> = Vec::new();
        let all = [
            ProjectStatus::Proposed,
            ProjectStatus::Fundraising,
            ProjectStatus::Funded,
            ProjectStatus::Disbursable,
            ProjectStatus::Completed,
            ProjectStatus::Cancelled,
        ];
        let mut i: usize = 0;
        while i < 6
            invariant
                self.wf(),
                self.project_entries().len() <= u32::MAX,
                all@ == seq![
                    ProjectStatus::Proposed,
                    ProjectStatus::Fundraising,
                    ProjectStatus::Funded,
                    ProjectStatus::Disbursable,
                    ProjectStatus::Completed,
                    ProjectStatus::Cancelled,
                ],
                i <= 6,
                r@.len() == i,
                forall|j: int|
                    #![trigger r@[j]]
                    0 <= j < i ==> r@[j].0@ == status_label(status_at(j)) && r@[j].1
                        == status_count(self.project_entries(), status_at(j)),
            decreases 6 - i,
        {
            let st = all[i];
            assert(st == status_at(i as int));
            let n = self.count_status(st);
            proof {
                let q = |e: (u64, Project)| crate::table::key_after(None, e.0) && has_status(
                    st,
                    e.1@,
                );
                self.project_entries().lemma_filter_len(q);
                assert(n <= self.project_entries().len());
            }
            let label = st.label();
            r.push((label, n as u32));
            i = i + 1;
        }
        r
    }

    /// Up to `limit` (10 by default, 30 at most) projects with status `status`
    /// after `start_after`, in ascending id order.
    pub fn get_projects_by_status(
        &self,
        status: ProjectStatus,
        limit: Option<u32>,
        start_after: Option<u64>,
    ) -> (r: Vec<Project>)
        requires
            self.wf(),
        ensures
            r@.map_values(|p: Project| p@) == cap(
                selected(self.project_entries(), start_after, |p: ProjectView| has_status(status, p)),
                page_limit(limit, 10, 30),
            ),
    {
        let pred = |p: &Project| -> (b: bool)
            ensures
                b == has_status(status, p@),
            { p.status == status };
        let n = page_size(limit, 10, 30);
        self.projects.select(start_after, n, pred, Ghost(|p: ProjectView| has_status(status, p)))
    }

    /// The stored admin, once instantiated.
    pub fn admin(&self) -> (r: Option<String>)
        ensures
            match r {
                Some(a) => self@.config matches Some(c) && a@ == c.admin,
                None => self@.config is None,
            },
    {
        if self.ready {
            Some(self.config.admin.clone())
        } else {
            None
        }
    }

    /// The stored denomination, once instantiated.
    pub fn denom(&self) -> (r: Option<String>)
        ensures
            match r {
                Some(d) => self@.config matches Some(c) && d@ == c.denom,
                None => self@.config is None,
            },
    {
        if self.ready {
            Some(self.config.denom.clone())
        } else {
            None
        }
    }

    /// The next project id, once instantiated.
    pub fn next_project_id(&self) -> (r: Option<u64>)
        ensures
            match r {
                Some(n) => self@.config matches Some(c) && n == c.next_project_id,
                None => self@.config is None,
            },
    {
        if self.ready {
            Some(self.config.next_project_id)
        } else {
            None
        }
    }

    /// What `donor` gave project `project_id` and has not had refunded.
    pub fn donation(&self, project_id: u64, donor: &String) -> (r: u128)
        requires
            self.wf(),
        ensures
            r == (if self@.donations.contains_key((project_id, donor@)) {
                self@.donations[(project_id, donor@)]
            } else {
                0
            }),
    {
        match self.donations.get(&(project_id, donor.clone())) {
            Some(a) => *a,
            None => 0,
        }
    }

    /// Writes a project record under `id` directly into storage.
    pub fn store_project(&mut self, id: u64, project: Project)
        requires
            old(self).wf(),
        ensures
            final(self).wf(),
            final(self)@ == (InitiativeView {
                projects: old(self)@.projects.insert(id, project@),
                ..old(self)@
            }),
    {
        self.projects.insert(id, project);
    }

    /// Writes the amount `donor` gave project `project_id` directly into storage.
    pub fn store_donation(&mut self, project_id: u64, donor: String, amount: u128)
        requires
            old(self).wf(),
        ensures
            final(self).wf(),
            final(self)@ == (InitiativeView {
                donations: old(self)@.donations.insert((project_id, donor@), amount),
                ..old(self)@
            }),
    {
        self.donations.insert((project_id, donor), amount);
    }

    /// Whether a donation meets the bound of `donate`.
    pub fn donation_fits(&self, ctx: &Context, project_id: u64) -> (r: bool)
        requires
            self.wf(),
        ensures
            r == donate_in_range(self@, *ctx, project_id),
    {
        let (status, total, goal) = match self.projects.get(project_id) {
            None => return true,
            Some(p) => (p.status, p.total_donated, p.goal),
        };
        if status != ProjectStatus::Fundraising || !self.ready {
            return true;
        }
        let d = match find_funds(&ctx.funds, &self.config.denom) {
            Some(a) => a,
            None => 0,
        };
        if d == 0 {
            return true;
        }
        if total > u128::MAX - d {
            return false;
        }
        if total + d > goal {
            return true;
        }
        let prev = match self.donations.get(&(project_id, ctx.sender.clone())) {
            Some(a) => *a,
            None => 0,
        };
        prev <= u128::MAX - d
    }

}

/// The statuses in declaration order.
pub open spec fn status_at(i: int) -> ProjectStatus {
    if i == 0 {
        ProjectStatus::Proposed
    } else if i == 1 {
        ProjectStatus::Fundraising
    } else if i == 2 {
        ProjectStatus::Funded
    } else if i == 3 {
        ProjectStatus::Disbursable
    } else if i == 4 {
        ProjectStatus::Completed
    } else {
        ProjectStatus::Cancelled
    }
}

/// Whether no project holds more donations than its goal.
pub open spec fn within_goals(s: InitiativeView) -> bool {
    forall|id: u64| #[trigger]
        s.projects.contains_key(id) ==> s.projects[id].total_donated <= s.projects[id].goal
}

/// Creating, donating to, and moving a project through its life cycle never
/// lets its donations pass its goal.
pub proof fn donations_stay_within_goal(
    s: InitiativeView,
    ctx: Context,
    id: u64,
    goal: u128,
    data: JsonPayload,
)
    requires
        within_goals(s),
    ensures
        create_project_spec(s, ctx, goal, data) is Ok ==> within_goals(
            create_project_spec(s, ctx, goal, data)->Ok_0.0,
        ),
        donate_spec(s, ctx, id) is Ok ==> within_goals(donate_spec(s, ctx, id)->Ok_0.0),
        cancel_spec(s, ctx, id) is Ok ==> within_goals(cancel_spec(s, ctx, id)->Ok_0.0),
        validate_spec(s, ctx, id) is Ok ==> within_goals(validate_spec(s, ctx, id)->Ok_0.0),
        unlock_spec(s, ctx, id) is Ok ==> within_goals(unlock_spec(s, ctx, id)->Ok_0.0),
        disburse_spec(s, ctx, id) is Ok ==> within_goals(disburse_spec(s, ctx, id)->Ok_0.0),
        refund_spec(s, ctx, id) is Ok ==> within_goals(refund_spec(s, ctx, id)->Ok_0.0),
{
}

/// A donation adds its amount to the project and to the donor's record, and
/// the project is funded exactly when its goal is reached.
pub proof fn donation_accumulates(s: InitiativeView, ctx: Context, id: u64)
    requires
        donate_spec(s, ctx, id) is Ok,
        donate_in_range(s, ctx, id),
    ensures
        ({
            let after = donate_spec(s, ctx, id)->Ok_0.0;
            let d = donation_of(s.config->Some_0, ctx);
            let key = (id, ctx.sender@);
            let prev: int = if s.donations.contains_key(key) {
                s.donations[key] as int
            } else {
                0
            };
            &&& after.projects[id].total_donated == s.projects[id].total_donated + d
            &&& after.donations[key] == prev + d
            &&& (after.projects[id].status == ProjectStatus::Funded)
                <==> (after.projects[id].total_donated == after.projects[id].goal)
        }),
{
}

/// A completed project is disbursed once: any further request is refused
/// as already completed.
pub proof fn disbursed_once(s: InitiativeView, ctx: Context, again: Context, id: u64)
    requires
        disburse_spec(s, ctx, id) is Ok,
    ensures
        disburse_spec(disburse_spec(s, ctx, id)->Ok_0.0, again, id) == Err::<
            (InitiativeView, Reply),
            ContractError,
        >(ContractError::AlreadyCompleted),
{
}

/// A donor is refunded once: asking again is refused as having nothing to
/// refund.
pub proof fn refunded_once(s: InitiativeView, ctx: Context, again: Context, id: u64)
    requires
        refund_spec(s, ctx, id) is Ok,
        again.sender@ == ctx.sender@,
    ensures
        refund_spec(refund_spec(s, ctx, id)->Ok_0.0, again, id) == Err::<
            (InitiativeView, Reply),
            ContractError,
        >(ContractError::NoRefundAvailable),
{
}

/// Disbursing pays the project's owner, whether the owner or the admin sent
/// the message: exactly one transfer of everything donated to the project,
/// in the configured denomination, and the project is completed with its
/// total unchanged.
pub proof fn disbursement_pays_owner(s: InitiativeView, ctx: Context, id: u64)
    requires
        disburse_spec(s, ctx, id) is Ok,
    ensures
        ({
            let (after, rep) = disburse_spec(s, ctx, id)->Ok_0;
            let p = s.projects[id];
            &&& s.config is Some
            &&& ctx.sender@ == p.owner || ctx.sender@ == s.config->Some_0.admin
            &&& p.status == ProjectStatus::Disbursable
            &&& rep.sends == seq![(p.owner, s.config->Some_0.denom, p.total_donated)]
            &&& rep.calls.len() == 0
            &&& after.projects[id].status == ProjectStatus::Completed
            &&& after.projects[id].owner == p.owner
            &&& after.projects[id].total_donated == p.total_donated
            &&& after.donations == s.donations
        }),
{
}

/// A refund pays the sender back exactly what the sender gave the cancelled
/// project (not what others gave), in one transfer, and forgets only that
/// donation: every other donor's record and every project stay as they were.
pub proof fn refund_returns_own_donation(
    s: InitiativeView,
    ctx: Context,
    id: u64,
    other: (u64, Seq<char>),
)
    requires
        refund_spec(s, ctx, id) is Ok,
    ensures
        ({
            let (after, rep) = refund_spec(s, ctx, id)->Ok_0;
            let key = (id, ctx.sender@);
            &&& s.config is Some
            &&& s.projects[id].status == ProjectStatus::Cancelled
            &&& s.donations.contains_key(key)
            &&& s.donations[key] > 0
            &&& rep.sends == seq![(ctx.sender@, s.config->Some_0.denom, s.donations[key])]
            &&& rep.calls.len() == 0
            &&& !after.donations.contains_key(key)
            &&& other != key ==> after.donations.contains_key(other) == s.donations.contains_key(other)
            &&& other != key && s.donations.contains_key(other) ==> after.donations[other]
                == s.donations[other]
            &&& after.projects == s.projects
        }),
{
}

/// The counts by status add up to the number of projects.
pub proof fn status_counts_add_up(entries: Seq<(u64, Project)>)
    ensures
        status_count(entries, ProjectStatus::Proposed) + status_count(
            entries,
            ProjectStatus::Fundraising,
        ) + status_count(entries, ProjectStatus::Funded) + status_count(
            entries,
            ProjectStatus::Disbursable,
        ) + status_count(entries, ProjectStatus::Completed) + status_count(
            entries,
            ProjectStatus::Cancelled,
        ) == entries.len(),
    decreases entries.len(),
{
    if entries.len() == 0 {
        assert forall|st: ProjectStatus| status_count(entries, st) == 0 by {
            let q = |e: (u64, Project)| crate::table::key_after(None, e.0) && has_status(st, e.1@);
            entries.lemma_filter_len(q);
        }
    } else {
        let init = entries.drop_last();
        let last = entries.last();
        status_counts_add_up(init);
        assert(entries =~= init.push(last));
        assert forall|st: ProjectStatus|
            status_count(entries, st) == status_count(init, st) + (if last.1@.status == st {
                1int
            } else {
                0
            }) by {
            let sp = |p: ProjectView| has_status(st, p);
            let q = |e: (u64, Project)| crate::table::key_after(None, e.0) && sp(e.1@);
            init.lemma_filter_push(last, q);
        }
    }
}

/// A cancelled project stays cancelled: validating, donating to, unlocking,
/// disbursing and cancelling it are refused, and a refund leaves its status.
pub proof fn cancelled_projects_stay_cancelled(s: InitiativeView, ctx: Context, id: u64)
    requires
        s.projects.contains_key(id),
        s.projects[id].status == ProjectStatus::Cancelled,
    ensures
        admin_error(s, ctx.sender@) is None ==> validate_spec(s, ctx, id) == Err::<
            (InitiativeView, Reply),
            ContractError,
        >(ContractError::Cancelled),
        admin_error(s, ctx.sender@) is None ==> unlock_spec(s, ctx, id) == Err::<
            (InitiativeView, Reply),
            ContractError,
        >(ContractError::Cancelled),
        donate_spec(s, ctx, id) == Err::<(InitiativeView, Reply), ContractError>(
            ContractError::Cancelled,
        ),
        disburse_spec(s, ctx, id) == Err::<(InitiativeView, Reply), ContractError>(
            ContractError::Cancelled,
        ),
        s.config is Some ==> cancel_spec(s, ctx, id) == Err::<(InitiativeView, Reply), ContractError>(
            ContractError::AlreadyCancelled,
        ),
        refund_spec(s, ctx, id) is Ok ==> refund_spec(s, ctx, id)->Ok_0.0.projects[id].status
            == ProjectStatus::Cancelled,
{
}

} // verus!
