//! Water well donations: the contract owner creates projects with a goal,
//! anyone donates up to the goal, and the project owner disburses a project
//! once its goal is reached.
use vstd::prelude::*;
use crate::actions::ExecuteActionView;
use crate::chain::{
    Context, Reply, Response, find_funds, first_amount, follows, page_limit, page_size, reply,
};
use crate::table::{Duplicate, IdTable, cap, entries_map, selected, strictly_sorted};
use crate::text::{decimal, u128_to_decimal, u64_to_decimal};

verus! {

/// The only denomination accepted for donations.
pub const UATOM: &'static str = "ustake";

/// A donation project.
#[derive(Debug, Clone, PartialEq, Eq)]
pub struct Project {
    pub id: u64,
    pub owner: String,
    pub goal: u128,
    pub total_donated: u128,
    pub funded: bool,
}

pub struct ProjectView {
    pub id: u64,
    pub owner: Seq<char>,
    pub goal: u128,
    pub total_donated: u128,
    pub funded: bool,
}

impl View for Project {
    type V = ProjectView;

    open spec fn view(&self) -> ProjectView {
        ProjectView {
            id: self.id,
            owner: self.owner@,
            goal: self.goal,
            total_donated: self.total_donated,
            funded: self.funded,
        }
    }
}

impl Duplicate for Project {
    fn duplicate(&self) -> (r: Self) {
        Project {
            id: self.id,
            owner: self.owner.clone(),
            goal: self.goal,
            total_donated: self.total_donated,
            funded: self.funded,
        }
    }
}

/// The errors of the donation contract.
#[derive(Debug, Clone, Copy, PartialEq, Eq, Structural)]
pub enum ContractError {
    /// A stored record or setting is missing.
    NotFound,
    ZeroGoal,
    NoDonation,
    ExceedGoal,
    Unauthorized,
    GoalNotMet,
    AlreadyDisbursed,
}

pub open spec fn error_text(e: ContractError) -> Seq<char> {
    match e {
        ContractError::NotFound => "Record not found"@,
        ContractError::ZeroGoal => "Goal must be greater than zero"@,
        ContractError::NoDonation => "No valid donation"@,
        ContractError::ExceedGoal => "Donation exceeds goal"@,
        ContractError::Unauthorized => "Unauthorized"@,
        ContractError::GoalNotMet => "Goal not reached yet"@,
        ContractError::AlreadyDisbursed => "Already disbursed"@,
    }
}

impl ContractError {
    /// The message of the error.
    pub fn message(&self) -> (r: String)
        ensures
            r@ == error_text(*self),
    {
        match self {
            ContractError::NotFound => String::from_str("Record not found"),
            ContractError::ZeroGoal => String::from_str("Goal must be greater than zero"),
            ContractError::NoDonation => String::from_str("No valid donation"),
            ContractError::ExceedGoal => String::from_str("Donation exceeds goal"),
            ContractError::Unauthorized => String::from_str("Unauthorized"),
            ContractError::GoalNotMet => String::from_str("Goal not reached yet"),
            ContractError::AlreadyDisbursed => String::from_str("Already disbursed"),
        }
    }
}

/// The storage of the donation contract.
pub struct WaterWellDonationContract {
    ready: bool,
    owner: String,
    next_id: u64,
    projects: IdTable<Project>,
}

/// The abstract storage: the owner and next id once instantiated, and the projects.
#[verifier::ext_equal]
pub struct DonationView {
    pub config: Option<(Seq<char>, u64)>,
    pub projects: Map<u64, ProjectView>,
}

impl View for WaterWellDonationContract {
    type V = DonationView;

    closed spec fn view(&self) -> DonationView {
        DonationView {
            config: if self.ready {
                Some((self.owner@, self.next_id))
            } else {
                None
            },
            projects: self.projects@,
        }
    }
}

pub open spec fn create_project_spec(s: DonationView, ctx: Context, goal: u128) -> Result<
    (DonationView, Reply),
    ContractError,
> {
    match s.config {
        None => Err(ContractError::NotFound),
        Some((owner, next)) => if ctx.sender@ != owner {
            Err(ContractError::Unauthorized)
        } else if goal == 0 {
            Err(ContractError::ZeroGoal)
        } else {
            let p = ProjectView {
                id: next,
                owner: ctx.sender@,
                goal,
                total_donated: 0,
                funded: false,
            };
            Ok(
                (
                    DonationView {
                        config: Some((owner, (next + 1) as u64)),
                        projects: s.projects.insert(next, p),
                    },
                    reply(
                        seq![
                            ("action"@, "create_project"@),
                            ("project_id"@, decimal(next as nat)),
                        ],
                    ),
                ),
            )
        },
    }
}

/// What the sender attached in the accepted denomination (zero when nothing).
pub open spec fn donation_of(ctx: Context) -> u128 {
    match first_amount(ctx.funds@, UATOM@) {
        Some(a) => a,
        None => 0,
    }
}

pub open spec fn donate_spec(s: DonationView, ctx: Context, id: u64) -> Result<
    (DonationView, Reply),
    ContractError,
> {
    if !s.projects.contains_key(id) {
        Err(ContractError::NotFound)
    } else {
        let p = s.projects[id];
        let d = donation_of(ctx);
        if d == 0 {
            Err(ContractError::NoDonation)
        } else if p.total_donated + d > p.goal {
            Err(ContractError::ExceedGoal)
        } else {
            Ok(
                (
                    DonationView {
                        projects: s.projects.insert(
                            id,
                            ProjectView { total_donated: (p.total_donated + d) as u128, ..p },
                        ),
                        ..s
                    },
                    reply(
                        seq![
                            ("action"@, "donate"@),
                            ("project_id"@, decimal(id as nat)),
                            ("donor"@, ctx.sender@),
                            ("amount"@, decimal(d as nat)),
                        ],
                    ),
                ),
            )
        }
    }
}

pub open spec fn disburse_spec(s: DonationView, ctx: Context, id: u64) -> Result<
    (DonationView, Reply),
    ContractError,
> {
    if !s.projects.contains_key(id) {
        Err(ContractError::NotFound)
    } else {
        let p = s.projects[id];
        if ctx.sender@ != p.owner {
            Err(ContractError::Unauthorized)
        } else if p.total_donated < p.goal {
            Err(ContractError::GoalNotMet)
        } else if p.funded {
            Err(ContractError::AlreadyDisbursed)
        } else {
            Ok(
                (
                    DonationView {
                        projects: s.projects.insert(id, ProjectView { funded: true, ..p }),
                        ..s
                    },
                    Reply {
                        attrs: seq![
                            ("action"@, "disburse"@),
                            ("project_id"@, decimal(id as nat)),
                            ("recipient"@, p.owner),
                            ("amount"@, decimal(p.total_donated as nat)),
                        ],
                        sends: seq![(p.owner, UATOM@, p.total_donated)],
                        calls: Seq::empty(),
                    },
                ),
            )
        }
    }
}

/// Accepts every project.
pub open spec fn any_project(p: ProjectView) -> bool {
    true
}

impl WaterWellDonationContract {
    pub closed spec fn wf(&self) -> bool {
        self.projects.wf()
    }

    /// The projects in ascending id order.
    pub closed spec fn project_entries(&self) -> Seq<(u64, Project)> {
        self.projects.entries()
    }

    /// The ordered projects are the map of the view.
    pub proof fn lemma_entries(&self)
        requires
            self.wf(),
        ensures
            strictly_sorted(self.project_entries()),
            entries_map(self.project_entries()) == self@.projects,
    {
    }

    /// A contract whose storage is empty, before instantiation.
    pub fn new() -> (r: Self)
        ensures
            r.wf(),
            r@ == (DonationView { config: None, projects: Map::empty() }),
    {
        WaterWellDonationContract {
            ready: false,
            owner: String::new(),
            next_id: 0,
            projects: IdTable::new(),
        }
    }

    /// Records the sender as owner and starts project ids at 1.
    pub fn instantiate(&mut self, ctx: &Context) -> (r: Response)
        requires
            old(self).wf(),
        ensures
            final(self).wf(),
            final(self)@ == (DonationView { config: Some((ctx.sender@, 1u64)), ..old(self)@ }),
            r.attrs() =~= seq![("method"@, "instantiate"@)],
            r.sends() =~= Seq::<(Seq<char>, Seq<char>, u128)>::empty(),
            r.calls() =~= Seq::<ExecuteActionView>::empty(),
    {
        self.owner = ctx.sender.clone();
        self.next_id = 1;
        self.ready = true;
        Response::new().add_attr("method", "instantiate")
    }

    /// The contract owner creates a project with a positive goal.
    pub fn create_project(&mut self, ctx: &Context, goal: u128) -> (r: Result<
        Response,
        ContractError,
    >)
        requires
            old(self).wf(),
            old(self)@.config matches Some((_, n)) ==> n < u64::MAX,
        ensures
            final(self).wf(),
            follows(r, old(self)@, final(self)@, create_project_spec(old(self)@, *ctx, goal)),
    {
        if !self.ready {
            return Err(ContractError::NotFound);
        }
        if ctx.sender != self.owner {
            return Err(ContractError::Unauthorized);
        }
        if goal == 0 {
            return Err(ContractError::ZeroGoal);
        }
        let id = self.next_id;
        let project = Project {
            id,
            owner: ctx.sender.clone(),
            goal,
            total_donated: 0,
            funded: false,
        };
        self.projects.insert(id, project);
        self.next_id = id + 1;
        Ok(
            Response::new().add_attr("action", "create_project").add_attribute(
                "project_id",
                u64_to_decimal(id),
            ),
        )
    }

    /// Adds the funds attached in the accepted denomination to a project, up to its goal.
    pub fn donate(&mut self, ctx: &Context, project_id: u64) -> (r: Result<Response, ContractError>)
        requires
            old(self).wf(),
            old(self)@.projects.contains_key(project_id) ==> old(self)@.projects[project_id].total_donated
                + donation_of(*ctx) <= u128::MAX,
        ensures
            final(self).wf(),
            follows(r, old(self)@, final(self)@, donate_spec(old(self)@, *ctx, project_id)),
    {
        let mut p = match self.projects.get(project_id) {
            None => return Err(ContractError::NotFound),
            Some(p) => p.duplicate(),
        };
        let denom = String::from_str(UATOM);
        let donation = match find_funds(&ctx.funds, &denom) {
            Some(a) => a,
            None => 0,
        };
        if donation == 0 {
            return Err(ContractError::NoDonation);
        }
        if p.total_donated + donation > p.goal {
            return Err(ContractError::ExceedGoal);
        }
        p.total_donated = p.total_donated + donation;
        self.projects.insert(project_id, p);
        Ok(
            Response::new().add_attr("action", "donate").add_attribute(
                "project_id",
                u64_to_decimal(project_id),
            ).add_attribute("donor", ctx.sender.clone()).add_attribute(
                "amount",
                u128_to_decimal(donation),
            ),
        )
    }

    /// The project owner takes the donations of a project that reached its goal, once.
    pub fn disburse(&mut self, ctx: &Context, project_id: u64) -> (r: Result<
        Response,
        ContractError,
    >)
        requires
            old(self).wf(),
        ensures
            final(self).wf(),
            follows(r, old(self)@, final(self)@, disburse_spec(old(self)@, *ctx, project_id)),
    {
        let mut p = match self.projects.get(project_id) {
            None => return Err(ContractError::NotFound),
            Some(p) => p.duplicate(),
        };
        if ctx.sender != p.owner {
            return Err(ContractError::Unauthorized);
        }
        if p.total_donated < p.goal {
            return Err(ContractError::GoalNotMet);
        }
        if p.funded {
            return Err(ContractError::AlreadyDisbursed);
        }
        p.funded = true;
        let owner = p.owner.clone();
        let total = p.total_donated;
        self.projects.insert(project_id, p);
        Ok(
            Response::new().add_send(owner.clone(), String::from_str(UATOM), total).add_attr(
                "action",
                "disburse",
            ).add_attribute("project_id", u64_to_decimal(project_id)).add_attribute(
                "recipient",
                owner,
            ).add_attribute("amount", u128_to_decimal(total)),
        )
    }

    /// The stored project.
    pub fn get_project(&self, project_id: u64) -> (r: Result<Project, ContractError>)
        requires
            self.wf(),
        ensures
            match r {
                Ok(p) => self@.projects.contains_key(project_id) && p@
                    == self@.projects[project_id],
                Err(e) => !self@.projects.contains_key(project_id) && e == ContractError::NotFound,
            },
    {
        match self.projects.get(project_id) {
            Some(p) => Ok(p.duplicate()),
            None => Err(ContractError::NotFound),
        }
    }

    /// Up to `limit` (10 by default, 30 at most) projects after `start_after`,
    /// in ascending id order.
    pub fn list_projects(&self, start_after: Option<u64>, limit: Option<u32>) -> (r: Vec<Project>)
        requires
            self.wf(),
        ensures
            r@.map_values(|p: Project| p@) == cap(
                selected(self.project_entries(), start_after, |p: ProjectView| any_project(p)),
                page_limit(limit, 10, 30),
            ),
    {
        let pred = |p: &Project| -> (b: bool)
            ensures
                b == any_project(p@),
            { true };
        let n = page_size(limit, 10, 30);
        self.projects.select(start_after, n, pred, Ghost(|p: ProjectView| any_project(p)))
    }

    /// The stored owner, once instantiated.
    pub fn owner(&self) -> (r: Option<String>)
        ensures
            match r {
                Some(a) => self@.config matches Some((o, _)) && a@ == o,
                None => self@.config is None,
            },
    {
        if self.ready {
            Some(self.owner.clone())
        } else {
            None
        }
    }

    /// The next project id, once instantiated.
    pub fn next_id(&self) -> (r: Option<u64>)
        ensures
            match r {
                Some(n) => self@.config matches Some((_, m)) && n == m,
                None => self@.config is None,
            },
    {
        if self.ready {
            Some(self.next_id)
        } else {
            None
        }
    }

    /// Writes a project record under `id` directly into storage.
    pub fn store_project(&mut self, id: u64, project: Project)
        requires
            old(self).wf(),
        ensures
            final(self).wf(),
            final(self)@ == (DonationView {
                projects: old(self)@.projects.insert(id, project@),
                ..old(self)@
            }),
    {
        self.projects.insert(id, project);
    }
}

/// Whether no project holds more donations than its goal.
pub open spec fn within_goals(s: DonationView) -> bool {
    forall|id: u64| #[trigger]
        s.projects.contains_key(id) ==> s.projects[id].total_donated <= s.projects[id].goal
}

/// Creating, donating to and disbursing projects never lets a project's
/// donations pass its goal.
pub proof fn donations_stay_within_goal(s: DonationView, ctx: Context, id: u64, goal: u128)
    requires
        within_goals(s),
    ensures
        create_project_spec(s, ctx, goal) is Ok ==> within_goals(
            create_project_spec(s, ctx, goal)->Ok_0.0,
        ),
        donate_spec(s, ctx, id) is Ok ==> within_goals(donate_spec(s, ctx, id)->Ok_0.0),
        disburse_spec(s, ctx, id) is Ok ==> within_goals(disburse_spec(s, ctx, id)->Ok_0.0),
{
}

/// A donation adds the attached amount to the project's total and changes
/// nothing else of it; disbursing pays the owner everything donated, once
/// the goal is met, in one transfer.
pub proof fn donations_reach_owner(s: DonationView, ctx: Context, id: u64)
    ensures
        donate_spec(s, ctx, id) is Ok ==> {
            let after = donate_spec(s, ctx, id)->Ok_0.0;
            &&& after.projects[id].total_donated == s.projects[id].total_donated + donation_of(ctx)
            &&& after.projects[id].goal == s.projects[id].goal
            &&& after.projects[id].owner == s.projects[id].owner
            &&& after.projects[id].funded == s.projects[id].funded
        },
        disburse_spec(s, ctx, id) is Ok ==> {
            let (after, rep) = disburse_spec(s, ctx, id)->Ok_0;
            let p = s.projects[id];
            &&& ctx.sender@ == p.owner
            &&& p.total_donated >= p.goal
            &&& rep.sends == seq![(p.owner, UATOM@, p.total_donated)]
            &&& after.projects[id].funded
            &&& after.projects[id].total_donated == p.total_donated
        },
{
}

/// A project is disbursed once: its owner is told it is already disbursed,
/// and no one succeeds again.
pub proof fn disbursed_once(s: DonationView, ctx: Context, again: Context, id: u64)
    requires
        disburse_spec(s, ctx, id) is Ok,
    ensures
        disburse_spec(disburse_spec(s, ctx, id)->Ok_0.0, again, id) is Err,
        again.sender@ == ctx.sender@ ==> disburse_spec(disburse_spec(s, ctx, id)->Ok_0.0, again, id)
            == Err::<(DonationView, Reply), ContractError>(ContractError::AlreadyDisbursed),
{
}

} // verus!
