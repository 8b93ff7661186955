//! The utility water footprint registry: companies log their water usage
//! and savings per period, the admin or a verifier validates the logs, and a
//! certificate is issued for a company and period whose validated logs save
//! enough water.
use vstd::prelude::*;
use crate::chain::{Context, Reply, Response, flag, follows, opt_view, page_limit, page_size, reply};
use crate::json::{JsonPayload, nonempty_text};
use crate::keyed::KeyTable;
use crate::table::{Duplicate, IdTable, cap, entries_map, selected, strictly_sorted};
use crate::text::{decimal, trim, trim_str, u64_to_decimal};

verus! {

/// The denomination used when instantiation names none.
pub const DEFAULT_DENOM: &'static str = "ustake";

/// Minimum net savings ratio in basis points (1000 = 10%) required to issue a certificate.
pub const MIN_SAVINGS_RATIO_BPS: u128 = 1000;

/// A registered company.
#[derive(Debug, Clone, PartialEq, Eq)]
pub struct Company {
    pub id: u64,
    pub owner: String,
    pub name: String,
    pub metadata_str: String,
}

pub struct CompanyView {
    pub id: u64,
    pub owner: Seq<char>,
    pub name: Seq<char>,
    pub metadata_str: Seq<char>,
}

impl View for Company {
    type V = CompanyView;

    open spec fn view(&self) -> CompanyView {
        CompanyView {
            id: self.id,
            owner: self.owner@,
            name: self.name@,
            metadata_str: self.metadata_str@,
        }
    }
}

impl Duplicate for Company {
    fn duplicate(&self) -> (r: Self) {
        Company {
            id: self.id,
            owner: self.owner.clone(),
            name: self.name.clone(),
            metadata_str: self.metadata_str.clone(),
        }
    }
}

/// The water a company used and saved in a period.
#[derive(Debug, Clone, PartialEq, Eq)]
pub struct UsageLog {
    pub id: u64,
    pub company_id: u64,
    pub period: String,
    pub usage: u128,
    pub savings: u128,
    pub validated: bool,
    pub validator: Option<String>,
    pub created_at: u64,
}

pub struct UsageLogView {
    pub id: u64,
    pub company_id: u64,
    pub period: Seq<char>,
    pub usage: u128,
    pub savings: u128,
    pub validated: bool,
    pub validator: Option<Seq<char>>,
    pub created_at: u64,
}

impl View for UsageLog {
    type V = UsageLogView;

    open spec fn view(&self) -> UsageLogView {
        UsageLogView {
            id: self.id,
            company_id: self.company_id,
            period: self.period@,
            usage: self.usage,
            savings: self.savings,
            validated: self.validated,
            validator: opt_view(self.validator),
            created_at: self.created_at,
        }
    }
}

fn copy_opt_string(o: &Option<String>) -> (r: Option<String>)
    ensures
        opt_view(r) == opt_view(*o),
{
    match o {
        Some(s) => Some(s.clone()),
        None => None,
    }
}

impl Duplicate for UsageLog {
    fn duplicate(&self) -> (r: Self) {
        UsageLog {
            id: self.id,
            company_id: self.company_id,
            period: self.period.clone(),
            usage: self.usage,
            savings: self.savings,
            validated: self.validated,
            validator: copy_opt_string(&self.validator),
            created_at: self.created_at,
        }
    }
}

/// A certificate of the water a company saved in a period.
#[derive(Debug, Clone, PartialEq, Eq)]
pub struct Certificate {
    pub id: u64,
    pub company_id: u64,
    pub period: String,
    pub total_usage: u128,
    pub total_savings: u128,
    pub issuer: String,
    pub issued_at: u64,
}

pub struct CertificateView {
    pub id: u64,
    pub company_id: u64,
    pub period: Seq<char>,
    pub total_usage: u128,
    pub total_savings: u128,
    pub issuer: Seq<char>,
    pub issued_at: u64,
}

impl View for Certificate {
    type V = CertificateView;

    open spec fn view(&self) -> CertificateView {
        CertificateView {
            id: self.id,
            company_id: self.company_id,
            period: self.period@,
            total_usage: self.total_usage,
            total_savings: self.total_savings,
            issuer: self.issuer@,
            issued_at: self.issued_at,
        }
    }
}

impl Duplicate for Certificate {
    fn duplicate(&self) -> (r: Self) {
        Certificate {
            id: self.id,
            company_id: self.company_id,
            period: self.period.clone(),
            total_usage: self.total_usage,
            total_savings: self.total_savings,
            issuer: self.issuer.clone(),
            issued_at: self.issued_at,
        }
    }
}

/// The errors of the registry.
#[derive(Debug, Clone, Copy, PartialEq, Eq, Structural)]
pub enum ContractError {
    /// A stored record or setting is missing.
    NotFound,
    Unauthorized,
    EmptyName,
    EmptyPeriod,
    ZeroUsage,
    IllogicalMetrics,
    AlreadyValidated,
    /// Not returned: unvalidated logs are left out of a certificate's totals.
    NotValidated,
    AlreadyIssued,
    CriteriaNotMet,
    VerifierAlreadyExists,
    VerifierNotFound,
    InvalidJson,
}

pub open spec fn error_text(e: ContractError) -> Seq<char> {
    match e {
        ContractError::NotFound => "Record not found"@,
        ContractError::Unauthorized => "Unauthorized"@,
        ContractError::EmptyName => "Company name is required"@,
        ContractError::EmptyPeriod => "Period is required"@,
        ContractError::ZeroUsage => "Usage amount must be greater than zero"@,
        ContractError::IllogicalMetrics => "Savings cannot exceed usage"@,
        ContractError::AlreadyValidated => "Usage log is already validated"@,
        ContractError::NotValidated => "Usage log is not validated"@,
        ContractError::AlreadyIssued => "Certificate already issued for this company and period"@,
        ContractError::CriteriaNotMet => "Validated logs do not meet certificate criteria"@,
        ContractError::VerifierAlreadyExists => "Verifier already exists"@,
        ContractError::VerifierNotFound => "Verifier not found"@,
        ContractError::InvalidJson => "Data is not valid json"@,
    }
}

impl ContractError {
    /// The message of the error.
    pub fn message(&self) -> (r: String)
        ensures
            r@ == error_text(*self),
    {
        match self {
            ContractError::NotFound => String::from_str("Record not found"),
            ContractError::Unauthorized => String::from_str("Unauthorized"),
            ContractError::EmptyName => String::from_str("Company name is required"),
            ContractError::EmptyPeriod => String::from_str("Period is required"),
            ContractError::ZeroUsage => String::from_str("Usage amount must be greater than zero"),
            ContractError::IllogicalMetrics => String::from_str("Savings cannot exceed usage"),
            ContractError::AlreadyValidated => String::from_str("Usage log is already validated"),
            ContractError::NotValidated => String::from_str("Usage log is not validated"),
            ContractError::AlreadyIssued => String::from_str(
                "Certificate already issued for this company and period",
            ),
            ContractError::CriteriaNotMet => String::from_str(
                "Validated logs do not meet certificate criteria",
            ),
            ContractError::VerifierAlreadyExists => String::from_str("Verifier already exists"),
            ContractError::VerifierNotFound => String::from_str("Verifier not found"),
            ContractError::InvalidJson => String::from_str("Data is not valid json"),
        }
    }
}

/// The serialized metadata: refused when it is an empty string, array or
/// object, or cannot be serialized.
pub fn serialize_metadata(metadata: &JsonPayload) -> (r: Result<String, ContractError>)
    ensures
        match nonempty_text(*metadata) {
            Some(t) => r matches Ok(s) && s@ == t@,
            None => r == Err::<String, ContractError>(ContractError::InvalidJson),
        },
{
    match metadata.nonempty() {
        Some(t) => Ok(t),
        None => Err(ContractError::InvalidJson),
    }
}

/// Whether the savings are at least `MIN_SAVINGS_RATIO_BPS` basis points of
/// the usage, with the scaled savings saturating at `u128::MAX`; never when
/// either total is zero.
pub open spec fn meets_threshold(total_usage: u128, total_savings: u128) -> bool {
    if total_usage == 0 || total_savings == 0 {
        false
    } else {
        let scaled: int = if total_savings * 10000 > u128::MAX {
            u128::MAX as int
        } else {
            total_savings * 10000
        };
        scaled / (total_usage as int) >= MIN_SAVINGS_RATIO_BPS
    }
}

/// Whether the totals earn a certificate.
pub fn meets_certificate_threshold(total_usage: u128, total_savings: u128) -> (r: bool)
    ensures
        r == meets_threshold(total_usage, total_savings),
{
    if total_usage == 0 || total_savings == 0 {
        return false;
    }
    let scaled: u128 = if total_savings > u128::MAX / 10000 {
        u128::MAX
    } else {
        total_savings * 10000
    };
    proof {
        assert(total_savings > u128::MAX / 10000 <==> total_savings * 10000 > u128::MAX)
            by (nonlinear_arith);
    }
    scaled / total_usage >= MIN_SAVINGS_RATIO_BPS
}

/// Whether a log counts toward the certificate of a company and period:
/// it is theirs and validated.
pub open spec fn counts(company_id: u64, period: Seq<char>, l: UsageLogView) -> bool {
    l.company_id == company_id && l.period == period && l.validated
}

/// The usage of the logs, added up.
pub open spec fn usage_total(logs: Seq<UsageLogView>) -> nat
    decreases logs.len(),
{
    if logs.len() == 0 {
        0
    } else {
        usage_total(logs.drop_last()) + logs.last().usage as nat
    }
}

/// The savings of the logs, added up.
pub open spec fn savings_total(logs: Seq<UsageLogView>) -> nat
    decreases logs.len(),
{
    if logs.len() == 0 {
        0
    } else {
        savings_total(logs.drop_last()) + logs.last().savings as nat
    }
}

/// The settings written at instantiation.
pub struct Config {
    pub admin: String,
    pub next_company_id: u64,
    pub next_log_id: u64,
    pub next_cert_id: u64,
    pub denom: String,
}

pub struct ConfigView {
    pub admin: Seq<char>,
    pub next_company_id: u64,
    pub next_log_id: u64,
    pub next_cert_id: u64,
    pub denom: Seq<char>,
}

impl View for Config {
    type V = ConfigView;

    open spec fn view(&self) -> ConfigView {
        ConfigView {
            admin: self.admin@,
            next_company_id: self.next_company_id,
            next_log_id: self.next_log_id,
            next_cert_id: self.next_cert_id,
            denom: self.denom@,
        }
    }
}

/// The storage of the registry.
pub struct UtilityWaterFootprintContract {
    ready: bool,
    config: Config,
    companies: IdTable<Company>,
    usage_logs: IdTable<UsageLog>,
    certificates: IdTable<Certificate>,
    cert_by_company_period: KeyTable<(u64, String), u64>,
    verifiers: KeyTable<String, bool>,
}

/// The abstract storage: the settings once instantiated, and each map.
#[verifier::ext_equal]
pub struct FootprintView {
    pub config: Option<ConfigView>,
    pub companies: Map<u64, CompanyView>,
    pub usage_logs: Map<u64, UsageLogView>,
    pub certificates: Map<u64, CertificateView>,
    pub cert_by_company_period: Map<(u64, Seq<char>), u64>,
    pub verifiers: Map<Seq<char>, bool>,
}

impl View for UtilityWaterFootprintContract {
    type V = FootprintView;

    closed spec fn view(&self) -> FootprintView {
        FootprintView {
            config: if self.ready {
                Some(self.config@)
            } else {
                None
            },
            companies: self.companies@,
            usage_logs: self.usage_logs@,
            certificates: self.certificates@,
            cert_by_company_period: self.cert_by_company_period@,
            verifiers: self.verifiers@,
        }
    }
}

/// The error of a message only the admin may send, if any.
pub open spec fn admin_error(s: FootprintView, sender: Seq<char>) -> Option<ContractError> {
    match s.config {
        None => Some(ContractError::NotFound),
        Some(c) => if c.admin != sender {
            Some(ContractError::Unauthorized)
        } else {
            None
        },
    }
}

/// The error of a message only the admin or a verifier may send, if any.
pub open spec fn verifier_error(s: FootprintView, sender: Seq<char>) -> Option<ContractError> {
    match s.config {
        None => Some(ContractError::NotFound),
        Some(c) => if c.admin == sender || flag(s.verifiers, sender) {
            None
        } else {
            Some(ContractError::Unauthorized)
        },
    }
}

/// The state after instantiation and its response.
pub open spec fn instantiate_spec(s: FootprintView, ctx: Context, denom: Option<Seq<char>>) -> (
    FootprintView,
    Reply,
) {
    let d = match denom {
        Some(d) => d,
        None => DEFAULT_DENOM@,
    };
    (
        FootprintView {
            config: Some(
                ConfigView {
                    admin: ctx.sender@,
                    next_company_id: 1,
                    next_log_id: 1,
                    next_cert_id: 1,
                    denom: d,
                },
            ),
            ..s
        },
        reply(seq![("method"@, "instantiate"@), ("denom"@, d)]),
    )
}

pub open spec fn register_company_spec(
    s: FootprintView,
    ctx: Context,
    name: Seq<char>,
    metadata: JsonPayload,
) -> Result<(FootprintView, Reply), ContractError> {
    let n = trim(name);
    if n.len() == 0 {
        Err(ContractError::EmptyName)
    } else {
        match nonempty_text(metadata) {
            None => Err(ContractError::InvalidJson),
            Some(t) => match s.config {
                None => Err(ContractError::NotFound),
                Some(c) => {
                    let id = c.next_company_id;
                    Ok(
                        (
                            FootprintView {
                                config: Some(ConfigView { next_company_id: (id + 1) as u64, ..c }),
                                companies: s.companies.insert(
                                    id,
                                    CompanyView {
                                        id,
                                        owner: ctx.sender@,
                                        name: n,
                                        metadata_str: t@,
                                    },
                                ),
                                ..s
                            },
                            reply(
                                seq![
                                    ("action"@, "register_company"@),
                                    ("company_id"@, decimal(id as nat)),
                                    ("owner"@, ctx.sender@),
                                    ("name"@, n),
                                ],
                            ),
                        ),
                    )
                },
            },
        }
    }
}

pub open spec fn log_usage_spec(
    s: FootprintView,
    ctx: Context,
    company_id: u64,
    period: Seq<char>,
    usage: u128,
    savings: u128,
) -> Result<(FootprintView, Reply), ContractError> {
    let p = trim(period);
    if !s.companies.contains_key(company_id) {
        Err(ContractError::NotFound)
    } else if ctx.sender@ != s.companies[company_id].owner {
        Err(ContractError::Unauthorized)
    } else if p.len() == 0 {
        Err(ContractError::EmptyPeriod)
    } else if usage == 0 {
        Err(ContractError::ZeroUsage)
    } else if savings > usage {
        Err(ContractError::IllogicalMetrics)
    } else {
        match s.config {
            None => Err(ContractError::NotFound),
            Some(c) => {
                let id = c.next_log_id;
                let log = UsageLogView {
                    id,
                    company_id,
                    period: p,
                    usage,
                    savings,
                    validated: false,
                    validator: None,
                    created_at: ctx.block_time,
                };
                Ok(
                    (
                        FootprintView {
                            config: Some(ConfigView { next_log_id: (id + 1) as u64, ..c }),
                            usage_logs: s.usage_logs.insert(id, log),
                            ..s
                        },
                        reply(
                            seq![
                                ("action"@, "log_usage"@),
                                ("log_id"@, decimal(id as nat)),
                                ("company_id"@, decimal(company_id as nat)),
                                ("period"@, p),
                            ],
                        ),
                    ),
                )
            },
        }
    }
}

pub open spec fn validate_log_spec(s: FootprintView, ctx: Context, log_id: u64) -> Result<
    (FootprintView, Reply),
    ContractError,
> {
    match verifier_error(s, ctx.sender@) {
        Some(e) => Err(e),
        None => if !s.usage_logs.contains_key(log_id) {
            Err(ContractError::NotFound)
        } else if s.usage_logs[log_id].validated {
            Err(ContractError::AlreadyValidated)
        } else {
            Ok(
                (
                    FootprintView {
                        usage_logs: s.usage_logs.insert(
                            log_id,
                            UsageLogView {
                                validated: true,
                                validator: Some(ctx.sender@),
                                ..s.usage_logs[log_id]
                            },
                        ),
                        ..s
                    },
                    reply(
                        seq![
                            ("action"@, "validate_log"@),
                            ("log_id"@, decimal(log_id as nat)),
                            ("validator"@, ctx.sender@),
                        ],
                    ),
                ),
            )
        },
    }
}

pub open spec fn add_verifier_spec(s: FootprintView, ctx: Context, verifier: Seq<char>) -> Result<
    (FootprintView, Reply),
    ContractError,
> {
    match admin_error(s, ctx.sender@) {
        Some(e) => Err(e),
        None => if flag(s.verifiers, verifier) {
            Err(ContractError::VerifierAlreadyExists)
        } else {
            Ok(
                (
                    FootprintView { verifiers: s.verifiers.insert(verifier, true), ..s },
                    reply(seq![("action"@, "add_verifier"@), ("verifier"@, verifier)]),
                ),
            )
        },
    }
}

pub open spec fn remove_verifier_spec(
    s: FootprintView,
    ctx: Context,
    verifier: Seq<char>,
) -> Result<(FootprintView, Reply), ContractError> {
    match admin_error(s, ctx.sender@) {
        Some(e) => Err(e),
        None => if !flag(s.verifiers, verifier) {
            Err(ContractError::VerifierNotFound)
        } else {
            Ok(
                (
                    FootprintView { verifiers: s.verifiers.remove(verifier), ..s },
                    reply(seq![("action"@, "remove_verifier"@), ("verifier"@, verifier)]),
                ),
            )
        },
    }
}

/// Whether a certificate request gets as far as adding up the logs.
pub open spec fn reaches_totals(s: FootprintView, ctx: Context, company_id: u64, period: Seq<char>) -> bool {
    &&& verifier_error(s, ctx.sender@) is None
    &&& trim(period).len() > 0
    &&& s.companies.contains_key(company_id)
    &&& !s.cert_by_company_period.contains_key((company_id, trim(period)))
}

/// Issuing the certificate of a company and period, where `counted` are the
/// logs that count toward it, in ascending id order.
pub open spec fn issue_certificate_spec(
    s: FootprintView,
    ctx: Context,
    company_id: u64,
    period: Seq<char>,
    counted: Seq<UsageLogView>,
) -> Result<(FootprintView, Reply), ContractError> {
    let p = trim(period);
    match verifier_error(s, ctx.sender@) {
        Some(e) => Err(e),
        None => if p.len() == 0 {
            Err(ContractError::EmptyPeriod)
        } else if !s.companies.contains_key(company_id) {
            Err(ContractError::NotFound)
        } else if s.cert_by_company_period.contains_key((company_id, p)) {
            Err(ContractError::AlreadyIssued)
        } else {
            let total_usage = usage_total(counted) as u128;
            let total_savings = savings_total(counted) as u128;
            if !meets_threshold(total_usage, total_savings) {
                Err(ContractError::CriteriaNotMet)
            } else {
                let c = s.config.unwrap();
                let id = c.next_cert_id;
                let cert = CertificateView {
                    id,
                    company_id,
                    period: p,
                    total_usage,
                    total_savings,
                    issuer: ctx.sender@,
                    issued_at: ctx.block_time,
                };
                Ok(
                    (
                        FootprintView {
                            config: Some(ConfigView { next_cert_id: (id + 1) as u64, ..c }),
                            certificates: s.certificates.insert(id, cert),
                            cert_by_company_period: s.cert_by_company_period.insert((company_id, p), id),
                            ..s
                        },
                        reply(
                            seq![
                                ("action"@, "issue_certificate"@),
                                ("certificate_id"@, decimal(id as nat)),
                                ("company_id"@, decimal(company_id as nat)),
                                ("period"@, p),
                            ],
                        ),
                    ),
                )
            }
        },
    }
}

/// Every company passes the listing filter.
pub open spec fn any_company(c: CompanyView) -> bool {
    true
}

/// Whether a log passes the optional company filter.
pub open spec fn log_matches(company_id: Option<u64>, l: UsageLogView) -> bool {
    company_id matches Some(id) ==> l.company_id == id
}

/// Whether a certificate passes the optional company filter.
pub open spec fn certificate_matches(company_id: Option<u64>, c: CertificateView) -> bool {
    company_id matches Some(id) ==> c.company_id == id
}

impl UtilityWaterFootprintContract {
    pub closed spec fn wf(&self) -> bool {
        &&& self.companies.wf()
        &&& self.usage_logs.wf()
        &&& self.certificates.wf()
        &&& self.cert_by_company_period.wf()
        &&& self.verifiers.wf()
    }

    /// The companies in ascending id order.
    pub closed spec fn company_entries(&self) -> Seq<(u64, Company)> {
        self.companies.entries()
    }

    /// The usage logs in ascending id order.
    pub closed spec fn log_entries(&self) -> Seq<(u64, UsageLog)> {
        self.usage_logs.entries()
    }

    /// The certificates in ascending id order.
    pub closed spec fn certificate_entries(&self) -> Seq<(u64, Certificate)> {
        self.certificates.entries()
    }

    /// The logs that count toward the certificate of a company and period,
    /// in ascending id order.
    pub open spec fn counted_logs(&self, company_id: u64, period: Seq<char>) -> Seq<UsageLogView> {
        selected(self.log_entries(), None, |l: UsageLogView| counts(company_id, period, l))
    }

    /// The ordered companies, logs and certificates are the maps of the view.
    pub proof fn lemma_entries(&self)
        requires
            self.wf(),
        ensures
            strictly_sorted(self.company_entries()),
            entries_map(self.company_entries()) == self@.companies,
            strictly_sorted(self.log_entries()),
            entries_map(self.log_entries()) == self@.usage_logs,
            strictly_sorted(self.certificate_entries()),
            entries_map(self.certificate_entries()) == self@.certificates,
    {
    }

    /// A registry whose storage is empty, before instantiation.
    pub fn new() -> (r: Self)
        ensures
            r.wf(),
            r@ == (FootprintView {
                config: None,
                companies: Map::empty(),
                usage_logs: Map::empty(),
                certificates: Map::empty(),
                cert_by_company_period: Map::empty(),
                verifiers: Map::empty(),
            }),
    {
        UtilityWaterFootprintContract {
            ready: false,
            config: Config {
                admin: String::new(),
                next_company_id: 0,
                next_log_id: 0,
                next_cert_id: 0,
                denom: String::new(),
            },
            companies: IdTable::new(),
            usage_logs: IdTable::new(),
            certificates: IdTable::new(),
            cert_by_company_period: KeyTable::new(),
            verifiers: KeyTable::new(),
        }
    }

    /// Records the sender as admin, starts every id counter at 1 and stores
    /// the denomination.
    pub fn instantiate(&mut self, ctx: &Context, denom: Option<String>) -> (r: Response)
        requires
            old(self).wf(),
        ensures
            final(self).wf(),
            final(self)@ == instantiate_spec(old(self)@, *ctx, opt_view(denom)).0,
            r.attrs() == instantiate_spec(old(self)@, *ctx, opt_view(denom)).1.attrs,
            r.sends() == instantiate_spec(old(self)@, *ctx, opt_view(denom)).1.sends,
            r.calls() == instantiate_spec(old(self)@, *ctx, opt_view(denom)).1.calls,
    {
        let d = match denom {
            Some(d) => d,
            None => String::from_str(DEFAULT_DENOM),
        };
        self.config = Config {
            admin: ctx.sender.clone(),
            next_company_id: 1,
            next_log_id: 1,
            next_cert_id: 1,
            denom: d.clone(),
        };
        self.ready = true;
        Response::new().add_attr("method", "instantiate").add_attribute("denom", d)
    }

    fn admin_check(&self, ctx: &Context) -> (r: Option<ContractError>)
        ensures
            r == admin_error(self@, ctx.sender@),
    {
        if !self.ready {
            Some(ContractError::NotFound)
        } else if ctx.sender != self.config.admin {
            Some(ContractError::Unauthorized)
        } else {
            None
        }
    }

    fn verifier_check(&self, ctx: &Context) -> (r: Option<ContractError>)
        requires
            self.wf(),
        ensures
            r == verifier_error(self@, ctx.sender@),
    {
        if !self.ready {
            return Some(ContractError::NotFound);
        }
        if ctx.sender == self.config.admin {
            return None;
        }
        let listed = match self.verifiers.get(&ctx.sender) {
            Some(v) => *v,
            None => false,
        };
        if listed {
            None
        } else {
            Some(ContractError::Unauthorized)
        }
    }

    /// Registers a company owned by the sender, under its trimmed name.
    pub fn register_company(&mut self, ctx: &Context, name: &str, metadata: &JsonPayload) -> (r:
        Result<Response, ContractError>)
        requires
            old(self).wf(),
            old(self)@.config matches Some(c) ==> c.next_company_id < u64::MAX,
        ensures
            final(self).wf(),
            follows(
                r,
                old(self)@,
                final(self)@,
                register_company_spec(old(self)@, *ctx, name@, *metadata),
            ),
    {
        let name = trim_str(name);
        if name.as_str().unicode_len() == 0 {
            return Err(ContractError::EmptyName);
        }
        let metadata_str = match serialize_metadata(metadata) {
            Ok(t) => t,
            Err(e) => return Err(e),
        };
        if !self.ready {
            return Err(ContractError::NotFound);
        }
        let id = self.config.next_company_id;
        let company = Company {
            id,
            owner: ctx.sender.clone(),
            name: name.clone(),
            metadata_str,
        };
        self.companies.insert(id, company);
        self.config.next_company_id = id + 1;
        Ok(
            Response::new().add_attr("action", "register_company").add_attribute(
                "company_id",
                u64_to_decimal(id),
            ).add_attribute("owner", ctx.sender.clone()).add_attribute("name", name),
        )
    }

    /// The owner of a company logs its usage and savings for a period.
    pub fn log_usage(
        &mut self,
        ctx: &Context,
        company_id: u64,
        period: &str,
        usage: u128,
        savings: u128,
    ) -> (r: Result<Response, ContractError>)
        requires
            old(self).wf(),
            old(self)@.config matches Some(c) ==> c.next_log_id < u64::MAX,
        ensures
            final(self).wf(),
            follows(
                r,
                old(self)@,
                final(self)@,
                log_usage_spec(old(self)@, *ctx, company_id, period@, usage, savings),
            ),
    {
        match self.companies.get(company_id) {
            None => return Err(ContractError::NotFound),
            Some(c) => {
                if ctx.sender != c.owner {
                    return Err(ContractError::Unauthorized);
                }
            },
        }
        let period = trim_str(period);
        if period.as_str().unicode_len() == 0 {
            return Err(ContractError::EmptyPeriod);
        }
        if usage == 0 {
            return Err(ContractError::ZeroUsage);
        }
        if savings > usage {
            return Err(ContractError::IllogicalMetrics);
        }
        if !self.ready {
            return Err(ContractError::NotFound);
        }
        let id = self.config.next_log_id;
        let log = UsageLog {
            id,
            company_id,
            period: period.clone(),
            usage,
            savings,
            validated: false,
            validator: None,
            created_at: ctx.block_time,
        };
        self.usage_logs.insert(id, log);
        self.config.next_log_id = id + 1;
        Ok(
            Response::new().add_attr("action", "log_usage").add_attribute(
                "log_id",
                u64_to_decimal(id),
            ).add_attribute("company_id", u64_to_decimal(company_id)).add_attribute(
                "period",
                period,
            ),
        )
    }

    /// The admin or a verifier validates a usage log.
    pub fn validate_log(&mut self, ctx: &Context, log_id: u64) -> (r: Result<
        Response,
        ContractError,
    >)
        requires
            old(self).wf(),
        ensures
            final(self).wf(),
            follows(r, old(self)@, final(self)@, validate_log_spec(old(self)@, *ctx, log_id)),
    {
        if let Some(e) = self.verifier_check(ctx) {
            return Err(e);
        }
        let updated = match self.usage_logs.get(log_id) {
            None => return Err(ContractError::NotFound),
            Some(l) => {
                if l.validated {
                    return Err(ContractError::AlreadyValidated);
                }
                let mut l = l.duplicate();
                l.validated = true;
                l.validator = Some(ctx.sender.clone());
                l
            },
        };
        self.usage_logs.insert(log_id, updated);
        Ok(
            Response::new().add_attr("action", "validate_log").add_attribute(
                "log_id",
                u64_to_decimal(log_id),
            ).add_attribute("validator", ctx.sender.clone()),
        )
    }

    /// The admin adds a verifier.
    pub fn add_verifier(&mut self, ctx: &Context, verifier: String) -> (r: Result<
        Response,
        ContractError,
    >)
        requires
            old(self).wf(),
        ensures
            final(self).wf(),
            follows(r, old(self)@, final(self)@, add_verifier_spec(old(self)@, *ctx, verifier@)),
    {
        if let Some(e) = self.admin_check(ctx) {
            return Err(e);
        }
        if let Some(v) = self.verifiers.get(&verifier) {
            if *v {
                return Err(ContractError::VerifierAlreadyExists);
            }
        }
        self.verifiers.insert(verifier.clone(), true);
        Ok(Response::new().add_attr("action", "add_verifier").add_attribute("verifier", verifier))
    }

    /// The admin removes a verifier.
    pub fn remove_verifier(&mut self, ctx: &Context, verifier: String) -> (r: Result<
        Response,
        ContractError,
    >)
        requires
            old(self).wf(),
        ensures
            final(self).wf(),
            follows(
                r,
                old(self)@,
                final(self)@,
                remove_verifier_spec(old(self)@, *ctx, verifier@),
            ),
    {
        if let Some(e) = self.admin_check(ctx) {
            return Err(e);
        }
        let listed = match self.verifiers.get(&verifier) {
            Some(v) => *v,
            None => false,
        };
        if !listed {
            return Err(ContractError::VerifierNotFound);
        }
        self.verifiers.remove(&verifier);
        Ok(
            Response::new().add_attr("action", "remove_verifier").add_attribute(
                "verifier",
                verifier,
            ),
        )
    }

    /// The usage and savings of the validated logs of a company and period.
    fn sum_validated_logs(&self, company_id: u64, period: &String) -> (r: (u128, u128))
        requires
            self.wf(),
            usage_total(self.counted_logs(company_id, period@)) <= u128::MAX,
            savings_total(self.counted_logs(company_id, period@)) <= u128::MAX,
        ensures
            r.0 == usage_total(self.counted_logs(company_id, period@)),
            r.1 == savings_total(self.counted_logs(company_id, period@)),
    {
        let ghost counted = self.counted_logs(company_id, period@);
        let pred = |l: &UsageLog| -> (b: bool)
            ensures
                b == counts(company_id, period@, l@),
            { l.company_id == company_id && l.period == *period && l.validated };
        let n_all = self.usage_logs.len();
        proof {
            self.log_entries().lemma_filter_len(
                |e: (u64, UsageLog)| crate::table::key_after(None, e.0) && counts(company_id, period@, e.1@),
            );
        }
        let logs = self.usage_logs.select(
            None,
            usize::MAX,
            pred,
            Ghost(|l: UsageLogView| counts(company_id, period@, l)),
        );
        assert(logs@.map_values(|l: UsageLog| l@) == counted);
        let mut total_usage: u128 = 0;
        let mut total_savings: u128 = 0;
        let mut i: usize = 0;
        while i < logs.len()
            invariant
                logs@.map_values(|l: UsageLog| l@) == counted,
                usage_total(counted) <= u128::MAX,
                savings_total(counted) <= u128::MAX,
                i <= logs@.len(),
                total_usage == usage_total(counted.take(i as int)),
                total_savings == savings_total(counted.take(i as int)),
            decreases logs@.len() - i,
        {
            assert(counted.take(i + 1).drop_last() =~= counted.take(i as int));
            assert(counted[i as int] == logs@[i as int]@);
            proof {
                lemma_totals_prefix(counted, i + 1);
            }
            total_usage = total_usage + logs[i].usage;
            total_savings = total_savings + logs[i].savings;
            i = i + 1;
        }
        assert(counted.take(logs@.len() as int) =~= counted);
        (total_usage, total_savings)
    }

    /// The admin or a verifier issues the certificate of a company and
    /// period whose validated logs meet the savings threshold.
    pub fn issue_certificate(&mut self, ctx: &Context, company_id: u64, period: &str) -> (r:
        Result<Response, ContractError>)
        requires
            old(self).wf(),
            old(self)@.config matches Some(c) ==> c.next_cert_id < u64::MAX,
            reaches_totals(old(self)@, *ctx, company_id, period@) ==> {
                &&& usage_total(old(self).counted_logs(company_id, trim(period@))) <= u128::MAX
                &&& savings_total(old(self).counted_logs(company_id, trim(period@))) <= u128::MAX
            },
        ensures
            final(self).wf(),
            follows(
                r,
                old(self)@,
                final(self)@,
                issue_certificate_spec(
                    old(self)@,
                    *ctx,
                    company_id,
                    period@,
                    old(self).counted_logs(company_id, trim(period@)),
                ),
            ),
    {
        if let Some(e) = self.verifier_check(ctx) {
            return Err(e);
        }
        let period = trim_str(period);
        if period.as_str().unicode_len() == 0 {
            return Err(ContractError::EmptyPeriod);
        }
        if !self.companies.contains(company_id) {
            return Err(ContractError::NotFound);
        }
        let key = (company_id, period.clone());
        if self.cert_by_company_period.contains(&key) {
            return Err(ContractError::AlreadyIssued);
        }
        let (total_usage, total_savings) = self.sum_validated_logs(company_id, &period);
        if !meets_certificate_threshold(total_usage, total_savings) {
            return Err(ContractError::CriteriaNotMet);
        }
        let id = self.config.next_cert_id;
        let cert = Certificate {
            id,
            company_id,
            period: period.clone(),
            total_usage,
            total_savings,
            issuer: ctx.sender.clone(),
            issued_at: ctx.block_time,
        };
        self.certificates.insert(id, cert);
        self.cert_by_company_period.insert(key, id);
        self.config.next_cert_id = id + 1;
        Ok(
            Response::new().add_attr("action", "issue_certificate").add_attribute(
                "certificate_id",
                u64_to_decimal(id),
            ).add_attribute("company_id", u64_to_decimal(company_id)).add_attribute(
                "period",
                period,
            ),
        )
    }

    /// The stored company.
    pub fn get_company(&self, company_id: u64) -> (r: Result<Company, ContractError>)
        requires
            self.wf(),
        ensures
            match r {
                Ok(c) => self@.companies.contains_key(company_id) && c@
                    == self@.companies[company_id],
                Err(e) => !self@.companies.contains_key(company_id) && e
                    == ContractError::NotFound,
            },
    {
        match self.companies.get(company_id) {
            Some(c) => Ok(c.duplicate()),
            None => Err(ContractError::NotFound),
        }
    }

    /// Up to `limit` (10 by default, 30 at most) companies after
    /// `start_after`, in ascending id order.
    pub fn list_companies(&self, limit: Option<u32>, start_after: Option<u64>) -> (r: Vec<Company>)
        requires
            self.wf(),
        ensures
            r@.map_values(|c: Company| c@) == cap(
                selected(self.company_entries(), start_after, |c: CompanyView| any_company(c)),
                page_limit(limit, 10, 30),
            ),
    {
        let pred = |c: &Company| -> (k: bool)
            ensures
                k == any_company(c@),
            { true };
        let n = page_size(limit, 10, 30);
        self.companies.select(start_after, n, pred, Ghost(|c: CompanyView| any_company(c)))
    }

    /// Up to `limit` (10 by default, 30 at most) usage logs after
    /// `start_after`, of the given company if one is named, in ascending id order.
    pub fn list_logs(&self, company_id: Option<u64>, limit: Option<u32>, start_after: Option<u64>) -> (r:
        Vec<UsageLog>)
        requires
            self.wf(),
        ensures
            r@.map_values(|l: UsageLog| l@) == cap(
                selected(self.log_entries(), start_after, |l: UsageLogView| log_matches(company_id, l)),
                page_limit(limit, 10, 30),
            ),
    {
        let pred = |l: &UsageLog| -> (k: bool)
            ensures
                k == log_matches(company_id, l@),
            {
                match company_id {
                    Some(id) => l.company_id == id,
                    None => true,
                }
            };
        let n = page_size(limit, 10, 30);
        self.usage_logs.select(
            start_after,
            n,
            pred,
            Ghost(|l: UsageLogView| log_matches(company_id, l)),
        )
    }

    /// The stored certificate.
    pub fn get_certificate(&self, certificate_id: u64) -> (r: Result<Certificate, ContractError>)
        requires
            self.wf(),
        ensures
            match r {
                Ok(c) => self@.certificates.contains_key(certificate_id) && c@
                    == self@.certificates[certificate_id],
                Err(e) => !self@.certificates.contains_key(certificate_id) && e
                    == ContractError::NotFound,
            },
    {
        match self.certificates.get(certificate_id) {
            Some(c) => Ok(c.duplicate()),
            None => Err(ContractError::NotFound),
        }
    }

    /// Up to `limit` (10 by default, 30 at most) certificates after
    /// `start_after`, of the given company if one is named, in ascending id order.
    pub fn list_certificates(
        &self,
        company_id: Option<u64>,
        limit: Option<u32>,
        start_after: Option<u64>,
    ) -> (r: Vec<Certificate>)
        requires
            self.wf(),
        ensures
            r@.map_values(|c: Certificate| c@) == cap(
                selected(
                    self.certificate_entries(),
                    start_after,
                    |c: CertificateView| certificate_matches(company_id, c),
                ),
                page_limit(limit, 10, 30),
            ),
    {
        let pred = |c: &Certificate| -> (k: bool)
            ensures
                k == certificate_matches(company_id, c@),
            {
                match company_id {
                    Some(id) => c.company_id == id,
                    None => true,
                }
            };
        let n = page_size(limit, 10, 30);
        self.certificates.select(
            start_after,
            n,
            pred,
            Ghost(|c: CertificateView| certificate_matches(company_id, c)),
        )
    }

    /// Whether `address` is a stored verifier.
    pub fn is_verifier(&self, address: &String) -> (r: bool)
        requires
            self.wf(),
        ensures
            r == flag(self@.verifiers, address@),
    {
        match self.verifiers.get(address) {
            Some(v) => *v,
            None => false,
        }
    }

    /// The next company, log and certificate ids, once instantiated.
    pub fn next_ids(&self) -> (r: Option<(u64, u64, u64)>)
        ensures
            match r {
                Some((c, l, t)) => self@.config matches Some(k) && c == k.next_company_id && l
                    == k.next_log_id && t == k.next_cert_id,
                None => self@.config is None,
            },
    {
        if self.ready {
            Some((self.config.next_company_id, self.config.next_log_id, self.config.next_cert_id))
        } else {
            None
        }
    }


    /// Whether the validated logs of a company and period fit the totals, as
    /// `issue_certificate` needs when it gets as far as adding them up.
    pub fn certificate_fits(&self, ctx: &Context, company_id: u64, period: &str) -> (r: bool)
        requires
            self.wf(),
        ensures
            r == (reaches_totals(self@, *ctx, company_id, period@) ==> {
                &&& usage_total(self.counted_logs(company_id, trim(period@))) <= u128::MAX
                &&& savings_total(self.counted_logs(company_id, trim(period@))) <= u128::MAX
            }),
    {
        let ghost raw = period@;
        if self.verifier_check(ctx).is_some() {
            return true;
        }
        let trimmed = trim_str(period);
        if trimmed.as_str().unicode_len() == 0 || !self.companies.contains(company_id) {
            return true;
        }
        if self.cert_by_company_period.contains(&(company_id, trimmed.clone())) {
            return true;
        }
        let ghost counted = self.counted_logs(company_id, trimmed@);
        let pred = |l: &UsageLog| -> (b: bool)
            ensures
                b == counts(company_id, trimmed@, l@),
            { l.company_id == company_id && l.period == trimmed && l.validated };
        let n_all = self.usage_logs.len();
        proof {
            self.log_entries().lemma_filter_len(
                |e: (u64, UsageLog)| crate::table::key_after(None, e.0) && counts(company_id, trimmed@, e.1@),
            );
        }
        let logs = self.usage_logs.select(
            None,
            usize::MAX,
            pred,
            Ghost(|l: UsageLogView| counts(company_id, trimmed@, l)),
        );
        assert(logs@.map_values(|l: UsageLog| l@) == counted);
        let mut total_usage: u128 = 0;
        let mut total_savings: u128 = 0;
        let mut i: usize = 0;
        while i < logs.len()
            invariant
                logs@.map_values(|l: UsageLog| l@) == counted,
                raw == period@,
                reaches_totals(self@, *ctx, company_id, raw),
                counted == self.counted_logs(company_id, trim(raw)),
                i <= logs@.len(),
                total_usage == usage_total(counted.take(i as int)),
                total_savings == savings_total(counted.take(i as int)),
            decreases logs@.len() - i,
        {
            assert(counted.take(i + 1).drop_last() =~= counted.take(i as int));
            assert(counted[i as int] == logs@[i as int]@);
            proof {
                lemma_totals_prefix(counted, i + 1);
            }
            if total_usage > u128::MAX - logs[i].usage || total_savings > u128::MAX
                - logs[i].savings {
                proof {
                    assert(usage_total(counted.take(i + 1)) == total_usage + counted[i as int].usage);
                    assert(savings_total(counted.take(i + 1)) == total_savings
                        + counted[i as int].savings);
                    assert(counted[i as int].usage == logs[i as int].usage);
                    assert(counted[i as int].savings == logs[i as int].savings);
                }
                return false;
            }
            total_usage = total_usage + logs[i].usage;
            total_savings = total_savings + logs[i].savings;
            i = i + 1;
        }
        assert(counted.take(logs@.len() as int) =~= counted);
        true
    }

}

/// The totals of a prefix never exceed those of the whole sequence.
proof fn lemma_totals_prefix(s: Seq<UsageLogView>, k: int)
    requires
        0 <= k <= s.len(),
    ensures
        usage_total(s.take(k)) <= usage_total(s),
        savings_total(s.take(k)) <= savings_total(s),
    decreases s.len() - k,
{
    if k < s.len() {
        lemma_totals_prefix(s, k + 1);
        assert(s.take(k + 1).drop_last() =~= s.take(k));
    } else {
        assert(s.take(k) =~= s);
    }
}

/// A certificate is issued once per company and period: asking again is
/// refused as already issued, whatever the logs then hold.
pub proof fn certificate_issued_once(
    s: FootprintView,
    ctx: Context,
    company_id: u64,
    period: Seq<char>,
    counted: Seq<UsageLogView>,
    counted_again: Seq<UsageLogView>,
)
    requires
        issue_certificate_spec(s, ctx, company_id, period, counted) is Ok,
    ensures
        issue_certificate_spec(
            issue_certificate_spec(s, ctx, company_id, period, counted)->Ok_0.0,
            ctx,
            company_id,
            period,
            counted_again,
        ) == Err::<(FootprintView, Reply), ContractError>(ContractError::AlreadyIssued),
{
}

/// Where the scaled savings fit in `u128`, the threshold is met exactly
/// when there are savings and they are at least a tenth of the usage.
pub proof fn threshold_is_a_tenth(total_usage: u128, total_savings: u128)
    requires
        total_savings * 10000 <= u128::MAX,
    ensures
        meets_threshold(total_usage, total_savings) <==> (total_usage > 0 && total_savings > 0
            && 10 * total_savings >= total_usage),
{
    if total_usage > 0 && total_savings > 0 {
        let x: int = total_savings * 10000;
        let u: int = total_usage as int;
        assert(x / u >= 1000 <==> x >= 1000 * u) by (nonlinear_arith)
            requires
                u > 0,
                x >= 0,
        ;
    }
}

/// Whether every stored log has some usage and saves no more than it uses.
pub open spec fn logs_logical(s: FootprintView) -> bool {
    forall|id: u64| #[trigger]
        s.usage_logs.contains_key(id) ==> 0 < s.usage_logs[id].usage && s.usage_logs[id].savings
            <= s.usage_logs[id].usage
}

/// Logging and validating usage keep every log's savings within its usage.
pub proof fn logs_stay_logical(
    s: FootprintView,
    ctx: Context,
    company_id: u64,
    period: Seq<char>,
    usage: u128,
    savings: u128,
    log_id: u64,
)
    requires
        logs_logical(s),
    ensures
        log_usage_spec(s, ctx, company_id, period, usage, savings) is Ok ==> logs_logical(
            log_usage_spec(s, ctx, company_id, period, usage, savings)->Ok_0.0,
        ),
        validate_log_spec(s, ctx, log_id) is Ok ==> logs_logical(
            validate_log_spec(s, ctx, log_id)->Ok_0.0,
        ),
{
}

/// Totals of logs that each save no more than they use save no more than
/// they use.
proof fn lemma_savings_within_usage(logs: Seq<UsageLogView>)
    requires
        forall|i: int| 0 <= i < logs.len() ==> #[trigger] logs[i].savings <= logs[i].usage,
    ensures
        savings_total(logs) <= usage_total(logs),
    decreases logs.len(),
{
    if logs.len() > 0 {
        lemma_savings_within_usage(logs.drop_last());
        assert(logs.last() == logs[logs.len() - 1]);
    }
}

/// A certificate over logs that each save no more than they use certifies
/// savings within its usage.
pub proof fn certificate_savings_within_usage(
    s: FootprintView,
    ctx: Context,
    company_id: u64,
    period: Seq<char>,
    counted: Seq<UsageLogView>,
)
    requires
        issue_certificate_spec(s, ctx, company_id, period, counted) is Ok,
        usage_total(counted) <= u128::MAX,
        forall|i: int| 0 <= i < counted.len() ==> #[trigger] counted[i].savings <= counted[i].usage,
    ensures
        ({
            let after = issue_certificate_spec(s, ctx, company_id, period, counted)->Ok_0.0;
            let id = s.config->Some_0.next_cert_id;
            &&& after.certificates.contains_key(id)
            &&& after.certificates[id].total_savings <= after.certificates[id].total_usage
            &&& after.certificates[id].total_usage == usage_total(counted)
        }),
{
    lemma_savings_within_usage(counted);
}

} // verus!
