//! The citizen science registry: citizens propose sensors, the admin
//! activates them, anyone submits data for an active sensor, verifiers verify
//! the data and the admin rewards the submitter with the funds sent along.
use vstd::prelude::*;
use crate::chain::{
    Context, Reply, Response, find_funds, first_amount, flag, follows, opt_view, page_limit,
    page_size, reply,
};
use crate::digest::{content_hash, hash_text};
use crate::json::{JsonPayload, nonempty_text};
use crate::keyed::KeyTable;
use crate::order::{descending, reversed, sort_ascending};
use crate::table::{
    Duplicate, IdTable, cap, entries_map, key_after, lemma_page_in_key_order, selected,
    strictly_sorted,
};
use crate::text::{decimal, u128_to_decimal, u64_to_decimal};

verus! {

/// The denomination used when instantiation names none.
pub const DEFAULT_DENOM: &'static str = "ustake";

/// The life cycle of a sensor.
#[derive(Debug, Clone, Copy, PartialEq, Eq, Structural)]
pub enum SensorStatus {
    Proposed,
    Active,
    Inactive,
}

/// The display name of a status.
pub open spec fn status_label(s: SensorStatus) -> Seq<char> {
    match s {
        SensorStatus::Proposed => "Proposed"@,
        SensorStatus::Active => "Active"@,
        SensorStatus::Inactive => "Inactive"@,
    }
}

impl SensorStatus {
    /// The display name of the status.
    pub fn label(&self) -> (r: String)
        ensures
            r@ == status_label(*self),
    {
        match self {
            SensorStatus::Proposed => String::from_str("Proposed"),
            SensorStatus::Active => String::from_str("Active"),
            SensorStatus::Inactive => String::from_str("Inactive"),
        }
    }
}

impl Default for SensorStatus {
    fn default() -> (r: Self)
        ensures
            r == SensorStatus::Proposed,
    {
        SensorStatus::Proposed
    }
}

/// A sensor proposed by its owner.
#[derive(Debug, Clone, PartialEq, Eq)]
pub struct Sensor {
    pub id: u64,
    pub owner: String,
    pub data_str: String,
    pub status: SensorStatus,
    pub created_at: u64,
    pub updated_at: u64,
}

pub struct SensorView {
    pub id: u64,
    pub owner: Seq<char>,
    pub data_str: Seq<char>,
    pub status: SensorStatus,
    pub created_at: u64,
    pub updated_at: u64,
}

impl View for Sensor {
    type V = SensorView;

    open spec fn view(&self) -> SensorView {
        SensorView {
            id: self.id,
            owner: self.owner@,
            data_str: self.data_str@,
            status: self.status,
            created_at: self.created_at,
            updated_at: self.updated_at,
        }
    }
}

impl Duplicate for Sensor {
    fn duplicate(&self) -> (r: Self) {
        Sensor {
            id: self.id,
            owner: self.owner.clone(),
            data_str: self.data_str.clone(),
            status: self.status,
            created_at: self.created_at,
            updated_at: self.updated_at,
        }
    }
}

/// A data submission for a sensor.
#[derive(Debug, Clone, PartialEq, Eq)]
pub struct DataEntry {
    pub id: u64,
    pub sensor_id: u64,
    pub submitter: String,
    pub data_str: String,
    pub verified: bool,
    pub verifier: Option<String>,
    pub rewarded: bool,
    pub created_at: u64,
    pub updated_at: u64,
}

pub struct DataEntryView {
    pub id: u64,
    pub sensor_id: u64,
    pub submitter: Seq<char>,
    pub data_str: Seq<char>,
    pub verified: bool,
    pub verifier: Option<Seq<char>>,
    pub rewarded: bool,
    pub created_at: u64,
    pub updated_at: u64,
}

impl View for DataEntry {
    type V = DataEntryView;

    open spec fn view(&self) -> DataEntryView {
        DataEntryView {
            id: self.id,
            sensor_id: self.sensor_id,
            submitter: self.submitter@,
            data_str: self.data_str@,
            verified: self.verified,
            verifier: opt_view(self.verifier),
            rewarded: self.rewarded,
            created_at: self.created_at,
            updated_at: self.updated_at,
        }
    }
}

fn copy_opt_string(o: &Option<String>) -> (r: Option<String>)
    ensures
        opt_view(r) == opt_view(*o),
{
    match o {
        Some(s) => Some(s.clone()),
        None => None,
    }
}

impl Duplicate for DataEntry {
    fn duplicate(&self) -> (r: Self) {
        DataEntry {
            id: self.id,
            sensor_id: self.sensor_id,
            submitter: self.submitter.clone(),
            data_str: self.data_str.clone(),
            verified: self.verified,
            verifier: copy_opt_string(&self.verifier),
            rewarded: self.rewarded,
            created_at: self.created_at,
            updated_at: self.updated_at,
        }
    }
}

/// The errors of the registry.
#[derive(Debug, Clone, Copy, PartialEq, Eq, Structural)]
pub enum ContractError {
    /// A stored record or setting is missing.
    NotFound,
    Unauthorized,
    DuplicateData,
    AlreadyVerified,
    NotVerified,
    AlreadyRewarded,
    InvalidJson,
    InvalidFunds,
    AlreadyActivated,
    /// Not returned: deactivating an inactive sensor succeeds.
    AlreadyDeactivated,
    SensorInactive,
    VerifierAlreadyExists,
}

pub open spec fn error_text(e: ContractError) -> Seq<char> {
    match e {
        ContractError::NotFound => "Record not found"@,
        ContractError::Unauthorized => "Unauthorized"@,
        ContractError::DuplicateData => "Duplicate entry"@,
        ContractError::AlreadyVerified => "Data entry already verified"@,
        ContractError::NotVerified => "Data entry not verified yet"@,
        ContractError::AlreadyRewarded => "Data entry already rewarded"@,
        ContractError::InvalidJson => "Data is not valid json"@,
        ContractError::InvalidFunds => "Not enough funds"@,
        ContractError::AlreadyActivated => "Sensor is already activated"@,
        ContractError::AlreadyDeactivated => "Sensor is already deactivated"@,
        ContractError::SensorInactive => "Sensor is not active"@,
        ContractError::VerifierAlreadyExists => "Verifier already exists"@,
    }
}

impl ContractError {
    /// The message of the error.
    pub fn message(&self) -> (r: String)
        ensures
            r@ == error_text(*self),
    {
        match self {
            ContractError::NotFound => String::from_str("Record not found"),
            ContractError::Unauthorized => String::from_str("Unauthorized"),
            ContractError::DuplicateData => String::from_str("Duplicate entry"),
            ContractError::AlreadyVerified => String::from_str("Data entry already verified"),
            ContractError::NotVerified => String::from_str("Data entry not verified yet"),
            ContractError::AlreadyRewarded => String::from_str("Data entry already rewarded"),
            ContractError::InvalidJson => String::from_str("Data is not valid json"),
            ContractError::InvalidFunds => String::from_str("Not enough funds"),
            ContractError::AlreadyActivated => String::from_str("Sensor is already activated"),
            ContractError::AlreadyDeactivated => String::from_str("Sensor is already deactivated"),
            ContractError::SensorInactive => String::from_str("Sensor is not active"),
            ContractError::VerifierAlreadyExists => String::from_str("Verifier already exists"),
        }
    }
}

/// The settings written at instantiation.
pub struct Config {
    pub admin: String,
    pub next_sensor_id: u64,
    pub next_entry_id: u64,
    pub denom: String,
}

pub struct ConfigView {
    pub admin: Seq<char>,
    pub next_sensor_id: u64,
    pub next_entry_id: u64,
    pub denom: Seq<char>,
}

impl View for Config {
    type V = ConfigView;

    open spec fn view(&self) -> ConfigView {
        ConfigView {
            admin: self.admin@,
            next_sensor_id: self.next_sensor_id,
            next_entry_id: self.next_entry_id,
            denom: self.denom@,
        }
    }
}

/// The storage of the registry.
pub struct CitizenScienceRegistry {
    ready: bool,
    config: Config,
    sensors: IdTable<Sensor>,
    sensor_hashes: KeyTable<String, bool>,
    data_entries: IdTable<DataEntry>,
    data_hashes: KeyTable<(u64, String), bool>,
    verifiers: KeyTable<String, bool>,
}

/// The abstract storage: the settings once instantiated, and each map.
#[verifier::ext_equal]
pub struct RegistryView {
    pub config: Option<ConfigView>,
    pub sensors: Map<u64, SensorView>,
    pub sensor_hashes: Map<Seq<char>, bool>,
    pub data_entries: Map<u64, DataEntryView>,
    pub data_hashes: Map<(u64, Seq<char>), bool>,
    pub verifiers: Map<Seq<char>, bool>,
}

impl View for CitizenScienceRegistry {
    type V = RegistryView;

    closed spec fn view(&self) -> RegistryView {
        RegistryView {
            config: if self.ready {
                Some(self.config@)
            } else {
                None
            },
            sensors: self.sensors@,
            sensor_hashes: self.sensor_hashes@,
            data_entries: self.data_entries@,
            data_hashes: self.data_hashes@,
            verifiers: self.verifiers@,
        }
    }
}

/// The error of a message only the admin may send, if any.
pub open spec fn admin_error(s: RegistryView, sender: Seq<char>) -> Option<ContractError> {
    match s.config {
        None => Some(ContractError::NotFound),
        Some(c) => if c.admin != sender {
            Some(ContractError::Unauthorized)
        } else {
            None
        },
    }
}

/// The state after instantiation and its response.
pub open spec fn instantiate_spec(s: RegistryView, ctx: Context, denom: Option<Seq<char>>) -> (
    RegistryView,
    Reply,
) {
    let d = match denom {
        Some(d) => d,
        None => DEFAULT_DENOM@,
    };
    (
        RegistryView {
            config: Some(
                ConfigView { admin: ctx.sender@, next_sensor_id: 1, next_entry_id: 1, denom: d },
            ),
            ..s
        },
        reply(seq![("method"@, "instantiate"@), ("denom"@, d)]),
    )
}

pub open spec fn submit_sensor_spec(s: RegistryView, ctx: Context, data: JsonPayload) -> Result<
    (RegistryView, Reply),
    ContractError,
> {
    match nonempty_text(data) {
        None => Err(ContractError::InvalidJson),
        Some(t) => {
            let h = content_hash(t@);
            if flag(s.sensor_hashes, h) {
                Err(ContractError::DuplicateData)
            } else {
                match s.config {
                    None => Err(ContractError::NotFound),
                    Some(c) => {
                        let id = c.next_sensor_id;
                        let sensor = SensorView {
                            id,
                            owner: ctx.sender@,
                            data_str: t@,
                            status: SensorStatus::Proposed,
                            created_at: ctx.block_time,
                            updated_at: ctx.block_time,
                        };
                        Ok(
                            (
                                RegistryView {
                                    config: Some(ConfigView { next_sensor_id: (id + 1) as u64, ..c }),
                                    sensors: s.sensors.insert(id, sensor),
                                    sensor_hashes: s.sensor_hashes.insert(h, true),
                                    ..s
                                },
                                reply(
                                    seq![
                                        ("action"@, "submit_sensor"@),
                                        ("sensor_id"@, decimal(id as nat)),
                                        ("owner"@, ctx.sender@),
                                        ("sensor_hash"@, h),
                                    ],
                                ),
                            ),
                        )
                    },
                }
            }
        },
    }
}

/// Setting the status of a sensor: `activate` sets `Active`, refusing an
/// active sensor; `deactivate` sets `Inactive` whatever the status was, so
/// that deactivating twice succeeds.
pub open spec fn set_status_spec(
    s: RegistryView,
    ctx: Context,
    sensor_id: u64,
    target: SensorStatus,
    refused: Option<ContractError>,
    action: Seq<char>,
) -> Result<(RegistryView, Reply), ContractError> {
    match admin_error(s, ctx.sender@) {
        Some(e) => Err(e),
        None => if !s.sensors.contains_key(sensor_id) {
            Err(ContractError::NotFound)
        } else if s.sensors[sensor_id].status == target && refused is Some {
            Err(refused->Some_0)
        } else {
            Ok(
                (
                    RegistryView {
                        sensors: s.sensors.insert(
                            sensor_id,
                            SensorView {
                                status: target,
                                updated_at: ctx.block_time,
                                ..s.sensors[sensor_id]
                            },
                        ),
                        ..s
                    },
                    reply(seq![("action"@, action), ("sensor_id"@, decimal(sensor_id as nat))]),
                ),
            )
        },
    }
}

pub open spec fn delete_spec(s: RegistryView, ctx: Context, sensor_id: u64) -> Result<
    (RegistryView, Reply),
    ContractError,
> {
    match admin_error(s, ctx.sender@) {
        Some(e) => Err(e),
        None => if !s.sensors.contains_key(sensor_id) {
            Err(ContractError::NotFound)
        } else {
            Ok(
                (
                    RegistryView { sensors: s.sensors.remove(sensor_id), ..s },
                    reply(seq![("action"@, "delete"@), ("sensor_id"@, decimal(sensor_id as nat))]),
                ),
            )
        },
    }
}

pub open spec fn add_verifier_spec(s: RegistryView, ctx: Context, verifier: Seq<char>) -> Result<
    (RegistryView, Reply),
    ContractError,
> {
    match admin_error(s, ctx.sender@) {
        Some(e) => Err(e),
        None => if flag(s.verifiers, verifier) {
            Err(ContractError::VerifierAlreadyExists)
        } else {
            Ok(
                (
                    RegistryView { verifiers: s.verifiers.insert(verifier, true), ..s },
                    reply(seq![("action"@, "add_verifier"@), ("verifier"@, verifier)]),
                ),
            )
        },
    }
}

pub open spec fn submit_data_spec(
    s: RegistryView,
    ctx: Context,
    sensor_id: u64,
    data: JsonPayload,
) -> Result<(RegistryView, Reply), ContractError> {
    if !s.sensors.contains_key(sensor_id) {
        Err(ContractError::NotFound)
    } else if s.sensors[sensor_id].status != SensorStatus::Active {
        Err(ContractError::SensorInactive)
    } else {
        match nonempty_text(data) {
            None => Err(ContractError::InvalidJson),
            Some(t) => {
                let h = content_hash(t@);
                if flag(s.data_hashes, (sensor_id, h)) {
                    Err(ContractError::DuplicateData)
                } else {
                    match s.config {
                        None => Err(ContractError::NotFound),
                        Some(c) => {
                            let id = c.next_entry_id;
                            let entry = DataEntryView {
                                id,
                                sensor_id,
                                submitter: ctx.sender@,
                                data_str: t@,
                                verified: false,
                                verifier: None,
                                rewarded: false,
                                created_at: ctx.block_time,
                                updated_at: ctx.block_time,
                            };
                            Ok(
                                (
                                    RegistryView {
                                        config: Some(
                                            ConfigView { next_entry_id: (id + 1) as u64, ..c },
                                        ),
                                        data_entries: s.data_entries.insert(id, entry),
                                        data_hashes: s.data_hashes.insert((sensor_id, h), true),
                                        ..s
                                    },
                                    reply(
                                        seq![
                                            ("action"@, "submit_data"@),
                                            ("entry_id"@, decimal(id as nat)),
                                            ("submitter"@, ctx.sender@),
                                            ("data_hash"@, h),
                                        ],
                                    ),
                                ),
                            )
                        },
                    }
                }
            },
        }
    }
}

pub open spec fn verify_data_spec(s: RegistryView, ctx: Context, entry_id: u64) -> Result<
    (RegistryView, Reply),
    ContractError,
> {
    if !flag(s.verifiers, ctx.sender@) {
        Err(ContractError::Unauthorized)
    } else if !s.data_entries.contains_key(entry_id) {
        Err(ContractError::NotFound)
    } else if s.data_entries[entry_id].verified {
        Err(ContractError::AlreadyVerified)
    } else {
        let e = s.data_entries[entry_id];
        Ok(
            (
                RegistryView {
                    data_entries: s.data_entries.insert(
                        entry_id,
                        DataEntryView {
                            verified: true,
                            verifier: Some(ctx.sender@),
                            updated_at: ctx.block_time,
                            ..e
                        },
                    ),
                    ..s
                },
                reply(
                    seq![
                        ("action"@, "verify_data"@),
                        ("entry_id"@, decimal(entry_id as nat)),
                        ("submitter"@, e.submitter),
                        ("verifier"@, ctx.sender@),
                    ],
                ),
            ),
        )
    }
}

pub open spec fn reward_submitter_spec(s: RegistryView, ctx: Context, entry_id: u64) -> Result<
    (RegistryView, Reply),
    ContractError,
> {
    match admin_error(s, ctx.sender@) {
        Some(e) => Err(e),
        None => if !s.data_entries.contains_key(entry_id) {
            Err(ContractError::NotFound)
        } else if !s.data_entries[entry_id].verified {
            Err(ContractError::NotVerified)
        } else if s.data_entries[entry_id].rewarded {
            Err(ContractError::AlreadyRewarded)
        } else {
            let c = s.config.unwrap();
            match first_amount(ctx.funds@, c.denom) {
                None => Err(ContractError::InvalidFunds),
                Some(amount) => {
                    let e = s.data_entries[entry_id];
                    Ok(
                        (
                            RegistryView {
                                data_entries: s.data_entries.insert(
                                    entry_id,
                                    DataEntryView { rewarded: true, ..e },
                                ),
                                ..s
                            },
                            Reply {
                                attrs: seq![
                                    ("action"@, "reward_submitter"@),
                                    ("entry_id"@, decimal(entry_id as nat)),
                                    ("sender"@, ctx.sender@),
                                    ("recipient"@, e.submitter),
                                    ("amount"@, decimal(amount as nat)),
                                ],
                                sends: seq![(e.submitter, c.denom, amount)],
                                calls: Seq::empty(),
                            },
                        ),
                    )
                },
            }
        },
    }
}

/// Whether a sensor passes the optional owner and status filters.
pub open spec fn sensor_matches(
    owner: Option<Seq<char>>,
    status: Option<SensorStatus>,
    s: SensorView,
) -> bool {
    (owner matches Some(o) ==> s.owner == o) && (status matches Some(st) ==> s.status == st)
}

/// Whether a data entry passes the optional submitter and sensor filters.
pub open spec fn entry_matches(
    submitter: Option<Seq<char>>,
    sensor_id: Option<u64>,
    e: DataEntryView,
) -> bool {
    (submitter matches Some(a) ==> e.submitter == a) && (sensor_id matches Some(id)
        ==> e.sensor_id == id)
}

impl CitizenScienceRegistry {
    pub closed spec fn wf(&self) -> bool {
        &&& self.sensors.wf()
        &&& self.sensor_hashes.wf()
        &&& self.data_entries.wf()
        &&& self.data_hashes.wf()
        &&& self.verifiers.wf()
    }

    /// The sensors in ascending id order.
    pub closed spec fn sensor_entries(&self) -> Seq<(u64, Sensor)> {
        self.sensors.entries()
    }

    /// The data entries in ascending id order.
    pub closed spec fn data_entry_entries(&self) -> Seq<(u64, DataEntry)> {
        self.data_entries.entries()
    }

    /// The ordered sensor and data entries are the maps of the view.
    pub proof fn lemma_entries(&self)
        requires
            self.wf(),
        ensures
            strictly_sorted(self.sensor_entries()),
            entries_map(self.sensor_entries()) == self@.sensors,
            strictly_sorted(self.data_entry_entries()),
            entries_map(self.data_entry_entries()) == self@.data_entries,
    {
    }

    /// A registry whose storage is empty, before instantiation.
    pub fn new() -> (r: Self)
        ensures
            r.wf(),
            r@ == (RegistryView {
                config: None,
                sensors: Map::empty(),
                sensor_hashes: Map::empty(),
                data_entries: Map::empty(),
                data_hashes: Map::empty(),
                verifiers: Map::empty(),
            }),
    {
        CitizenScienceRegistry {
            ready: false,
            config: Config {
                admin: String::new(),
                next_sensor_id: 0,
                next_entry_id: 0,
                denom: String::new(),
            },
            sensors: IdTable::new(),
            sensor_hashes: KeyTable::new(),
            data_entries: IdTable::new(),
            data_hashes: KeyTable::new(),
            verifiers: KeyTable::new(),
        }
    }

    /// Records the sender as admin, starts both id counters at 1 and stores the
    /// denomination of rewards.
    pub fn instantiate(&mut self, ctx: &Context, denom: Option<String>) -> (r: Response)
        requires
            old(self).wf(),
        ensures
            final(self).wf(),
            final(self)@ == instantiate_spec(old(self)@, *ctx, opt_view(denom)).0,
            r.attrs() == instantiate_spec(old(self)@, *ctx, opt_view(denom)).1.attrs,
            r.sends() == instantiate_spec(old(self)@, *ctx, opt_view(denom)).1.sends,
            r.calls() == instantiate_spec(old(self)@, *ctx, opt_view(denom)).1.calls,
    {
        let d = match denom {
            Some(d) => d,
            None => String::from_str(DEFAULT_DENOM),
        };
        self.config = Config {
            admin: ctx.sender.clone(),
            next_sensor_id: 1,
            next_entry_id: 1,
            denom: d.clone(),
        };
        self.ready = true;
        Response::new().add_attr("method", "instantiate").add_attribute("denom", d)
    }

    /// Proposes a sensor described by `data`, unless its text was seen before.
    pub fn submit_sensor(&mut self, ctx: &Context, data: &JsonPayload) -> (r: Result<
        Response,
        ContractError,
    >)
        requires
            old(self).wf(),
            old(self)@.config matches Some(c) ==> c.next_sensor_id < u64::MAX,
        ensures
            final(self).wf(),
            follows(r, old(self)@, final(self)@, submit_sensor_spec(old(self)@, *ctx, *data)),
    {
        let text = match data.nonempty() {
            Some(t) => t,
            None => return Err(ContractError::InvalidJson),
        };
        let hash = hash_text(&text);
        match self.sensor_hashes.get(&hash) {
            Some(seen) => {
                if *seen {
                    return Err(ContractError::DuplicateData);
                }
            },
            None => {},
        }
        if !self.ready {
            return Err(ContractError::NotFound);
        }
        let id = self.config.next_sensor_id;
        let sensor = Sensor {
            id,
            owner: ctx.sender.clone(),
            data_str: text,
            status: SensorStatus::Proposed,
            created_at: ctx.block_time,
            updated_at: ctx.block_time,
        };
        self.sensors.insert(id, sensor);
        self.sensor_hashes.insert(hash.clone(), true);
        self.config.next_sensor_id = id + 1;
        let resp = Response::new().add_attr("action", "submit_sensor").add_attribute(
                "sensor_id",
                u64_to_decimal(id),
            ).add_attribute("owner", ctx.sender.clone()).add_attribute("sensor_hash", hash);
        Ok(resp)
    }

    fn admin_check(&self, ctx: &Context) -> (r: Option<ContractError>)
        ensures
            r == admin_error(self@, ctx.sender@),
    {
        if !self.ready {
            Some(ContractError::NotFound)
        } else if ctx.sender != self.config.admin {
            Some(ContractError::Unauthorized)
        } else {
            None
        }
    }

    fn set_status(
        &mut self,
        ctx: &Context,
        sensor_id: u64,
        target: SensorStatus,
        refused: Option<ContractError>,
        action: &str,
    ) -> (r: Result<Response, ContractError>)
        requires
            old(self).wf(),
        ensures
            final(self).wf(),
            follows(
                r,
                old(self)@,
                final(self)@,
                set_status_spec(old(self)@, *ctx, sensor_id, target, refused, action@),
            ),
    {
        if let Some(e) = self.admin_check(ctx) {
            return Err(e);
        }
        let updated = match self.sensors.get(sensor_id) {
            None => return Err(ContractError::NotFound),
            Some(sensor) => {
                if sensor.status == target {
                    if let Some(e) = refused {
                        return Err(e);
                    }
                }
                let mut s = sensor.duplicate();
                s.status = target;
                s.updated_at = ctx.block_time;
                s
            },
        };
        self.sensors.insert(sensor_id, updated);
        Ok(
            Response::new().add_attr("action", action).add_attribute(
                "sensor_id",
                u64_to_decimal(sensor_id),
            ),
        )
    }

    /// The admin activates a sensor that is not active yet.
    pub fn activate(&mut self, ctx: &Context, sensor_id: u64) -> (r: Result<
        Response,
        ContractError,
    >)
        requires
            old(self).wf(),
        ensures
            final(self).wf(),
            follows(
                r,
                old(self)@,
                final(self)@,
                set_status_spec(
                    old(self)@,
                    *ctx,
                    sensor_id,
                    SensorStatus::Active,
                    Some(ContractError::AlreadyActivated),
                    "activate"@,
                ),
            ),
    {
        self.set_status(
            ctx,
            sensor_id,
            SensorStatus::Active,
            Some(ContractError::AlreadyActivated),
            "activate",
        )
    }

    /// The admin deactivates a sensor; an inactive one stays inactive.
    pub fn deactivate(&mut self, ctx: &Context, sensor_id: u64) -> (r: Result<
        Response,
        ContractError,
    >)
        requires
            old(self).wf(),
        ensures
            final(self).wf(),
            follows(
                r,
                old(self)@,
                final(self)@,
                set_status_spec(
                    old(self)@,
                    *ctx,
                    sensor_id,
                    SensorStatus::Inactive,
                    None,
                    "deactivate"@,
                ),
            ),
    {
        self.set_status(
            ctx,
            sensor_id,
            SensorStatus::Inactive,
            None,
            "deactivate",
        )
    }

    /// The admin deletes a stored sensor.
    pub fn delete(&mut self, ctx: &Context, sensor_id: u64) -> (r: Result<Response, ContractError>)
        requires
            old(self).wf(),
        ensures
            final(self).wf(),
            follows(r, old(self)@, final(self)@, delete_spec(old(self)@, *ctx, sensor_id)),
    {
        if let Some(e) = self.admin_check(ctx) {
            return Err(e);
        }
        if !self.sensors.contains(sensor_id) {
            return Err(ContractError::NotFound);
        }
        self.sensors.remove(sensor_id);
        Ok(
            Response::new().add_attr("action", "delete").add_attribute(
                "sensor_id",
                u64_to_decimal(sensor_id),
            ),
        )
    }

    /// The admin adds a verifier address.
    pub fn add_verifier(&mut self, ctx: &Context, verifier: String) -> (r: Result<
        Response,
        ContractError,
    >)
        requires
            old(self).wf(),
        ensures
            final(self).wf(),
            follows(r, old(self)@, final(self)@, add_verifier_spec(old(self)@, *ctx, verifier@)),
    {
        if let Some(e) = self.admin_check(ctx) {
            return Err(e);
        }
        if let Some(v) = self.verifiers.get(&verifier) {
            if *v {
                return Err(ContractError::VerifierAlreadyExists);
            }
        }
        self.verifiers.insert(verifier.clone(), true);
        Ok(Response::new().add_attr("action", "add_verifier").add_attribute("verifier", verifier))
    }

    /// Records data for an active sensor, unless the same text was recorded for it before.
    pub fn submit_data(&mut self, ctx: &Context, sensor_id: u64, data: &JsonPayload) -> (r:
        Result<Response, ContractError>)
        requires
            old(self).wf(),
            old(self)@.config matches Some(c) ==> c.next_entry_id < u64::MAX,
        ensures
            final(self).wf(),
            follows(
                r,
                old(self)@,
                final(self)@,
                submit_data_spec(old(self)@, *ctx, sensor_id, *data),
            ),
    {
        match self.sensors.get(sensor_id) {
            None => return Err(ContractError::NotFound),
            Some(sensor) => {
                if sensor.status != SensorStatus::Active {
                    return Err(ContractError::SensorInactive);
                }
            },
        }
        let text = match data.nonempty() {
            Some(t) => t,
            None => return Err(ContractError::InvalidJson),
        };
        let hash = hash_text(&text);
        let key = (sensor_id, hash.clone());
        if let Some(seen) = self.data_hashes.get(&key) {
            if *seen {
                return Err(ContractError::DuplicateData);
            }
        }
        if !self.ready {
            return Err(ContractError::NotFound);
        }
        let id = self.config.next_entry_id;
        let entry = DataEntry {
            id,
            sensor_id,
            submitter: ctx.sender.clone(),
            data_str: text,
            verified: false,
            verifier: None,
            rewarded: false,
            created_at: ctx.block_time,
            updated_at: ctx.block_time,
        };
        self.data_entries.insert(id, entry);
        self.data_hashes.insert(key, true);
        self.config.next_entry_id = id + 1;
        Ok(
            Response::new().add_attr("action", "submit_data").add_attribute(
                "entry_id",
                u64_to_decimal(id),
            ).add_attribute("submitter", ctx.sender.clone()).add_attribute("data_hash", hash),
        )
    }

    /// A verifier marks an entry verified.
    pub fn verify_data(&mut self, ctx: &Context, entry_id: u64) -> (r: Result<
        Response,
        ContractError,
    >)
        requires
            old(self).wf(),
        ensures
            final(self).wf(),
            follows(r, old(self)@, final(self)@, verify_data_spec(old(self)@, *ctx, entry_id)),
    {
        let is_verifier = match self.verifiers.get(&ctx.sender) {
            Some(v) => *v,
            None => false,
        };
        if !is_verifier {
            return Err(ContractError::Unauthorized);
        }
        let updated = match self.data_entries.get(entry_id) {
            None => return Err(ContractError::NotFound),
            Some(entry) => {
                if entry.verified {
                    return Err(ContractError::AlreadyVerified);
                }
                let mut e = entry.duplicate();
                e.verified = true;
                e.verifier = Some(ctx.sender.clone());
                e.updated_at = ctx.block_time;
                e
            },
        };
        let submitter = updated.submitter.clone();
        self.data_entries.insert(entry_id, updated);
        Ok(
            Response::new().add_attr("action", "verify_data").add_attribute(
                "entry_id",
                u64_to_decimal(entry_id),
            ).add_attribute("submitter", submitter).add_attribute("verifier", ctx.sender.clone()),
        )
    }

    /// The admin rewards the submitter of a verified entry with the funds
    /// attached in the stored denomination.
    pub fn reward_submitter(&mut self, ctx: &Context, entry_id: u64) -> (r: Result<
        Response,
        ContractError,
    >)
        requires
            old(self).wf(),
        ensures
            final(self).wf(),
            follows(
                r,
                old(self)@,
                final(self)@,
                reward_submitter_spec(old(self)@, *ctx, entry_id),
            ),
    {
        if let Some(e) = self.admin_check(ctx) {
            return Err(e);
        }
        let mut entry = match self.data_entries.get(entry_id) {
            None => return Err(ContractError::NotFound),
            Some(entry) => {
                if !entry.verified {
                    return Err(ContractError::NotVerified);
                }
                if entry.rewarded {
                    return Err(ContractError::AlreadyRewarded);
                }
                entry.duplicate()
            },
        };
        let amount = match find_funds(&ctx.funds, &self.config.denom) {
            None => return Err(ContractError::InvalidFunds),
            Some(a) => a,
        };
        entry.rewarded = true;
        let submitter = entry.submitter.clone();
        self.data_entries.insert(entry_id, entry);
        Ok(
            Response::new().add_send(submitter.clone(), self.config.denom.clone(), amount).add_attr(
                "action",
                "reward_submitter",
            ).add_attribute("entry_id", u64_to_decimal(entry_id)).add_attribute(
                "sender",
                ctx.sender.clone(),
            ).add_attribute("recipient", submitter).add_attribute(
                "amount",
                u128_to_decimal(amount),
            ),
        )
    }

    /// The stored sensor.
    pub fn get_sensor(&self, sensor_id: u64) -> (r: Result<Sensor, ContractError>)
        requires
            self.wf(),
        ensures
            match r {
                Ok(s) => self@.sensors.contains_key(sensor_id) && s@ == self@.sensors[sensor_id],
                Err(e) => !self@.sensors.contains_key(sensor_id) && e == ContractError::NotFound,
            },
    {
        match self.sensors.get(sensor_id) {
            Some(s) => Ok(s.duplicate()),
            None => Err(ContractError::NotFound),
        }
    }

    /// The stored data entry.
    pub fn get_data_entry(&self, entry_id: u64) -> (r: Result<DataEntry, ContractError>)
        requires
            self.wf(),
        ensures
            match r {
                Ok(e) => self@.data_entries.contains_key(entry_id) && e@
                    == self@.data_entries[entry_id],
                Err(e) => !self@.data_entries.contains_key(entry_id) && e
                    == ContractError::NotFound,
            },
    {
        match self.data_entries.get(entry_id) {
            Some(e) => Ok(e.duplicate()),
            None => Err(ContractError::NotFound),
        }
    }

    /// How many sensors pass the owner and status filters.
    pub fn count_sensors(&self, owner: Option<String>, status: Option<SensorStatus>) -> (r: u64)
        requires
            self.wf(),
        ensures
            r == selected(
                self.sensor_entries(),
                None,
                |v: SensorView| sensor_matches(opt_view(owner), status, v),
            ).len(),
    {
        let owner_ref = &owner;
        let pred = |s: &Sensor| -> (b: bool)
            ensures
                b == sensor_matches(opt_view(*owner_ref), status, s@),
            {
                let owner_ok = match owner_ref {
                    Some(o) => s.owner == *o,
                    None => true,
                };
                let status_ok = match status {
                    Some(st) => s.status == st,
                    None => true,
                };
                owner_ok && status_ok
            };
        let n = self.sensors.count(pred, Ghost(|v: SensorView| sensor_matches(opt_view(owner), status, v)));
        n as u64
    }

    /// Up to `limit` (10 by default, 30 at most) sensors after `start_after`
    /// that pass the owner and status filters, in ascending id order.
    pub fn list_sensors(
        &self,
        start_after: Option<u64>,
        limit: Option<u32>,
        owner: Option<String>,
        status: Option<SensorStatus>,
    ) -> (r: Vec<Sensor>)
        requires
            self.wf(),
        ensures
            r@.map_values(|s: Sensor| s@) == cap(
                selected(
                    self.sensor_entries(),
                    start_after,
                    |v: SensorView| sensor_matches(opt_view(owner), status, v),
                ),
                page_limit(limit, 10, 30),
            ),
    {
        let owner_ref = &owner;
        let pred = |s: &Sensor| -> (b: bool)
            ensures
                b == sensor_matches(opt_view(*owner_ref), status, s@),
            {
                let owner_ok = match owner_ref {
                    Some(o) => s.owner == *o,
                    None => true,
                };
                let status_ok = match status {
                    Some(st) => s.status == st,
                    None => true,
                };
                owner_ok && status_ok
            };
        let n = page_size(limit, 10, 30);
        self.sensors.select(
            start_after,
            n,
            pred,
            Ghost(|v: SensorView| sensor_matches(opt_view(owner), status, v)),
        )
    }

    /// How many data entries pass the submitter and sensor filters.
    pub fn count_data_entries(&self, submitter: Option<String>, sensor_id: Option<u64>) -> (r: u64)
        requires
            self.wf(),
        ensures
            r == selected(
                self.data_entry_entries(),
                None,
                |v: DataEntryView| entry_matches(opt_view(submitter), sensor_id, v),
            ).len(),
    {
        let submitter_ref = &submitter;
        let pred = |e: &DataEntry| -> (b: bool)
            ensures
                b == entry_matches(opt_view(*submitter_ref), sensor_id, e@),
            {
                let submitter_ok = match submitter_ref {
                    Some(a) => e.submitter == *a,
                    None => true,
                };
                let sensor_ok = match sensor_id {
                    Some(id) => e.sensor_id == id,
                    None => true,
                };
                submitter_ok && sensor_ok
            };
        let n = self.data_entries.count(
            pred,
            Ghost(|v: DataEntryView| entry_matches(opt_view(submitter), sensor_id, v)),
        );
        n as u64
    }

    /// Up to `limit` (10 by default, 30 at most) data entries after
    /// `start_after` that pass the submitter and sensor filters, in ascending id order.
    pub fn list_data_entries(
        &self,
        start_after: Option<u64>,
        limit: Option<u32>,
        submitter: Option<String>,
        sensor_id: Option<u64>,
    ) -> (r: Vec<DataEntry>)
        requires
            self.wf(),
        ensures
            r@.map_values(|e: DataEntry| e@) == cap(
                selected(
                    self.data_entry_entries(),
                    start_after,
                    |v: DataEntryView| entry_matches(opt_view(submitter), sensor_id, v),
                ),
                page_limit(limit, 10, 30),
            ),
    {
        let submitter_ref = &submitter;
        let pred = |e: &DataEntry| -> (b: bool)
            ensures
                b == entry_matches(opt_view(*submitter_ref), sensor_id, e@),
            {
                let submitter_ok = match submitter_ref {
                    Some(a) => e.submitter == *a,
                    None => true,
                };
                let sensor_ok = match sensor_id {
                    Some(id) => e.sensor_id == id,
                    None => true,
                };
                submitter_ok && sensor_ok
            };
        let n = page_size(limit, 10, 30);
        self.data_entries.select(
            start_after,
            n,
            pred,
            Ghost(|v: DataEntryView| entry_matches(opt_view(submitter), sensor_id, v)),
        )
    }

    /// Every stored verifier address, in descending byte order.
    pub fn list_verifiers(&self) -> (r: Vec<String>)
        requires
            self.wf(),
        ensures
            descending(r@.map_values(|x: String| x@)),
            r@.map_values(|x: String| x@).to_set() == self@.verifiers.dom(),
            r@.len() == self@.verifiers.dom().len(),
    {
        let keys = self.verifiers.keys();
        let ghost kv = keys@.map_values(|x: String| x@);
        let sorted = sort_ascending(keys);
        let ghost sv = sorted@.map_values(|x: String| x@);
        let r = reversed(sorted);
        assert(r@.map_values(|x: String| x@) =~= sv.reverse());
        assert forall|i: int, j: int|
            0 <= i < j < sv.len() implies crate::order::str_lt(
            sv.reverse()[j],
            sv.reverse()[i],
        ) by {
            assert(sv.reverse()[j] == sv[sv.len() - 1 - j]);
            assert(sv.reverse()[i] == sv[sv.len() - 1 - i]);
        }
        assert forall|x: Seq<char>| #[trigger] sv.reverse().to_set().contains(x) == sv.to_set().contains(
            x,
        ) by {
            if sv.to_set().contains(x) {
                let i = choose|i: int| 0 <= i < sv.len() && sv[i] == x;
                assert(sv.reverse()[sv.len() - 1 - i] == x);
            }
            if sv.reverse().to_set().contains(x) {
                let i = choose|i: int| 0 <= i < sv.len() && sv.reverse()[i] == x;
                assert(sv[sv.len() - 1 - i] == x);
            }
        }
        assert(sv.reverse().to_set() =~= sv.to_set());
        proof {
            kv.unique_seq_to_set();
        }
        r
    }

    /// Whether `address` is a stored verifier.
    pub fn is_verifier(&self, address: &String) -> (r: bool)
        requires
            self.wf(),
        ensures
            r == flag(self@.verifiers, address@),
    {
        match self.verifiers.get(address) {
            Some(v) => *v,
            None => false,
        }
    }

    /// The stored admin, once instantiated.
    pub fn admin(&self) -> (r: Option<String>)
        ensures
            match r {
                Some(a) => self@.config matches Some(c) && a@ == c.admin,
                None => self@.config is None,
            },
    {
        if self.ready {
            Some(self.config.admin.clone())
        } else {
            None
        }
    }

    /// The stored denomination, once instantiated.
    pub fn denom(&self) -> (r: Option<String>)
        ensures
            match r {
                Some(d) => self@.config matches Some(c) && d@ == c.denom,
                None => self@.config is None,
            },
    {
        if self.ready {
            Some(self.config.denom.clone())
        } else {
            None
        }
    }

    /// The next sensor id and the next entry id, once instantiated.
    pub fn next_ids(&self) -> (r: Option<(u64, u64)>)
        ensures
            match r {
                Some((s, e)) => self@.config matches Some(c) && s == c.next_sensor_id && e
                    == c.next_entry_id,
                None => self@.config is None,
            },
    {
        if self.ready {
            Some((self.config.next_sensor_id, self.config.next_entry_id))
        } else {
            None
        }
    }

    /// Writes a sensor record under `id` directly into storage.
    pub fn store_sensor(&mut self, id: u64, sensor: Sensor)
        requires
            old(self).wf(),
        ensures
            final(self).wf(),
            final(self)@ == (RegistryView { sensors: old(self)@.sensors.insert(id, sensor@), ..old(self)@ }),
    {
        self.sensors.insert(id, sensor);
    }

    /// Writes a data entry under `id` directly into storage.
    pub fn store_data_entry(&mut self, id: u64, entry: DataEntry)
        requires
            old(self).wf(),
        ensures
            final(self).wf(),
            final(self)@ == (RegistryView {
                data_entries: old(self)@.data_entries.insert(id, entry@),
                ..old(self)@
            }),
    {
        self.data_entries.insert(id, entry);
    }
}

/// A sensor description already recorded is refused when proposed again,
/// by anyone.
pub proof fn sensor_data_recorded_once(
    s: RegistryView,
    ctx: Context,
    again: Context,
    data: JsonPayload,
)
    requires
        submit_sensor_spec(s, ctx, data) is Ok,
    ensures
        submit_sensor_spec(submit_sensor_spec(s, ctx, data)->Ok_0.0, again, data) == Err::<
            (RegistryView, Reply),
            ContractError,
        >(ContractError::DuplicateData),
{
}

/// Data already recorded for a sensor is refused when submitted again for
/// that sensor, by anyone.
pub proof fn sensor_entry_recorded_once(
    s: RegistryView,
    ctx: Context,
    again: Context,
    sensor_id: u64,
    data: JsonPayload,
)
    requires
        submit_data_spec(s, ctx, sensor_id, data) is Ok,
    ensures
        submit_data_spec(submit_data_spec(s, ctx, sensor_id, data)->Ok_0.0, again, sensor_id, data)
            == Err::<(RegistryView, Reply), ContractError>(ContractError::DuplicateData),
{
}

/// A verified entry cannot be verified again: the same verifier is told it
/// is already verified, and no one succeeds.
pub proof fn entry_verified_once(s: RegistryView, ctx: Context, again: Context, entry_id: u64)
    requires
        verify_data_spec(s, ctx, entry_id) is Ok,
    ensures
        verify_data_spec(verify_data_spec(s, ctx, entry_id)->Ok_0.0, again, entry_id) is Err,
        again.sender@ == ctx.sender@ ==> verify_data_spec(
            verify_data_spec(s, ctx, entry_id)->Ok_0.0,
            again,
            entry_id,
        ) == Err::<(RegistryView, Reply), ContractError>(ContractError::AlreadyVerified),
{
}

/// Only a verified entry is rewarded, and only once: the admin is told it
/// is already rewarded, and no one succeeds again.
pub proof fn entry_rewarded_once(s: RegistryView, ctx: Context, again: Context, entry_id: u64)
    requires
        reward_submitter_spec(s, ctx, entry_id) is Ok,
    ensures
        s.data_entries[entry_id].verified,
        reward_submitter_spec(reward_submitter_spec(s, ctx, entry_id)->Ok_0.0, again, entry_id) is Err,
        again.sender@ == ctx.sender@ ==> reward_submitter_spec(
            reward_submitter_spec(s, ctx, entry_id)->Ok_0.0,
            again,
            entry_id,
        ) == Err::<(RegistryView, Reply), ContractError>(ContractError::AlreadyRewarded),
{
}

/// Rewarding pays the entry's submitter, not the admin who sends the
/// message: exactly one transfer of the amount attached in the configured
/// denomination.  Only the entry's rewarded flag changes.
pub proof fn reward_pays_submitter(s: RegistryView, ctx: Context, entry_id: u64)
    requires
        reward_submitter_spec(s, ctx, entry_id) is Ok,
    ensures
        ({
            let (after, rep) = reward_submitter_spec(s, ctx, entry_id)->Ok_0;
            let e = s.data_entries[entry_id];
            let c = s.config->Some_0;
            &&& s.config is Some
            &&& first_amount(ctx.funds@, c.denom) is Some
            &&& rep.sends == seq![(e.submitter, c.denom, first_amount(ctx.funds@, c.denom)->Some_0)]
            &&& rep.calls.len() == 0
            &&& after.data_entries[entry_id] == (DataEntryView { rewarded: true, ..e })
            &&& after.sensors == s.sensors
            &&& after.config == s.config
        }),
{
}

/// Whether the registry is instantiated and every stored entry id is below
/// the next one to be handed out.
pub open spec fn entry_ids_fresh(s: RegistryView) -> bool {
    &&& s.config is Some
    &&& forall|id: u64| #[trigger]
        s.data_entries.contains_key(id) ==> id < s.config->Some_0.next_entry_id
}

/// A submission is stored under a fresh id, as submitted and unverified,
/// and leaves every earlier entry as it was.
pub proof fn submission_is_stored(s: RegistryView, ctx: Context, sensor_id: u64, data: JsonPayload, old_id: u64)
    requires
        entry_ids_fresh(s),
        s.config->Some_0.next_entry_id < u64::MAX,
        submit_data_spec(s, ctx, sensor_id, data) is Ok,
    ensures
        ({
            let after = submit_data_spec(s, ctx, sensor_id, data)->Ok_0.0;
            let id = s.config->Some_0.next_entry_id;
            &&& entry_ids_fresh(after)
            &&& !s.data_entries.contains_key(id)
            &&& after.data_entries.contains_key(id)
            &&& after.data_entries[id].sensor_id == sensor_id
            &&& after.data_entries[id].submitter == ctx.sender@
            &&& Some(after.data_entries[id].data_str) == opt_view(nonempty_text(data))
            &&& !after.data_entries[id].verified
            &&& !after.data_entries[id].rewarded
            &&& s.data_entries.contains_key(old_id) ==> after.data_entries[old_id]
                == s.data_entries[old_id]
        }),
{
}

/// Deactivating an inactive sensor succeeds again and leaves it inactive.
pub proof fn deactivation_is_repeatable(s: RegistryView, ctx: Context, again: Context, sensor_id: u64)
    requires
        set_status_spec(s, ctx, sensor_id, SensorStatus::Inactive, None, "deactivate"@) is Ok,
        again.sender@ == ctx.sender@,
    ensures
        ({
            let once = set_status_spec(s, ctx, sensor_id, SensorStatus::Inactive, None, "deactivate"@)->Ok_0.0;
            let twice = set_status_spec(once, again, sensor_id, SensorStatus::Inactive, None, "deactivate"@);
            &&& once.sensors[sensor_id].status == SensorStatus::Inactive
            &&& twice is Ok
            &&& twice->Ok_0.0.sensors[sensor_id].status == SensorStatus::Inactive
        }),
{
}

/// Data recorded for one sensor does not stop another active sensor, which
/// has not seen it, from taking the same data.
pub proof fn other_sensor_accepts_same_data(
    s: RegistryView,
    ctx: Context,
    again: Context,
    sensor_id: u64,
    other_sensor: u64,
    data: JsonPayload,
)
    requires
        submit_data_spec(s, ctx, sensor_id, data) is Ok,
        other_sensor != sensor_id,
        s.sensors.contains_key(other_sensor),
        s.sensors[other_sensor].status == SensorStatus::Active,
        !flag(s.data_hashes, (other_sensor, content_hash(nonempty_text(data)->Some_0@))),
    ensures
        submit_data_spec(submit_data_spec(s, ctx, sensor_id, data)->Ok_0.0, again, other_sensor, data)
            is Ok,
{
}

/// A page of sensors, as `list_sensors` gives it for a request, read over the
/// stored sensors: the sensors at strictly increasing ids after `start_after`
/// that pass the owner and status filters, at most the page size (10 by
/// default, 30 at most) of them; every other passing sensor after
/// `start_after` has a larger id than the last listed, and only when the page
/// is full.
pub proof fn sensor_pages_in_id_order(
    reg: &CitizenScienceRegistry,
    start_after: Option<u64>,
    limit: Option<u32>,
    owner: Option<Seq<char>>,
    status: Option<SensorStatus>,
)
    requires
        reg.wf(),
    ensures
        ({
            let m = reg@.sensors;
            let n = page_limit(limit, 10, 30);
            let page = cap(
                selected(
                    reg.sensor_entries(),
                    start_after,
                    |v: SensorView| sensor_matches(owner, status, v),
                ),
                n,
            );
            exists|ids: Seq<u64>|
                #![trigger ids.len()]
                ids.len() == page.len() && page.len() <= n && (forall|i: int, j: int|
                    0 <= i < j < ids.len() ==> ids[i] < ids[j]) && (forall|i: int|
                    #![trigger ids[i]]
                    0 <= i < ids.len() ==> m.contains_key(ids[i]) && key_after(start_after, ids[i])
                        && sensor_matches(owner, status, m[ids[i]]) && page[i] == m[ids[i]]) && (
                forall|k: u64|
                    m.contains_key(k) && key_after(start_after, k) && sensor_matches(
                        owner,
                        status,
                        m[k],
                    ) ==> #[trigger] ids.contains(k) || (page.len() == n && (ids.len() == 0 || k
                        > ids[ids.len() - 1])))
        }),
{
    reg.lemma_entries();
    let sp = |v: SensorView| sensor_matches(owner, status, v);
    lemma_page_in_key_order(reg.sensor_entries(), start_after, sp, page_limit(limit, 10, 30));
}

} // verus!
