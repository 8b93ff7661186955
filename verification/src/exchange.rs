//! The cross-platform exchange: the admin registers partner denominations and
//! their exchange rates; traders swap the base denomination into locked
//! partner balances and back, at the registered rate, and withdraw locked
//! balances.
use vstd::prelude::*;
use crate::actions::ExecuteActionView;
use crate::chain::{
    Context, Reply, Response, find_funds, first_amount, follows, opt_view, page_limit, page_size,
    reply,
};
use crate::keyed::KeyTable;
use crate::order::{ascending, sort_ascending, str_lt, string_lt};
use crate::table::cap;
use crate::text::{decimal, trim, u128_to_decimal, trim_str};

verus! {

/// The denomination used when instantiation names none.
pub const DEFAULT_DENOM: &'static str = "ustake";

/// A registered partner denomination.
#[derive(Debug, Clone, PartialEq, Eq)]
pub struct PartnerInfo {
    pub denom: String,
    pub label: String,
    pub region: String,
    pub active: bool,
}

pub struct PartnerInfoView {
    pub denom: Seq<char>,
    pub label: Seq<char>,
    pub region: Seq<char>,
    pub active: bool,
}

impl View for PartnerInfo {
    type V = PartnerInfoView;

    open spec fn view(&self) -> PartnerInfoView {
        PartnerInfoView {
            denom: self.denom@,
            label: self.label@,
            region: self.region@,
            active: self.active,
        }
    }
}

impl PartnerInfo {
    fn duplicate(&self) -> (r: Self)
        ensures
            r@ == self@,
    {
        PartnerInfo {
            denom: self.denom.clone(),
            label: self.label.clone(),
            region: self.region.clone(),
            active: self.active,
        }
    }
}

/// How many units of a partner denomination match how many base units.
#[derive(Debug, Clone, PartialEq, Eq)]
pub struct ExchangeRate {
    pub partner_denom: String,
    pub base_amount: u128,
    pub partner_amount: u128,
}

pub struct ExchangeRateView {
    pub partner_denom: Seq<char>,
    pub base_amount: u128,
    pub partner_amount: u128,
}

impl View for ExchangeRate {
    type V = ExchangeRateView;

    open spec fn view(&self) -> ExchangeRateView {
        ExchangeRateView {
            partner_denom: self.partner_denom@,
            base_amount: self.base_amount,
            partner_amount: self.partner_amount,
        }
    }
}

/// The direction of a swap.
#[derive(Debug, Clone, Copy, PartialEq, Eq, Structural)]
pub enum SwapDirection {
    BaseToPartner,
    PartnerToBase,
}

/// The errors of the exchange.
#[derive(Debug, Clone, Copy, PartialEq, Eq, Structural)]
pub enum ContractError {
    /// A stored setting is missing.
    NotFound,
    Unauthorized,
    MissingPartnerDenom,
    PartnerExists,
    PartnerNotFound,
    /// A stored partner that is not active; no message deactivates one.
    PartnerInactive,
    RateNotSet,
    InvalidRate,
    ZeroAmount,
    InexactAmount,
    InvalidFunds,
    InsufficientLocked,
    InsufficientLiquidity,
}

pub open spec fn error_text(e: ContractError) -> Seq<char> {
    match e {
        ContractError::NotFound => "Record not found"@,
        ContractError::Unauthorized => "Unauthorized"@,
        ContractError::MissingPartnerDenom => "Partner denom is required"@,
        ContractError::PartnerExists => "Partner already registered"@,
        ContractError::PartnerNotFound => "Partner not found"@,
        ContractError::PartnerInactive => "Partner is inactive"@,
        ContractError::RateNotSet => "Rate not configured"@,
        ContractError::InvalidRate => "Invalid rate"@,
        ContractError::ZeroAmount => "Amount must be greater than zero"@,
        ContractError::InexactAmount => "Amount does not divide evenly at the registered rate"@,
        ContractError::InvalidFunds => "Invalid funds"@,
        ContractError::InsufficientLocked => "Insufficient locked balance"@,
        ContractError::InsufficientLiquidity => "Insufficient contract liquidity"@,
    }
}

impl ContractError {
    /// The message of the error.
    pub fn message(&self) -> (r: String)
        ensures
            r@ == error_text(*self),
    {
        match self {
            ContractError::NotFound => String::from_str("Record not found"),
            ContractError::Unauthorized => String::from_str("Unauthorized"),
            ContractError::MissingPartnerDenom => String::from_str("Partner denom is required"),
            ContractError::PartnerExists => String::from_str("Partner already registered"),
            ContractError::PartnerNotFound => String::from_str("Partner not found"),
            ContractError::PartnerInactive => String::from_str("Partner is inactive"),
            ContractError::RateNotSet => String::from_str("Rate not configured"),
            ContractError::InvalidRate => String::from_str("Invalid rate"),
            ContractError::ZeroAmount => String::from_str("Amount must be greater than zero"),
            ContractError::InexactAmount => String::from_str(
                "Amount does not divide evenly at the registered rate",
            ),
            ContractError::InvalidFunds => String::from_str("Invalid funds"),
            ContractError::InsufficientLocked => String::from_str("Insufficient locked balance"),
            ContractError::InsufficientLiquidity => String::from_str(
                "Insufficient contract liquidity",
            ),
        }
    }
}

/// The storage of the exchange.
pub struct CrossPlatformExchangeContract {
    ready: bool,
    admin: String,
    denom: String,
    partners: KeyTable<String, PartnerInfo>,
    rates: KeyTable<String, ExchangeRate>,
    locked: KeyTable<(String, String), u128>,
}

/// The abstract storage: admin and base denomination once instantiated, the
/// partners and rates by partner denomination, and the locked partner
/// balances by (owner, partner denomination).
#[verifier::ext_equal]
pub struct ExchangeView {
    pub config: Option<(Seq<char>, Seq<char>)>,
    pub partners: Map<Seq<char>, PartnerInfoView>,
    pub rates: Map<Seq<char>, ExchangeRateView>,
    pub locked: Map<(Seq<char>, Seq<char>), u128>,
}

impl View for CrossPlatformExchangeContract {
    type V = ExchangeView;

    closed spec fn view(&self) -> ExchangeView {
        ExchangeView {
            config: if self.ready {
                Some((self.admin@, self.denom@))
            } else {
                None
            },
            partners: self.partners@,
            rates: self.rates@,
            locked: self.locked@,
        }
    }
}

/// The trimmed partner denomination, or `None` when it is blank.
pub open spec fn partner_key(denom: Seq<char>) -> Option<Seq<char>> {
    if trim(denom).len() == 0 {
        None
    } else {
        Some(trim(denom))
    }
}

/// The trimmed partner denomination, refusing a blank one.
fn normalize_partner_denom(denom: &str) -> (r: Result<String, ContractError>)
    ensures
        match r {
            Ok(k) => partner_key(denom@) == Some(k@),
            Err(e) => partner_key(denom@) is None && e == ContractError::MissingPartnerDenom,
        },
{
    let trimmed = trim_str(denom);
    if trimmed.as_str().unicode_len() == 0 {
        Err(ContractError::MissingPartnerDenom)
    } else {
        Ok(trimmed)
    }
}

/// `amount * num / den` when the product fits in `u128`, `den` is not zero and
/// the division is exact.
pub open spec fn convert(amount: u128, num: u128, den: u128) -> Option<u128> {
    if amount * num > u128::MAX || den == 0 || (amount * num) % (den as int) != 0 {
        None
    } else {
        Some(((amount * num) / (den as int)) as u128)
    }
}

/// Converts `amount` at the rate `num` / `den`, refusing an inexact result.
fn convert_exact(amount: u128, num: u128, den: u128) -> (r: Result<u128, ContractError>)
    ensures
        match r {
            Ok(v) => convert(amount, num, den) == Some(v),
            Err(e) => convert(amount, num, den) is None && e == ContractError::InexactAmount,
        },
{
    let product = match amount.checked_mul(num) {
        Some(p) => p,
        None => return Err(ContractError::InexactAmount),
    };
    let remainder = match product.checked_rem(den) {
        Some(m) => m,
        None => return Err(ContractError::InexactAmount),
    };
    if remainder != 0 {
        return Err(ContractError::InexactAmount);
    }
    Ok(product / den)
}

/// Partner units for `amount` base units at rate `r`.
pub open spec fn partner_from_base(amount: u128, r: ExchangeRateView) -> Option<u128> {
    convert(amount, r.partner_amount, r.base_amount)
}

/// Base units for `amount` partner units at rate `r`.
pub open spec fn base_from_partner(amount: u128, r: ExchangeRateView) -> Option<u128> {
    convert(amount, r.base_amount, r.partner_amount)
}

/// The error of a message only the admin may send, if any.
pub open spec fn admin_error(s: ExchangeView, sender: Seq<char>) -> Option<ContractError> {
    match s.config {
        None => Some(ContractError::NotFound),
        Some((admin, _)) => if admin != sender {
            Some(ContractError::Unauthorized)
        } else {
            None
        },
    }
}

/// The registered active partner under `key`, or the error.
pub open spec fn active_partner(s: ExchangeView, key: Seq<char>) -> Result<
    PartnerInfoView,
    ContractError,
> {
    if !s.partners.contains_key(key) {
        Err(ContractError::PartnerNotFound)
    } else if !s.partners[key].active {
        Err(ContractError::PartnerInactive)
    } else {
        Ok(s.partners[key])
    }
}

/// The locked balance of `owner` in partner denomination `key`.
pub open spec fn locked_of(s: ExchangeView, owner: Seq<char>, key: Seq<char>) -> u128 {
    if s.locked.contains_key((owner, key)) {
        s.locked[(owner, key)]
    } else {
        0
    }
}

pub open spec fn register_partner_spec(
    s: ExchangeView,
    ctx: Context,
    denom: Seq<char>,
    label: Seq<char>,
    region: Seq<char>,
) -> Result<(ExchangeView, Reply), ContractError> {
    match admin_error(s, ctx.sender@) {
        Some(e) => Err(e),
        None => match partner_key(denom) {
            None => Err(ContractError::MissingPartnerDenom),
            Some(key) => if s.partners.contains_key(key) {
                Err(ContractError::PartnerExists)
            } else {
                let p = PartnerInfoView {
                    denom: key,
                    label: trim(label),
                    region: trim(region),
                    active: true,
                };
                Ok(
                    (
                        ExchangeView { partners: s.partners.insert(key, p), ..s },
                        reply(
                            seq![("action"@, "register_partner"@), ("partner_denom"@, key)],
                        ),
                    ),
                )
            },
        },
    }
}

pub open spec fn set_rate_spec(
    s: ExchangeView,
    ctx: Context,
    partner_denom: Seq<char>,
    base_amount: u128,
    partner_amount: u128,
) -> Result<(ExchangeView, Reply), ContractError> {
    match admin_error(s, ctx.sender@) {
        Some(e) => Err(e),
        None => match partner_key(partner_denom) {
            None => Err(ContractError::MissingPartnerDenom),
            Some(key) => match active_partner(s, key) {
                Err(e) => Err(e),
                Ok(p) => if base_amount == 0 || partner_amount == 0 {
                    Err(ContractError::InvalidRate)
                } else {
                    let rate = ExchangeRateView {
                        partner_denom: p.denom,
                        base_amount,
                        partner_amount,
                    };
                    Ok(
                        (
                            ExchangeView { rates: s.rates.insert(key, rate), ..s },
                            reply(
                                seq![
                                    ("action"@, "set_rate"@),
                                    ("partner_denom"@, key),
                                    ("base_amount"@, decimal(base_amount as nat)),
                                    ("partner_amount"@, decimal(partner_amount as nat)),
                                ],
                            ),
                        ),
                    )
                },
            },
        },
    }
}

pub open spec fn swap_spec(
    s: ExchangeView,
    ctx: Context,
    partner_denom: Seq<char>,
    direction: SwapDirection,
    amount: u128,
    contract_balance: u128,
) -> Result<(ExchangeView, Reply), ContractError> {
    if amount == 0 {
        Err(ContractError::ZeroAmount)
    } else {
        match partner_key(partner_denom) {
            None => Err(ContractError::MissingPartnerDenom),
            Some(key) => match active_partner(s, key) {
                Err(e) => Err(e),
                Ok(_) => if !s.rates.contains_key(key) {
                    Err(ContractError::RateNotSet)
                } else {
                    let rate = s.rates[key];
                    match s.config {
                        None => Err(ContractError::NotFound),
                        Some((_, base)) => {
                            let trader = ctx.sender@;
                            let locked = locked_of(s, trader, key);
                            match direction {
                                SwapDirection::BaseToPartner => match first_amount(
                                    ctx.funds@,
                                    base,
                                ) {
                                    None => Err(ContractError::InvalidFunds),
                                    Some(paid) => if paid != amount {
                                        Err(ContractError::InvalidFunds)
                                    } else {
                                        match partner_from_base(amount, rate) {
                                            None => Err(ContractError::InexactAmount),
                                            Some(out) => Ok(
                                                (
                                                    ExchangeView {
                                                        locked: s.locked.insert(
                                                            (trader, key),
                                                            (locked + out) as u128,
                                                        ),
                                                        ..s
                                                    },
                                                    reply(
                                                        seq![
                                                            ("action"@, "swap"@),
                                                            ("direction"@, "base_to_partner"@),
                                                            ("partner_denom"@, key),
                                                            ("trader"@, trader),
                                                            ("base_in"@, decimal(amount as nat)),
                                                            ("partner_out"@, decimal(out as nat)),
                                                        ],
                                                    ),
                                                ),
                                            ),
                                        }
                                    },
                                },
                                SwapDirection::PartnerToBase => if locked < amount {
                                    Err(ContractError::InsufficientLocked)
                                } else {
                                    match base_from_partner(amount, rate) {
                                        None => Err(ContractError::InexactAmount),
                                        Some(out) => if contract_balance < out {
                                            Err(ContractError::InsufficientLiquidity)
                                        } else {
                                            Ok(
                                                (
                                                    ExchangeView {
                                                        locked: s.locked.insert(
                                                            (trader, key),
                                                            (locked - amount) as u128,
                                                        ),
                                                        ..s
                                                    },
                                                    Reply {
                                                        attrs: seq![
                                                            ("action"@, "swap"@),
                                                            ("direction"@, "partner_to_base"@),
                                                            ("partner_denom"@, key),
                                                            ("trader"@, trader),
                                                            ("partner_in"@, decimal(amount as nat)),
                                                            ("base_out"@, decimal(out as nat)),
                                                        ],
                                                        sends: seq![(trader, base, out)],
                                                        calls: Seq::empty(),
                                                    },
                                                ),
                                            )
                                        },
                                    }
                                },
                            }
                        },
                    }
                },
            },
        }
    }
}

/// Whether a swap that reaches the locking of partner units keeps the
/// trader's locked balance within `u128`: the only addition a swap makes is
/// on a successful base-to-partner swap.
pub open spec fn swap_in_range(
    s: ExchangeView,
    ctx: Context,
    partner_denom: Seq<char>,
    direction: SwapDirection,
    amount: u128,
) -> bool {
    forall|key: Seq<char>, out: u128|
        direction is BaseToPartner && amount > 0 && partner_key(partner_denom) == Some(key)
            && active_partner(s, key) is Ok && s.rates.contains_key(key) && s.config is Some
            && first_amount(ctx.funds@, s.config->Some_0.1) == Some(amount) && partner_from_base(
            amount,
            s.rates[key],
        ) == Some(out) ==> locked_of(s, ctx.sender@, key) + out <= u128::MAX
}

pub open spec fn withdraw_spec(
    s: ExchangeView,
    ctx: Context,
    partner_denom: Seq<char>,
    amount: u128,
) -> Result<(ExchangeView, Reply), ContractError> {
    if amount == 0 {
        Err(ContractError::ZeroAmount)
    } else {
        match partner_key(partner_denom) {
            None => Err(ContractError::MissingPartnerDenom),
            Some(key) => match active_partner(s, key) {
                Err(e) => Err(e),
                Ok(_) => {
                    let owner = ctx.sender@;
                    let locked = locked_of(s, owner, key);
                    if locked < amount {
                        Err(ContractError::InsufficientLocked)
                    } else {
                        Ok(
                            (
                                ExchangeView {
                                    locked: s.locked.insert((owner, key), (locked - amount) as u128),
                                    ..s
                                },
                                reply(
                                    seq![
                                        ("action"@, "withdraw"@),
                                        ("partner_denom"@, key),
                                        ("owner"@, owner),
                                        ("amount"@, decimal(amount as nat)),
                                    ],
                                ),
                            ),
                        )
                    }
                },
            },
        }
    }
}

/// Whether a partner key comes after the optional start key.
pub open spec fn str_after(start: Option<Seq<char>>, k: Seq<char>) -> bool {
    match start {
        Some(st) => str_lt(st, k),
        None => true,
    }
}

/// The partners whose key follows `start` and that pass the active filter,
/// in the order of the keys `ks`.
pub open spec fn listed_partners(
    s: ExchangeView,
    ks: Seq<Seq<char>>,
    start: Option<Seq<char>>,
    active_only: bool,
) -> Seq<PartnerInfoView> {
    ks.filter(|k: Seq<char>| str_after(start, k) && (!active_only || s.partners[k].active)).map_values(
        |k: Seq<char>| s.partners[k],
    )
}

impl CrossPlatformExchangeContract {
    pub closed spec fn wf(&self) -> bool {
        &&& self.partners.wf()
        &&& self.rates.wf()
        &&& self.locked.wf()
        &&& rates_positive(self@)
    }

    /// Every stored rate of an exchange has nonzero amounts: the empty
    /// exchange has none, and setting a rate refuses a zero amount.
    pub proof fn lemma_rates_positive(&self)
        requires
            self.wf(),
        ensures
            rates_positive(self@),
    {
    }

    /// An exchange whose storage is empty, before instantiation.
    pub fn new() -> (r: Self)
        ensures
            r.wf(),
            r@ == (ExchangeView {
                config: None,
                partners: Map::empty(),
                rates: Map::empty(),
                locked: Map::empty(),
            }),
    {
        CrossPlatformExchangeContract {
            ready: false,
            admin: String::new(),
            denom: String::new(),
            partners: KeyTable::new(),
            rates: KeyTable::new(),
            locked: KeyTable::new(),
        }
    }

    fn ensure_admin(&self, ctx: &Context) -> (r: Option<ContractError>)
        ensures
            r == admin_error(self@, ctx.sender@),
    {
        if !self.ready {
            Some(ContractError::NotFound)
        } else if ctx.sender != self.admin {
            Some(ContractError::Unauthorized)
        } else {
            None
        }
    }

    fn load_active_partner(&self, key: &String) -> (r: Result<PartnerInfo, ContractError>)
        requires
            self.wf(),
        ensures
            match (r, active_partner(self@, key@)) {
                (Ok(p), Ok(q)) => p@ == q,
                (Err(e), Err(f)) => e == f,
                _ => false,
            },
    {
        match self.partners.get(key) {
            None => Err(ContractError::PartnerNotFound),
            Some(p) => if !p.active {
                Err(ContractError::PartnerInactive)
            } else {
                Ok(p.duplicate())
            },
        }
    }

    fn locked_balance(&self, owner: &String, key: &String) -> (r: u128)
        requires
            self.wf(),
        ensures
            r == locked_of(self@, owner@, key@),
    {
        match self.locked.get(&(owner.clone(), key.clone())) {
            Some(a) => *a,
            None => 0,
        }
    }

    /// Records the sender as admin and stores the base denomination.
    pub fn instantiate(&mut self, ctx: &Context, denom: Option<String>) -> (r: Response)
        requires
            old(self).wf(),
        ensures
            final(self).wf(),
            final(self)@ == (ExchangeView {
                config: Some(
                    (
                        ctx.sender@,
                        match opt_view(denom) {
                            Some(d) => d,
                            None => DEFAULT_DENOM@,
                        },
                    ),
                ),
                ..old(self)@
            }),
            r.attrs() =~= seq![
                ("method"@, "instantiate"@),
                ("denom"@, match opt_view(denom) {
                    Some(d) => d,
                    None => DEFAULT_DENOM@,
                }),
            ],
            r.sends() =~= Seq::<(Seq<char>, Seq<char>, u128)>::empty(),
            r.calls() =~= Seq::<ExecuteActionView>::empty(),
    {
        let d = match denom {
            Some(d) => d,
            None => String::from_str(DEFAULT_DENOM),
        };
        self.admin = ctx.sender.clone();
        self.denom = d.clone();
        self.ready = true;
        Response::new().add_attr("method", "instantiate").add_attribute("denom", d)
    }

    /// The admin registers an active partner under its trimmed denomination.
    pub fn register_partner(
        &mut self,
        ctx: &Context,
        denom: String,
        label: String,
        region: String,
    ) -> (r: Result<Response, ContractError>)
        requires
            old(self).wf(),
        ensures
            final(self).wf(),
            follows(
                r,
                old(self)@,
                final(self)@,
                register_partner_spec(old(self)@, *ctx, denom@, label@, region@),
            ),
    {
        if let Some(e) = self.ensure_admin(ctx) {
            return Err(e);
        }
        let key = normalize_partner_denom(denom.as_str())?;
        if self.partners.contains(&key) {
            return Err(ContractError::PartnerExists);
        }
        let partner = PartnerInfo {
            denom: key.clone(),
            label: trim_str(label.as_str()),
            region: trim_str(region.as_str()),
            active: true,
        };
        self.partners.insert(key.clone(), partner);
        Ok(Response::new().add_attr("action", "register_partner").add_attribute("partner_denom", key))
    }

    /// The admin sets the rate of an active partner; both sides must be positive.
    pub fn set_rate(
        &mut self,
        ctx: &Context,
        partner_denom: String,
        base_amount: u128,
        partner_amount: u128,
    ) -> (r: Result<Response, ContractError>)
        requires
            old(self).wf(),
        ensures
            final(self).wf(),
            follows(
                r,
                old(self)@,
                final(self)@,
                set_rate_spec(old(self)@, *ctx, partner_denom@, base_amount, partner_amount),
            ),
    {
        if let Some(e) = self.ensure_admin(ctx) {
            return Err(e);
        }
        let key = normalize_partner_denom(partner_denom.as_str())?;
        let partner = self.load_active_partner(&key)?;
        if base_amount == 0 || partner_amount == 0 {
            return Err(ContractError::InvalidRate);
        }
        let rate = ExchangeRate { partner_denom: partner.denom, base_amount, partner_amount };
        self.rates.insert(key.clone(), rate);
        Ok(
            Response::new().add_attr("action", "set_rate").add_attribute(
                "partner_denom",
                key,
            ).add_attribute("base_amount", u128_to_decimal(base_amount)).add_attribute(
                "partner_amount",
                u128_to_decimal(partner_amount),
            ),
        )
    }

    /// Swaps between the base denomination and a partner's at its rate.  Base
    /// to partner takes the base funds attached, which must equal `amount`, and
    /// locks the partner units for the trader; partner to base unlocks
    /// `amount` partner units and pays the base units out of the contract's
    /// balance `contract_balance`.
    pub fn swap(
        &mut self,
        ctx: &Context,
        partner_denom: String,
        direction: SwapDirection,
        amount: u128,
        contract_balance: u128,
    ) -> (r: Result<Response, ContractError>)
        requires
            old(self).wf(),
            swap_in_range(old(self)@, *ctx, partner_denom@, direction, amount),
        ensures
            final(self).wf(),
            follows(
                r,
                old(self)@,
                final(self)@,
                swap_spec(old(self)@, *ctx, partner_denom@, direction, amount, contract_balance),
            ),
    {
        if amount == 0 {
            return Err(ContractError::ZeroAmount);
        }
        let key = normalize_partner_denom(partner_denom.as_str())?;
        let _partner = self.load_active_partner(&key)?;
        let (rate_base, rate_partner) = match self.rates.get(&key) {
            None => return Err(ContractError::RateNotSet),
            Some(rate) => (rate.base_amount, rate.partner_amount),
        };
        if !self.ready {
            return Err(ContractError::NotFound);
        }
        let trader = ctx.sender.clone();
        match direction {
            SwapDirection::BaseToPartner => {
                let payment = match find_funds(&ctx.funds, &self.denom) {
                    None => return Err(ContractError::InvalidFunds),
                    Some(p) => p,
                };
                if payment != amount {
                    return Err(ContractError::InvalidFunds);
                }
                let partner_out = convert_exact(amount, rate_partner, rate_base)?;
                let prev = self.locked_balance(&trader, &key);
                self.locked.insert((trader.clone(), key.clone()), prev + partner_out);
                Ok(
                    Response::new().add_attr("action", "swap").add_attr(
                        "direction",
                        "base_to_partner",
                    ).add_attribute("partner_denom", key).add_attribute(
                        "trader",
                        trader,
                    ).add_attribute("base_in", u128_to_decimal(amount)).add_attribute(
                        "partner_out",
                        u128_to_decimal(partner_out),
                    ),
                )
            },
            SwapDirection::PartnerToBase => {
                let locked = self.locked_balance(&trader, &key);
                if locked < amount {
                    return Err(ContractError::InsufficientLocked);
                }
                let base_out = convert_exact(amount, rate_base, rate_partner)?;
                if contract_balance < base_out {
                    return Err(ContractError::InsufficientLiquidity);
                }
                self.locked.insert((trader.clone(), key.clone()), locked - amount);
                Ok(
                    Response::new().add_send(trader.clone(), self.denom.clone(), base_out).add_attr(
                        "action",
                        "swap",
                    ).add_attr("direction", "partner_to_base").add_attribute(
                        "partner_denom",
                        key,
                    ).add_attribute("trader", trader).add_attribute(
                        "partner_in",
                        u128_to_decimal(amount),
                    ).add_attribute("base_out", u128_to_decimal(base_out)),
                )
            },
        }
    }

    /// Takes `amount` out of the sender's locked balance of an active partner.
    pub fn withdraw(&mut self, ctx: &Context, partner_denom: String, amount: u128) -> (r: Result<
        Response,
        ContractError,
    >)
        requires
            old(self).wf(),
        ensures
            final(self).wf(),
            follows(
                r,
                old(self)@,
                final(self)@,
                withdraw_spec(old(self)@, *ctx, partner_denom@, amount),
            ),
    {
        if amount == 0 {
            return Err(ContractError::ZeroAmount);
        }
        let key = normalize_partner_denom(partner_denom.as_str())?;
        let _partner = self.load_active_partner(&key)?;
        let owner = ctx.sender.clone();
        let locked = self.locked_balance(&owner, &key);
        if locked < amount {
            return Err(ContractError::InsufficientLocked);
        }
        self.locked.insert((owner.clone(), key.clone()), locked - amount);
        Ok(
            Response::new().add_attr("action", "withdraw").add_attribute(
                "partner_denom",
                key,
            ).add_attribute("owner", owner).add_attribute("amount", u128_to_decimal(amount)),
        )
    }

    /// The partner registered under the trimmed denomination.
    pub fn get_partner(&self, partner_denom: String) -> (r: Result<PartnerInfo, ContractError>)
        requires
            self.wf(),
        ensures
            match partner_key(partner_denom@) {
                None => r == Err::<PartnerInfo, ContractError>(ContractError::MissingPartnerDenom),
                Some(key) => match r {
                    Ok(p) => self@.partners.contains_key(key) && p@ == self@.partners[key],
                    Err(e) => !self@.partners.contains_key(key) && e
                        == ContractError::PartnerNotFound,
                },
            },
    {
        let key = normalize_partner_denom(partner_denom.as_str())?;
        match self.partners.get(&key) {
            Some(p) => Ok(p.duplicate()),
            None => Err(ContractError::PartnerNotFound),
        }
    }

    /// Up to `limit` (10 by default, 30 at most) partners whose trimmed
    /// denomination follows `start_after` in byte order, active ones only if
    /// asked, in ascending byte order of their denomination.
    pub fn list_partners(
        &self,
        active_only: Option<bool>,
        limit: Option<u32>,
        start_after: Option<String>,
    ) -> (r: Result<Vec<PartnerInfo>, ContractError>)
        requires
            self.wf(),
        ensures
            match start_after {
                Some(s) if partner_key(s@) is None => r == Err::<Vec<PartnerInfo>, ContractError>(
                    ContractError::MissingPartnerDenom,
                ),
                _ => match r {
                    Ok(v) => exists|ks: Seq<Seq<char>>|
                        ascending(ks) && ks.to_set() == self@.partners.dom() && v@.map_values(
                            |p: PartnerInfo| p@,
                        ) == cap(
                            listed_partners(
                                self@,
                                ks,
                                match start_after {
                                    Some(s) => partner_key(s@),
                                    None => None,
                                },
                                match active_only {
                                    Some(b) => b,
                                    None => false,
                                },
                            ),
                            page_limit(limit, 10, 30),
                        ),
                    Err(_) => false,
                },
            },
    {
        let n = page_size(limit, 10, 30);
        let start = match start_after {
            Some(s) => Some(normalize_partner_denom(s.as_str())?),
            None => None,
        };
        let only_active = match active_only {
            Some(b) => b,
            None => false,
        };
        let keys = self.partners.keys();
        let sorted = sort_ascending(keys);
        let ghost ks = sorted@.map_values(|x: String| x@);
        let ghost sv = opt_view(start);
        let ghost q = |k: Seq<char>| str_after(sv, k) && (!only_active || self@.partners[k].active);
        let ghost val = |k: Seq<char>| self@.partners[k];
        let mut res: Vec<PartnerInfo> = Vec::new();
        let mut i: usize = 0;
        assert(ks.take(0).filter(q) =~= Seq::<Seq<char>>::empty()) by {
            reveal(Seq::filter);
        }
        while i < sorted.len()
            invariant
                self.wf(),
                ks == sorted@.map_values(|x: String| x@),
                ks.to_set() == self@.partners.dom(),
                sv == opt_view(start),
                i <= sorted.len(),
                q == (|k: Seq<char>| str_after(sv, k) && (!only_active || self@.partners[k].active)),
                val == (|k: Seq<char>| self@.partners[k]),
                res@.map_values(|p: PartnerInfo| p@) == cap(ks.take(i as int).filter(q).map_values(val), n as nat),
            decreases sorted.len() - i,
        {
            let ghost prev = ks.take(i as int).filter(q);
            let k = &sorted[i];
            assert(k@ == ks[i as int]);
            assert(ks.take(i + 1) =~= ks.take(i as int).push(k@));
            proof {
                ks.take(i as int).lemma_filter_push(k@, q);
                assert(ks.to_set().contains(k@));
            }
            let after = match &start {
                Some(s) => string_lt(s, k),
                None => true,
            };
            let p = match self.partners.get(k) {
                Some(p) => p,
                None => {
                    assert(false);
                    return Ok(res);
                },
            };
            let keep = after && (!only_active || p.active);
            assert(keep == q(k@));
            if keep {
                assert(prev.push(k@).map_values(val) =~= prev.map_values(val).push(p@));
                if res.len() < n {
                    let ghost before = res@;
                    res.push(p.duplicate());
                    assert(res@.map_values(|p: PartnerInfo| p@) =~= before.map_values(
                        |p: PartnerInfo| p@,
                    ).push(p@));
                } else {
                    assert(cap(prev.push(k@).map_values(val), n as nat) =~= cap(
                        prev.map_values(val),
                        n as nat,
                    ));
                }
            }
            i = i + 1;
        }
        assert(ks.take(sorted.len() as int) =~= ks);
        assert(sv == match start_after {
            Some(s) => partner_key(s@),
            None => None,
        });
        Ok(res)
    }

    /// The rate registered for the trimmed denomination.
    pub fn get_rate(&self, partner_denom: String) -> (r: Result<ExchangeRate, ContractError>)
        requires
            self.wf(),
        ensures
            match partner_key(partner_denom@) {
                None => r == Err::<ExchangeRate, ContractError>(ContractError::MissingPartnerDenom),
                Some(key) => match r {
                    Ok(rate) => self@.rates.contains_key(key) && rate@ == self@.rates[key],
                    Err(e) => !self@.rates.contains_key(key) && e == ContractError::RateNotSet,
                },
            },
    {
        let key = normalize_partner_denom(partner_denom.as_str())?;
        match self.rates.get(&key) {
            Some(rate) => Ok(
                ExchangeRate {
                    partner_denom: rate.partner_denom.clone(),
                    base_amount: rate.base_amount,
                    partner_amount: rate.partner_amount,
                },
            ),
            None => Err(ContractError::RateNotSet),
        }
    }

    /// The locked balance of `address` in the trimmed partner denomination.
    pub fn get_locked_balance(&self, address: String, partner_denom: String) -> (r: Result<
        u128,
        ContractError,
    >)
        requires
            self.wf(),
        ensures
            match partner_key(partner_denom@) {
                None => r == Err::<u128, ContractError>(ContractError::MissingPartnerDenom),
                Some(key) => r == Ok::<u128, ContractError>(locked_of(self@, address@, key)),
            },
    {
        let key = normalize_partner_denom(partner_denom.as_str())?;
        Ok(self.locked_balance(&address, &key))
    }

    /// The base denomination, once instantiated.
    pub fn base_denom(&self) -> (r: Option<String>)
        ensures
            match r {
                Some(d) => self@.config matches Some((_, b)) && d@ == b,
                None => self@.config is None,
            },
    {
        if self.ready {
            Some(self.denom.clone())
        } else {
            None
        }
    }

    /// Whether a swap meets the overflow bound of `swap`.
    pub fn swap_fits(
        &self,
        ctx: &Context,
        partner_denom: &String,
        direction: SwapDirection,
        amount: u128,
    ) -> (r: bool)
        requires
            self.wf(),
        ensures
            r == swap_in_range(self@, *ctx, partner_denom@, direction, amount),
    {
        match direction {
            SwapDirection::PartnerToBase => return true,
            SwapDirection::BaseToPartner => {},
        }
        if amount == 0 {
            return true;
        }
        let key = match normalize_partner_denom(partner_denom.as_str()) {
            Ok(k) => k,
            Err(_) => return true,
        };
        if self.load_active_partner(&key).is_err() {
            return true;
        }
        let (rate_base, rate_partner) = match self.rates.get(&key) {
            None => return true,
            Some(rate) => (rate.base_amount, rate.partner_amount),
        };
        if !self.ready {
            return true;
        }
        match find_funds(&ctx.funds, &self.denom) {
            Some(paid) => {
                if paid != amount {
                    return true;
                }
            },
            None => return true,
        }
        let out = match convert_exact(amount, rate_partner, rate_base) {
            Ok(o) => o,
            Err(_) => return true,
        };
        let locked = self.locked_balance(&ctx.sender, &key);
        let fits = locked <= u128::MAX - out;
        proof {
            if !fits {
                assert(!(locked_of(self@, ctx.sender@, key@) + out <= u128::MAX));
            }
        }
        fits
    }

}

/// A withdrawal takes exactly `amount` off the sender's locked balance in
/// that partner denomination and leaves every other locked balance, partner,
/// rate and setting as it was; it answers with no transfer or message.
pub proof fn withdraw_debits_locked(
    s: ExchangeView,
    ctx: Context,
    partner_denom: Seq<char>,
    amount: u128,
    owner: Seq<char>,
    key: Seq<char>,
)
    requires
        withdraw_spec(s, ctx, partner_denom, amount) is Ok,
    ensures
        ({
            let (after, rep) = withdraw_spec(s, ctx, partner_denom, amount)->Ok_0;
            let k = partner_key(partner_denom)->Some_0;
            &&& amount > 0
            &&& locked_of(s, ctx.sender@, k) >= amount
            &&& locked_of(after, ctx.sender@, k) == locked_of(s, ctx.sender@, k) - amount
            &&& (owner, key) != (ctx.sender@, k) ==> locked_of(after, owner, key) == locked_of(s, owner, key)
            &&& after.partners == s.partners
            &&& after.rates == s.rates
            &&& after.config == s.config
            &&& rep.sends.len() == 0
            &&& rep.calls.len() == 0
        }),
{
}

/// Converting base units to partner units at a rate with a nonzero partner
/// amount (as every stored rate has) and back gives the base amount again.
pub proof fn conversion_round_trip(amount: u128, r: ExchangeRateView)
    requires
        partner_from_base(amount, r) is Some,
        r.partner_amount > 0,
    ensures
        base_from_partner(partner_from_base(amount, r)->Some_0, r) == Some(amount),
{
    let p = r.partner_amount as int;
    let b = r.base_amount as int;
    let a = amount as int;
    let out = (a * p) / b;
    assert(out * b == a * p) by (nonlinear_arith)
        requires
            b > 0,
            (a * p) % b == 0,
            out == (a * p) / b,
    ;
    assert((out * b) % p == 0 && (out * b) / p == a) by (nonlinear_arith)
        requires
            p > 0,
            out * b == a * p,
    ;
}

/// Whether every stored rate has nonzero base and partner amounts.
pub open spec fn rates_positive(s: ExchangeView) -> bool {
    forall|k: Seq<char>| #[trigger]
        s.rates.contains_key(k) ==> s.rates[k].base_amount > 0 && s.rates[k].partner_amount > 0
}

/// Setting a rate keeps every stored rate nonzero.
pub proof fn rates_stay_positive(
    s: ExchangeView,
    ctx: Context,
    partner_denom: Seq<char>,
    base_amount: u128,
    partner_amount: u128,
)
    requires
        rates_positive(s),
        set_rate_spec(s, ctx, partner_denom, base_amount, partner_amount) is Ok,
    ensures
        rates_positive(set_rate_spec(s, ctx, partner_denom, base_amount, partner_amount)->Ok_0.0),
{
}

/// Swapping base units into locked partner units and swapping those back
/// restores the trader's locked balance and pays back the base amount.
pub proof fn swap_round_trip(
    s: ExchangeView,
    ctx: Context,
    back: Context,
    partner_denom: Seq<char>,
    amount: u128,
    contract_balance: u128,
    balance_back: u128,
)
    requires
        rates_positive(s),
        swap_spec(s, ctx, partner_denom, SwapDirection::BaseToPartner, amount, contract_balance) is Ok,
        swap_in_range(s, ctx, partner_denom, SwapDirection::BaseToPartner, amount),
        back.sender@ == ctx.sender@,
        balance_back >= amount,
    ensures
        ({
            let key = partner_key(partner_denom)->Some_0;
            let out = partner_from_base(amount, s.rates[key])->Some_0;
            let locked = swap_spec(
                s,
                ctx,
                partner_denom,
                SwapDirection::BaseToPartner,
                amount,
                contract_balance,
            )->Ok_0.0;
            let returned = swap_spec(
                locked,
                back,
                partner_denom,
                SwapDirection::PartnerToBase,
                out,
                balance_back,
            );
            &&& swap_in_range(locked, back, partner_denom, SwapDirection::PartnerToBase, out)
            &&& returned is Ok
            &&& locked_of(returned->Ok_0.0, ctx.sender@, key) == locked_of(s, ctx.sender@, key)
            &&& returned->Ok_0.1.sends == seq![(ctx.sender@, s.config->Some_0.1, amount)]
        }),
{
    let key = partner_key(partner_denom)->Some_0;
    let r = s.rates[key];
    conversion_round_trip(amount, r);
    let out = partner_from_base(amount, r)->Some_0;
    assert(out > 0) by {
        let a = amount as int;
        let p = r.partner_amount as int;
        let b = r.base_amount as int;
        assert((a * p) / b > 0) by (nonlinear_arith)
            requires
                a > 0,
                p > 0,
                b > 0,
                (a * p) % b == 0,
        ;
    }
}

/// A swap is refused, in this order: a zero amount; a blank partner
/// denomination; an unregistered partner; an inactive one; a partner without
/// a rate.  Then, base to partner: funds that are not exactly the amount in
/// the base denomination, then an inexact conversion; partner to base: a
/// locked balance short of the amount, an inexact conversion, then too little
/// liquidity.  Every refused swap meets the overflow bound of `swap`, so the
/// handler answers it with that error and unchanged storage.
pub proof fn swap_refusals(
    s: ExchangeView,
    ctx: Context,
    partner_denom: Seq<char>,
    direction: SwapDirection,
    amount: u128,
    contract_balance: u128,
)
    ensures
        ({
            let o = swap_spec(s, ctx, partner_denom, direction, amount, contract_balance);
            let key = partner_key(partner_denom)->Some_0;
            let reaches = amount > 0 && partner_key(partner_denom) is Some && s.partners.contains_key(key)
                && s.partners[key].active && s.rates.contains_key(key) && s.config is Some;
            let locked = locked_of(s, ctx.sender@, key);
            &&& amount == 0 ==> o == Err::<(ExchangeView, Reply), ContractError>(ContractError::ZeroAmount)
            &&& amount > 0 && partner_key(partner_denom) is None ==> o == Err::<
                (ExchangeView, Reply),
                ContractError,
            >(ContractError::MissingPartnerDenom)
            &&& amount > 0 && partner_key(partner_denom) is Some && !s.partners.contains_key(key) ==> o
                == Err::<(ExchangeView, Reply), ContractError>(ContractError::PartnerNotFound)
            &&& amount > 0 && partner_key(partner_denom) is Some && s.partners.contains_key(key)
                && !s.partners[key].active ==> o == Err::<(ExchangeView, Reply), ContractError>(
                ContractError::PartnerInactive,
            )
            &&& amount > 0 && partner_key(partner_denom) is Some && s.partners.contains_key(key)
                && s.partners[key].active && !s.rates.contains_key(key) ==> o == Err::<
                (ExchangeView, Reply),
                ContractError,
            >(ContractError::RateNotSet)
            &&& reaches && direction is BaseToPartner && first_amount(ctx.funds@, s.config->Some_0.1)
                != Some(amount) ==> o == Err::<(ExchangeView, Reply), ContractError>(
                ContractError::InvalidFunds,
            )
            &&& reaches && direction is BaseToPartner && first_amount(ctx.funds@, s.config->Some_0.1)
                == Some(amount) && partner_from_base(amount, s.rates[key]) is None ==> o == Err::<
                (ExchangeView, Reply),
                ContractError,
            >(ContractError::InexactAmount)
            &&& reaches && direction is PartnerToBase && locked < amount ==> o == Err::<
                (ExchangeView, Reply),
                ContractError,
            >(ContractError::InsufficientLocked)
            &&& reaches && direction is PartnerToBase && locked >= amount && base_from_partner(
                amount,
                s.rates[key],
            ) is None ==> o == Err::<(ExchangeView, Reply), ContractError>(
                ContractError::InexactAmount,
            )
            &&& reaches && direction is PartnerToBase && locked >= amount && base_from_partner(
                amount,
                s.rates[key],
            ) is Some && contract_balance < base_from_partner(amount, s.rates[key])->Some_0 ==> o == Err::<
                (ExchangeView, Reply),
                ContractError,
            >(ContractError::InsufficientLiquidity)
            &&& o is Err ==> swap_in_range(s, ctx, partner_denom, direction, amount)
        }),
{
}

/// The round trip of `swap_round_trip` holds in every exchange that the
/// handlers can produce: their stored rates are all nonzero.
pub proof fn stored_swap_round_trip(
    ex: &CrossPlatformExchangeContract,
    ctx: Context,
    back: Context,
    partner_denom: Seq<char>,
    amount: u128,
    contract_balance: u128,
    balance_back: u128,
)
    requires
        ex.wf(),
        swap_spec(ex@, ctx, partner_denom, SwapDirection::BaseToPartner, amount, contract_balance) is Ok,
        swap_in_range(ex@, ctx, partner_denom, SwapDirection::BaseToPartner, amount),
        back.sender@ == ctx.sender@,
        balance_back >= amount,
    ensures
        ({
            let s = ex@;
            let key = partner_key(partner_denom)->Some_0;
            let out = partner_from_base(amount, s.rates[key])->Some_0;
            let locked = swap_spec(
                s,
                ctx,
                partner_denom,
                SwapDirection::BaseToPartner,
                amount,
                contract_balance,
            )->Ok_0.0;
            let returned = swap_spec(
                locked,
                back,
                partner_denom,
                SwapDirection::PartnerToBase,
                out,
                balance_back,
            );
            &&& returned is Ok
            &&& locked_of(returned->Ok_0.0, ctx.sender@, key) == locked_of(s, ctx.sender@, key)
            &&& returned->Ok_0.1.sends == seq![(ctx.sender@, s.config->Some_0.1, amount)]
        }),
{
    ex.lemma_rates_positive();
    swap_round_trip(ex@, ctx, back, partner_denom, amount, contract_balance, balance_back);
}

} // verus!
