//! The water credit marketplace: the admin mints credits, holders list
//! credits for sale at a price, buyers pay the price to take the credits,
//! sellers cancel open listings, and holders transfer credits.
use vstd::prelude::*;
use crate::actions::ExecuteActionView;
use crate::chain::{
    Context, Reply, Response, find_funds, first_amount, follows, opt_view, page_limit, page_size,
    reply,
};
use crate::keyed::KeyTable;
use crate::table::{Duplicate, IdTable, cap, entries_map, selected, strictly_sorted};
use crate::text::{decimal, trim, trim_str, u128_to_decimal, u64_to_decimal};

verus! {

/// The denomination used when instantiation names none.
pub const DEFAULT_DENOM: &'static str = "ustake";

/// Credits offered for sale.
#[derive(Debug, Clone, PartialEq, Eq)]
pub struct CreditListing {
    pub id: u64,
    pub seller: String,
    pub credits: u128,
    pub price: u128,
    pub region: String,
    pub expires_at: Option<u64>,
    pub active: bool,
    pub created_at: u64,
}

pub struct CreditListingView {
    pub id: u64,
    pub seller: Seq<char>,
    pub credits: u128,
    pub price: u128,
    pub region: Seq<char>,
    pub expires_at: Option<u64>,
    pub active: bool,
    pub created_at: u64,
}

impl View for CreditListing {
    type V = CreditListingView;

    open spec fn view(&self) -> CreditListingView {
        CreditListingView {
            id: self.id,
            seller: self.seller@,
            credits: self.credits,
            price: self.price,
            region: self.region@,
            expires_at: self.expires_at,
            active: self.active,
            created_at: self.created_at,
        }
    }
}

impl Duplicate for CreditListing {
    fn duplicate(&self) -> (r: Self) {
        CreditListing {
            id: self.id,
            seller: self.seller.clone(),
            credits: self.credits,
            price: self.price,
            region: self.region.clone(),
            expires_at: self.expires_at,
            active: self.active,
            created_at: self.created_at,
        }
    }
}

/// The errors of the marketplace.
#[derive(Debug, Clone, Copy, PartialEq, Eq, Structural)]
pub enum ContractError {
    /// A stored record or setting is missing.
    NotFound,
    Unauthorized,
    InvalidFunds,
    InsufficientCredits,
    ListingInactive,
    ListingExpired,
    ZeroCredits,
    ZeroPrice,
    InvalidExpiry,
    WrongPrice,
}

pub open spec fn error_text(e: ContractError) -> Seq<char> {
    match e {
        ContractError::NotFound => "Record not found"@,
        ContractError::Unauthorized => "Unauthorized"@,
        ContractError::InvalidFunds => "Invalid funds"@,
        ContractError::InsufficientCredits => "Insufficient credit balance"@,
        ContractError::ListingInactive => "Listing is not active"@,
        ContractError::ListingExpired => "Listing has expired"@,
        ContractError::ZeroCredits => "Credits must be greater than zero"@,
        ContractError::ZeroPrice => "Price must be greater than zero"@,
        ContractError::InvalidExpiry => "Invalid expiry"@,
        ContractError::WrongPrice => "Payment must match listing price"@,
    }
}

impl ContractError {
    /// The message of the error.
    pub fn message(&self) -> (r: String)
        ensures
            r@ == error_text(*self),
    {
        match self {
            ContractError::NotFound => String::from_str("Record not found"),
            ContractError::Unauthorized => String::from_str("Unauthorized"),
            ContractError::InvalidFunds => String::from_str("Invalid funds"),
            ContractError::InsufficientCredits => String::from_str("Insufficient credit balance"),
            ContractError::ListingInactive => String::from_str("Listing is not active"),
            ContractError::ListingExpired => String::from_str("Listing has expired"),
            ContractError::ZeroCredits => String::from_str("Credits must be greater than zero"),
            ContractError::ZeroPrice => String::from_str("Price must be greater than zero"),
            ContractError::InvalidExpiry => String::from_str("Invalid expiry"),
            ContractError::WrongPrice => String::from_str("Payment must match listing price"),
        }
    }
}

/// The settings written at instantiation.
pub struct ConfigView {
    pub admin: Seq<char>,
    pub denom: Seq<char>,
    pub next_listing_id: u64,
}

/// The storage of the marketplace.
pub struct WaterCreditMarketplaceContract {
    ready: bool,
    admin: String,
    denom: String,
    next_listing_id: u64,
    balances: KeyTable<String, u128>,
    listings: IdTable<CreditListing>,
}

/// The abstract storage.
#[verifier::ext_equal]
pub struct MarketView {
    pub config: Option<ConfigView>,
    pub balances: Map<Seq<char>, u128>,
    pub listings: Map<u64, CreditListingView>,
}

impl View for WaterCreditMarketplaceContract {
    type V = MarketView;

    closed spec fn view(&self) -> MarketView {
        MarketView {
            config: if self.ready {
                Some(
                    ConfigView {
                        admin: self.admin@,
                        denom: self.denom@,
                        next_listing_id: self.next_listing_id,
                    },
                )
            } else {
                None
            },
            balances: self.balances@,
            listings: self.listings@,
        }
    }
}

/// The credit balance of `a` (zero when none is stored).
pub open spec fn balance_of(m: Map<Seq<char>, u128>, a: Seq<char>) -> u128 {
    if m.contains_key(a) {
        m[a]
    } else {
        0
    }
}

/// The error of a message only the admin may send, if any.
pub open spec fn admin_error(s: MarketView, sender: Seq<char>) -> Option<ContractError> {
    match s.config {
        None => Some(ContractError::NotFound),
        Some(c) => if c.admin != sender {
            Some(ContractError::Unauthorized)
        } else {
            None
        },
    }
}

pub open spec fn mint_credits_spec(s: MarketView, ctx: Context, recipient: Seq<char>, amount: u128) -> Result<
    (MarketView, Reply),
    ContractError,
> {
    match admin_error(s, ctx.sender@) {
        Some(e) => Err(e),
        None => if amount == 0 {
            Err(ContractError::ZeroCredits)
        } else {
            Ok(
                (
                    MarketView {
                        balances: s.balances.insert(
                            recipient,
                            (balance_of(s.balances, recipient) + amount) as u128,
                        ),
                        ..s
                    },
                    reply(
                        seq![
                            ("action"@, "mint_credits"@),
                            ("recipient"@, recipient),
                            ("amount"@, decimal(amount as nat)),
                        ],
                    ),
                ),
            )
        },
    }
}

pub open spec fn list_credit_spec(
    s: MarketView,
    ctx: Context,
    credits: u128,
    price: u128,
    region: Seq<char>,
    expires_at: Option<u64>,
) -> Result<(MarketView, Reply), ContractError> {
    let now = ctx.block_time;
    let seller = ctx.sender@;
    let balance = balance_of(s.balances, seller);
    if credits == 0 {
        Err(ContractError::ZeroCredits)
    } else if price == 0 {
        Err(ContractError::ZeroPrice)
    } else if expires_at matches Some(exp) && exp <= now {
        Err(ContractError::InvalidExpiry)
    } else if balance < credits {
        Err(ContractError::InsufficientCredits)
    } else {
        match s.config {
            None => Err(ContractError::NotFound),
            Some(c) => {
                let id = c.next_listing_id;
                let listing = CreditListingView {
                    id,
                    seller,
                    credits,
                    price,
                    region: trim(region),
                    expires_at,
                    active: true,
                    created_at: now,
                };
                Ok(
                    (
                        MarketView {
                            config: Some(ConfigView { next_listing_id: (id + 1) as u64, ..c }),
                            balances: s.balances.insert(seller, (balance - credits) as u128),
                            listings: s.listings.insert(id, listing),
                        },
                        reply(
                            seq![
                                ("action"@, "list_credit"@),
                                ("listing_id"@, decimal(id as nat)),
                                ("seller"@, seller),
                                ("credits"@, decimal(credits as nat)),
                                ("price"@, decimal(price as nat)),
                            ],
                        ),
                    ),
                )
            },
        }
    }
}

pub open spec fn buy_credit_spec(s: MarketView, ctx: Context, id: u64) -> Result<
    (MarketView, Reply),
    ContractError,
> {
    if !s.listings.contains_key(id) {
        Err(ContractError::NotFound)
    } else {
        let l = s.listings[id];
        if !l.active {
            Err(ContractError::ListingInactive)
        } else if l.expires_at matches Some(exp) && ctx.block_time > exp {
            Err(ContractError::ListingExpired)
        } else {
            match s.config {
                None => Err(ContractError::NotFound),
                Some(c) => match first_amount(ctx.funds@, c.denom) {
                    None => Err(ContractError::InvalidFunds),
                    Some(paid) => if paid != l.price {
                        Err(ContractError::WrongPrice)
                    } else {
                        let buyer = ctx.sender@;
                        Ok(
                            (
                                MarketView {
                                    listings: s.listings.insert(
                                        id,
                                        CreditListingView { active: false, ..l },
                                    ),
                                    balances: s.balances.insert(
                                        buyer,
                                        (balance_of(s.balances, buyer) + l.credits) as u128,
                                    ),
                                    ..s
                                },
                                Reply {
                                    attrs: seq![
                                        ("action"@, "buy_credit"@),
                                        ("listing_id"@, decimal(id as nat)),
                                        ("buyer"@, buyer),
                                        ("seller"@, l.seller),
                                        ("credits"@, decimal(l.credits as nat)),
                                        ("price"@, decimal(l.price as nat)),
                                    ],
                                    sends: seq![(l.seller, c.denom, l.price)],
                                    calls: Seq::empty(),
                                },
                            ),
                        )
                    },
                },
            }
        }
    }
}

pub open spec fn cancel_listing_spec(s: MarketView, ctx: Context, id: u64) -> Result<
    (MarketView, Reply),
    ContractError,
> {
    if !s.listings.contains_key(id) {
        Err(ContractError::NotFound)
    } else {
        let l = s.listings[id];
        if ctx.sender@ != l.seller {
            Err(ContractError::Unauthorized)
        } else if !l.active {
            Err(ContractError::ListingInactive)
        } else {
            Ok(
                (
                    MarketView {
                        listings: s.listings.insert(id, CreditListingView { active: false, ..l }),
                        balances: s.balances.insert(
                            l.seller,
                            (balance_of(s.balances, l.seller) + l.credits) as u128,
                        ),
                        ..s
                    },
                    reply(
                        seq![
                            ("action"@, "cancel_listing"@),
                            ("listing_id"@, decimal(id as nat)),
                            ("seller"@, l.seller),
                            ("credits_returned"@, decimal(l.credits as nat)),
                        ],
                    ),
                ),
            )
        }
    }
}

/// The balances after `amount` moves from `from` to `to`: the sender's
/// balance is written first, and the recipient's is read after that write.
pub open spec fn moved(m: Map<Seq<char>, u128>, from: Seq<char>, to: Seq<char>, amount: u128) -> Map<
    Seq<char>,
    u128,
> {
    let m1 = m.insert(from, (balance_of(m, from) - amount) as u128);
    m1.insert(to, (balance_of(m1, to) + amount) as u128)
}

pub open spec fn transfer_credit_spec(s: MarketView, ctx: Context, recipient: Seq<char>, amount: u128) -> Result<
    (MarketView, Reply),
    ContractError,
> {
    let sender = ctx.sender@;
    if amount == 0 {
        Err(ContractError::ZeroCredits)
    } else if balance_of(s.balances, sender) < amount {
        Err(ContractError::InsufficientCredits)
    } else {
        Ok(
            (
                MarketView { balances: moved(s.balances, sender, recipient, amount), ..s },
                reply(
                    seq![
                        ("action"@, "transfer_credit"@),
                        ("from"@, sender),
                        ("to"@, recipient),
                        ("amount"@, decimal(amount as nat)),
                    ],
                ),
            ),
        )
    }
}

/// An optional flag, false when absent.
pub open spec fn flag_or_false(b: Option<bool>) -> bool {
    match b {
        Some(b) => b,
        None => false,
    }
}

/// Whether a listing passes the active filter.
pub open spec fn listing_matches(active_only: bool, l: CreditListingView) -> bool {
    !active_only || l.active
}

impl WaterCreditMarketplaceContract {
    pub closed spec fn wf(&self) -> bool {
        &&& self.balances.wf()
        &&& self.listings.wf()
    }

    /// The listings in ascending id order.
    pub closed spec fn listing_entries(&self) -> Seq<(u64, CreditListing)> {
        self.listings.entries()
    }

    /// The ordered listings are the map of the view.
    pub proof fn lemma_entries(&self)
        requires
            self.wf(),
        ensures
            strictly_sorted(self.listing_entries()),
            entries_map(self.listing_entries()) == self@.listings,
    {
    }

    /// A marketplace whose storage is empty, before instantiation.
    pub fn new() -> (r: Self)
        ensures
            r.wf(),
            r@ == (MarketView { config: None, balances: Map::empty(), listings: Map::empty() }),
    {
        WaterCreditMarketplaceContract {
            ready: false,
            admin: String::new(),
            denom: String::new(),
            next_listing_id: 0,
            balances: KeyTable::new(),
            listings: IdTable::new(),
        }
    }

    fn ensure_admin(&self, ctx: &Context) -> (r: Option<ContractError>)
        ensures
            r == admin_error(self@, ctx.sender@),
    {
        if !self.ready {
            Some(ContractError::NotFound)
        } else if ctx.sender != self.admin {
            Some(ContractError::Unauthorized)
        } else {
            None
        }
    }

    fn balance(&self, a: &String) -> (r: u128)
        requires
            self.wf(),
        ensures
            r == balance_of(self@.balances, a@),
    {
        match self.balances.get(a) {
            Some(b) => *b,
            None => 0,
        }
    }

    /// Records the sender as admin, starts listing ids at 1 and stores the
    /// payment denomination.
    pub fn instantiate(&mut self, ctx: &Context, denom: Option<String>) -> (r: Response)
        requires
            old(self).wf(),
        ensures
            final(self).wf(),
            final(self)@ == (MarketView {
                config: Some(
                    ConfigView {
                        admin: ctx.sender@,
                        denom: match opt_view(denom) {
                            Some(d) => d,
                            None => DEFAULT_DENOM@,
                        },
                        next_listing_id: 1,
                    },
                ),
                ..old(self)@
            }),
            r.attrs() =~= seq![
                ("method"@, "instantiate"@),
                ("denom"@, match opt_view(denom) {
                    Some(d) => d,
                    None => DEFAULT_DENOM@,
                }),
            ],
            r.sends() =~= Seq::<(Seq<char>, Seq<char>, u128)>::empty(),
            r.calls() =~= Seq::<ExecuteActionView>::empty(),
    {
        let d = match denom {
            Some(d) => d,
            None => String::from_str(DEFAULT_DENOM),
        };
        self.admin = ctx.sender.clone();
        self.denom = d.clone();
        self.next_listing_id = 1;
        self.ready = true;
        Response::new().add_attr("method", "instantiate").add_attribute("denom", d)
    }

    /// The admin adds `amount` credits to `recipient`.
    pub fn mint_credits(&mut self, ctx: &Context, recipient: String, amount: u128) -> (r: Result<
        Response,
        ContractError,
    >)
        requires
            old(self).wf(),
            admin_error(old(self)@, ctx.sender@) is None && amount > 0 ==> balance_of(
                old(self)@.balances,
                recipient@,
            ) + amount <= u128::MAX,
        ensures
            final(self).wf(),
            follows(
                r,
                old(self)@,
                final(self)@,
                mint_credits_spec(old(self)@, *ctx, recipient@, amount),
            ),
    {
        if let Some(e) = self.ensure_admin(ctx) {
            return Err(e);
        }
        if amount == 0 {
            return Err(ContractError::ZeroCredits);
        }
        let prev = self.balance(&recipient);
        self.balances.insert(recipient.clone(), prev + amount);
        Ok(
            Response::new().add_attr("action", "mint_credits").add_attribute(
                "recipient",
                recipient,
            ).add_attribute("amount", u128_to_decimal(amount)),
        )
    }

    /// Moves `credits` of the sender's balance into a new active listing at `price`.
    pub fn list_credit(
        &mut self,
        ctx: &Context,
        credits: u128,
        price: u128,
        region: String,
        expires_at: Option<u64>,
    ) -> (r: Result<Response, ContractError>)
        requires
            old(self).wf(),
            old(self)@.config matches Some(c) ==> c.next_listing_id < u64::MAX,
        ensures
            final(self).wf(),
            follows(
                r,
                old(self)@,
                final(self)@,
                list_credit_spec(old(self)@, *ctx, credits, price, region@, expires_at),
            ),
    {
        if credits == 0 {
            return Err(ContractError::ZeroCredits);
        }
        if price == 0 {
            return Err(ContractError::ZeroPrice);
        }
        let now = ctx.block_time;
        if let Some(exp) = expires_at {
            if exp <= now {
                return Err(ContractError::InvalidExpiry);
            }
        }
        let seller = ctx.sender.clone();
        let balance = self.balance(&seller);
        if balance < credits {
            return Err(ContractError::InsufficientCredits);
        }
        if !self.ready {
            return Err(ContractError::NotFound);
        }
        self.balances.insert(seller.clone(), balance - credits);
        let id = self.next_listing_id;
        let listing = CreditListing {
            id,
            seller: seller.clone(),
            credits,
            price,
            region: trim_str(region.as_str()),
            expires_at,
            active: true,
            created_at: now,
        };
        self.listings.insert(id, listing);
        self.next_listing_id = id + 1;
        Ok(
            Response::new().add_attr("action", "list_credit").add_attribute(
                "listing_id",
                u64_to_decimal(id),
            ).add_attribute("seller", seller).add_attribute(
                "credits",
                u128_to_decimal(credits),
            ).add_attribute("price", u128_to_decimal(price)),
        )
    }

    /// Buys an active, unexpired listing for exactly its price; the credits go
    /// to the buyer and the payment to the seller.
    pub fn buy_credit(&mut self, ctx: &Context, listing_id: u64) -> (r: Result<
        Response,
        ContractError,
    >)
        requires
            old(self).wf(),
            buy_credit_spec(old(self)@, *ctx, listing_id) is Ok ==> balance_of(
                old(self)@.balances,
                ctx.sender@,
            ) + old(self)@.listings[listing_id].credits <= u128::MAX,
        ensures
            final(self).wf(),
            follows(r, old(self)@, final(self)@, buy_credit_spec(old(self)@, *ctx, listing_id)),
    {
        let mut listing = match self.listings.get(listing_id) {
            None => return Err(ContractError::NotFound),
            Some(l) => l.duplicate(),
        };
        if !listing.active {
            return Err(ContractError::ListingInactive);
        }
        let now = ctx.block_time;
        if let Some(exp) = listing.expires_at {
            if now > exp {
                return Err(ContractError::ListingExpired);
            }
        }
        if !self.ready {
            return Err(ContractError::NotFound);
        }
        let payment = match find_funds(&ctx.funds, &self.denom) {
            None => return Err(ContractError::InvalidFunds),
            Some(p) => p,
        };
        if payment != listing.price {
            return Err(ContractError::WrongPrice);
        }
        listing.active = false;
        let seller = listing.seller.clone();
        let credits = listing.credits;
        let price = listing.price;
        self.listings.insert(listing_id, listing);
        let buyer = ctx.sender.clone();
        let buyer_balance = self.balance(&buyer);
        self.balances.insert(buyer.clone(), buyer_balance + credits);
        Ok(
            Response::new().add_send(seller.clone(), self.denom.clone(), price).add_attr(
                "action",
                "buy_credit",
            ).add_attribute("listing_id", u64_to_decimal(listing_id)).add_attribute(
                "buyer",
                buyer,
            ).add_attribute("seller", seller).add_attribute(
                "credits",
                u128_to_decimal(credits),
            ).add_attribute("price", u128_to_decimal(price)),
        )
    }

    /// The seller withdraws an active listing; its credits return to the seller.
    pub fn cancel_listing(&mut self, ctx: &Context, listing_id: u64) -> (r: Result<
        Response,
        ContractError,
    >)
        requires
            old(self).wf(),
            cancel_listing_spec(old(self)@, *ctx, listing_id) is Ok ==> balance_of(
                old(self)@.balances,
                old(self)@.listings[listing_id].seller,
            ) + old(self)@.listings[listing_id].credits <= u128::MAX,
        ensures
            final(self).wf(),
            follows(r, old(self)@, final(self)@, cancel_listing_spec(old(self)@, *ctx, listing_id)),
    {
        let mut listing = match self.listings.get(listing_id) {
            None => return Err(ContractError::NotFound),
            Some(l) => l.duplicate(),
        };
        if ctx.sender != listing.seller {
            return Err(ContractError::Unauthorized);
        }
        if !listing.active {
            return Err(ContractError::ListingInactive);
        }
        listing.active = false;
        let seller = listing.seller.clone();
        let credits = listing.credits;
        self.listings.insert(listing_id, listing);
        let seller_balance = self.balance(&seller);
        self.balances.insert(seller.clone(), seller_balance + credits);
        Ok(
            Response::new().add_attr("action", "cancel_listing").add_attribute(
                "listing_id",
                u64_to_decimal(listing_id),
            ).add_attribute("seller", seller).add_attribute(
                "credits_returned",
                u128_to_decimal(credits),
            ),
        )
    }

    /// Moves `amount` credits from the sender to `recipient`.
    pub fn transfer_credit(&mut self, ctx: &Context, recipient: String, amount: u128) -> (r: Result<
        Response,
        ContractError,
    >)
        requires
            old(self).wf(),
            amount > 0 && amount <= balance_of(old(self)@.balances, ctx.sender@) ==> balance_of(
                old(self)@.balances.insert(
                    ctx.sender@,
                    (balance_of(old(self)@.balances, ctx.sender@) - amount) as u128,
                ),
                recipient@,
            ) + amount <= u128::MAX,
        ensures
            final(self).wf(),
            follows(
                r,
                old(self)@,
                final(self)@,
                transfer_credit_spec(old(self)@, *ctx, recipient@, amount),
            ),
    {
        if amount == 0 {
            return Err(ContractError::ZeroCredits);
        }
        let sender = ctx.sender.clone();
        let sender_balance = self.balance(&sender);
        if sender_balance < amount {
            return Err(ContractError::InsufficientCredits);
        }
        self.balances.insert(sender.clone(), sender_balance - amount);
        let recipient_balance = self.balance(&recipient);
        self.balances.insert(recipient.clone(), recipient_balance + amount);
        Ok(
            Response::new().add_attr("action", "transfer_credit").add_attribute(
                "from",
                sender,
            ).add_attribute("to", recipient).add_attribute("amount", u128_to_decimal(amount)),
        )
    }

    /// The credit balance of `address`.
    pub fn get_balance(&self, address: &String) -> (r: u128)
        requires
            self.wf(),
        ensures
            r == balance_of(self@.balances, address@),
    {
        self.balance(address)
    }

    /// The stored listing.
    pub fn get_listing(&self, listing_id: u64) -> (r: Result<CreditListing, ContractError>)
        requires
            self.wf(),
        ensures
            match r {
                Ok(l) => self@.listings.contains_key(listing_id) && l@
                    == self@.listings[listing_id],
                Err(e) => !self@.listings.contains_key(listing_id) && e == ContractError::NotFound,
            },
    {
        match self.listings.get(listing_id) {
            Some(l) => Ok(l.duplicate()),
            None => Err(ContractError::NotFound),
        }
    }

    /// Up to `limit` (10 by default, 30 at most) listings after `start_after`,
    /// active ones only if asked, in ascending id order.
    pub fn list_listings(
        &self,
        active_only: Option<bool>,
        limit: Option<u32>,
        start_after: Option<u64>,
    ) -> (r: Vec<CreditListing>)
        requires
            self.wf(),
        ensures
            r@.map_values(|l: CreditListing| l@) == cap(
                selected(
                    self.listing_entries(),
                    start_after,
                    |l: CreditListingView| listing_matches(flag_or_false(active_only), l),
                ),
                page_limit(limit, 10, 30),
            ),
    {
        let pred = |l: &CreditListing| -> (b: bool)
            ensures
                b == listing_matches(flag_or_false(active_only), l@),
            {
                let only = match active_only {
                    Some(b) => b,
                    None => false,
                };
                !only || l.active
            };
        let n = page_size(limit, 10, 30);
        self.listings.select(
            start_after,
            n,
            pred,
            Ghost(|l: CreditListingView| listing_matches(flag_or_false(active_only), l)),
        )
    }

    /// The stored admin, once instantiated.
    pub fn admin(&self) -> (r: Option<String>)
        ensures
            match r {
                Some(a) => self@.config matches Some(c) && a@ == c.admin,
                None => self@.config is None,
            },
    {
        if self.ready {
            Some(self.admin.clone())
        } else {
            None
        }
    }

    /// The next listing id, once instantiated.
    pub fn next_listing_id(&self) -> (r: Option<u64>)
        ensures
            match r {
                Some(n) => self@.config matches Some(c) && n == c.next_listing_id,
                None => self@.config is None,
            },
    {
        if self.ready {
            Some(self.next_listing_id)
        } else {
            None
        }
    }


    /// The denomination of payments, once instantiated.
    pub fn denom(&self) -> (r: Option<String>)
        ensures
            match r {
                Some(d) => self@.config matches Some(c) && d@ == c.denom,
                None => self@.config is None,
            },
    {
        if self.ready {
            Some(self.denom.clone())
        } else {
            None
        }
    }


    /// Whether a purchase meets the balance bound of `buy_credit`.
    pub fn purchase_fits(&self, ctx: &Context, listing_id: u64) -> (r: bool)
        requires
            self.wf(),
        ensures
            r == (buy_credit_spec(self@, *ctx, listing_id) is Ok ==> balance_of(
                self@.balances,
                ctx.sender@,
            ) + self@.listings[listing_id].credits <= u128::MAX),
    {
        let (active, expires_at, price, credits) = match self.listings.get(listing_id) {
            None => return true,
            Some(l) => (l.active, l.expires_at, l.price, l.credits),
        };
        if !active {
            return true;
        }
        if let Some(exp) = expires_at {
            if ctx.block_time > exp {
                return true;
            }
        }
        if !self.ready {
            return true;
        }
        match find_funds(&ctx.funds, &self.denom) {
            Some(paid) => {
                if paid != price {
                    return true;
                }
            },
            None => return true,
        }
        self.balance(&ctx.sender) <= u128::MAX - credits
    }

    /// Whether a cancellation meets the balance bound of `cancel_listing`.
    pub fn cancellation_fits(&self, ctx: &Context, listing_id: u64) -> (r: bool)
        requires
            self.wf(),
        ensures
            r == (cancel_listing_spec(self@, *ctx, listing_id) is Ok ==> balance_of(
                self@.balances,
                self@.listings[listing_id].seller,
            ) + self@.listings[listing_id].credits <= u128::MAX),
    {
        match self.listings.get(listing_id) {
            None => true,
            Some(l) => {
                if ctx.sender != l.seller || !l.active {
                    true
                } else {
                    self.balance(&l.seller) <= u128::MAX - l.credits
                }
            },
        }
    }


    /// Whether minting meets the balance bound of `mint_credits`.
    pub fn mint_fits(&self, ctx: &Context, recipient: &String, amount: u128) -> (r: bool)
        requires
            self.wf(),
        ensures
            r == (admin_error(self@, ctx.sender@) is None && amount > 0 ==> balance_of(
                self@.balances,
                recipient@,
            ) + amount <= u128::MAX),
    {
        if !self.ready || ctx.sender != self.admin || amount == 0 {
            return true;
        }
        self.balance(recipient) <= u128::MAX - amount
    }

    /// Whether a transfer meets the balance bound of `transfer_credit`.
    pub fn transfer_fits(&self, ctx: &Context, recipient: &String, amount: u128) -> (r: bool)
        requires
            self.wf(),
        ensures
            r == (amount > 0 && amount <= balance_of(self@.balances, ctx.sender@) ==> balance_of(
                self@.balances.insert(
                    ctx.sender@,
                    (balance_of(self@.balances, ctx.sender@) - amount) as u128,
                ),
                recipient@,
            ) + amount <= u128::MAX),
    {
        let sender_balance = self.balance(&ctx.sender);
        if amount == 0 || amount > sender_balance {
            return true;
        }
        let recipient_balance = if *recipient == ctx.sender {
            sender_balance - amount
        } else {
            self.balance(recipient)
        };
        recipient_balance <= u128::MAX - amount
    }

}

/// Minting adds `amount` to what the recipient already holds (it does not
/// replace it) and leaves every other balance and every listing as it was.
pub proof fn mint_adds_to_balance(s: MarketView, ctx: Context, recipient: Seq<char>, amount: u128, other: Seq<char>)
    requires
        mint_credits_spec(s, ctx, recipient, amount) is Ok,
        balance_of(s.balances, recipient) + amount <= u128::MAX,
    ensures
        ({
            let (after, rep) = mint_credits_spec(s, ctx, recipient, amount)->Ok_0;
            &&& amount > 0
            &&& balance_of(after.balances, recipient) == balance_of(s.balances, recipient) + amount
            &&& other != recipient ==> balance_of(after.balances, other) == balance_of(s.balances, other)
            &&& after.listings == s.listings
            &&& after.config == s.config
            &&& rep.sends.len() == 0
        }),
{
}

/// A transfer moves `amount` from the sender to the recipient: their
/// combined balance and every other balance stay as they were, and a
/// transfer to oneself changes nothing.
pub proof fn transfer_conserves_credits(
    s: MarketView,
    ctx: Context,
    recipient: Seq<char>,
    amount: u128,
    other: Seq<char>,
)
    requires
        transfer_credit_spec(s, ctx, recipient, amount) is Ok,
        ctx.sender@ != recipient ==> balance_of(s.balances, recipient) + amount <= u128::MAX,
    ensures
        ({
            let after = transfer_credit_spec(s, ctx, recipient, amount)->Ok_0.0.balances;
            let sender = ctx.sender@;
            &&& sender != recipient ==> balance_of(after, sender) == balance_of(s.balances, sender)
                - amount && balance_of(after, recipient) == balance_of(s.balances, recipient)
                + amount
            &&& sender == recipient ==> balance_of(after, sender) == balance_of(s.balances, sender)
            &&& other != sender && other != recipient ==> balance_of(after, other) == balance_of(
                s.balances,
                other,
            )
        }),
{
}

/// Listing credits and then cancelling the listing gives the seller back
/// the balance held before the listing.
pub proof fn cancel_undoes_listing(
    s: MarketView,
    ctx: Context,
    seller_again: Context,
    credits: u128,
    price: u128,
    region: Seq<char>,
    expires_at: Option<u64>,
)
    requires
        list_credit_spec(s, ctx, credits, price, region, expires_at) is Ok,
        seller_again.sender@ == ctx.sender@,
    ensures
        ({
            let listed = list_credit_spec(s, ctx, credits, price, region, expires_at)->Ok_0.0;
            let id = s.config->Some_0.next_listing_id;
            &&& cancel_listing_spec(listed, seller_again, id) is Ok
            &&& balance_of(cancel_listing_spec(listed, seller_again, id)->Ok_0.0.balances, ctx.sender@)
                == balance_of(s.balances, ctx.sender@)
        }),
{
}

/// A listing is sold once: buying it again is refused as inactive.
pub proof fn listing_sold_once(s: MarketView, ctx: Context, again: Context, id: u64)
    requires
        buy_credit_spec(s, ctx, id) is Ok,
    ensures
        buy_credit_spec(buy_credit_spec(s, ctx, id)->Ok_0.0, again, id) == Err::<
            (MarketView, Reply),
            ContractError,
        >(ContractError::ListingInactive),
{
}

/// A purchase conserves credits: the listing's escrowed credits leave the
/// escrow (the listing turns inactive, keeping its amount) and go to the
/// buyer, and every other balance stays as it was.
pub proof fn purchase_moves_escrowed_credits(s: MarketView, ctx: Context, id: u64, other: Seq<char>)
    requires
        buy_credit_spec(s, ctx, id) is Ok,
        balance_of(s.balances, ctx.sender@) + s.listings[id].credits <= u128::MAX,
    ensures
        ({
            let (after, rep) = buy_credit_spec(s, ctx, id)->Ok_0;
            let l = s.listings[id];
            &&& s.listings[id].active
            &&& rep.sends == seq![(l.seller, s.config->Some_0.denom, l.price)]
            &&& !after.listings[id].active
            &&& after.listings[id].credits == l.credits
            &&& balance_of(after.balances, ctx.sender@) == balance_of(s.balances, ctx.sender@)
                + l.credits
            &&& other != ctx.sender@ ==> balance_of(after.balances, other) == balance_of(
                s.balances,
                other,
            )
            &&& forall|k: u64| #[trigger] after.listings.contains_key(k) && k != id ==> after.listings[k]
                == s.listings[k]
        }),
{
}

/// A purchase is refused, in this order: a missing listing; an inactive one;
/// an expired one; no payment in the denomination; a payment other than the
/// price.  A refused purchase meets the balance bound of `buy_credit`, so the
/// handler answers it with that error and unchanged storage.
pub proof fn purchase_refusals(s: MarketView, ctx: Context, id: u64)
    ensures
        ({
            let o = buy_credit_spec(s, ctx, id);
            let l = s.listings[id];
            let live = s.listings.contains_key(id) && l.active && !(l.expires_at is Some
                && ctx.block_time > l.expires_at->Some_0);
            &&& !s.listings.contains_key(id) ==> o == Err::<(MarketView, Reply), ContractError>(
                ContractError::NotFound,
            )
            &&& s.listings.contains_key(id) && !l.active ==> o == Err::<
                (MarketView, Reply),
                ContractError,
            >(ContractError::ListingInactive)
            &&& s.listings.contains_key(id) && l.active && l.expires_at is Some
                && ctx.block_time > l.expires_at->Some_0 ==> o == Err::<(MarketView, Reply), ContractError>(
                ContractError::ListingExpired,
            )
            &&& live && s.config is Some && first_amount(ctx.funds@, s.config->Some_0.denom) is None
                ==> o == Err::<(MarketView, Reply), ContractError>(ContractError::InvalidFunds)
            &&& live && s.config is Some && first_amount(ctx.funds@, s.config->Some_0.denom) is Some
                && first_amount(ctx.funds@, s.config->Some_0.denom)->Some_0 != l.price ==> o == Err::<(MarketView, Reply), ContractError>(
                ContractError::WrongPrice,
            )
        }),
{
}

/// The credits held by `accounts`.
pub open spec fn balances_total(m: Map<Seq<char>, u128>, accounts: Seq<Seq<char>>) -> int
    decreases accounts.len(),
{
    if accounts.len() == 0 {
        0
    } else {
        balances_total(m, accounts.drop_last()) + balance_of(m, accounts.last()) as int
    }
}

/// The credits escrowed in the active listings among `ids`.
pub open spec fn escrowed_total(listings: Map<u64, CreditListingView>, ids: Seq<u64>) -> int
    decreases ids.len(),
{
    if ids.len() == 0 {
        0
    } else {
        escrowed_total(listings, ids.drop_last()) + if listings.contains_key(ids.last())
            && listings[ids.last()].active {
            listings[ids.last()].credits as int
        } else {
            0
        }
    }
}

/// The credits held by `accounts` and escrowed in the listings `ids`.
pub open spec fn credits_total(s: MarketView, accounts: Seq<Seq<char>>, ids: Seq<u64>) -> int {
    balances_total(s.balances, accounts) + escrowed_total(s.listings, ids)
}

proof fn lemma_balances_insert(m: Map<Seq<char>, u128>, k: Seq<char>, v: u128, accounts: Seq<Seq<char>>)
    requires
        accounts.no_duplicates(),
    ensures
        balances_total(m.insert(k, v), accounts) == balances_total(m, accounts) + if accounts.contains(
            k,
        ) {
            v - balance_of(m, k)
        } else {
            0
        },
    decreases accounts.len(),
{
    if accounts.len() > 0 {
        let init = accounts.drop_last();
        assert(init.no_duplicates()) by {
            assert forall|i: int, j: int| 0 <= i < j < init.len() implies init[i] != init[j] by {
                assert(init[i] == accounts[i] && init[j] == accounts[j]);
            }
        }
        lemma_balances_insert(m, k, v, init);
        if accounts.last() == k {
            assert(!init.contains(k)) by {
                if init.contains(k) {
                    let i = choose|i: int| 0 <= i < init.len() && init[i] == k;
                    assert(accounts[i] == accounts[accounts.len() - 1]);
                }
            }
            assert(accounts.contains(k)) by {
                assert(accounts[accounts.len() - 1] == k);
            }
        } else {
            assert(accounts.contains(k) == init.contains(k)) by {
                if accounts.contains(k) {
                    let i = choose|i: int| 0 <= i < accounts.len() && accounts[i] == k;
                    assert(i < accounts.len() - 1);
                    assert(init[i] == k);
                }
                if init.contains(k) {
                    let i = choose|i: int| 0 <= i < init.len() && init[i] == k;
                    assert(accounts[i] == k);
                }
            }
        }
    }
}

proof fn lemma_escrow_insert(
    listings: Map<u64, CreditListingView>,
    k: u64,
    l: CreditListingView,
    ids: Seq<u64>,
)
    requires
        ids.no_duplicates(),
    ensures
        escrowed_total(listings.insert(k, l), ids) == escrowed_total(listings, ids) + if ids.contains(
            k,
        ) {
            (if l.active {
                l.credits as int
            } else {
                0
            }) - (if listings.contains_key(k) && listings[k].active {
                listings[k].credits as int
            } else {
                0
            })
        } else {
            0
        },
    decreases ids.len(),
{
    if ids.len() > 0 {
        let init = ids.drop_last();
        assert(init.no_duplicates()) by {
            assert forall|i: int, j: int| 0 <= i < j < init.len() implies init[i] != init[j] by {
                assert(init[i] == ids[i] && init[j] == ids[j]);
            }
        }
        lemma_escrow_insert(listings, k, l, init);
        if ids.last() == k {
            assert(!init.contains(k)) by {
                if init.contains(k) {
                    let i = choose|i: int| 0 <= i < init.len() && init[i] == k;
                    assert(ids[i] == ids[ids.len() - 1]);
                }
            }
            assert(ids.contains(k)) by {
                assert(ids[ids.len() - 1] == k);
            }
        } else {
            assert(ids.contains(k) == init.contains(k)) by {
                if ids.contains(k) {
                    let i = choose|i: int| 0 <= i < ids.len() && ids[i] == k;
                    assert(i < ids.len() - 1);
                    assert(init[i] == k);
                }
                if init.contains(k) {
                    let i = choose|i: int| 0 <= i < init.len() && init[i] == k;
                    assert(ids[i] == k);
                }
            }
        }
    }
}

/// Only minting creates credits: listing, buying, cancelling and
/// transferring keep the credits held by any accounts and escrowed in any
/// listings, as long as those include the ones the message touches (the
/// sender and recipient, the listing, and for a new listing a fresh id).
pub proof fn credits_are_conserved(
    s: MarketView,
    ctx: Context,
    id: u64,
    recipient: Seq<char>,
    amount: u128,
    credits: u128,
    price: u128,
    region: Seq<char>,
    expires_at: Option<u64>,
    accounts: Seq<Seq<char>>,
    ids: Seq<u64>,
)
    requires
        accounts.no_duplicates(),
        ids.no_duplicates(),
    ensures
        buy_credit_spec(s, ctx, id) is Ok && accounts.contains(ctx.sender@) && ids.contains(id)
            && balance_of(s.balances, ctx.sender@) + s.listings[id].credits <= u128::MAX ==> credits_total(
            buy_credit_spec(s, ctx, id)->Ok_0.0,
            accounts,
            ids,
        ) == credits_total(s, accounts, ids),
        cancel_listing_spec(s, ctx, id) is Ok && accounts.contains(ctx.sender@) && ids.contains(id)
            && balance_of(s.balances, ctx.sender@) + s.listings[id].credits <= u128::MAX ==> credits_total(
            cancel_listing_spec(s, ctx, id)->Ok_0.0,
            accounts,
            ids,
        ) == credits_total(s, accounts, ids),
        list_credit_spec(s, ctx, credits, price, region, expires_at) is Ok && accounts.contains(
            ctx.sender@,
        ) && ids.contains(s.config->Some_0.next_listing_id) && !s.listings.contains_key(
            s.config->Some_0.next_listing_id,
        ) ==> credits_total(
            list_credit_spec(s, ctx, credits, price, region, expires_at)->Ok_0.0,
            accounts,
            ids,
        ) == credits_total(s, accounts, ids),
        transfer_credit_spec(s, ctx, recipient, amount) is Ok && accounts.contains(ctx.sender@)
            && accounts.contains(recipient) && (ctx.sender@ != recipient ==> balance_of(
            s.balances,
            recipient,
        ) + amount <= u128::MAX) ==> credits_total(
            transfer_credit_spec(s, ctx, recipient, amount)->Ok_0.0,
            accounts,
            ids,
        ) == credits_total(s, accounts, ids),
{
    let sender = ctx.sender@;
    if buy_credit_spec(s, ctx, id) is Ok && accounts.contains(sender) && ids.contains(id)
        && balance_of(s.balances, sender) + s.listings[id].credits <= u128::MAX {
        let l = s.listings[id];
        lemma_balances_insert(s.balances, sender, (balance_of(s.balances, sender) + l.credits) as u128, accounts);
        lemma_escrow_insert(s.listings, id, CreditListingView { active: false, ..l }, ids);
    }
    if cancel_listing_spec(s, ctx, id) is Ok && accounts.contains(sender) && ids.contains(id)
        && balance_of(s.balances, sender) + s.listings[id].credits <= u128::MAX {
        let l = s.listings[id];
        lemma_balances_insert(s.balances, l.seller, (balance_of(s.balances, l.seller) + l.credits) as u128, accounts);
        lemma_escrow_insert(s.listings, id, CreditListingView { active: false, ..l }, ids);
    }
    if list_credit_spec(s, ctx, credits, price, region, expires_at) is Ok && accounts.contains(sender)
        && ids.contains(s.config->Some_0.next_listing_id) && !s.listings.contains_key(
        s.config->Some_0.next_listing_id,
    ) {
        let c = s.config->Some_0;
        let listing = CreditListingView {
            id: c.next_listing_id,
            seller: sender,
            credits,
            price,
            region: trim(region),
            expires_at,
            active: true,
            created_at: ctx.block_time,
        };
        lemma_balances_insert(s.balances, sender, (balance_of(s.balances, sender) - credits) as u128, accounts);
        lemma_escrow_insert(s.listings, c.next_listing_id, listing, ids);
    }
    if transfer_credit_spec(s, ctx, recipient, amount) is Ok && accounts.contains(sender)
        && accounts.contains(recipient) && (sender != recipient ==> balance_of(s.balances, recipient)
        + amount <= u128::MAX) {
        let m1 = s.balances.insert(sender, (balance_of(s.balances, sender) - amount) as u128);
        lemma_balances_insert(s.balances, sender, (balance_of(s.balances, sender) - amount) as u128, accounts);
        lemma_balances_insert(m1, recipient, (balance_of(m1, recipient) + amount) as u128, accounts);
    }
}

} // verus!
