//! What a contract receives with a message and what it answers.
use vstd::prelude::*;
use crate::actions::{ExecuteAction, ExecuteActionView};

verus! {

/// An amount of one denomination.
#[derive(Debug, Clone, PartialEq, Eq)]
pub struct Coin {
    pub denom: String,
    pub amount: u128,
}

/// The sender, the attached funds and the block time of a message.
#[derive(Debug, Clone)]
pub struct Context {
    pub sender: String,
    pub funds: Vec<Coin>,
    pub block_time: u64,
}

/// A key-value pair of the response.
#[derive(Debug, Clone, PartialEq, Eq)]
pub struct Attribute {
    pub key: String,
    pub value: String,
}

/// A bank transfer from the contract.
#[derive(Debug, Clone, PartialEq, Eq)]
pub struct BankSend {
    pub to_address: String,
    pub denom: String,
    pub amount: u128,
}

/// The answer to a message: bank transfers to make, messages to execute on
/// other contracts, and attributes to report.
#[derive(Debug, Clone)]
pub struct Response {
    pub messages: Vec<BankSend>,
    pub actions: Vec<ExecuteAction>,
    pub attributes: Vec<Attribute>,
}

/// The first amount attached in `denom`, if any.
pub open spec fn first_amount(funds: Seq<Coin>, denom: Seq<char>) -> Option<u128>
    decreases funds.len(),
{
    if funds.len() == 0 {
        None
    } else if funds[0].denom@ == denom {
        Some(funds[0].amount)
    } else {
        first_amount(funds.drop_first(), denom)
    }
}

/// The amount of the first attached coin of `denom`.
pub fn find_funds(funds: &Vec<Coin>, denom: &String) -> (r: Option<u128>)
    ensures
        r == first_amount(funds@, denom@),
{
    let n = funds.len();
    let mut i: usize = 0;
    assert(funds@.skip(0) =~= funds@);
    while i < n
        invariant
            n == funds@.len(),
            i <= n,
            first_amount(funds@, denom@) == first_amount(funds@.skip(i as int), denom@),
        decreases n - i,
    {
        assert(funds@.skip(i as int)[0] == funds@[i as int]);
        if funds[i].denom == *denom {
            return Some(funds[i].amount);
        }
        assert(funds@.skip(i as int).drop_first() =~= funds@.skip(i + 1));
        i = i + 1;
    }
    None
}

impl Attribute {
    pub open spec fn view(&self) -> (Seq<char>, Seq<char>) {
        (self.key@, self.value@)
    }
}

impl BankSend {
    pub open spec fn view(&self) -> (Seq<char>, Seq<char>, u128) {
        (self.to_address@, self.denom@, self.amount)
    }
}

impl Response {
    /// The attributes as text pairs.
    pub open spec fn attrs(&self) -> Seq<(Seq<char>, Seq<char>)> {
        self.attributes@.map_values(|a: Attribute| a@)
    }

    /// The bank transfers as (recipient, denomination, amount).
    pub open spec fn sends(&self) -> Seq<(Seq<char>, Seq<char>, u128)> {
        self.messages@.map_values(|m: BankSend| m@)
    }

    /// The messages to execute on other contracts.
    pub open spec fn calls(&self) -> Seq<ExecuteActionView> {
        self.actions@.map_values(|a: ExecuteAction| a@)
    }

    pub fn new() -> (r: Self)
        ensures
            r.attrs() == Seq::<(Seq<char>, Seq<char>)>::empty(),
            r.sends() == Seq::<(Seq<char>, Seq<char>, u128)>::empty(),
            r.calls() == Seq::<ExecuteActionView>::empty(),
    {
        let r = Response { messages: Vec::new(), actions: Vec::new(), attributes: Vec::new() };
        assert(r.attrs() =~= Seq::<(Seq<char>, Seq<char>)>::empty());
        assert(r.sends() =~= Seq::<(Seq<char>, Seq<char>, u128)>::empty());
        assert(r.calls() =~= Seq::<ExecuteActionView>::empty());
        r
    }

    /// Appends the attribute `key` = `value`.
    pub fn add_attribute(self, key: &str, value: String) -> (r: Self)
        ensures
            r.attrs() == self.attrs().push((key@, value@)),
            r.sends() == self.sends(),
            r.calls() == self.calls(),
    {
        let mut r = self;
        r.attributes.push(Attribute { key: String::from_str(key), value });
        assert(r.attrs() =~= self.attrs().push((key@, value@)));
        r
    }

    /// Appends a bank transfer of `amount` `denom` to `to_address`.
    pub fn add_send(self, to_address: String, denom: String, amount: u128) -> (r: Self)
        ensures
            r.attrs() == self.attrs(),
            r.sends() == self.sends().push((to_address@, denom@, amount)),
            r.calls() == self.calls(),
    {
        let mut r = self;
        r.messages.push(BankSend { to_address, denom, amount });
        assert(r.sends() =~= self.sends().push((to_address@, denom@, amount)));
        r
    }

    /// Appends a message to execute on another contract.
    pub fn add_action(self, action: ExecuteAction) -> (r: Self)
        ensures
            r.attrs() == self.attrs(),
            r.sends() == self.sends(),
            r.calls() == self.calls().push(action@),
    {
        let mut r = self;
        let ghost a = action@;
        r.actions.push(action);
        assert(r.calls() =~= self.calls().push(a));
        r
    }
}

/// The page size of a listing: the requested limit, or `default` when none
/// was asked, and never more than `max`.
pub open spec fn page_limit(limit: Option<u32>, default: u32, max: u32) -> nat {
    let l = match limit {
        Some(l) => l,
        None => default,
    };
    if l < max {
        l as nat
    } else {
        max as nat
    }
}

/// The page size of a listing.
pub fn page_size(limit: Option<u32>, default: u32, max: u32) -> (r: usize)
    ensures
        r == page_limit(limit, default, max),
{
    let l = match limit {
        Some(l) => l,
        None => default,
    };
    if l < max {
        l as usize
    } else {
        max as usize
    }
}

/// The response a message is owed: its attributes, bank transfers and
/// messages to other contracts.
pub struct Reply {
    pub attrs: Seq<(Seq<char>, Seq<char>)>,
    pub sends: Seq<(Seq<char>, Seq<char>, u128)>,
    pub calls: Seq<ExecuteActionView>,
}

/// A reply with the given attributes and no transfer or message.
pub open spec fn reply(attrs: Seq<(Seq<char>, Seq<char>)>) -> Reply {
    Reply { attrs, sends: Seq::empty(), calls: Seq::empty() }
}

/// Whether a handler's result, and the state it left, are the outcome `o`
/// that its specification gives: on success the new state and the owed
/// response, on failure the error, with the state unchanged.
pub open spec fn follows<S, E>(r: Result<Response, E>, before: S, after: S, o: Result<(S, Reply), E>) -> bool {
    match o {
        Ok((st, rep)) => match r {
            Ok(resp) => after == st && resp.attrs() =~= rep.attrs && resp.sends() =~= rep.sends
                && resp.calls() =~= rep.calls,
            Err(_) => false,
        },
        Err(e) => match r {
            Ok(_) => false,
            Err(e2) => e2 == e && after == before,
        },
    }
}

/// The views of an optional string.
pub open spec fn opt_view(o: Option<String>) -> Option<Seq<char>> {
    match o {
        Some(s) => Some(s@),
        None => None,
    }
}

/// Whether a map of flags holds `true` under `k`.
pub open spec fn flag<K>(m: Map<K, bool>, k: K) -> bool {
    m.contains_key(k) && m[k]
}

impl Response {
    /// Appends the attribute `key` = `value` for a literal value.
    pub fn add_attr(self, key: &str, value: &str) -> (r: Self)
        ensures
            r.attrs() == self.attrs().push((key@, value@)),
            r.sends() == self.sends(),
            r.calls() == self.calls(),
    {
        self.add_attribute(key, String::from_str(value))
    }
}

} // verus!
